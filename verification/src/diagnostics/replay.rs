//! Replay of recorded sessions as a state machine over playback time.
//!
//! Playback time is measured in milliseconds of recording time. The replay
//! keeps the playback time accumulated before the current run of the clock;
//! the caller measures how much playback time has passed since the clock was
//! last (re)started — real time scaled by the playback speed — and passes it
//! in. Operations that restart the clock say so in their result.
use vstd::prelude::*;
use crate::diagnostics::format::{events_duration, RecordedEvent, Recording, RecordingMetadata};

verus! {

/// Playback state.
#[derive(Debug, Clone, Copy, PartialEq, Eq, Structural)]
pub enum PlaybackState {
    /// Not loaded or stopped
    Stopped,
    /// Currently playing
    Playing,
    /// Paused
    Paused,
    /// Finished playing
    Finished,
}

/// Replay of one loaded recording.
pub struct DiagnosticsReplay {
    /// Loaded recording
    recording: Option<Recording>,
    /// Current playback position (event index)
    position: usize,
    /// Playback state
    state: PlaybackState,
    /// Playback time accumulated before the clock last started, in ms
    accumulated_time_ms: u64,
    /// Whether to loop playback
    loop_playback: bool,
}

/// Timestamps of a list of events.
pub open spec fn stamps(events: Seq<RecordedEvent>) -> Seq<u64> {
    events.map_values(|e: RecordedEvent| e.timestamp_ms)
}

/// Number of leading events stamped no later than `t`.
pub open spec fn leading_at_or_before(ts: Seq<u64>, t: u64) -> nat
    decreases ts.len(),
{
    if ts.len() == 0 {
        0
    } else if ts[0] > t {
        0
    } else {
        1 + leading_at_or_before(ts.drop_first(), t)
    }
}

/// Position a seek to `t` moves to: the last of the leading events stamped
/// no later than `t`, or the first event when there is none.
pub open spec fn seek_position(ts: Seq<u64>, t: u64) -> nat {
    let k = leading_at_or_before(ts, t);
    if k == 0 {
        0
    } else {
        (k - 1) as nat
    }
}

/// Where a poll at playback time `now` starting from `from` stops: the first
/// index at or after `from` whose event is stamped later than `now`, or the
/// end.
pub open spec fn poll_end(ts: Seq<u64>, from: int, now: u64, end: int) -> bool {
    &&& from <= end <= ts.len()
    &&& forall|j: int| from <= j < end ==> ts[j] <= now
    &&& end == ts.len() || ts[end] > now
}

proof fn lemma_leading_bound(ts: Seq<u64>, t: u64)
    ensures
        leading_at_or_before(ts, t) <= ts.len(),
        forall|j: int| 0 <= j < leading_at_or_before(ts, t) ==> ts[j] <= t,
        leading_at_or_before(ts, t) < ts.len() ==> ts[leading_at_or_before(ts, t) as int] > t,
    decreases ts.len(),
{
    if ts.len() > 0 && ts[0] <= t {
        lemma_leading_bound(ts.drop_first(), t);
        assert forall|j: int| 0 <= j < leading_at_or_before(ts, t) implies ts[j] <= t by {
            if j > 0 {
                assert(ts[j] == ts.drop_first()[j - 1]);
            }
        }
    }
}

/// Seeking to `t` lands on the last of the leading events stamped no later
/// than `t`: that event is stamped at or before `t`, and the next one (if
/// any) after it; when the first event is already later, on the first.
pub proof fn lemma_seek_lands(ts: Seq<u64>, t: u64)
    ensures
        ts.len() > 0 && ts[0] <= t ==> ({
            let p = seek_position(ts, t) as int;
            &&& p < ts.len()
            &&& ts[p] <= t
            &&& p + 1 == ts.len() || ts[p + 1] > t
            &&& forall|j: int| 0 <= j <= p ==> ts[j] <= t
        }),
        ts.len() == 0 || ts[0] > t ==> seek_position(ts, t) == 0,
{
    lemma_leading_bound(ts, t);
}

proof fn lemma_leading_unique(ts: Seq<u64>, t: u64, k: int)
    requires
        0 <= k <= ts.len(),
        forall|j: int| 0 <= j < k ==> ts[j] <= t,
        k == ts.len() || ts[k] > t,
    ensures
        leading_at_or_before(ts, t) == k,
    decreases ts.len(),
{
    if ts.len() > 0 && k > 0 {
        assert forall|j: int| 0 <= j < k - 1 implies ts.drop_first()[j] <= t by {
            assert(ts.drop_first()[j] == ts[j + 1]);
        }
        lemma_leading_unique(ts.drop_first(), t, k - 1);
    }
}

impl DiagnosticsReplay {
    pub closed spec fn spec_recording(&self) -> Option<Recording> {
        self.recording
    }

    pub closed spec fn spec_position(&self) -> nat {
        self.position as nat
    }

    pub closed spec fn spec_state(&self) -> PlaybackState {
        self.state
    }

    /// Playback time accumulated before the clock last started.
    pub closed spec fn spec_accumulated(&self) -> u64 {
        self.accumulated_time_ms
    }

    pub closed spec fn spec_loop(&self) -> bool {
        self.loop_playback
    }

    /// The position never passes the end of the loaded recording.
    pub open spec fn wf(&self) -> bool {
        match self.spec_recording() {
            Some(r) => self.spec_position() <= r.events@.len(),
            None => self.spec_position() == 0,
        }
    }

    /// Playback time now, given the playback time elapsed since the clock
    /// last started: the clock runs only while playing.
    pub open spec fn playback_time(&self, elapsed: u64) -> int {
        if self.spec_state() == PlaybackState::Playing {
            self.spec_accumulated() + elapsed
        } else {
            self.spec_accumulated() as int
        }
    }

    /// The state with position, time, state and loop flag replaced.
    pub open spec fn moved(
        &self,
        other: &Self,
        position: nat,
        state: PlaybackState,
        accumulated: u64,
    ) -> bool {
        &&& other.spec_recording() == self.spec_recording()
        &&& other.spec_loop() == self.spec_loop()
        &&& other.spec_position() == position
        &&& other.spec_state() == state
        &&& other.spec_accumulated() == accumulated
    }

    /// Create a replay with nothing loaded.
    pub fn new() -> (r: Self)
        ensures
            r.wf(),
            r.spec_recording() is None,
            r.spec_position() == 0,
            r.spec_state() == PlaybackState::Stopped,
            r.spec_accumulated() == 0,
            !r.spec_loop(),
    {
        DiagnosticsReplay {
            recording: None,
            position: 0,
            state: PlaybackState::Stopped,
            accumulated_time_ms: 0,
            loop_playback: false,
        }
    }

    /// Load a recording, stopped at its beginning.
    pub fn load_recording(&mut self, recording: Recording)
        ensures
            final(self).wf(),
            final(self).spec_recording() == Some(recording),
            final(self).spec_position() == 0,
            final(self).spec_state() == PlaybackState::Stopped,
            final(self).spec_accumulated() == 0,
            final(self).spec_loop() == old(self).spec_loop(),
    {
        self.recording = Some(recording);
        self.position = 0;
        self.state = PlaybackState::Stopped;
        self.accumulated_time_ms = 0;
    }

    /// Start or resume playback. Returns whether the clock (re)starts: from
    /// the beginning when stopped, or finished and looping; where it was when
    /// paused. Nothing happens without a recording or while playing.
    pub fn play(&mut self) -> (restarted: bool)
        requires
            old(self).wf(),
        ensures
            final(self).wf(),
            old(self).spec_recording() is None ==> *final(self) == *old(self) && !restarted,
            old(self).spec_recording() is Some ==> match old(self).spec_state() {
                PlaybackState::Stopped => restarted && old(self).moved(
                    &*final(self),
                    0,
                    PlaybackState::Playing,
                    0,
                ),
                PlaybackState::Paused => restarted && old(self).moved(
                    &*final(self),
                    old(self).spec_position(),
                    PlaybackState::Playing,
                    old(self).spec_accumulated(),
                ),
                PlaybackState::Finished => if old(self).spec_loop() {
                    restarted && old(self).moved(&*final(self), 0, PlaybackState::Playing, 0)
                } else {
                    !restarted && *final(self) == *old(self)
                },
                PlaybackState::Playing => !restarted && *final(self) == *old(self),
            },
    {
        if self.recording.is_none() {
            return false;
        }
        match self.state {
            PlaybackState::Stopped => {
                self.position = 0;
                self.accumulated_time_ms = 0;
                self.state = PlaybackState::Playing;
                true
            },
            PlaybackState::Paused => {
                self.state = PlaybackState::Playing;
                true
            },
            PlaybackState::Finished => {
                if self.loop_playback {
                    self.position = 0;
                    self.accumulated_time_ms = 0;
                    self.state = PlaybackState::Playing;
                    true
                } else {
                    false
                }
            },
            PlaybackState::Playing => false,
        }
    }

    /// Pause playback, keeping the playback time reached after `elapsed` ms
    /// of playback time since the clock started. Nothing happens unless
    /// playing.
    pub fn pause(&mut self, elapsed: u64)
        requires
            old(self).wf(),
            old(self).spec_state() == PlaybackState::Playing ==> old(self).spec_accumulated()
                + elapsed <= u64::MAX,
        ensures
            final(self).wf(),
            old(self).spec_state() != PlaybackState::Playing ==> *final(self) == *old(self),
            old(self).spec_state() == PlaybackState::Playing ==> old(self).moved(
                &*final(self),
                old(self).spec_position(),
                PlaybackState::Paused,
                (old(self).spec_accumulated() + elapsed) as u64,
            ),
    {
        if self.state != PlaybackState::Playing {
            return;
        }
        self.accumulated_time_ms = self.accumulated_time_ms + elapsed;
        self.state = PlaybackState::Paused;
    }

    /// Stop playback and reset to the beginning.
    pub fn stop(&mut self)
        requires
            old(self).wf(),
        ensures
            final(self).wf(),
            old(self).moved(&*final(self), 0, PlaybackState::Stopped, 0),
    {
        self.position = 0;
        self.accumulated_time_ms = 0;
        self.state = PlaybackState::Stopped;
    }

    /// Keeps the playback time reached so far before the rate of the clock
    /// changes; returns whether the clock must restart (only while playing).
    pub fn rebase(&mut self, elapsed: u64) -> (restarted: bool)
        requires
            old(self).wf(),
            old(self).spec_state() == PlaybackState::Playing ==> old(self).spec_accumulated()
                + elapsed <= u64::MAX,
        ensures
            final(self).wf(),
            restarted == (old(self).spec_state() == PlaybackState::Playing),
            !restarted ==> *final(self) == *old(self),
            restarted ==> old(self).moved(
                &*final(self),
                old(self).spec_position(),
                PlaybackState::Playing,
                (old(self).spec_accumulated() + elapsed) as u64,
            ),
    {
        if self.state == PlaybackState::Playing {
            self.accumulated_time_ms = self.accumulated_time_ms + elapsed;
            true
        } else {
            false
        }
    }

    /// Enable or disable loop playback.
    pub fn set_loop(&mut self, enabled: bool)
        ensures
            final(self).spec_loop() == enabled,
            final(self).spec_recording() == old(self).spec_recording(),
            final(self).spec_position() == old(self).spec_position(),
            final(self).spec_state() == old(self).spec_state(),
            final(self).spec_accumulated() == old(self).spec_accumulated(),
            old(self).wf() ==> final(self).wf(),
    {
        self.loop_playback = enabled;
    }

    /// Seek to playback time `timestamp_ms`: the position moves to the last
    /// of the leading events stamped no later than it. Returns whether the
    /// clock restarts (while playing). Nothing happens without a recording.
    pub fn seek(&mut self, timestamp_ms: u64) -> (restarted: bool)
        requires
            old(self).wf(),
        ensures
            final(self).wf(),
            old(self).spec_recording() is None ==> *final(self) == *old(self) && !restarted,
            old(self).spec_recording() matches Some(r) ==> restarted == (old(self).spec_state()
                == PlaybackState::Playing) && old(self).moved(
                &*final(self),
                seek_position(stamps(r.events@), timestamp_ms),
                old(self).spec_state(),
                timestamp_ms,
            ),
    {
        let ghost old_self = *self;
        let recording = match &self.recording {
            Some(r) => r,
            None => return false,
        };
        let ghost ts = stamps(recording.events@);
        let mut new_position: usize = 0;
        let mut i: usize = 0;
        while i < recording.events.len()
            invariant
                ts == stamps(recording.events@),
                i <= recording.events@.len(),
                forall|j: int| 0 <= j < i ==> ts[j] <= timestamp_ms,
                new_position == (if i == 0 { 0 } else { i - 1 }),
            ensures
                i == ts.len() || ts[i as int] > timestamp_ms,
            decreases recording.events.len() - i,
        {
            if recording.events[i].timestamp_ms > timestamp_ms {
                break;
            }
            new_position = i;
            i = i + 1;
        }
        proof {
            assert(i == ts.len() || ts[i as int] > timestamp_ms);
            lemma_leading_unique(ts, timestamp_ms, i as int);
        }
        self.position = new_position;
        self.accumulated_time_ms = timestamp_ms;
        self.state == PlaybackState::Playing
    }

    /// The events due by the playback time reached after `elapsed` ms of
    /// playback time since the clock started, in order; the position moves
    /// past them. At the end of the recording, playback loops back to the
    /// beginning (and the clock restarts, which the flag reports) or
    /// finishes. Nothing happens unless playing.
    pub fn poll_events(&mut self, elapsed: u64) -> (r: (Vec<RecordedEvent>, bool))
        requires
            old(self).wf(),
            old(self).spec_state() == PlaybackState::Playing ==> old(self).spec_accumulated()
                + elapsed <= u64::MAX,
        ensures
            final(self).wf(),
            (old(self).spec_recording() is None || old(self).spec_state()
                != PlaybackState::Playing) ==> *final(self) == *old(self) && r.0@.len() == 0
                && !r.1,
            old(self).spec_state() == PlaybackState::Playing ==> (old(self).spec_recording()
                matches Some(rec) ==> exists|end: int|
                #![trigger poll_end(stamps(rec.events@), old(self).spec_position() as int, (old(self).spec_accumulated() + elapsed) as u64, end)]
                poll_end(
                    stamps(rec.events@),
                    old(self).spec_position() as int,
                    (old(self).spec_accumulated() + elapsed) as u64,
                    end,
                ) && r.0@ == rec.events@.subrange(old(self).spec_position() as int, end) && if end
                < rec.events@.len() {
                    !r.1 && old(self).moved(
                        &*final(self),
                        end as nat,
                        PlaybackState::Playing,
                        old(self).spec_accumulated(),
                    )
                } else if old(self).spec_loop() {
                    r.1 && old(self).moved(&*final(self), 0, PlaybackState::Playing, 0)
                } else {
                    !r.1 && old(self).moved(
                        &*final(self),
                        end as nat,
                        PlaybackState::Finished,
                        old(self).spec_accumulated(),
                    )
                }),
    {
        let mut events: Vec<RecordedEvent> = Vec::new();
        if self.state != PlaybackState::Playing {
            return (events, false);
        }
        let recording = match &self.recording {
            Some(r) => r,
            None => return (events, false),
        };
        let ghost ts = stamps(recording.events@);
        let ghost start = self.position as int;
        let now = self.accumulated_time_ms + elapsed;
        let mut pos = self.position;
        while pos < recording.events.len()
            invariant
                ts == stamps(recording.events@),
                0 <= start <= pos <= recording.events@.len(),
                forall|j: int| start <= j < pos ==> ts[j] <= now,
                events@ == recording.events@.subrange(start, pos as int),
            ensures
                pos == recording.events@.len() || ts[pos as int] > now,
            decreases recording.events.len() - pos,
        {
            let event = &recording.events[pos];
            if event.timestamp_ms > now {
                break;
            }
            events.push(event.clone());
            proof {
                assert(events@ =~= recording.events@.subrange(start, pos + 1));
            }
            pos = pos + 1;
        }
        let len = recording.events.len();
        proof {
            assert(poll_end(ts, start, now, pos as int));
        }
        self.position = pos;
        if pos >= len {
            if self.loop_playback {
                self.position = 0;
                self.accumulated_time_ms = 0;
                (events, true)
            } else {
                self.state = PlaybackState::Finished;
                (events, false)
            }
        } else {
            (events, false)
        }
    }

    /// Playback time now, given the playback time elapsed since the clock
    /// last started.
    pub fn current_playback_time_ms(&self, elapsed: u64) -> (t: u64)
        requires
            self.spec_state() == PlaybackState::Playing ==> self.spec_accumulated() + elapsed
                <= u64::MAX,
        ensures
            t == self.playback_time(elapsed),
    {
        if self.state == PlaybackState::Playing {
            self.accumulated_time_ms + elapsed
        } else {
            self.accumulated_time_ms
        }
    }

    /// Current playback state.
    pub fn state(&self) -> (s: PlaybackState)
        ensures
            s == self.spec_state(),
    {
        self.state
    }

    /// Current playback position (event index).
    pub fn position(&self) -> (p: usize)
        ensures
            p == self.spec_position(),
    {
        self.position
    }

    /// Playback time accumulated before the clock last started.
    pub fn accumulated_time_ms(&self) -> (t: u64)
        ensures
            t == self.spec_accumulated(),
    {
        self.accumulated_time_ms
    }

    /// Whether playback loops.
    pub fn is_looping(&self) -> (b: bool)
        ensures
            b == self.spec_loop(),
    {
        self.loop_playback
    }

    /// Metadata of the loaded recording.
    pub fn metadata(&self) -> (m: Option<&RecordingMetadata>)
        ensures
            match self.spec_recording() {
                Some(r) => m == Some(&r.metadata),
                None => m is None,
            },
    {
        match &self.recording {
            Some(r) => Some(&r.metadata),
            None => None,
        }
    }

    /// Duration of the loaded recording in milliseconds.
    pub fn duration_ms(&self) -> (d: Option<u64>)
        ensures
            match self.spec_recording() {
                Some(r) => d == Some(events_duration(r.events@)),
                None => d is None,
            },
    {
        match &self.recording {
            Some(r) => Some(r.duration_ms()),
            None => None,
        }
    }

    /// The loaded recording's event count.
    pub fn event_count(&self) -> (n: Option<usize>)
        ensures
            match self.spec_recording() {
                Some(r) => n == Some(r.events@.len() as usize),
                None => n is None,
            },
    {
        match &self.recording {
            Some(r) => Some(r.event_count()),
            None => None,
        }
    }

    /// Whether a recording is loaded.
    pub fn is_loaded(&self) -> (b: bool)
        ensures
            b == self.spec_recording() is Some,
    {
        self.recording.is_some()
    }
}

/// Pausing and then resuming keeps the position and the playback time
/// reached: playback continues where it was paused.
pub proof fn lemma_pause_resume(
    playing: DiagnosticsReplay,
    paused: DiagnosticsReplay,
    resumed: DiagnosticsReplay,
    elapsed: u64,
)
    requires
        playing.spec_recording() is Some,
        playing.spec_state() == PlaybackState::Playing,
        playing.spec_accumulated() + elapsed <= u64::MAX,
        playing.moved(
            &paused,
            playing.spec_position(),
            PlaybackState::Paused,
            (playing.spec_accumulated() + elapsed) as u64,
        ),
        paused.moved(&resumed, paused.spec_position(), PlaybackState::Playing, paused.spec_accumulated()),
    ensures
        resumed.spec_position() == playing.spec_position(),
        resumed.spec_state() == PlaybackState::Playing,
        resumed.playback_time(0) == playing.playback_time(elapsed),
{
}

} // verus!
