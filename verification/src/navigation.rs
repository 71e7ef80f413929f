//! Navigation state: modes, focus history and hint filtering, kept per pane.
//!
//! Entities are identified by their 64-bit entity bits.
use std::collections::HashMap;
use std::time::Instant;
use vstd::prelude::*;
use crate::rate_limiter::now_instant;

verus! {

broadcast use vstd::std_specs::hash::group_hash_axioms;

/// Current navigation mode.
#[derive(Debug, Clone, Copy, PartialEq, Eq, Hash, Structural)]
pub enum NavMode {
    /// Normal terminal mode - standard input handling
    Normal,
    /// Hint mode - display hint labels for quick navigation
    Hints,
    /// Insert mode - text input is passed to terminal
    Insert,
    /// Command palette mode - fuzzy search commands
    CommandPalette,
}

impl NavMode {
    /// The default mode, `Normal`.
    pub fn default() -> (m: Self)
        ensures
            m == NavMode::Normal,
    {
        NavMode::Normal
    }
}

/// Actions that can be triggered by navigation.
#[derive(Debug, Clone, PartialEq)]
pub enum NavAction {
    /// Open a URL or file path
    Open(String),
    /// Click at a specific grid position (col, row)
    Click(u16, u16),
    /// Jump to a specific prompt marker by line number
    JumpPrompt(u32),
    /// Navigate to the next pane in the current tab
    NextPane,
    /// Navigate to the previous pane in the current tab
    PrevPane,
    /// Navigate to the next tab in the current window
    NextTab,
    /// Navigate to the previous tab in the current window
    PrevTab,
    /// Cancel the current navigation operation
    Cancel,
}

/// A message for the daemon that a navigation action calls for.
#[derive(Debug, Clone, Copy, PartialEq, Eq, Structural)]
pub enum NavControl {
    /// A mouse click at a grid cell
    MouseClick { col: u16, row: u16, button: u8 },
    /// Focus the next pane
    PaneFocusNext,
    /// Focus the previous pane
    PaneFocusPrev,
    /// Switch to the next tab
    TabNext,
    /// Switch to the previous tab
    TabPrev,
}

/// What handling a navigation action does.
#[derive(Debug, Clone, PartialEq)]
pub enum NavEffect {
    /// Open a URL or file with the system's default handler
    OpenTarget(String),
    /// Send a control message to the daemon (when connected)
    Send(NavControl),
    /// Nothing to do here (prompt jumps are not implemented; cancel is
    /// handled by mode-switching systems)
    Nothing,
}

/// What handling `action` does.
pub open spec fn spec_nav_effect(action: NavAction) -> NavEffect {
    match action {
        NavAction::Open(url) => NavEffect::OpenTarget(url),
        NavAction::Click(col, row) => NavEffect::Send(NavControl::MouseClick { col, row, button: 0 }),
        NavAction::JumpPrompt(_) => NavEffect::Nothing,
        NavAction::NextPane => NavEffect::Send(NavControl::PaneFocusNext),
        NavAction::PrevPane => NavEffect::Send(NavControl::PaneFocusPrev),
        NavAction::NextTab => NavEffect::Send(NavControl::TabNext),
        NavAction::PrevTab => NavEffect::Send(NavControl::TabPrev),
        NavAction::Cancel => NavEffect::Nothing,
    }
}

/// Decides what a navigation action does: opening a target, a control
/// message for the daemon, or nothing.
pub fn nav_action_effect(action: NavAction) -> (e: NavEffect)
    ensures
        e == spec_nav_effect(action),
{
    match action {
        NavAction::Open(url) => NavEffect::OpenTarget(url),
        NavAction::Click(col, row) => NavEffect::Send(NavControl::MouseClick { col, row, button: 0 }),
        NavAction::JumpPrompt(_) => NavEffect::Nothing,
        NavAction::NextPane => NavEffect::Send(NavControl::PaneFocusNext),
        NavAction::PrevPane => NavEffect::Send(NavControl::PaneFocusPrev),
        NavAction::NextTab => NavEffect::Send(NavControl::TabNext),
        NavAction::PrevTab => NavEffect::Send(NavControl::TabPrev),
        NavAction::Cancel => NavEffect::Nothing,
    }
}

/// Event fired when a navigation action is triggered.
#[derive(Debug, Clone)]
pub struct NavActionEvent {
    /// The navigation action to perform
    pub action: NavAction,
    /// Optional entity that triggered the action
    pub source: Option<u64>,
    /// Timestamp of the action for debugging/analytics
    pub timestamp: Instant,
}

impl NavActionEvent {
    /// Create a new navigation action event, stamped now.
    pub fn new(action: NavAction) -> (e: Self)
        ensures
            e.action == action,
            e.source is None,
    {
        NavActionEvent { action, source: None, timestamp: now_instant() }
    }

    /// Create a navigation action event with a source entity, stamped now.
    pub fn with_source(action: NavAction, source: u64) -> (e: Self)
        ensures
            e.action == action,
            e.source == Some(source),
    {
        NavActionEvent { action, source: Some(source), timestamp: now_instant() }
    }
}

// ==================== Per-pane navigation state ====================

/// Per-pane navigation state.
#[derive(Debug, Clone)]
pub struct NavState {
    /// Current active navigation mode
    pub current_mode: NavMode,
    /// Stack of previous modes (for push/pop navigation)
    pub mode_stack: Vec<NavMode>,
    /// History of previously focused entities
    pub focus_history: Vec<u64>,
    /// Current hint filter input
    pub hint_filter: String,
    /// Maximum focus history size
    pub max_history_size: usize,
}

/// The focus history after recording `e`: `e` is appended and, when the
/// history then exceeds `max`, its oldest entry is dropped.
pub open spec fn history_after(h: Seq<u64>, e: u64, max: usize) -> Seq<u64> {
    if h.push(e).len() > max {
        h.push(e).drop_first()
    } else {
        h.push(e)
    }
}

impl NavState {
    /// Normal mode, empty stack and history, empty filter, history limit 50.
    pub fn default() -> (s: Self)
        ensures
            s.current_mode == NavMode::Normal,
            s.mode_stack@ == Seq::<NavMode>::empty(),
            s.focus_history@ == Seq::<u64>::empty(),
            s.hint_filter@ == Seq::<char>::empty(),
            s.max_history_size == 50,
    {
        NavState {
            current_mode: NavMode::Normal,
            mode_stack: Vec::new(),
            focus_history: Vec::new(),
            hint_filter: String::new(),
            max_history_size: 50,
        }
    }

    /// Push the current mode onto the stack and enter `new_mode`.
    pub fn push_mode(&mut self, new_mode: NavMode)
        ensures
            final(self).current_mode == new_mode,
            final(self).mode_stack@ == old(self).mode_stack@.push(old(self).current_mode),
            final(self).focus_history@ == old(self).focus_history@,
            final(self).hint_filter@ == old(self).hint_filter@,
            final(self).max_history_size == old(self).max_history_size,
    {
        self.mode_stack.push(self.current_mode);
        self.current_mode = new_mode;
    }

    /// Pop the previous mode from the stack; `false` when the stack was empty.
    pub fn pop_mode(&mut self) -> (r: bool)
        ensures
            r == (old(self).mode_stack@.len() > 0),
            r ==> final(self).current_mode == old(self).mode_stack@.last(),
            r ==> final(self).mode_stack@ == old(self).mode_stack@.drop_last(),
            !r ==> final(self).current_mode == old(self).current_mode,
            !r ==> final(self).mode_stack@ == old(self).mode_stack@,
            final(self).focus_history@ == old(self).focus_history@,
            final(self).hint_filter@ == old(self).hint_filter@,
            final(self).max_history_size == old(self).max_history_size,
    {
        match self.mode_stack.pop() {
            Some(previous_mode) => {
                self.current_mode = previous_mode;
                true
            },
            None => false,
        }
    }

    /// Record a focus change in history, dropping the oldest entry when the
    /// history grows past its maximum size.
    pub fn record_focus(&mut self, entity: u64)
        ensures
            final(self).focus_history@ == history_after(
                old(self).focus_history@,
                entity,
                old(self).max_history_size,
            ),
            final(self).current_mode == old(self).current_mode,
            final(self).mode_stack@ == old(self).mode_stack@,
            final(self).hint_filter@ == old(self).hint_filter@,
            final(self).max_history_size == old(self).max_history_size,
    {
        self.focus_history.push(entity);
        if self.focus_history.len() > self.max_history_size {
            self.focus_history.remove(0);
            proof {
                assert(self.focus_history@ =~= old(self).focus_history@.push(entity).drop_first());
            }
        }
    }

    /// The focus before the current one (the second most recent entry).
    pub fn previous_focus(&self) -> (r: Option<u64>)
        ensures
            r == (if self.focus_history@.len() >= 2 {
                Some(self.focus_history@[self.focus_history@.len() - 2])
            } else {
                None::<u64>
            }),
    {
        if self.focus_history.len() >= 2 {
            Some(self.focus_history[self.focus_history.len() - 2])
        } else {
            None
        }
    }

    /// Clear the hint filter input.
    pub fn clear_hint_filter(&mut self)
        ensures
            final(self).hint_filter@ == Seq::<char>::empty(),
            final(self).current_mode == old(self).current_mode,
            final(self).mode_stack@ == old(self).mode_stack@,
            final(self).focus_history@ == old(self).focus_history@,
            final(self).max_history_size == old(self).max_history_size,
    {
        self.hint_filter = String::new();
    }

    /// Whether the mode is `Hints`.
    pub fn is_hint_mode(&self) -> (r: bool)
        ensures
            r == (self.current_mode == NavMode::Hints),
    {
        self.current_mode == NavMode::Hints
    }

    /// Whether the mode is `Insert`.
    pub fn is_insert_mode(&self) -> (r: bool)
        ensures
            r == (self.current_mode == NavMode::Insert),
    {
        self.current_mode == NavMode::Insert
    }

    /// Whether the mode is `Normal`.
    pub fn is_normal_mode(&self) -> (r: bool)
        ensures
            r == (self.current_mode == NavMode::Normal),
    {
        self.current_mode == NavMode::Normal
    }

    /// Whether the mode is `CommandPalette`.
    pub fn is_command_palette_mode(&self) -> (r: bool)
        ensures
            r == (self.current_mode == NavMode::CommandPalette),
    {
        self.current_mode == NavMode::CommandPalette
    }
}

/// Pushing a mode and popping it again restores the mode and the stack.
pub proof fn lemma_push_pop_restores(s: Seq<NavMode>, cur: NavMode, m: NavMode)
    ensures
        s.push(cur).len() > 0,
        s.push(cur).last() == cur,
        s.push(cur).drop_last() == s,
{
    assert(s.push(cur).drop_last() =~= s);
}

/// Recording focus never lets the history grow past its maximum size once
/// it is within it, and always keeps the new entry as the most recent one.
pub proof fn lemma_history_bounded(h: Seq<u64>, e: u64, max: usize)
    requires
        h.len() <= max,
        max > 0,
    ensures
        history_after(h, e, max).len() <= max,
        history_after(h, e, max).last() == e,
{
}

/// After a focus is recorded, the previous focus is the one that was most
/// recent before; the history keeps the newest entries, in order.
pub proof fn lemma_previous_focus(h: Seq<u64>, e: u64, max: usize)
    requires
        1 <= h.len() <= max,
        max >= 2,
    ensures
        ({
            let n = history_after(h, e, max);
            &&& n.len() >= 2
            &&& n[n.len() - 2] == h.last()
            &&& n.is_suffix_of(h.push(e))
        }),
{
    let n = history_after(h, e, max);
    let full = h.push(e);
    if full.len() > max {
        assert(n =~= full.subrange(1, full.len() as int));
        assert(full.subrange(full.len() - n.len(), full.len() as int) =~= n);
    } else {
        assert(full.subrange(0, full.len() as int) =~= full);
    }
}

// ==================== Registry of per-pane states ====================

/// Registry of navigation states, one per pane, with the active pane.
#[derive(Debug, Clone)]
pub struct NavStateRegistry {
    /// Navigation states by pane ID
    states: HashMap<u64, NavState>,
    /// Currently active pane (focus target)
    active_pane: Option<u64>,
}

impl NavStateRegistry {
    /// The states, by pane ID.
    pub closed spec fn spec_states(&self) -> Map<u64, NavState> {
        self.states@
    }

    /// The active pane.
    pub closed spec fn spec_active(&self) -> Option<u64> {
        self.active_pane
    }

    /// Create a new empty registry.
    pub fn new() -> (r: Self)
        ensures
            r.spec_states() == Map::<u64, NavState>::empty(),
            r.spec_active() is None,
    {
        NavStateRegistry { states: HashMap::new(), active_pane: None }
    }

    /// Set the active pane, creating a default state for it if it has none.
    pub fn set_active_pane(&mut self, pane_id: u64)
        ensures
            final(self).spec_states().dom().finite(),
            final(self).spec_states().len() == old(self).spec_states().len() + (if old(
                self,
            ).spec_states().contains_key(pane_id) {
                0int
            } else {
                1int
            }),
            final(self).spec_active() == Some(pane_id),
            final(self).spec_states().dom() == old(self).spec_states().dom().insert(pane_id),
            forall|p: u64| #[trigger]
                old(self).spec_states().contains_key(p) ==> final(self).spec_states()[p]
                    == old(self).spec_states()[p],
            !old(self).spec_states().contains_key(pane_id) ==> is_default_state(
                final(self).spec_states()[pane_id],
            ),
    {
        self.active_pane = Some(pane_id);
        if !self.states.contains_key(&pane_id) {
            let st = NavState::default();
            self.states.insert(pane_id, st);
        }
    }

    /// The active pane.
    pub fn active_pane(&self) -> (r: Option<u64>)
        ensures
            r == self.spec_active(),
    {
        self.active_pane
    }

    /// The active pane's state.
    pub fn get_active(&self) -> (r: Option<&NavState>)
        ensures
            r == (match self.spec_active() {
                Some(p) => if self.spec_states().contains_key(p) {
                    Some(&self.spec_states()[p])
                } else {
                    None
                },
                None => None,
            }),
    {
        match self.active_pane {
            Some(id) => self.states.get(&id),
            None => None,
        }
    }

    /// A pane's state.
    pub fn get(&self, pane_id: u64) -> (r: Option<&NavState>)
        ensures
            r == (if self.spec_states().contains_key(pane_id) {
                Some(&self.spec_states()[pane_id])
            } else {
                None
            }),
    {
        self.states.get(&pane_id)
    }

    /// Stores `state` as a pane's state (the way to change a pane's state).
    pub fn set_state(&mut self, pane_id: u64, state: NavState)
        ensures
            final(self).spec_states().dom().finite(),
            final(self).spec_states().len() == old(self).spec_states().len() + (if old(
                self,
            ).spec_states().contains_key(pane_id) {
                0int
            } else {
                1int
            }),
            final(self).spec_states() == old(self).spec_states().insert(pane_id, state),
            final(self).spec_active() == old(self).spec_active(),
    {
        self.states.insert(pane_id, state);
    }

    /// Create (or reset to) a default state for a pane.
    pub fn create_for_pane(&mut self, pane_id: u64)
        ensures
            final(self).spec_states().dom().finite(),
            final(self).spec_states().len() == old(self).spec_states().len() + (if old(
                self,
            ).spec_states().contains_key(pane_id) {
                0int
            } else {
                1int
            }),
            final(self).spec_states().dom() == old(self).spec_states().dom().insert(pane_id),
            is_default_state(final(self).spec_states()[pane_id]),
            forall|p: u64| #[trigger]
                old(self).spec_states().contains_key(p) && p != pane_id ==> final(self).spec_states()[p]
                    == old(self).spec_states()[p],
            final(self).spec_active() == old(self).spec_active(),
    {
        let st = NavState::default();
        self.states.insert(pane_id, st);
    }

    /// A registry tracks finitely many panes.
    pub proof fn lemma_panes_finite(&self)
        ensures
            self.spec_states().dom().finite(),
    {
        assert(self.states@.dom().finite());
    }

    /// Remove a pane's state; the active pane is cleared if it was this one.
    pub fn remove_pane(&mut self, pane_id: u64)
        ensures
            final(self).spec_states() == old(self).spec_states().remove(pane_id),
            final(self).spec_states().dom().finite(),
            final(self).spec_states().len() == old(self).spec_states().len() - (if old(
                self,
            ).spec_states().contains_key(pane_id) {
                1int
            } else {
                0int
            }),
            final(self).spec_active() == (if old(self).spec_active() == Some(pane_id) {
                None
            } else {
                old(self).spec_active()
            }),
    {
        self.states.remove(&pane_id);
        if self.active_pane == Some(pane_id) {
            self.active_pane = None;
        }
    }

    /// Whether a pane has a state.
    pub fn has_pane(&self, pane_id: u64) -> (r: bool)
        ensures
            r == self.spec_states().contains_key(pane_id),
    {
        self.states.contains_key(&pane_id)
    }

    /// The number of tracked panes.
    pub fn pane_count(&self) -> (n: usize)
        ensures
            n == self.spec_states().len(),
            self.spec_states().dom().finite(),
    {
        self.states.len()
    }

    /// Clear all pane states and the active pane.
    pub fn clear_all(&mut self)
        ensures
            final(self).spec_states() == Map::<u64, NavState>::empty(),
            final(self).spec_active() is None,
    {
        self.states.clear();
        self.active_pane = None;
    }
}

/// A state as `NavState::default` makes it.
pub open spec fn is_default_state(s: NavState) -> bool {
    &&& s.current_mode == NavMode::Normal
    &&& s.mode_stack@ == Seq::<NavMode>::empty()
    &&& s.focus_history@ == Seq::<u64>::empty()
    &&& s.hint_filter@ == Seq::<char>::empty()
    &&& s.max_history_size == 50
}

// ==================== Pane lifecycle ====================

/// The kind of object an event refers to.
#[derive(Debug, Clone, Copy, PartialEq, Eq, Structural)]
pub enum ObjectKind {
    Window,
    Tab,
    Pane,
    Other,
}

/// A pane was created: a pane gets a fresh default state; other objects are
/// ignored.
pub fn on_pane_created(registry: &mut NavStateRegistry, kind: ObjectKind, pane_id: u64)
    ensures
        kind != ObjectKind::Pane ==> *final(registry) == *old(registry),
        kind == ObjectKind::Pane ==> {
            &&& final(registry).spec_states().dom() == old(registry).spec_states().dom().insert(pane_id)
            &&& is_default_state(final(registry).spec_states()[pane_id])
            &&& final(registry).spec_active() == old(registry).spec_active()
            &&& forall|p: u64| #[trigger]
                old(registry).spec_states().contains_key(p) && p != pane_id ==> final(registry).spec_states()[p]
                    == old(registry).spec_states()[p]
        },
{
    if kind != ObjectKind::Pane {
        return;
    }
    registry.create_for_pane(pane_id);
}

/// A pane was focused: it becomes the active pane (with a state created if it
/// has none). Returns whether hint mode must be exited, which is when the
/// previously active pane was in hint mode.
pub fn on_pane_focused(registry: &mut NavStateRegistry, kind: ObjectKind, pane_id: u64) -> (exit_hints:
    bool)
    ensures
        kind != ObjectKind::Pane ==> *final(registry) == *old(registry) && !exit_hints,
        kind == ObjectKind::Pane ==> {
            &&& final(registry).spec_active() == Some(pane_id)
            &&& final(registry).spec_states().dom() == old(registry).spec_states().dom().insert(pane_id)
            &&& forall|p: u64| #[trigger]
                old(registry).spec_states().contains_key(p) ==> final(registry).spec_states()[p]
                    == old(registry).spec_states()[p]
            &&& !old(registry).spec_states().contains_key(pane_id) ==> is_default_state(
                final(registry).spec_states()[pane_id],
            )
            &&& exit_hints == (match old(registry).spec_active() {
                Some(p) => old(registry).spec_states().contains_key(p)
                    && old(registry).spec_states()[p].current_mode == NavMode::Hints,
                None => false,
            })
        },
{
    if kind != ObjectKind::Pane {
        return false;
    }
    let exit = match registry.get_active() {
        Some(old_state) => old_state.is_hint_mode(),
        None => false,
    };
    registry.set_active_pane(pane_id);
    exit
}

/// A pane was closed: its state is removed (and the active pane cleared if it
/// was this one). Returns the positions, in `focusable_panes`, of the
/// focusables that belong to the closed pane and must be despawned.
pub fn on_pane_closed(registry: &mut NavStateRegistry, kind: ObjectKind, pane_id: u64, focusable_panes: &Vec<
    Option<u64>,
>) -> (despawn: Vec<usize>)
    ensures
        kind != ObjectKind::Pane ==> *final(registry) == *old(registry) && despawn@.len() == 0,
        kind == ObjectKind::Pane ==> final(registry).spec_states() == old(registry).spec_states().remove(
            pane_id,
        ),
        kind == ObjectKind::Pane ==> final(registry).spec_active() == (if old(registry).spec_active()
            == Some(pane_id) {
            None
        } else {
            old(registry).spec_active()
        }),
        kind == ObjectKind::Pane ==> despawn@ == indices_where(focusable_panes@, Some(pane_id)),
{
    if kind != ObjectKind::Pane {
        return Vec::new();
    }
    registry.remove_pane(pane_id);
    let mut out: Vec<usize> = Vec::new();
    let mut i: usize = 0;
    while i < focusable_panes.len()
        invariant
            i <= focusable_panes@.len(),
            out@ == indices_where(focusable_panes@.take(i as int), Some(pane_id)),
        decreases focusable_panes.len() - i,
    {
        proof {
            assert(focusable_panes@.take(i + 1).drop_last() =~= focusable_panes@.take(i as int));
        }
        if focusable_panes[i] == Some(pane_id) {
            out.push(i);
        }
        i = i + 1;
    }
    proof {
        assert(focusable_panes@.take(focusable_panes@.len() as int) =~= focusable_panes@);
    }
    out
}

/// The positions in `s` holding `v`, in increasing order.
pub open spec fn indices_where(s: Seq<Option<u64>>, v: Option<u64>) -> Seq<usize>
    decreases s.len(),
{
    if s.len() == 0 {
        seq![]
    } else {
        let rest = indices_where(s.drop_last(), v);
        if s.last() == v {
            rest.push((s.len() - 1) as usize)
        } else {
            rest
        }
    }
}

} // verus!
