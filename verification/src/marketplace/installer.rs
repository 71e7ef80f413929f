//! Installation progress: the stages of an installation, its progress
//! percentage, status message and timing.
use vstd::prelude::*;
use crate::diagnostics::format::{secs_since_unix_epoch, system_now};
use crate::text::{push_str, string_of};

verus! {

/// Installation status.
#[derive(Debug, Clone, PartialEq, Eq)]
pub enum InstallStatus {
    /// No installation in progress
    Idle,
    /// Downloading plugin
    Downloading,
    /// Verifying checksum and signature
    Verifying,
    /// Installing to disk
    Installing,
    /// Installation complete
    Complete,
    /// Installation failed
    Failed(String),
}

/// Installation progress.
#[derive(Debug, Clone)]
pub struct InstallProgress {
    /// Name of plugin being installed
    pub plugin_name: String,
    /// Current installation status
    pub status: InstallStatus,
    /// Progress percentage (0-100)
    pub progress: u8,
    /// Detailed status message
    pub message: String,
    /// Installation start time, in seconds since the Unix epoch
    pub start_time: Option<u64>,
    /// Installation end time, in seconds since the Unix epoch
    pub end_time: Option<u64>,
}

/// Seconds since the Unix epoch now.
fn current_timestamp() -> (t: u64) {
    secs_since_unix_epoch(system_now())
}

/// An installation is in progress in the downloading, verifying and
/// installing stages.
pub open spec fn is_active_status(s: InstallStatus) -> bool {
    s is Downloading || s is Verifying || s is Installing
}

/// The elapsed time of an installation at `now`: from its start to its end
/// (or to `now` while unfinished), never negative; zero when never started.
pub open spec fn elapsed_at(start: Option<u64>, end: Option<u64>, now: u64) -> u64 {
    match start {
        Some(s) => {
            let e = match end {
                Some(e) => e,
                None => now,
            };
            if e >= s {
                (e - s) as u64
            } else {
                0
            }
        },
        None => 0,
    }
}

/// Elapsed time stops with the installation: once it has ended, the time
/// no longer depends on the clock; while it runs, it grows with the clock,
/// one for one from the start; never started, it is zero.
pub proof fn lemma_elapsed(s: u64, e: u64, n1: u64, n2: u64)
    ensures
        elapsed_at(Some(s), Some(e), n1) == elapsed_at(Some(s), Some(e), n2),
        s <= e ==> elapsed_at(Some(s), Some(e), n1) == e - s,
        s <= n1 <= n2 ==> elapsed_at(Some(s), None, n1) <= elapsed_at(Some(s), None, n2) && elapsed_at(
            Some(s),
            None,
            n2,
        ) == n2 - s,
        elapsed_at(None, Some(e), n1) == 0 && elapsed_at(None, None, n1) == 0,
{
}

/// The label shown for a status.
pub open spec fn status_label(s: InstallStatus) -> Seq<char> {
    match s {
        InstallStatus::Idle => "Idle"@,
        InstallStatus::Downloading => "Downloading..."@,
        InstallStatus::Verifying => "Verifying..."@,
        InstallStatus::Installing => "Installing..."@,
        InstallStatus::Complete => "Complete"@,
        InstallStatus::Failed(_) => "Failed"@,
    }
}

/// The label shown for a status.
pub fn status_text(status: &InstallStatus) -> (r: &'static str)
    ensures
        r@ == status_label(*status),
{
    match status {
        InstallStatus::Idle => "Idle",
        InstallStatus::Downloading => "Downloading...",
        InstallStatus::Verifying => "Verifying...",
        InstallStatus::Installing => "Installing...",
        InstallStatus::Complete => "Complete",
        InstallStatus::Failed(_) => "Failed",
    }
}

impl InstallProgress {
    /// No installation.
    pub fn default() -> (p: Self)
        ensures
            p.plugin_name@.len() == 0,
            p.status == InstallStatus::Idle,
            p.progress == 0,
            p.message@.len() == 0,
            p.start_time is None,
            p.end_time is None,
    {
        InstallProgress {
            plugin_name: String::new(),
            status: InstallStatus::Idle,
            progress: 0,
            message: String::new(),
            start_time: None,
            end_time: None,
        }
    }

    /// Start installing `plugin_name`, timed from now.
    pub fn start_installation(&mut self, plugin_name: String, _version: Option<String>)
        ensures
            final(self).plugin_name == plugin_name,
            final(self).status == InstallStatus::Downloading,
            final(self).progress == 0,
            final(self).message@ == "Starting download..."@,
            final(self).start_time is Some,
            final(self).end_time is None,
    {
        let now = current_timestamp();
        self.start_installation_at(plugin_name, _version, now);
    }

    /// Start installing `plugin_name` at time `now`.
    pub fn start_installation_at(&mut self, plugin_name: String, _version: Option<String>, now: u64)
        ensures
            final(self).plugin_name == plugin_name,
            final(self).status == InstallStatus::Downloading,
            final(self).progress == 0,
            final(self).message@ == "Starting download..."@,
            final(self).start_time == Some(now),
            final(self).end_time is None,
    {
        self.plugin_name = plugin_name;
        self.status = InstallStatus::Downloading;
        self.progress = 0;
        self.message = string_of("Starting download...");
        self.start_time = Some(now);
        self.end_time = None;
    }

    /// Set the progress percentage, capped at 100.
    pub fn set_progress(&mut self, progress: u8)
        ensures
            final(self).progress == if progress > 100 { 100 } else { progress },
            final(self).status == old(self).status,
            final(self).plugin_name == old(self).plugin_name,
            final(self).message == old(self).message,
            final(self).start_time == old(self).start_time,
            final(self).end_time == old(self).end_time,
    {
        self.progress = if progress > 100 { 100 } else { progress };
    }

    /// Set the status message.
    pub fn set_message(&mut self, message: String)
        ensures
            final(self).message == message,
            final(self).status == old(self).status,
            final(self).plugin_name == old(self).plugin_name,
            final(self).progress == old(self).progress,
            final(self).start_time == old(self).start_time,
            final(self).end_time == old(self).end_time,
    {
        self.message = message;
    }

    /// Mark the installation complete, now.
    pub fn complete(&mut self)
        ensures
            final(self).status == InstallStatus::Complete,
            final(self).progress == 100,
            final(self).message@ == "Successfully installed "@ + old(self).plugin_name@,
            final(self).end_time is Some,
            final(self).plugin_name == old(self).plugin_name,
            final(self).start_time == old(self).start_time,
    {
        let now = current_timestamp();
        self.complete_at(now);
    }

    /// Mark the installation complete at time `now`.
    pub fn complete_at(&mut self, now: u64)
        ensures
            final(self).status == InstallStatus::Complete,
            final(self).progress == 100,
            final(self).message@ == "Successfully installed "@ + old(self).plugin_name@,
            final(self).end_time == Some(now),
            final(self).plugin_name == old(self).plugin_name,
            final(self).start_time == old(self).start_time,
    {
        self.status = InstallStatus::Complete;
        self.progress = 100;
        let mut m = string_of("Successfully installed ");
        push_str(&mut m, self.plugin_name.as_str());
        self.message = m;
        self.end_time = Some(now);
    }

    /// Mark the installation failed with `error`, now.
    pub fn fail(&mut self, error: String)
        ensures
            final(self).status == InstallStatus::Failed(error),
            final(self).message@ == "Installation failed: "@ + error@,
            final(self).end_time is Some,
            final(self).progress == old(self).progress,
            final(self).plugin_name == old(self).plugin_name,
            final(self).start_time == old(self).start_time,
    {
        let now = current_timestamp();
        self.fail_at(error, now);
    }

    /// Mark the installation failed with `error` at time `now`.
    pub fn fail_at(&mut self, error: String, now: u64)
        ensures
            final(self).status == InstallStatus::Failed(error),
            final(self).message@ == "Installation failed: "@ + error@,
            final(self).end_time == Some(now),
            final(self).progress == old(self).progress,
            final(self).plugin_name == old(self).plugin_name,
            final(self).start_time == old(self).start_time,
    {
        let mut m = string_of("Installation failed: ");
        push_str(&mut m, error.as_str());
        self.message = m;
        self.status = InstallStatus::Failed(error);
        self.end_time = Some(now);
    }

    /// Seconds the installation has taken so far.
    pub fn elapsed_seconds(&self) -> (secs: u64)
        ensures
            self.start_time is None ==> secs == 0,
            self.end_time is Some ==> secs == elapsed_at(self.start_time, self.end_time, 0),
    {
        match self.start_time {
            Some(_) => {
                let now = match self.end_time {
                    Some(e) => e,
                    None => current_timestamp(),
                };
                self.elapsed_seconds_at(now)
            },
            None => 0,
        }
    }

    /// Seconds the installation has taken at time `now`.
    pub fn elapsed_seconds_at(&self, now: u64) -> (secs: u64)
        ensures
            secs == elapsed_at(self.start_time, self.end_time, now),
    {
        match self.start_time {
            Some(start) => {
                let end = match self.end_time {
                    Some(e) => e,
                    None => now,
                };
                if end >= start {
                    end - start
                } else {
                    0
                }
            },
            None => 0,
        }
    }

    /// Whether an installation is in progress.
    pub fn is_active(&self) -> (r: bool)
        ensures
            r == is_active_status(self.status),
    {
        match self.status {
            InstallStatus::Downloading | InstallStatus::Verifying | InstallStatus::Installing => true,
            _ => false,
        }
    }

    /// Advance an installation in progress by `delta` percent, at time
    /// `now`: downloading runs up to 30%, verifying up to 60%, installing up
    /// to 100%, each stage passing to the next when it reaches its end.
    pub fn advance(&mut self, delta: u8, now: u64)
        requires
            old(self).progress + delta <= u8::MAX,
        ensures
            match old(self).status {
                InstallStatus::Downloading => {
                    let p = if old(self).progress + delta > 30 { 30 } else { old(self).progress + delta };
                    &&& final(self).progress == p
                    &&& p >= 30 ==> final(self).status == InstallStatus::Verifying
                        && final(self).message@ == "Verifying plugin integrity..."@
                    &&& p < 30 ==> final(self).status == old(self).status && final(self).message == old(self).message
                    &&& final(self).end_time == old(self).end_time
                },
                InstallStatus::Verifying => {
                    let p = if old(self).progress + delta > 60 { 60 } else { old(self).progress + delta };
                    &&& final(self).progress == p
                    &&& p >= 60 ==> final(self).status == InstallStatus::Installing
                        && final(self).message@ == "Installing plugin files..."@
                    &&& p < 60 ==> final(self).status == old(self).status && final(self).message == old(self).message
                    &&& final(self).end_time == old(self).end_time
                },
                InstallStatus::Installing => {
                    let p = if old(self).progress + delta > 100 { 100 } else { old(self).progress + delta };
                    &&& p >= 100 ==> final(self).status == InstallStatus::Complete && final(self).progress == 100
                        && final(self).message@ == "Successfully installed "@ + old(self).plugin_name@
                        && final(self).end_time == Some(now)
                    &&& p < 100 ==> final(self).status == old(self).status && final(self).progress == p
                        && final(self).message == old(self).message && final(self).end_time == old(self).end_time
                },
                _ => *final(self) == *old(self),
            },
            final(self).plugin_name == old(self).plugin_name,
            final(self).start_time == old(self).start_time,
    {
        match self.status {
            InstallStatus::Downloading => {
                let p = self.progress + delta;
                self.progress = if p > 30 { 30 } else { p };
                if self.progress >= 30 {
                    self.status = InstallStatus::Verifying;
                    self.message = string_of("Verifying plugin integrity...");
                }
            },
            InstallStatus::Verifying => {
                let p = self.progress + delta;
                self.progress = if p > 60 { 60 } else { p };
                if self.progress >= 60 {
                    self.status = InstallStatus::Installing;
                    self.message = string_of("Installing plugin files...");
                }
            },
            InstallStatus::Installing => {
                let p = self.progress + delta;
                self.progress = if p > 100 { 100 } else { p };
                if self.progress >= 100 {
                    self.complete_at(now);
                }
            },
            _ => {},
        }
    }
}

} // verus!
