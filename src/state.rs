//! What the status reporter shows: the session status, a bounded log of
//! recent messages, and the menu's commands and titles.

use vstd::prelude::*;
use crate::config::Config;
use crate::orchestrator::AppStatus;

verus! {

/// One log line for the UI.
#[derive(Debug, Clone)]
pub struct LogEntry {
    pub timestamp: String,
    pub level: String,
    pub message: String,
}

/// How many log lines are kept.
pub const MAX_LOG_ENTRIES: usize = 100;

/// The last `n` items of `s` (all of them when there are fewer).
pub open spec fn keep_last<T>(s: Seq<T>, n: nat) -> Seq<T> {
    if s.len() > n {
        s.subrange(s.len() - n, s.len() as int)
    } else {
        s
    }
}

/// Relies on chrono's `Local::now` and its `%H:%M:%S` format: the local
/// time of day, each field two zero-padded digits, so eight characters.
#[verifier::external_body]
fn local_time_of_day() -> (r: String)
    ensures
        r@.len() == 8,
{
    chrono::Local::now().format("%H:%M:%S").to_string()
}

/// The state shared with the UI.
pub struct AppState {
    pub config: Config,
    pub running: bool,
    pub logs: Vec<LogEntry>,
    pub status: AppStatus,
}

impl AppState {
    /// Running, idle, with an empty log.
    pub fn new(config: Config) -> (r: AppState)
        ensures
            r.config == config,
            r.running,
            r.logs@.len() == 0,
            r.status == AppStatus::Idle,
    {
        AppState { config, running: true, logs: Vec::new(), status: AppStatus::Idle }
    }

    /// Appends `entry` and drops the oldest lines beyond the limit.
    pub fn push_log(&mut self, entry: LogEntry)
        ensures
            final(self).logs@ == keep_last(old(self).logs@.push(entry), MAX_LOG_ENTRIES as nat),
            final(self).config == old(self).config,
            final(self).running == old(self).running,
            final(self).status == old(self).status,
    {
        let ghost all = self.logs@.push(entry);
        self.logs.push(entry);
        while self.logs.len() > MAX_LOG_ENTRIES
            invariant
                self.config == old(self).config,
                self.running == old(self).running,
                self.status == old(self).status,
                self.logs@.len() >= MAX_LOG_ENTRIES || self.logs@.len() == all.len(),
                self.logs@.len() <= all.len(),
                self.logs@ == all.subrange(all.len() - self.logs@.len(), all.len() as int),
            decreases self.logs@.len(),
        {
            self.logs.remove(0);
            assert(self.logs@ =~= all.subrange(all.len() - self.logs@.len(), all.len() as int));
        }
        assert(self.logs@ =~= keep_last(all, MAX_LOG_ENTRIES as nat));
    }

    /// Logs `message` at `level`, stamped with the local time of day.
    pub fn add_log(&mut self, level: &str, message: &str)
        ensures
            exists|e: LogEntry|
                e.level@ == level@ && e.message@ == message@ && e.timestamp@.len() == 8
                    && final(self).logs@ == #[trigger] keep_last(
                    old(self).logs@.push(e),
                    MAX_LOG_ENTRIES as nat,
                ),
            final(self).config == old(self).config,
            final(self).running == old(self).running,
            final(self).status == old(self).status,
    {
        let entry = LogEntry {
            timestamp: local_time_of_day(),
            level: level.to_owned(),
            message: message.to_owned(),
        };
        let ghost e = entry;
        self.push_log(entry);
        assert(keep_last(old(self).logs@.push(e), MAX_LOG_ENTRIES as nat) == self.logs@);
    }
}

/// A command chosen in the menu.
#[derive(Debug, Clone, Copy, PartialEq, Eq, Structural)]
pub enum MenuCommand {
    SelectDevice(usize),
    Quit,
}

/// The menu-bar title for a status.
pub fn status_title(status: AppStatus) -> (r: &'static str)
    ensures
        r@ == match status {
            AppStatus::Idle => "EZ"@,
            AppStatus::Recording => "R"@,
            AppStatus::Transcribing => "T"@,
        },
{
    match status {
        AppStatus::Idle => "EZ",
        AppStatus::Recording => "R",
        AppStatus::Transcribing => "T",
    }
}

} // verus!
