//! The events that background tasks hand to the editor thread, in order.
use vstd::prelude::*;

verus! {

/// Severity of a log message shown in the editor.
#[derive(Debug, Clone, Copy, PartialEq, Eq)]
pub enum LogLevel {
    Info,
    Warn,
    Error,
}

/// An event for the editor thread.
#[derive(Debug)]
pub enum ServerEvent {
    ClientConnected,
    ClientDisconnected,
    SendInitialState,
    LogMessage(String, LogLevel),
}

/// FIFO of work waiting for the editor's main thread: background tasks
/// enqueue, the main loop's wakeup callback drains and runs in order.
#[derive(Debug)]
pub struct MainThreadQueue<T> {
    pub items: Vec<T>,
}

impl<T> MainThreadQueue<T> {
    /// An empty queue.
    pub fn new() -> (r: MainThreadQueue<T>)
        ensures
            r.items@.len() == 0,
    {
        MainThreadQueue { items: Vec::new() }
    }

    /// Enqueues `work` behind what is already waiting.
    pub fn schedule_on_main_thread(&mut self, work: T)
        ensures
            final(self).items@ == old(self).items@.push(work),
    {
        self.items.push(work);
    }

    /// Takes everything waiting, oldest first, leaving the queue empty.
    pub fn drain(&mut self) -> (r: Vec<T>)
        ensures
            r@ == old(self).items@,
            final(self).items@.len() == 0,
    {
        let mut out: Vec<T> = Vec::new();
        std::mem::swap(&mut out, &mut self.items);
        out
    }
}

/// Whether the editor may be called yet.
#[derive(Debug, Clone, Copy, PartialEq, Eq)]
pub struct EditorReadiness {
    pub ready: bool,
}

impl EditorReadiness {
    /// Not ready until marked.
    pub fn new() -> (r: EditorReadiness)
        ensures
            !r.ready,
    {
        EditorReadiness { ready: false }
    }

    /// Marks the editor ready for API calls; marking twice is harmless.
    pub fn mark_nvim_ready(&mut self)
        ensures
            final(self).ready,
    {
        self.ready = true;
    }

    /// Whether the editor is ready.
    pub fn nvim_available(&self) -> (r: bool)
        ensures
            r == self.ready,
    {
        self.ready
    }
}

/// `ClientDisconnected` fires only when the last client left.
pub fn disconnect_fires(remaining_clients: usize) -> (r: bool)
    ensures
        r == (remaining_clients == 0),
{
    remaining_clients == 0
}

/// `User` autocommand pattern fired when a client connects.
pub const CLIENT_CONNECTED_PATTERN: &'static str = "AmpClientConnected";

/// `User` autocommand pattern fired when the last client leaves.
pub const CLIENT_DISCONNECTED_PATTERN: &'static str = "AmpClientDisconnected";

/// `User` autocommand pattern fired when the server starts.
pub const SERVER_STARTED_PATTERN: &'static str = "AmpServerStarted";

/// `User` autocommand pattern fired when the server stops.
pub const SERVER_STOPPED_PATTERN: &'static str = "AmpServerStopped";

/// The prefix of a log line of each level.
pub open spec fn log_prefix(level: LogLevel) -> Seq<char> {
    match level {
        LogLevel::Info => "Amp Info:"@,
        LogLevel::Warn => "Amp Warn:"@,
        LogLevel::Error => "Amp Error:"@,
    }
}

/// The line shown for a log message: its level's prefix, a space, the text.
pub fn log_line(text: &str, level: LogLevel) -> (r: String)
    ensures
        r@ == log_prefix(level) + " "@ + text@,
{
    let prefix = match level {
        LogLevel::Info => "Amp Info:",
        LogLevel::Warn => "Amp Warn:",
        LogLevel::Error => "Amp Error:",
    };
    crate::text::concat3(prefix, " ", text)
}

/// The decimal text of an exit code.
pub open spec fn code_text(code: i32) -> Seq<char> {
    if code < 0 {
        "-"@ + crate::text::decimal((-(code as int)) as nat)
    } else {
        crate::text::decimal(code as nat)
    }
}

/// The closing log line of an update run, and its level: success, or the
/// exit code (`None` when the process was killed by a signal).
pub open spec fn update_outcome_spec(success: bool, code: Option<i32>) -> (Seq<char>, LogLevel) {
    if success {
        ("Amp CLI updated successfully"@, LogLevel::Info)
    } else {
        (
            "Amp CLI update failed with exit code: "@ + match code {
                Some(c) => "Some("@ + code_text(c) + ")"@,
                None => "None"@,
            },
            LogLevel::Error,
        )
    }
}

/// Words the end of an update run.
pub fn update_outcome(success: bool, code: Option<i32>) -> (r: (String, LogLevel))
    ensures
        (r.0@, r.1) == update_outcome_spec(success, code),
{
    if success {
        return ("Amp CLI updated successfully".to_owned(), LogLevel::Info);
    }
    let detail = match code {
        Some(c) => {
            let digits = if c < 0 {
                let wide: i64 = c as i64;
                let magnitude: u64 = (0i64 - wide) as u64;
                assert(magnitude as int == -(c as int));
                crate::text::concat("-", crate::text::decimal_string(magnitude).as_str())
            } else {
                crate::text::decimal_string(c as u64)
            };
            assert(digits@ == code_text(c));
            crate::text::concat3("Some(", digits.as_str(), ")")
        },
        None => "None".to_owned(),
    };
    (crate::text::concat("Amp CLI update failed with exit code: ", detail.as_str()), LogLevel::Error)
}

} // verus!
