//! The log: how a message is written, and when it goes to the file.
use crate::clock::{on_calendar, read_utc, stamp_pattern, utc_reading, utc_text, utc_written};
use crate::config::{log_file_path, log_path};
use crate::deployment::{LogEntry, LogMessage};
use vstd::prelude::*;

verus! {

/// How many lines are kept before they are written.
pub const BUFFERED_LINES: usize = 10;

/// A date and time, given in seconds since 1970, as people read it.
pub open spec fn stamp(seconds: int) -> Seq<char> {
    utc_written(seconds, stamp_pattern())
}

/// The line that a message makes in the log, given the date and time as they are written.
pub open spec fn stamped_line(message: LogEntry, stamp: Seq<char>) -> Seq<char> {
    match message {
        LogEntry::Info(text) => "["@ + stamp + "] "@ + text,
        LogEntry::Success(text) => "["@ + stamp + "] SUCCESS: "@ + text,
        LogEntry::Error(text) => "["@ + stamp + "] ERROR: "@ + text,
        LogEntry::Shutdown => ""@,
    }
}

/// The line that a message of that moment makes in the log.
pub open spec fn log_line(message: LogEntry, seconds: int) -> Seq<char> {
    stamped_line(message, stamp(seconds))
}

/// The line that a message makes in the log. `stamp` is the date and time as they are written.
pub fn stamped_line_text(message: &LogMessage, stamp: &str) -> (r: String)
    ensures
        r@ == stamped_line(message.deep_view(), stamp@),
{
    match message {
        LogMessage::Info(text) => "[".to_string().concat(stamp).concat("] ").concat(text.as_str()),
        LogMessage::Success(text) => "[".to_string().concat(stamp).concat("] SUCCESS: ").concat(
            text.as_str(),
        ),
        LogMessage::Error(text) => "[".to_string().concat(stamp).concat("] ERROR: ").concat(
            text.as_str(),
        ),
        LogMessage::Shutdown => "".to_string(),
    }
}

/// A date and time as people read it.
pub fn stamp_text(seconds: i64) -> (r: String)
    requires
        on_calendar(seconds as int),
    ensures
        r@ == stamp(seconds as int),
{
    utc_text(seconds, "%Y-%m-%d %H:%M:%S UTC")
}

/// The line that a message makes in the log now.
pub fn format_log_message(message: &LogMessage) -> (r: String)
    ensures
        exists|seconds: i64| #[trigger]
            utc_reading(seconds) && on_calendar(seconds as int) && r@ == log_line(
                message.deep_view(),
                seconds as int,
            ),
{
    let seconds: i64 = read_utc();
    format_log_message_at(message, seconds)
}

/// The line that a message makes in the log at a moment.
pub fn format_log_message_at(message: &LogMessage, seconds: i64) -> (r: String)
    requires
        on_calendar(seconds as int),
    ensures
        r@ == log_line(message.deep_view(), seconds as int),
{
    stamped_line_text(message, stamp_text(seconds).as_str())
}

/// What goes to which file when lines are written; nothing goes anywhere if the log has no file.
pub open spec fn flushed(lines: Seq<Seq<char>>, variable: Option<Seq<char>>) -> Option<
    (Seq<char>, Seq<Seq<char>>),
> {
    if lines.len() > 0 && log_path(variable).len() > 0 {
        Some((log_path(variable), lines))
    } else {
        None
    }
}

/// Empties the buffer: gives the file and the lines to add to it, if there are any and the log
/// has a file. `variable` is what the environment says of the file.
pub fn flush_log_buffer(buffer: &mut Vec<String>, variable: Option<String>) -> (r: Option<
    (String, Vec<String>),
>)
    ensures
        final(buffer).deep_view() == Seq::<Seq<char>>::empty(),
        r.deep_view() == flushed(old(buffer).deep_view(), variable.deep_view()),
{
    let mut lines: Vec<String> = Vec::new();
    let ghost before = buffer.deep_view();
    lines.append(buffer);
    assert(buffer.deep_view() =~= Seq::empty());
    assert(lines.deep_view() =~= before);
    let path: String = log_file_path(variable);
    if lines.len() > 0 && path.as_str().unicode_len() > 0 {
        Some((path, lines))
    } else {
        None
    }
}

/// The lines that are waiting to be written.
#[derive(Debug)]
pub struct Logger {
    enable_console: bool,
    buffer: Vec<String>,
}

/// What is to be done about a message.
#[derive(Debug)]
pub struct LoggerStep {
    /// What to print.
    pub print: Option<String>,
    /// What to add to which file.
    pub write: Option<(String, Vec<String>)>,
    /// Whether the log ends here.
    pub stop: bool,
}

pub struct LoggerView {
    pub enable_console: bool,
    pub buffer: Seq<Seq<char>>,
}

pub struct LoggerStepView {
    pub print: Option<Seq<char>>,
    pub write: Option<(Seq<char>, Seq<Seq<char>>)>,
    pub stop: bool,
}

impl DeepView for Logger {
    type V = LoggerView;

    closed spec fn deep_view(&self) -> LoggerView {
        LoggerView { enable_console: self.enable_console, buffer: self.buffer.deep_view() }
    }
}

impl DeepView for LoggerStep {
    type V = LoggerStepView;

    open spec fn deep_view(&self) -> LoggerStepView {
        LoggerStepView {
            print: self.print.deep_view(),
            write: self.write.deep_view(),
            stop: self.stop,
        }
    }
}

impl LoggerView {
    /// The buffer with the line of a message.
    pub open spec fn with_line(self, message: LogEntry, seconds: int) -> Seq<Seq<char>> {
        if message is Shutdown {
            self.buffer
        } else {
            self.buffer.push(log_line(message, seconds))
        }
    }

    /// Whether a message makes the buffer be written: an error does, and the end, and a message
    /// that fills it.
    pub open spec fn flushes(self, message: LogEntry) -> bool {
        message is Shutdown || message is Error || self.buffer.len() + 1 >= BUFFERED_LINES
    }

    /// The lines that are written on a message.
    pub open spec fn written(self, message: LogEntry, seconds: int) -> Seq<Seq<char>> {
        if self.flushes(message) {
            self.with_line(message, seconds)
        } else {
            Seq::empty()
        }
    }

    /// After a message.
    pub open spec fn after(self, message: LogEntry, seconds: int) -> LoggerView {
        if self.flushes(message) {
            LoggerView { buffer: Seq::empty(), ..self }
        } else {
            LoggerView { buffer: self.with_line(message, seconds), ..self }
        }
    }

    /// What is to be done about a message.
    pub open spec fn step(
        self,
        message: LogEntry,
        seconds: int,
        variable: Option<Seq<char>>,
    ) -> LoggerStepView {
        LoggerStepView {
            print: if self.enable_console && !(message is Shutdown) {
                Some(log_line(message, seconds))
            } else {
                None
            },
            write: flushed(self.written(message, seconds), variable),
            stop: message is Shutdown,
        }
    }
}

impl Logger {
    /// A log that has just been opened.
    pub fn new(enable_console: bool) -> (r: Self)
        ensures
            r.deep_view() == (LoggerView { enable_console, buffer: Seq::empty() }),
    {
        let r: Logger = Logger { enable_console, buffer: Vec::new() };
        assert(r.buffer.deep_view() =~= Seq::empty());
        r
    }

    /// Takes a message of a moment. `variable` is what the environment says of the file.
    pub fn accept(&mut self, message: &LogMessage, seconds: i64, variable: Option<String>) -> (r:
        LoggerStep)
        requires
            on_calendar(seconds as int),
        ensures
            final(self).deep_view() == old(self).deep_view().after(
                message.deep_view(),
                seconds as int,
            ),
            r.deep_view() == old(self).deep_view().step(
                message.deep_view(),
                seconds as int,
                variable.deep_view(),
            ),
    {
        let ghost before = self.deep_view();
        if let LogMessage::Shutdown = message {
            let write: Option<(String, Vec<String>)> = flush_log_buffer(
                &mut self.buffer,
                variable,
            );
            return LoggerStep { print: None, write, stop: true };
        }
        let line: String = format_log_message_at(message, seconds);
        let print: Option<String> = if self.enable_console {
            Some(line.clone())
        } else {
            None
        };
        self.buffer.push(line);
        assert(self.buffer.deep_view() =~= before.with_line(message.deep_view(), seconds as int));
        let urgent: bool = match message {
            LogMessage::Error(_) => true,
            _ => false,
        };
        let write: Option<(String, Vec<String>)> = if self.buffer.len() >= BUFFERED_LINES
            || urgent {
            flush_log_buffer(&mut self.buffer, variable)
        } else {
            None
        };
        LoggerStep { print, write, stop: false }
    }
}

/// The lines of a list of messages, each with its moment.
pub open spec fn lines_of(messages: Seq<(LogEntry, int)>) -> Seq<Seq<char>>
    decreases messages.len(),
{
    if messages.len() == 0 {
        Seq::empty()
    } else if messages.last().0 is Shutdown {
        lines_of(messages.drop_last())
    } else {
        lines_of(messages.drop_last()).push(log_line(messages.last().0, messages.last().1))
    }
}

impl LoggerView {
    /// After a list of messages.
    pub open spec fn after_all(self, messages: Seq<(LogEntry, int)>) -> LoggerView
        decreases messages.len(),
    {
        if messages.len() == 0 {
            self
        } else {
            self.after_all(messages.drop_last()).after(messages.last().0, messages.last().1)
        }
    }

    /// The lines that are written on a list of messages.
    pub open spec fn written_on(self, messages: Seq<(LogEntry, int)>) -> Seq<Seq<char>>
        decreases messages.len(),
    {
        if messages.len() == 0 {
            Seq::empty()
        } else {
            self.written_on(messages.drop_last()) + self.after_all(messages.drop_last()).written(
                messages.last().0,
                messages.last().1,
            )
        }
    }
}

/// No line is lost, doubled or moved: those that have been written and those that wait are the
/// lines of all messages, in their order.
pub proof fn law_no_line_is_lost(log: LoggerView, messages: Seq<(LogEntry, int)>)
    ensures
        log.written_on(messages) + log.after_all(messages).buffer == log.buffer + lines_of(
            messages,
        ),
    decreases messages.len(),
{
    if messages.len() > 0 {
        let front = messages.drop_last();
        let (message, seconds) = messages.last();
        law_no_line_is_lost(log, front);
        let before = log.after_all(front);
        let sent = log.written_on(front);
        let x = before.written(message, seconds);
        let y = before.after(message, seconds).buffer;
        assert(x + y =~= before.with_line(message, seconds));
        assert((sent + x) + y =~= sent + (x + y));
        if !(message is Shutdown) {
            let line = log_line(message, seconds);
            assert(sent + before.buffer.push(line) =~= (sent + before.buffer).push(line));
            assert(log.buffer + lines_of(front).push(line) =~= (log.buffer + lines_of(front)).push(
                line,
            ));
        }
    } else {
        assert(log.written_on(messages) + log.buffer =~= log.buffer + lines_of(messages));
    }
}

/// Few lines wait, and none does after an error or the end.
pub proof fn law_few_lines_wait(log: LoggerView, message: LogEntry, seconds: int)
    ensures
        log.buffer.len() < BUFFERED_LINES ==> log.after(message, seconds).buffer.len()
            < BUFFERED_LINES,
        message is Error || message is Shutdown ==> log.after(message, seconds).buffer.len() == 0,
{
}

/// With a file for the log, every line that is due is added to it.
pub proof fn law_lines_reach_the_file(
    log: LoggerView,
    message: LogEntry,
    seconds: int,
    variable: Option<Seq<char>>,
)
    requires
        log_path(variable).len() > 0,
    ensures
        match log.step(message, seconds, variable).write {
            Some((path, lines)) => path == log_path(variable) && lines == log.written(
                message,
                seconds,
            ),
            None => log.written(message, seconds).len() == 0,
        },
{
}

} // verus!
