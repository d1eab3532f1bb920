//! What holds of the log.
use crate::clock::utc_written;
use crate::deployment::LogEntry;
use crate::logging::{flushed, log_line, stamped_line, LoggerStep, LoggerView};
use vstd::prelude::*;

verus! {

/// Every message but the end makes a line: the date and time in brackets, what kind of message
/// it is unless it is a plain one, and its text, whole.
pub proof fn law_line_tells_the_message(text: Seq<char>, seconds: int)
    ensures
        log_line(LogEntry::Info(text), seconds) == "["@ + utc_written(
            seconds,
            "%Y-%m-%d %H:%M:%S UTC"@,
        ) + "] "@ + text,
        log_line(LogEntry::Success(text), seconds) == "["@ + utc_written(
            seconds,
            "%Y-%m-%d %H:%M:%S UTC"@,
        ) + "] SUCCESS: "@ + text,
        log_line(LogEntry::Error(text), seconds) == "["@ + utc_written(
            seconds,
            "%Y-%m-%d %H:%M:%S UTC"@,
        ) + "] ERROR: "@ + text,
{
}

/// However the date and time are written, they stand in the line as they are given; the end of
/// the log has an empty line.
pub proof fn law_line_takes_the_stamp_as_given(text: Seq<char>, time: Seq<char>)
    ensures
        stamped_line(LogEntry::Info(text), time) == "["@ + time + "] "@ + text,
        stamped_line(LogEntry::Success(text), time) == "["@ + time + "] SUCCESS: "@ + text,
        stamped_line(LogEntry::Error(text), time) == "["@ + time + "] ERROR: "@ + text,
        stamped_line(LogEntry::Shutdown, time).len() == 0,
{
    reveal_strlit("");
}

/// With the console enabled every message but the end is printed, be it a plain one, a success
/// or an error, and what is printed is the very line that joins those on their way to the file.
/// With the console disabled nothing is printed.
pub proof fn law_console_shows_the_line(
    logger: LoggerView,
    message: LogEntry,
    seconds: int,
    variable: Option<Seq<char>>,
)
    ensures
        ({
            let print = logger.step(message, seconds, variable).print;
            let lines = logger.written(message, seconds) + logger.after(message, seconds).buffer;
            &&& (print is Some <==> logger.enable_console && !(message is Shutdown))
            &&& (print is Some ==> lines == logger.buffer.push(print->0))
        }),
{
    let lines = logger.written(message, seconds) + logger.after(message, seconds).buffer;
    if !(message is Shutdown) {
        assert(lines =~= logger.buffer.push(log_line(message, seconds)));
    }
}

/// What is printed tells the message: its text stands at the end, behind the date and time and
/// what kind of message it is.
pub proof fn law_console_tells_the_message(
    logger: LoggerView,
    text: Seq<char>,
    seconds: int,
    variable: Option<Seq<char>>,
)
    requires
        logger.enable_console,
    ensures
        ({
            let time = "["@ + utc_written(seconds, "%Y-%m-%d %H:%M:%S UTC"@);
            &&& logger.step(LogEntry::Info(text), seconds, variable).print == Some(
                time + "] "@ + text,
            )
            &&& logger.step(LogEntry::Success(text), seconds, variable).print == Some(
                time + "] SUCCESS: "@ + text,
            )
            &&& logger.step(LogEntry::Error(text), seconds, variable).print == Some(
                time + "] ERROR: "@ + text,
            )
        }),
{
}

/// The console decides nothing but what is printed: what is kept, what is written and when the
/// log ends are the same with it and without it.
pub proof fn law_console_changes_no_file(
    buffer: Seq<Seq<char>>,
    message: LogEntry,
    seconds: int,
    variable: Option<Seq<char>>,
)
    ensures
        ({
            let with = LoggerView { enable_console: true, buffer };
            let without = LoggerView { enable_console: false, buffer };
            &&& with.step(message, seconds, variable).write == without.step(
                message,
                seconds,
                variable,
            ).write
            &&& with.step(message, seconds, variable).stop == without.step(
                message,
                seconds,
                variable,
            ).stop
            &&& with.after(message, seconds).buffer == without.after(message, seconds).buffer
        }),
{
}

/// An error is written at once, with all the lines that waited before it; so is what waits when
/// the log ends, and so are ten lines. Anything else waits.
pub proof fn law_when_lines_are_written(
    logger: LoggerView,
    message: LogEntry,
    seconds: int,
    path: Seq<char>,
)
    requires
        path.len() > 0,
    ensures
        ({
            let step = logger.step(message, seconds, Some(path));
            let after = logger.after(message, seconds);
            let line = log_line(message, seconds);
            &&& after.enable_console == logger.enable_console
            &&& (step.stop <==> message is Shutdown)
            &&& (message is Shutdown ==> after.buffer.len() == 0 && step.write == (
            if logger.buffer.len() > 0 {
                Some((path, logger.buffer))
            } else {
                None
            }))
            &&& (message is Error ==> after.buffer.len() == 0 && step.write == Some(
                (path, logger.buffer.push(line)),
            ))
            &&& ((message is Info || message is Success) && logger.buffer.len() >= 9
                ==> after.buffer.len() == 0 && step.write == Some(
                (path, logger.buffer.push(line)),
            ))
            &&& ((message is Info || message is Success) && logger.buffer.len() < 9 ==> step.write
                is None && after.buffer == logger.buffer.push(line))
        }),
{
}

/// Lines go to the file that the environment names, or to the usual one if it names none; with
/// an empty name, or with no lines, nothing is written.
pub proof fn law_lines_go_to_the_named_file(lines: Seq<Seq<char>>, path: Seq<char>)
    ensures
        lines.len() > 0 && path.len() > 0 ==> flushed(lines, Some(path)) == Some((path, lines)),
        lines.len() == 0 || path.len() == 0 ==> flushed(lines, Some(path)) is None,
        lines.len() > 0 ==> flushed(lines, None) == Some(("./logs/vm_deployment.log"@, lines)),
        lines.len() == 0 ==> flushed(lines, None) is None,
{
    reveal_strlit("./logs/vm_deployment.log");
}

/// What a step says is what the caller sees in it.
pub proof fn law_step_is_seen_whole(step: LoggerStep)
    ensures
        step.deep_view().print == step.print.deep_view(),
        step.deep_view().write == step.write.deep_view(),
        step.deep_view().stop == step.stop,
{
}

} // verus!
