use vm_deployer::deployment::LogMessage;
use vm_deployer::logging::{
    flush_log_buffer, format_log_message, format_log_message_at, stamp_text, stamped_line_text,
    Logger, BUFFERED_LINES,
};

const MOMENT: i64 = 1734618622;

fn info(s: &str) -> LogMessage {
    LogMessage::Info(s.to_string())
}

fn file() -> Option<String> {
    Some("run.log".to_string())
}

#[test]
fn a_line_has_a_stamp_and_a_mark() {
    assert_eq!(stamp_text(MOMENT), "2024-12-19 14:30:22 UTC");
    assert_eq!(format_log_message_at(&info("hi"), MOMENT), "[2024-12-19 14:30:22 UTC] hi");
    assert_eq!(
        format_log_message_at(&LogMessage::Success("ok".to_string()), MOMENT),
        "[2024-12-19 14:30:22 UTC] SUCCESS: ok"
    );
    assert_eq!(
        format_log_message_at(&LogMessage::Error("no".to_string()), MOMENT),
        "[2024-12-19 14:30:22 UTC] ERROR: no"
    );
    assert_eq!(format_log_message_at(&LogMessage::Shutdown, MOMENT), "");
    assert_eq!(stamped_line_text(&info("hi"), "noon"), "[noon] hi");
}

#[test]
fn a_line_of_now_has_the_same_form() {
    let line = format_log_message(&info("hi"));
    assert_eq!(line.len(), "[2024-12-19 14:30:22 UTC] hi".len());
    assert!(line.starts_with("[20"));
    assert!(line.ends_with(" UTC] hi"));
}

#[test]
fn flushing_empties_the_buffer() {
    let lines = vec!["a".to_string(), "b".to_string()];
    let mut buffer = lines.clone();
    assert_eq!(flush_log_buffer(&mut buffer, file()), Some(("run.log".to_string(), lines.clone())));
    assert!(buffer.is_empty());
    assert_eq!(flush_log_buffer(&mut buffer, file()), None);
    let mut buffer = lines.clone();
    assert_eq!(flush_log_buffer(&mut buffer, Some("".to_string())), None);
    assert!(buffer.is_empty());
    let mut buffer = lines.clone();
    assert_eq!(
        flush_log_buffer(&mut buffer, None),
        Some(("./logs/vm_deployment.log".to_string(), lines))
    );
}

#[test]
fn lines_wait_until_there_are_enough() {
    let mut log = Logger::new(true);
    for i in 1..BUFFERED_LINES {
        let step = log.accept(&info(&format!("{}", i)), MOMENT, file());
        assert_eq!(step.print, Some(format!("[2024-12-19 14:30:22 UTC] {}", i)));
        assert!(step.write.is_none());
        assert!(!step.stop);
    }
    let step = log.accept(&info("last"), MOMENT, file());
    let (path, lines) = step.write.unwrap();
    assert_eq!(path, "run.log");
    assert_eq!(lines.len(), 10);
    assert_eq!(lines[0], "[2024-12-19 14:30:22 UTC] 1");
    assert_eq!(lines[9], "[2024-12-19 14:30:22 UTC] last");
    assert!(log.accept(&info("next"), MOMENT, file()).write.is_none());
}

#[test]
fn an_error_is_written_at_once() {
    let mut log = Logger::new(false);
    log.accept(&info("before"), MOMENT, file());
    let step = log.accept(&LogMessage::Error("no".to_string()), MOMENT, file());
    assert_eq!(step.print, None);
    assert_eq!(step.write.unwrap().1.len(), 2);
    assert!(!step.stop);
}

#[test]
fn the_end_writes_what_waits() {
    let mut log = Logger::new(true);
    log.accept(&info("before"), MOMENT, file());
    let step = log.accept(&LogMessage::Shutdown, MOMENT, file());
    assert_eq!(step.print, None);
    assert_eq!(step.write.unwrap().1, vec!["[2024-12-19 14:30:22 UTC] before".to_string()]);
    assert!(step.stop);
    let step = Logger::new(true).accept(&LogMessage::Shutdown, MOMENT, file());
    assert!(step.write.is_none());
    assert!(step.stop);
}

#[test]
fn no_line_is_lost() {
    let mut log = Logger::new(false);
    let mut written: Vec<String> = Vec::new();
    let mut want: Vec<String> = Vec::new();
    for i in 0..57 {
        let message = if i % 7 == 3 {
            LogMessage::Error(format!("{}", i))
        } else {
            info(&format!("{}", i))
        };
        want.push(format_log_message_at(&message, MOMENT));
        if let Some((_, lines)) = log.accept(&message, MOMENT, file()).write {
            written.extend(lines);
        }
    }
    if let Some((_, lines)) = log.accept(&LogMessage::Shutdown, MOMENT, file()).write {
        written.extend(lines);
    }
    assert_eq!(written, want);
}
