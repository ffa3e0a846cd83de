use libobs_wrapper::crash_handler::{crash_line, ConsoleCrashHandler, DialogCrashHandler};
use libobs_wrapper::enums::ObsLogLevel;
use libobs_wrapper::logger::{console_log_line, format_log_line, leak_report, ConsoleLogger};

#[test]
fn log_lines() {
    let _ = ConsoleLogger::new();
    assert_eq!(console_log_line(ObsLogLevel::Info, "started"), "[Info] started");
    assert_eq!(console_log_line(ObsLogLevel::Error, ""), "[Error] ");
    assert_eq!(format_log_line("x", "y z"), "[x] y z");
}

#[test]
fn leak_reports() {
    let (level, msg) = leak_report(1);
    assert_eq!(level, ObsLogLevel::Info);
    assert_eq!(msg, "Number of memory leaks: 1 (this is an issue in the OBS source code that cannot be fixed)");
    let (level, msg) = leak_report(0);
    assert_eq!(level, ObsLogLevel::Info);
    assert!(msg.starts_with("Number of memory leaks: 0 ("));
    let (level, msg) = leak_report(7);
    assert_eq!(level, ObsLogLevel::Error);
    assert_eq!(msg, "Number of memory leaks: 7");
    let (level, msg) = leak_report(-3);
    assert_eq!(level, ObsLogLevel::Info);
    assert!(msg.starts_with("Number of memory leaks: -3 ("));
}

#[test]
fn crash_lines() {
    let _ = ConsoleCrashHandler::new();
    let _ = DialogCrashHandler::new();
    assert_eq!(crash_line("boom"), "OBS crashed: boom");
}

#[test]
fn colorize_wraps_text_when_colors_are_on() {
    colored::control::set_override(true);
    assert_eq!(ObsLogLevel::Error.colorize("msg"), "\x1B[41mmsg\x1B[0m");
    assert_eq!(ObsLogLevel::Warning.colorize("msg"), "\x1B[33mmsg\x1B[0m");
    assert_eq!(ObsLogLevel::Info.colorize("msg"), "\x1B[1;32mmsg\x1B[0m");
    assert_eq!(ObsLogLevel::Debug.colorize("msg"), "\x1B[34mmsg\x1B[0m");
    colored::control::set_override(false);
    assert_eq!(ObsLogLevel::Info.colorize("msg"), "msg");
    colored::control::unset_override();
}
