use logsy::format::{console_line, file_line, timestamp_field, Timestamp};
use logsy::level::{initial_level, Level, LevelFilter};
use logsy::logger::{LogError, Logsy};
use logsy::{clear_file, set_level, to_console, to_file, try_set_level, try_to_console, try_to_file};

/// Emits one record into `conf`, appending its file line to the in-memory
/// file sink, and returns the console line, if any.
fn emit(conf: &mut Logsy<String>, l: Level, msg: &str) -> Option<String> {
    let e = conf.emission(l, "", "logsy_tests", msg, false);
    if let (Some(line), Some(file)) = (e.file, conf.to_file.as_mut()) {
        file.push_str(&line);
    }
    e.console
}

fn file_contents(conf: &Logsy<String>) -> String {
    conf.to_file.clone().unwrap_or_default()
}

#[test]
fn test_logsy() {
    let mut conf: Logsy<String> = Logsy::new();
    assert!(to_file(&mut conf, String::new(), None));
    emit(&mut conf, Level::Info, "Test123");
    let contents = file_contents(&conf);
    assert!(contents.contains("Test123"));

    emit(&mut conf, Level::Info, "Test125");
    emit(&mut conf, Level::Debug, "Test126");
    let contents = file_contents(&conf);
    assert!(contents.contains("Test123"));
    assert!(contents.contains("Test125"));
    assert!(contents.contains("INFO"));
    assert!(!contents.contains("Test126"));
    assert!(!contents.contains("DEBUG"));

    set_level(&mut conf, LevelFilter::Debug, None);
    emit(&mut conf, Level::Debug, "Test126");
    let contents = file_contents(&conf);
    assert!(contents.contains("Test123"));
    assert!(contents.contains("Test125"));
    assert!(contents.contains("Test126"));
    assert!(contents.contains("INFO"));
    assert!(contents.contains("DEBUG"));

    let old = file_contents(&conf);
    to_file(&mut conf, String::new(), None);
    emit(&mut conf, Level::Info, "Test127");
    emit(&mut conf, Level::Info, "Test128");
    emit(&mut conf, Level::Info, "Test129");
    let contents = file_contents(&conf);
    assert!(contents.contains("Test127"));
    assert!(contents.contains("Test128"));
    assert!(contents.contains("Test129"));
    assert!(!old.contains("Test127"));
}

#[test]
fn info_record_reaches_file_at_default_level() {
    let mut conf: Logsy<String> = Logsy::new();
    to_file(&mut conf, String::new(), None);
    assert_eq!(conf.level, Some(Level::Info));
    emit(&mut conf, Level::Info, "Test123");
    let contents = file_contents(&conf);
    assert!(contents.lines().any(|l| l.contains("Test123") && l.contains("INFO")));
    assert_eq!(contents, "[INFO  logsy_tests] Test123\n");
}

#[test]
fn debug_record_dropped_at_info() {
    let mut conf: Logsy<String> = Logsy::new();
    to_file(&mut conf, String::new(), None);
    emit(&mut conf, Level::Debug, "Test126");
    let contents = file_contents(&conf);
    assert!(!contents.contains("Test126"));
    assert!(!contents.contains("DEBUG"));
    let e = conf.emission(Level::Debug, "", "m", "x", true);
    assert!(e.console.is_none() && e.file.is_none());
}

#[test]
fn debug_record_kept_after_lowering_level() {
    let mut conf: Logsy<String> = Logsy::new();
    to_file(&mut conf, String::new(), None);
    emit(&mut conf, Level::Info, "Test125");
    set_level(&mut conf, LevelFilter::Debug, None);
    emit(&mut conf, Level::Debug, "Test126");
    let contents = file_contents(&conf);
    assert!(contents.contains("Test125"));
    assert!(contents.contains("Test126"));
    assert!(contents.contains("DEBUG"));
    assert_eq!(contents, "[INFO  logsy_tests] Test125\n[DEBUG logsy_tests] Test126\n");
}

#[test]
fn new_file_takes_later_records() {
    let mut conf: Logsy<String> = Logsy::new();
    to_file(&mut conf, String::from("earlier\n"), None);
    let first = file_contents(&conf);
    to_file(&mut conf, String::new(), None);
    for m in ["Test127", "Test128", "Test129"] {
        emit(&mut conf, Level::Info, m);
    }
    let contents = file_contents(&conf);
    assert_eq!(contents.lines().count(), 3);
    assert!(contents.contains("Test127") && contents.contains("Test128") && contents.contains("Test129"));
    assert_eq!(first, "earlier\n");
}

#[test]
fn first_setter_installs_once() {
    let mut conf: Logsy<String> = Logsy::new();
    assert!(!conf.installed);
    assert_eq!(conf.level, None);
    assert!(!conf.enabled(Level::Error));
    assert!(matches!(try_to_console(&mut conf, None), Ok(true)));
    assert!(conf.installed && conf.to_stderr);
    assert!(matches!(try_to_console(&mut conf, None), Ok(false)));
    assert!(conf.installed && conf.to_stderr);
    assert_eq!(conf.level, Some(Level::Info));
}

#[test]
fn console_twice_same_as_once() {
    let mut once: Logsy<String> = Logsy::new();
    to_console(&mut once, None);
    let mut twice: Logsy<String> = Logsy::new();
    to_console(&mut twice, None);
    assert!(!to_console(&mut twice, None));
    assert_eq!(
        (once.installed, once.to_stderr, once.level),
        (twice.installed, twice.to_stderr, twice.level)
    );
    let line = emit(&mut twice, Level::Warn, "w");
    assert_eq!(line.as_deref(), Some("[WARN  logsy_tests] w\n"));
}

#[test]
fn cleared_file_takes_nothing() {
    let mut conf: Logsy<String> = Logsy::new();
    to_file(&mut conf, String::new(), None);
    assert!(matches!(clear_file(&mut conf, None), Ok(false)));
    assert!(conf.to_file.is_none());
    let e = conf.emission(Level::Error, "", "m", "x", false);
    assert!(e.file.is_none() && e.console.is_none());
}

#[test]
fn level_override_sets_initial_level() {
    let mut conf: Logsy<String> = Logsy::new();
    assert!(matches!(try_to_file(&mut conf, String::new(), Some("tRaCe")), Ok(true)));
    assert_eq!(conf.level, Some(Level::Trace));
    // Once installed, the override is not read again.
    assert!(matches!(try_set_level(&mut conf, LevelFilter::Off, Some("bogus")), Ok(false)));
    assert_eq!(conf.level, None);
    assert!(!conf.enabled(Level::Error));
}

#[test]
fn invalid_level_override_is_an_error() {
    let mut conf: Logsy<String> = Logsy::new();
    match try_set_level(&mut conf, LevelFilter::Debug, Some("loud")) {
        Err(LogError::InvalidLevelOverride(v)) => assert_eq!(v, "loud"),
        other => panic!("unexpected {:?}", other),
    }
    assert!(!conf.installed);
    assert_eq!(conf.level, None);
}

#[test]
fn initial_level_names() {
    assert_eq!(initial_level(None), Some(LevelFilter::Info));
    assert_eq!(initial_level(Some("off")), Some(LevelFilter::Off));
    assert_eq!(initial_level(Some("ERROR")), Some(LevelFilter::Error));
    assert_eq!(initial_level(Some("Warn")), Some(LevelFilter::Warn));
    assert_eq!(initial_level(Some("debug")), Some(LevelFilter::Debug));
    assert_eq!(initial_level(Some("trace")), Some(LevelFilter::Trace));
    assert_eq!(initial_level(Some("inf")), None);
    assert_eq!(initial_level(Some("")), None);
}

#[test]
fn enabled_follows_rank() {
    let levels = [Level::Error, Level::Warn, Level::Info, Level::Debug, Level::Trace];
    let filters = [
        LevelFilter::Off,
        LevelFilter::Error,
        LevelFilter::Warn,
        LevelFilter::Info,
        LevelFilter::Debug,
        LevelFilter::Trace,
    ];
    for (fi, f) in filters.iter().enumerate() {
        let mut conf: Logsy<String> = Logsy::new();
        set_level(&mut conf, *f, None);
        for (li, l) in levels.iter().enumerate() {
            assert_eq!(conf.enabled(*l), li + 1 <= fi, "{:?} under {:?}", l, f);
        }
    }
}

#[test]
fn level_names_and_padding() {
    assert_eq!(Level::Info.as_str(), "INFO");
    assert_eq!(Level::Error.as_str(), "ERROR");
    assert_eq!(Level::Info.padded(), "INFO ");
    assert_eq!(Level::Warn.padded(), "WARN ");
    assert_eq!(Level::Error.padded(), "ERROR");
    assert_eq!(Level::Trace.padded(), "TRACE");
    assert_eq!(LevelFilter::Off.to_level(), None);
    assert_eq!(LevelFilter::Debug.to_level(), Some(Level::Debug));
}

#[test]
fn file_line_layout() {
    assert_eq!(file_line("", Level::Warn, "app::db", "slow"), "[WARN  app::db] slow\n");
    assert_eq!(
        file_line("2018-02-14T00:28:07.000000Z ", Level::Error, "m", "boom"),
        "[2018-02-14T00:28:07.000000Z ERROR m] boom\n"
    );
}

#[test]
fn plain_console_line_matches_file_line() {
    for l in [Level::Error, Level::Warn, Level::Info, Level::Debug, Level::Trace] {
        assert_eq!(console_line("t ", l, "o", "m", false), file_line("t ", l, "o", "m"));
    }
}

#[test]
fn styled_console_line_codes() {
    let line = console_line("", Level::Info, "o", "m", true);
    assert_eq!(line, "\x1b[2m[\x1b[3m\x1b[0m\x1b[1m\x1b[32mINFO \x1b[0m \x1b[2m\x1b[3mo\x1b[0m\x1b[2m]\x1b[0m m\n");
    let err = console_line("", Level::Error, "o", "m", true);
    assert!(err.contains("\x1b[1m\x1b[91mERROR\x1b[0m"));
    let trace = console_line("", Level::Trace, "o", "m", true);
    assert!(trace.contains("\x1b[1m\x1b[35mTRACE\x1b[0m"));
}

#[test]
fn timestamp_field_renders_rfc3339_micros() {
    let ts = Timestamp { secs: 1_518_568_087, nanos: 123_456_789 };
    assert_eq!(timestamp_field(Some(ts)), "2018-02-14T00:28:07.123456Z ");
    assert_eq!(timestamp_field(Some(Timestamp { secs: 0, nanos: 0 })), "1970-01-01T00:00:00.000000Z ");
    assert_eq!(timestamp_field(None), "");
}

#[test]
fn emission_uses_both_sinks() {
    let mut conf: Logsy<String> = Logsy::new();
    to_console(&mut conf, None);
    to_file(&mut conf, String::new(), None);
    let e = conf.emission(Level::Error, "", "o", "both", false);
    assert_eq!(e.console.as_deref(), Some("[ERROR o] both\n"));
    assert_eq!(e.file.as_deref(), Some("[ERROR o] both\n"));
}
