use car_system::logging::{
    level_named, parse_log_level, LogEntry, LogLevel, ScoreComponent, ScoreConfig, ScoreLogger,
};

fn args(words: &[&str]) -> Vec<String> {
    words.iter().map(|w| w.to_string()).collect()
}

#[test]
fn levels_in_order() {
    assert!(LogLevel::Error < LogLevel::Warn);
    assert!(LogLevel::Warn < LogLevel::Info);
    assert!(LogLevel::Info < LogLevel::Debug);
    assert!(LogLevel::Debug < LogLevel::Trace);
    assert_eq!(LogLevel::Error.rank(), 0);
    assert_eq!(LogLevel::Trace.rank(), 4);
}

#[test]
fn level_names() {
    assert_eq!(LogLevel::Error.as_str(), "ERROR");
    assert_eq!(LogLevel::Warn.as_str(), "WARN ");
    assert_eq!(LogLevel::Info.as_str(), "INFO ");
    assert_eq!(LogLevel::Debug.as_str(), "DEBUG");
    assert_eq!(LogLevel::Trace.as_str(), "TRACE");
    assert_eq!(LogLevel::Warn.name(), "Warn");
    assert_eq!(LogLevel::Trace.name(), format!("{:?}", LogLevel::Trace));
}

#[test]
fn entry_as_a_line() {
    let entry = LogEntry::new(LogLevel::Info, "Engine", "started", 17);
    assert_eq!(entry.format(), "[Info] Engine: started");
    assert_eq!(entry.timestamp, 17);
    assert_eq!(entry.level, LogLevel::Info);
}

#[test]
fn logger_passes_its_threshold_and_above() {
    let logger = ScoreLogger::new("C", LogLevel::Info);
    assert_eq!(logger.error("e", 0), Some("[Error] C: e".to_string()));
    assert_eq!(logger.warn("w", 0), Some("[Warn] C: w".to_string()));
    assert_eq!(logger.info("i", 0), Some("[Info] C: i".to_string()));
    assert_eq!(logger.debug("d", 0), None);
    assert_eq!(logger.trace("t", 0), None);
    assert_eq!(logger.log(LogLevel::Debug, "d", 0), None);
    let quiet = ScoreLogger::new("C", LogLevel::Error);
    assert_eq!(quiet.warn("w", 0), None);
    assert_eq!(quiet.error("e", 0), Some("[Error] C: e".to_string()));
    let loud = ScoreLogger::new("C", LogLevel::Trace);
    assert_eq!(loud.trace("t", 0), Some("[Trace] C: t".to_string()));
    assert_eq!(loud.debug("d", 0), Some("[Debug] C: d".to_string()));
}

#[test]
fn level_names_are_read_in_any_case() {
    assert_eq!(parse_log_level("ERROR"), Ok(LogLevel::Error));
    assert_eq!(parse_log_level("warn"), Ok(LogLevel::Warn));
    assert_eq!(parse_log_level("Info"), Ok(LogLevel::Info));
    assert_eq!(parse_log_level("dEbUg"), Ok(LogLevel::Debug));
    assert_eq!(parse_log_level("trace"), Ok(LogLevel::Trace));
}

#[test]
fn other_texts_are_no_levels() {
    assert_eq!(parse_log_level("loud"), Err("Invalid log level: loud".to_string()));
    assert_eq!(parse_log_level(""), Err("Invalid log level: ".to_string()));
    assert_eq!(parse_log_level("WARN "), Err("Invalid log level: WARN ".to_string()));
    assert_eq!(parse_log_level(" info"), Err("Invalid log level:  info".to_string()));
}

#[test]
fn upper_case_names_only() {
    assert_eq!(level_named("DEBUG"), Some(LogLevel::Debug));
    assert_eq!(level_named("debug"), None);
    assert_eq!(level_named("Debug"), None);
    assert_eq!(level_named("ERRORS"), None);
    assert_eq!(level_named(""), None);
}

#[test]
fn no_options_give_the_defaults() {
    let config = ScoreConfig::from_args(&args(&["prog"])).unwrap();
    assert_eq!(config.name, "S-CORE");
    assert_eq!(config.log_level, LogLevel::Info);
    let config = ScoreConfig::from_args(&args(&[])).unwrap();
    assert_eq!(config.name, "S-CORE");
    assert_eq!(config.log_level, LogLevel::Info);
}

#[test]
fn name_and_level_options() {
    let config =
        ScoreConfig::from_args(&args(&["prog", "--name", "MyComponent", "--log-level", "DEBUG"]))
            .unwrap();
    assert_eq!(config.name, "MyComponent");
    assert_eq!(config.log_level, LogLevel::Debug);
    let config = ScoreConfig::from_args(&args(&["prog", "-l", "trace", "-n", "x"])).unwrap();
    assert_eq!(config.name, "x");
    assert_eq!(config.log_level, LogLevel::Trace);
}

#[test]
fn later_option_wins() {
    let config =
        ScoreConfig::from_args(&args(&["prog", "-n", "a", "-n", "b", "-l", "warn", "-l", "error"]))
            .unwrap();
    assert_eq!(config.name, "b");
    assert_eq!(config.log_level, LogLevel::Error);
}

#[test]
fn option_value_is_taken_as_it_is() {
    // the argument behind --name is the name, whatever it looks like
    let config = ScoreConfig::from_args(&args(&["prog", "--name", "--help"])).unwrap();
    assert_eq!(config.name, "--help");
}

#[test]
fn first_argument_is_the_program() {
    let config = ScoreConfig::from_args(&args(&["--help"])).unwrap();
    assert_eq!(config.name, "S-CORE");
}

#[test]
fn command_line_errors() {
    let error = |words: &[&str]| ScoreConfig::from_args(&args(words)).err();
    assert_eq!(error(&["prog", "--name"]), Some("--name requires a value".to_string()));
    assert_eq!(error(&["prog", "-n"]), Some("--name requires a value".to_string()));
    assert_eq!(error(&["prog", "--log-level"]), Some("--log-level requires a value".to_string()));
    assert_eq!(error(&["prog", "-l"]), Some("--log-level requires a value".to_string()));
    assert_eq!(error(&["prog", "-l", "loud"]), Some("Invalid log level: loud".to_string()));
    assert_eq!(error(&["prog", "--help"]), Some("HELP".to_string()));
    assert_eq!(error(&["prog", "-h", "-n"]), Some("HELP".to_string()));
    assert_eq!(error(&["prog", "--verbose"]), Some("Unknown argument: --verbose".to_string()));
    assert_eq!(error(&["prog", "-n", "a", "b"]), Some("Unknown argument: b".to_string()));
    assert_eq!(error(&["prog", "-l", "loud", "--help"]), Some("Invalid log level: loud".to_string()));
}

#[test]
fn new_component_reports_itself() {
    let (component, line) = ScoreComponent::new("Demo", LogLevel::Info, 0);
    assert_eq!(component.counter, 0);
    assert_eq!(line, Some("[Info] Demo: Component 'Demo' initialized".to_string()));
    let (_, line) = ScoreComponent::new("Demo", LogLevel::Warn, 0);
    assert_eq!(line, None);
}

#[test]
fn component_counts_and_logs() {
    let (mut component, _) = ScoreComponent::new("D", LogLevel::Trace, 0);
    assert_eq!(
        component.process(1),
        vec![
            "[Trace] D: Starting process".to_string(),
            "[Debug] D: Counter incremented to 1".to_string(),
            "[Trace] D: Process complete".to_string(),
        ]
    );
    for _ in 0..8 {
        component.process(1);
    }
    assert_eq!(
        component.process(1),
        vec![
            "[Trace] D: Starting process".to_string(),
            "[Debug] D: Counter incremented to 10".to_string(),
            "[Warn] D: Counter reached milestone: 10".to_string(),
            "[Trace] D: Process complete".to_string(),
        ]
    );
    for _ in 0..89 {
        component.process(1);
    }
    assert_eq!(
        component.process(1),
        vec![
            "[Trace] D: Starting process".to_string(),
            "[Debug] D: Counter incremented to 100".to_string(),
            "[Warn] D: Counter reached milestone: 100".to_string(),
            "[Info] D: Counter reached century: 100".to_string(),
            "[Trace] D: Process complete".to_string(),
        ]
    );
    assert_eq!(component.counter, 100);
}

#[test]
fn quiet_component_counts_silently() {
    let (mut component, _) = ScoreComponent::new("D", LogLevel::Warn, 0);
    for n in 1..=30u64 {
        let lines = component.process(0);
        if n % 10 == 0 {
            assert_eq!(lines, vec![format!("[Warn] D: Counter reached milestone: {}", n)]);
        } else {
            assert!(lines.is_empty());
        }
    }
    let (mut silent, _) = ScoreComponent::new("D", LogLevel::Error, 0);
    for _ in 0..100 {
        assert!(silent.process(0).is_empty());
    }
    assert_eq!(silent.counter, 100);
}
