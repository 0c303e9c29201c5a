use logline::level::{level_from_text, resolve_level};
use logline::{Level, LevelFilter};

#[test]
fn labels_are_five_characters_wide() {
    assert_eq!(Level::Error.label(), "ERROR");
    assert_eq!(Level::Warn.label(), "WARN ");
    assert_eq!(Level::Info.label(), "INFO ");
    assert_eq!(Level::Debug.label(), "DEBUG");
    assert_eq!(Level::Trace.label(), "TRACE");
    for level in [Level::Error, Level::Warn, Level::Info, Level::Debug, Level::Trace] {
        assert_eq!(level.label().chars().count(), 5);
    }
}

#[test]
fn threshold_lets_through_what_is_at_least_as_severe() {
    let levels = [Level::Error, Level::Warn, Level::Info, Level::Debug, Level::Trace];
    let filters = [
        LevelFilter::Off,
        LevelFilter::Error,
        LevelFilter::Warn,
        LevelFilter::Info,
        LevelFilter::Debug,
        LevelFilter::Trace,
    ];
    for (f, filter) in filters.iter().enumerate() {
        for (l, level) in levels.iter().enumerate() {
            assert_eq!(filter.allows(*level), l + 1 <= f);
        }
    }
    assert!(LevelFilter::Warn.allows(Level::Error));
    assert!(LevelFilter::Warn.allows(Level::Warn));
    assert!(!LevelFilter::Warn.allows(Level::Info));
    assert!(!LevelFilter::Off.allows(Level::Error));
}

#[test]
fn every_threshold_name_is_read() {
    assert_eq!(level_from_text("off").level, LevelFilter::Off);
    assert_eq!(level_from_text("error").level, LevelFilter::Error);
    assert_eq!(level_from_text("warn").level, LevelFilter::Warn);
    assert_eq!(level_from_text("info").level, LevelFilter::Info);
    assert_eq!(level_from_text("debug").level, LevelFilter::Debug);
    assert_eq!(level_from_text("trace").level, LevelFilter::Trace);
    assert!(level_from_text("trace").warning.is_none());
    assert!(level_from_text("info").warning.is_none());
}

#[test]
fn threshold_names_are_read_in_any_case() {
    assert_eq!(level_from_text("WARN").level, LevelFilter::Warn);
    assert_eq!(level_from_text("WaRn").level, LevelFilter::Warn);
    assert_eq!(level_from_text("Debug").level, LevelFilter::Debug);
    assert!(level_from_text("Debug").warning.is_none());
}

#[test]
fn unknown_level_falls_back_to_info_with_one_warning() {
    let choice = level_from_text("verbose");
    assert_eq!(choice.level, LevelFilter::Info);
    assert_eq!(
        choice.warning,
        Some("Invalid log level 'verbose', using default level Info".to_string())
    );
}

#[test]
fn near_misses_are_not_levels() {
    for text in ["", " info", "info ", "warning", "inf", "infos", "1", "ınfo", "info\n"] {
        let choice = level_from_text(text);
        assert_eq!(choice.level, LevelFilter::Info);
        let warning = choice.warning.expect("a warning");
        assert_eq!(warning, format!("Invalid log level '{}', using default level Info", text));
        assert!(warning.contains(text));
    }
}

#[test]
fn configured_level_is_lower_cased_before_it_is_read() {
    let choice = resolve_level(None, "WARN");
    assert_eq!(choice.level, LevelFilter::Warn);
    assert!(choice.warning.is_none());

    let choice = resolve_level(None, "LOUD");
    assert_eq!(choice.level, LevelFilter::Info);
    assert_eq!(
        choice.warning,
        Some("Invalid log level 'loud', using default level Info".to_string())
    );

    let choice = resolve_level(None, "ÄRGER");
    assert_eq!(
        choice.warning,
        Some("Invalid log level 'ärger', using default level Info".to_string())
    );
}

#[test]
fn override_from_the_environment_decides() {
    let choice = resolve_level(Some("debug"), "error");
    assert_eq!(choice.level, LevelFilter::Debug);
    assert!(choice.warning.is_none());

    let choice = resolve_level(Some("TRACE"), "nonsense");
    assert_eq!(choice.level, LevelFilter::Trace);
    assert!(choice.warning.is_none());

    let choice = resolve_level(Some("NOPE"), "error");
    assert_eq!(choice.level, LevelFilter::Info);
    assert_eq!(
        choice.warning,
        Some("Invalid log level 'NOPE', using default level Info".to_string())
    );
}
