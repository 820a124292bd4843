use midi_hid_relay::logging::{init_logger, Level, LevelFilter};

const LEVELS: [Level; 5] = [
    Level::Error,
    Level::Warn,
    Level::Info,
    Level::Debug,
    Level::Trace,
];

const FILTERS: [LevelFilter; 6] = [
    LevelFilter::Off,
    LevelFilter::Error,
    LevelFilter::Warn,
    LevelFilter::Info,
    LevelFilter::Debug,
    LevelFilter::Trace,
];

#[test]
fn logger_keeps_its_filter() {
    for filter in FILTERS {
        assert_eq!(init_logger(filter).max_level(), filter);
    }
}

#[test]
fn ranks_grow_with_verbosity() {
    assert_eq!(LEVELS.map(|level| level.rank()), [1, 2, 3, 4, 5]);
}

#[test]
fn every_level_but_trace_is_enabled() {
    for filter in FILTERS {
        let logger = init_logger(filter);
        assert!(logger.enabled(Level::Error));
        assert!(logger.enabled(Level::Warn));
        assert!(logger.enabled(Level::Info));
        assert!(logger.enabled(Level::Debug));
        assert!(!logger.enabled(Level::Trace));
    }
}
