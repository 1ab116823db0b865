use kernlog::{init_with_level, Registry, Severity};
use log::{LevelFilter, Log, Metadata, Record};

const ALL: [Severity; 5] =
    [Severity::Error, Severity::Warn, Severity::Info, Severity::Debug, Severity::Trace];

/// A logger that drops everything, to take the place of the active logger.
struct Quiet;

impl Log for Quiet {
    fn enabled(&self, _: &Metadata) -> bool {
        false
    }

    fn log(&self, _: &Record) {}

    fn flush(&self) {}
}

#[test]
fn registry_answers_as_the_log_crate_does() {
    let mut registry = Registry::new();
    assert_eq!(log::max_level(), LevelFilter::Off);
    assert_eq!(registry.max_level(), None);

    let theirs = log::set_boxed_logger(Box::new(Quiet));
    let ours = init_with_level(&mut registry, Severity::Warn);
    assert!(theirs.is_ok());
    assert!(ours.is_ok());
    log::set_max_level(LevelFilter::Warn);
    assert_eq!(registry.max_level(), Some(Severity::Warn));

    let theirs = log::set_boxed_logger(Box::new(Quiet));
    let ours = init_with_level(&mut registry, Severity::Trace);
    assert!(theirs.is_err());
    assert!(ours.is_err());
    assert_eq!(log::max_level(), LevelFilter::Warn);
    assert_eq!(registry.max_level(), Some(Severity::Warn));
}

#[test]
fn severities_order_as_log_levels_do() {
    let levels = [
        log::Level::Error,
        log::Level::Warn,
        log::Level::Info,
        log::Level::Debug,
        log::Level::Trace,
    ];
    for (severity, level) in ALL.iter().zip(levels) {
        assert_eq!(usize::from(severity.rank()), level as usize);
        for (ceiling, filter) in ALL.iter().zip(levels) {
            assert_eq!(severity <= ceiling, level <= filter.to_level_filter());
        }
    }
}
