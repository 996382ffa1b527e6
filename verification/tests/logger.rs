use firmware_tool::logger::{LogLevel, Logger, MAX_LOG_ENTRIES};

#[test]
fn new_logger_is_empty() {
    let logger = Logger::new("test");
    assert_eq!(logger.name(), "test");
    assert!(logger.get_entries().is_empty());
    assert_eq!(logger.time(), 0);
}

#[test]
fn entries_keep_order_level_and_time() {
    let mut logger = Logger::new("test");
    logger.set_time(5);
    logger.info("one");
    logger.set_time(9);
    logger.error("two");
    logger.success("three");
    logger.warning("four");
    logger.command("five");
    logger.output("six");
    let entries = logger.get_entries();
    assert_eq!(entries.len(), 6);
    assert_eq!(entries[0].message, "one");
    assert_eq!(entries[0].level, LogLevel::Info);
    assert_eq!(entries[0].timestamp, 5);
    assert_eq!(entries[1].message, "two");
    assert_eq!(entries[1].level, LogLevel::Error);
    assert_eq!(entries[1].timestamp, 9);
    assert_eq!(entries[2].level, LogLevel::Success);
    assert_eq!(entries[3].level, LogLevel::Warning);
    assert_eq!(entries[4].level, LogLevel::Command);
    assert_eq!(entries[5].level, LogLevel::Output);
}

#[test]
fn the_oldest_entry_leaves_a_full_log() {
    let mut logger = Logger::new("test");
    for i in 0..MAX_LOG_ENTRIES + 3 {
        logger.info(&format!("m{}", i));
    }
    let entries = logger.get_entries();
    assert_eq!(entries.len(), MAX_LOG_ENTRIES);
    assert_eq!(entries[0].message, "m3");
    assert_eq!(entries[MAX_LOG_ENTRIES - 1].message, format!("m{}", MAX_LOG_ENTRIES + 2));
}

#[test]
fn debug_messages_need_debug_mode() {
    let mut logger = Logger::new("test");
    logger.debug("hidden");
    assert!(logger.get_entries().is_empty());
    logger.set_debug_mode(true);
    logger.debug("shown");
    let entries = logger.get_entries();
    assert_eq!(entries.len(), 1);
    assert_eq!(entries[0].message, "shown");
    assert_eq!(entries[0].level, LogLevel::Info);
}

#[test]
fn a_disabled_logger_keeps_nothing() {
    let mut logger = Logger::new("test");
    logger.set_enabled(false);
    logger.set_debug_mode(true);
    logger.error("lost");
    logger.debug("lost too");
    assert!(logger.get_entries().is_empty());
}

#[test]
fn clear_empties_the_log() {
    let mut logger = Logger::new("test");
    logger.info("one");
    logger.clear();
    assert!(logger.get_entries().is_empty());
    logger.info("two");
    assert_eq!(logger.get_entries().len(), 1);
}

#[test]
fn timestamps_show_seconds_with_two_decimals() {
    let logger = Logger::new("test");
    assert_eq!(logger.format_timestamp(0), "0.00s");
    assert_eq!(logger.format_timestamp(4), "0.00s");
    assert_eq!(logger.format_timestamp(5), "0.01s");
    assert_eq!(logger.format_timestamp(1234), "1.23s");
    assert_eq!(logger.format_timestamp(1995), "2.00s");
    assert_eq!(logger.format_timestamp(61_070), "61.07s");
}

#[test]
fn level_labels() {
    assert_eq!(LogLevel::Error.label(), "ERROR");
    assert_eq!(LogLevel::Warning.label(), "WARN");
    assert_eq!(LogLevel::Success.label(), "SUCCESS");
    assert_eq!(LogLevel::Command.label(), "CMD");
    assert_eq!(LogLevel::Output.label(), "OUTPUT");
    assert_eq!(LogLevel::Info.label(), "INFO");
}
