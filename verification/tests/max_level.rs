use esp32_logger::{init_with_level, FormattingFailure, Level, Logger};

#[test]
fn start_hands_the_threshold_to_the_log_macros() {
    let mut logger: Logger<()> = Logger::new();
    let started = init_with_level(&mut logger, Level::Warn, |_tx: &mut (), _line: Vec<u8>| {
        Ok::<(), FormattingFailure>(())
    });
    assert_eq!(started, Ok(()));
    assert_eq!(log::max_level(), log::LevelFilter::Warn);
}
