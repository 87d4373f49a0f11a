//! Leveled logging to a single shared serial transmitter.

pub mod cell;
pub mod level;
pub mod line;
pub mod logger;

pub use cell::{AlreadyInitialized, TransmitCell};
pub use level::Level;
pub use line::{format_announcement, format_line};
pub use logger::{init, init_with_level, FormattingFailure, LogRecord, Logger};
