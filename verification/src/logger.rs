//! The logger facade: a threshold, the resource cell, and the path from a record to a line.

use crate::cell::{filled_once, once_only, AlreadyInitialized, TransmitCell};
use crate::level::{publish_max_level, Level};
use crate::line::{announcement_text, format_announcement, format_line, line_bytes};
use vstd::prelude::*;

verus! {

/// The transmitter could not take a line. The facade drops that line and carries on.
#[derive(Clone, Copy, Debug, PartialEq, Eq, Structural)]
pub struct FormattingFailure;

/// One record: a level and the text already formatted.
pub struct LogRecord {
    pub level: Level,
    pub message: String,
}

/// `write` accepts the handle `before` together with any buffer that holds `bytes`.
pub open spec fn writable<H, W: FnOnce(&mut H, Vec<u8>) -> Result<(), FormattingFailure>>(
    write: W,
    before: H,
    bytes: Seq<u8>,
) -> bool {
    forall|h: &mut H, line: Vec<u8>|
        *h == before && line@ == bytes ==> #[trigger] call_requires(write, (h, line))
}

/// The facade. It is uninitialized until a threshold is set, and active from then on.
pub struct Logger<H> {
    threshold: Option<Level>,
    cell: TransmitCell<H>,
}

impl<H> Logger<H> {
    /// The threshold, once the logger is active.
    pub closed spec fn threshold(&self) -> Option<Level> {
        self.threshold
    }

    /// The transmit handle, once it has been installed.
    pub closed spec fn transmit(&self) -> Option<H> {
        self.cell@
    }

    /// A record of `level` passes the filter: the logger is active and the level is at
    /// least as severe as the threshold.
    pub open spec fn enabled(&self, level: Level) -> bool {
        self.threshold() matches Some(t) && level.passes(t)
    }

    /// A record of `level` reaches the transmitter: it passes the filter and a handle is
    /// installed.
    pub open spec fn emits(&self, level: Level) -> bool {
        self.enabled(level) && self.transmit() is Some
    }

    /// An uninitialized logger with an empty cell.
    pub fn new() -> (logger: Self)
        ensures
            logger.threshold() is None,
            logger.transmit() is None,
    {
        Logger { threshold: None, cell: TransmitCell::new() }
    }

    /// Whether a threshold has been set.
    pub fn is_active(&self) -> (b: bool)
        ensures
            b == (self.threshold() is Some),
    {
        self.threshold.is_some()
    }

    /// Moves the transmit handle into the cell. Only the first call succeeds; a later one
    /// fails and the handle that came first stays.
    pub fn setup(&mut self, handle: H) -> (r: Result<(), AlreadyInitialized>)
        ensures
            r == once_only(old(self).transmit() is Some),
            final(self).transmit() == filled_once(old(self).transmit(), handle),
            final(self).threshold() == old(self).threshold(),
    {
        self.cell.initialize(handle)
    }

    /// Whether a record of `level` passes the filter.
    pub fn is_enabled(&self, level: Level) -> (b: bool)
        ensures
            b == self.enabled(level),
    {
        match self.threshold {
            Some(t) => level.at_least(t),
            None => false,
        }
    }

    /// Sends the line for `record` through the cell if the record passes the filter.
    /// A record that is filtered out, or that finds the cell empty, is dropped: `write`
    /// is not run and the logger is left as it was. Otherwise `write` runs once, with
    /// exclusive access to the handle and with the bytes of the whole line. Whatever
    /// `write` answers, the call returns and the logger stays as active as it was.
    pub fn log<W: FnOnce(&mut H, Vec<u8>) -> Result<(), FormattingFailure>>(
        &mut self,
        record: &LogRecord,
        write: W,
    )
        requires
            old(self).emits(record.level) ==> writable(
                write,
                old(self).transmit()->0,
                line_bytes(record.level, record.message@),
            ),
        ensures
            final(self).threshold() == old(self).threshold(),
            !old(self).emits(record.level) ==> final(self).transmit() == old(self).transmit(),
            old(self).emits(record.level) ==> exists|
                h: &mut H,
                line: Vec<u8>,
                sent: Result<(), FormattingFailure>,
            |
                *h == old(self).transmit()->0 && line@ == line_bytes(
                    record.level,
                    record.message@,
                ) && #[trigger] call_ensures(write, (h, line), sent) && final(self).transmit()
                    == Some(*final(h)),
    {
        if self.is_enabled(record.level) && self.cell.is_populated() {
            let line = format_line(record.level, record.message.as_str());
            let forward = |h: &mut H|
                requires
                    writable(write, *h, line@),
                ensures
                    exists|r: &mut H, l: Vec<u8>, sent: Result<(), FormattingFailure>|
                        *r == *old(h) && l@ == line@ && #[trigger] call_ensures(
                            write,
                            (r, l),
                            sent,
                        ) && *final(h) == *final(r),
                {
                    let _ = write(h, line);
                };
            self.cell.with_transmit(forward);
        }
    }

    /// As [`Logger::log`], for a record of `level` whose text `message` produces on
    /// demand: `message` runs only if the line will be sent, so a record that is dropped
    /// costs no formatting.
    pub fn log_with<
        M: FnOnce() -> String,
        W: FnOnce(&mut H, Vec<u8>) -> Result<(), FormattingFailure>,
    >(&mut self, level: Level, message: M, write: W)
        requires
            old(self).emits(level) ==> call_requires(message, ()),
            old(self).emits(level) ==> forall|m: String| #[trigger]
                call_ensures(message, (), m) ==> writable(
                    write,
                    old(self).transmit()->0,
                    line_bytes(level, m@),
                ),
        ensures
            final(self).threshold() == old(self).threshold(),
            !old(self).emits(level) ==> final(self).transmit() == old(self).transmit(),
            old(self).emits(level) ==> exists|
                m: String,
                h: &mut H,
                line: Vec<u8>,
                sent: Result<(), FormattingFailure>,
            |
                #[trigger] call_ensures(message, (), m) && *h == old(self).transmit()->0
                    && line@ == line_bytes(level, m@) && #[trigger] call_ensures(
                    write,
                    (h, line),
                    sent,
                ) && final(self).transmit() == Some(*final(h)),
    {
        if self.is_enabled(level) && self.cell.is_populated() {
            let record = LogRecord { level, message: message() };
            self.log(&record, write);
        }
    }

    /// Nothing is buffered, so there is nothing to flush.
    pub fn flush(&self) {
    }
}

/// The record that a start with `threshold` logs goes out: the record has level `Trace`,
/// so it does when `Trace` passes the new threshold and a handle is installed.
pub open spec fn announces<H>(logger: Logger<H>, threshold: Level) -> bool {
    logger.threshold() is None && Level::Trace.passes(threshold) && logger.transmit() is Some
}

/// Starts `logger` with `threshold`. Only the first start succeeds: an active logger is
/// left as it was and the call fails. A successful start also hands the threshold to the
/// `log` crate and logs one record of level `Trace` that announces it.
pub fn init_with_level<H, W: FnOnce(&mut H, Vec<u8>) -> Result<(), FormattingFailure>>(
    logger: &mut Logger<H>,
    threshold: Level,
    write: W,
) -> (r: Result<(), AlreadyInitialized>)
    requires
        announces(*old(logger), threshold) ==> writable(
            write,
            old(logger).transmit()->0,
            line_bytes(Level::Trace, announcement_text(threshold)),
        ),
    ensures
        r == once_only(old(logger).threshold() is Some),
        final(logger).threshold() == filled_once(old(logger).threshold(), threshold),
        !announces(*old(logger), threshold) ==> final(logger).transmit() == old(
            logger,
        ).transmit(),
        announces(*old(logger), threshold) ==> exists|
            h: &mut H,
            line: Vec<u8>,
            sent: Result<(), FormattingFailure>,
        |
            *h == old(logger).transmit()->0 && line@ == line_bytes(
                Level::Trace,
                announcement_text(threshold),
            ) && #[trigger] call_ensures(write, (h, line), sent) && final(logger).transmit()
                == Some(*final(h)),
{
    if logger.is_active() {
        return Err(AlreadyInitialized);
    }
    logger.threshold = Some(threshold);
    publish_max_level(threshold);
    let record = LogRecord { level: Level::Trace, message: format_announcement(threshold) };
    logger.log(&record, write);
    Ok(())
}

/// Starts `logger` with the threshold `Info`. At that threshold the announcement is
/// filtered out, so nothing is sent and no writer is asked for.
pub fn init<H>(logger: &mut Logger<H>) -> (r: Result<(), AlreadyInitialized>)
    ensures
        r == once_only(old(logger).threshold() is Some),
        final(logger).threshold() == filled_once(old(logger).threshold(), Level::Info),
        final(logger).transmit() == old(logger).transmit(),
{
    let discard = |h: &mut H, line: Vec<u8>| -> (sent: Result<(), FormattingFailure>) { Ok(()) };
    init_with_level(logger, Level::Info, discard)
}

/// An active logger lets a record pass exactly when the record's severity is not below
/// the threshold's; a logger that was never started lets nothing pass.
pub proof fn lemma_filter_is_severity_order<H>(logger: Logger<H>, level: Level)
    ensures
        logger.threshold() is None ==> !logger.enabled(level),
        logger.threshold() matches Some(t) ==> (logger.enabled(level) <==> level.severity()
            >= t.severity()),
{
}

/// On a logger that is active and holds a handle, a record at the threshold goes out and
/// a record one level below the threshold does not.
pub proof fn lemma_threshold_is_the_boundary<H>(logger: Logger<H>, threshold: Level, below: Level)
    requires
        logger.threshold() == Some(threshold),
        logger.transmit() is Some,
        below.severity() + 1 == threshold.severity(),
    ensures
        logger.emits(threshold),
        !logger.emits(below),
{
}

/// Until the logger is active and a handle is installed, no record of any level reaches
/// the transmitter: `log` then leaves the logger as it found it, however often it is
/// called.
pub proof fn lemma_silent_until_ready<H>(logger: Logger<H>, level: Level)
    requires
        logger.threshold() is None || logger.transmit() is None,
    ensures
        !logger.emits(level),
{
}

} // verus!
