//! Verbosity-gated logging.
//!
//! A [`Logger`] is an explicit value constructed once at process start and
//! passed to every component that emits output.  Before it is initialized,
//! every log call is silently dropped; initialization is idempotent (first
//! write wins).  A logged item is emitted if and only if its requested level
//! is at most the configured minimum level, under the ordering
//! Minimal < Normal < Detailed.

use vstd::prelude::*;

verus! {

/// The three verbosity levels, ordered Minimal < Normal < Detailed.
///
/// Minimal renders only the final response; Normal (the default) adds
/// response headers and timing; Detailed additionally renders the assembled
/// request before dispatch.
#[derive(Clone, Copy, PartialEq, Eq, Structural, Debug)]
pub enum Verbosity {
    Minimal,
    Normal,
    Detailed,
}

/// Position of a verbosity level in the ordering Minimal < Normal < Detailed.
pub open spec fn rank(v: Verbosity) -> int {
    match v {
        Verbosity::Minimal => 0,
        Verbosity::Normal => 1,
        Verbosity::Detailed => 2,
    }
}

impl Verbosity {
    /// Executable counterpart of [`rank`].
    pub fn level_rank(&self) -> (r: u8)
        ensures
            r as int == rank(*self),
    {
        match self {
            Verbosity::Minimal => 0,
            Verbosity::Normal => 1,
            Verbosity::Detailed => 2,
        }
    }
}

/// Gates textual output by a verbosity threshold set at most once.
///
/// `min_lvl` is `None` until [`init`] is first called; in that state no call
/// emits anything.
pub struct Logger {
    pub min_lvl: Option<Verbosity>,
}

impl Logger {
    /// True when a message logged at `level` is emitted by this logger.
    pub open spec fn emits(self, level: Verbosity) -> bool {
        match self.min_lvl {
            Some(min) => rank(level) <= rank(min),
            None => false,
        }
    }

    /// A fresh, uninitialized logger: it emits nothing.
    pub fn new() -> (r: Logger)
        ensures
            r.min_lvl is None,
    {
        Logger { min_lvl: None }
    }

    /// Executable counterpart of [`Logger::emits`].
    pub fn allows(&self, level: Verbosity) -> (b: bool)
        ensures
            b == self.emits(level),
    {
        match self.min_lvl {
            Some(min) => level.level_rank() <= min.level_rank(),
            None => false,
        }
    }
}

/// Sets the threshold, once: the first write wins and later calls are no-ops.
pub fn init(logger: &mut Logger, level: Verbosity)
    ensures
        old(logger).min_lvl is Some ==> *final(logger) == *old(logger),
        old(logger).min_lvl is None ==> final(logger).min_lvl == Some(level),
{
    if logger.min_lvl.is_none() {
        logger.min_lvl = Some(level);
    }
}

/// Gates an already rendered message: returns the text to print when the
/// logger emits at `level`, and `None` (no output) otherwise.
pub fn log(logger: &Logger, message: &String, level: Verbosity) -> (r: Option<String>)
    ensures
        r is Some <==> logger.emits(level),
        r is Some ==> r->0@ == message@,
{
    if logger.allows(level) {
        Some(message.clone())
    } else {
        None
    }
}

/// Gates a plain text message, as [`log`] does.
pub fn log_msg(logger: &Logger, msg: &str, level: Verbosity) -> (r: Option<String>)
    ensures
        r is Some <==> logger.emits(level),
        r is Some ==> r->0@ == msg@,
{
    if logger.allows(level) {
        Some(String::from_str(msg))
    } else {
        None
    }
}

/// Law: before initialization no call produces output, whatever its level.
pub proof fn lemma_uninitialized_logger_is_silent(l: Logger, level: Verbosity)
    requires
        l.min_lvl is None,
    ensures
        !l.emits(level),
{
}

/// Law: once a threshold is set, a message is emitted if and only if its
/// level does not exceed the threshold; in particular a logger initialized
/// at Normal emits Minimal and Normal messages and drops Detailed ones.
pub proof fn lemma_threshold_gating(l: Logger, min: Verbosity, level: Verbosity)
    requires
        l.min_lvl == Some(min),
    ensures
        l.emits(level) <==> rank(level) <= rank(min),
        min == Verbosity::Normal ==> (l.emits(level) <==> level != Verbosity::Detailed),
{
}

} // verus!
