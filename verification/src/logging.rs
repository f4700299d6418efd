//! When logging is set up and in which format: the decisions, without the
//! logging itself.

use vstd::prelude::*;
use vstd::string::*;

verus! {

/// The format of the log lines.
#[derive(Clone, Copy, Debug, PartialEq, Eq, Structural)]
pub enum LogFormat {
    /// One flattened JSON object per event.
    Structured,
    /// The compact human-readable form.
    Compact,
}

/// Whether the setting asks for structured logs: only `true` and `1` do.
pub open spec fn asks_structured(setting: Option<Seq<char>>) -> bool {
    setting == Some("true"@) || setting == Some("1"@)
}

/// The setting as contracts see it.
pub open spec fn setting_text(setting: Option<&str>) -> Option<Seq<char>> {
    match setting {
        Some(s) => Some(s@),
        None => None,
    }
}

/// Picks the format from the value of the setting, `None` where it is unset.
pub fn log_format(setting: Option<&str>) -> (format: LogFormat)
    ensures
        format == if asks_structured(setting_text(setting)) {
            LogFormat::Structured
        } else {
            LogFormat::Compact
        },
{
    match setting {
        Some(s) => {
            let given = String::from_str(s);
            if given == String::from_str("true") || given == String::from_str("1") {
                LogFormat::Structured
            } else {
                LogFormat::Compact
            }
        },
        None => LogFormat::Compact,
    }
}

/// Guards the set-up of logging, which is done once in a process however often
/// it is asked for.
#[derive(Clone, Copy, Debug, PartialEq, Eq, Structural)]
pub enum LogGuard {
    Fresh,
    Initialized,
}

impl LogGuard {
    /// How many of `calls` claims in a row are told to set logging up.
    pub open spec fn initializations(self, calls: nat) -> nat
        decreases calls,
    {
        if calls == 0 {
            0
        } else {
            let here: nat = if self == LogGuard::Fresh {
                1
            } else {
                0
            };
            here + LogGuard::Initialized.initializations((calls - 1) as nat)
        }
    }

    pub fn new() -> (guard: Self)
        ensures
            guard == LogGuard::Fresh,
    {
        LogGuard::Fresh
    }

    /// Asks for logging. Returns `true` to the first caller, who then sets it
    /// up, and `false` to every later one.
    pub fn claim(&mut self) -> (first: bool)
        ensures
            first == (*old(self) == LogGuard::Fresh),
            *final(self) == LogGuard::Initialized,
    {
        let first = match self {
            LogGuard::Fresh => true,
            LogGuard::Initialized => false,
        };
        *self = LogGuard::Initialized;
        first
    }
}

/// Asking for logging is idempotent: of any number of claims on a fresh guard,
/// exactly one, the first, sets logging up; on a guard that was claimed before,
/// none does.
pub proof fn lemma_logging_is_set_up_once(guard: LogGuard, calls: nat)
    ensures
        guard.initializations(calls) == if guard == LogGuard::Fresh && calls > 0 {
            1nat
        } else {
            0nat
        },
    decreases calls,
{
    if calls > 0 {
        lemma_logging_is_set_up_once(LogGuard::Initialized, (calls - 1) as nat);
    }
}

} // verus!
