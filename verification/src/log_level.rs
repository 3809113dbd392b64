//! Severity levels and their rank order.

use crate::paint::{Hue, Painted, PaintedView, Style};
use core::cmp::Ordering;
use vstd::prelude::*;
use vstd::std_specs::cmp::PartialOrdSpecImpl;

verus! {

/// The severity of a message, from `Trace` (lowest) to `Critical` (highest).
#[derive(Debug, PartialEq, Eq, Structural, Ord, Clone, Copy)]
pub enum LogLevel {
    Trace,
    Debug,
    Info,
    Warning,
    Error,
    Critical,
}

impl LogLevel {
    /// The position of a level in the severity order, starting at 0 for `Trace`.
    pub open spec fn spec_rank(self) -> u8 {
        match self {
            LogLevel::Trace => 0,
            LogLevel::Debug => 1,
            LogLevel::Info => 2,
            LogLevel::Warning => 3,
            LogLevel::Error => 4,
            LogLevel::Critical => 5,
        }
    }

    /// The lowercase name under which a level appears in a log line.
    pub open spec fn name(self) -> Seq<char> {
        match self {
            LogLevel::Trace => "trace"@,
            LogLevel::Debug => "debug"@,
            LogLevel::Info => "info"@,
            LogLevel::Warning => "warning"@,
            LogLevel::Error => "error"@,
            LogLevel::Critical => "critical"@,
        }
    }

    /// The style in which a level's name and message are shown on a terminal.
    pub open spec fn spec_style(self) -> Style {
        match self {
            LogLevel::Trace => Style { dimmed: true, ..Style::plain() },
            LogLevel::Debug => Style { dimmed: true, underline: true, ..Style::plain() },
            LogLevel::Info => Style::plain(),
            LogLevel::Warning => Style { color: Hue::Yellow, ..Style::plain() },
            LogLevel::Error => Style { color: Hue::Red, ..Style::plain() },
            LogLevel::Critical => Style { color: Hue::Red, bold: true, ..Style::plain() },
        }
    }

    /// The rank of this level; a level passes a threshold when its rank is
    /// at least the threshold's.
    #[verifier::when_used_as_spec(spec_rank)]
    pub fn rank(self) -> (r: u8)
        ensures
            r == self.spec_rank(),
    {
        match self {
            LogLevel::Trace => 0,
            LogLevel::Debug => 1,
            LogLevel::Info => 2,
            LogLevel::Warning => 3,
            LogLevel::Error => 4,
            LogLevel::Critical => 5,
        }
    }

    /// The name of this level as it is written in a log line.
    pub fn to_string(&self) -> (s: &'static str)
        ensures
            s@ == self.name(),
    {
        match self {
            LogLevel::Trace => "trace",
            LogLevel::Debug => "debug",
            LogLevel::Info => "info",
            LogLevel::Warning => "warning",
            LogLevel::Error => "error",
            LogLevel::Critical => "critical",
        }
    }

    /// The style of this level.
    #[verifier::when_used_as_spec(spec_style)]
    pub fn style(self) -> (style: Style)
        ensures
            style == self.spec_style(),
    {
        let plain = Style { color: Hue::Default, bold: false, dimmed: false, underline: false };
        match self {
            LogLevel::Trace => Style { dimmed: true, ..plain },
            LogLevel::Debug => Style { dimmed: true, underline: true, ..plain },
            LogLevel::Info => plain,
            LogLevel::Warning => Style { color: Hue::Yellow, ..plain },
            LogLevel::Error => Style { color: Hue::Red, ..plain },
            LogLevel::Critical => Style { color: Hue::Red, bold: true, ..plain },
        }
    }

    /// The given text in the style of this level.
    pub fn color_string(&self, text: &str) -> (painted: Painted)
        ensures
            painted@ == (PaintedView { text: text@, style: self.style() }),
    {
        Painted::new(text, self.style())
    }
}

impl PartialOrd for LogLevel {
    /// Levels compare as their ranks do.
    fn partial_cmp(&self, other: &LogLevel) -> (order: Option<Ordering>) {
        let left: u8 = self.rank();
        let right: u8 = other.rank();
        if left < right {
            Some(Ordering::Less)
        } else if left == right {
            Some(Ordering::Equal)
        } else {
            Some(Ordering::Greater)
        }
    }
}

impl PartialOrdSpecImpl for LogLevel {
    open spec fn obeys_partial_cmp_spec() -> bool {
        true
    }

    open spec fn partial_cmp_spec(&self, other: &LogLevel) -> Option<Ordering> {
        if self.rank() < other.rank() {
            Some(Ordering::Less)
        } else if self.rank() == other.rank() {
            Some(Ordering::Equal)
        } else {
            Some(Ordering::Greater)
        }
    }
}

/// Two levels of the same rank are the same level, so the order of the
/// ranks is a total order of the levels.
pub proof fn lemma_rank_tells_levels_apart(first: LogLevel, second: LogLevel)
    ensures
        first.rank() == second.rank() <==> first == second,
        0 <= first.rank() <= 5,
{
}

} // verus!
