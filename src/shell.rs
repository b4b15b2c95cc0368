//! How much a run reports.
use vstd::prelude::*;

verus! {

/// The level of a message: `Verbose` ones are shown only in verbose runs.
#[derive(Debug, Copy, Clone, PartialOrd, Ord, PartialEq, Eq, Structural)]
pub enum PrintLevel {
    Verbose,
    Normal,
}

impl PrintLevel {
    /// The place of the level in the order `Verbose < Normal`.
    pub open spec fn rank(self) -> int {
        match self {
            PrintLevel::Verbose => 0,
            PrintLevel::Normal => 1,
        }
    }

    fn rank_exec(self) -> (r: u8)
        ensures
            r == self.rank(),
    {
        match self {
            PrintLevel::Verbose => 0,
            PrintLevel::Normal => 1,
        }
    }
}

/// The threshold of the messages that are shown, or none at all.
#[derive(Debug)]
pub struct Shell {
    level: Option<PrintLevel>,
}

impl Shell {
    /// The threshold; `None` when muted.
    pub closed spec fn level(&self) -> Option<PrintLevel> {
        self.level
    }

    /// A shell that shows messages of `level` and above.
    pub fn new(level: PrintLevel) -> (r: Self)
        ensures
            r.level() == Some(level),
    {
        Self { level: Some(level) }
    }

    /// A shell that shows nothing.
    pub fn muted() -> (r: Self)
        ensures
            r.level() is None,
    {
        Self { level: None }
    }

    /// Whether a message of `level` is shown.
    pub fn should_print(&self, level: PrintLevel) -> (r: bool)
        ensures
            r == (self.level() matches Some(lvl) && level.rank() >= lvl.rank()),
    {
        match self.level {
            Some(lvl) => level.rank_exec() >= lvl.rank_exec(),
            None => false,
        }
    }
}

} // verus!
