//! How much is said: a level of verbosity that is handed to whoever writes
//! messages, and the test of a message's level against it.

use vstd::prelude::*;

verus! {

/// Nothing is said.
pub const MUTE: u8 = 0;

/// Errors are said.
pub const ERROR: u8 = 1;

/// Errors and information are said.
pub const INFO: u8 = 2;

/// Everything is said.
pub const DEBUG: u8 = 3;

/// A level of verbosity.
#[derive(Clone, Copy, Debug, PartialEq, Eq, Structural)]
pub struct Verbosity {
    pub level: u8,
}

impl Verbosity {
    /// The level at which only errors are said.
    pub fn new() -> (v: Verbosity)
        ensures
            v.level == ERROR,
    {
        Verbosity { level: ERROR }
    }

    /// Whether a message of level `level` is said.
    pub fn enabled(&self, level: u8) -> (r: bool)
        ensures
            r == (level <= self.level),
    {
        level <= self.level
    }
}

/// Sets the level of verbosity.
pub fn set_verbose_level(v: &mut Verbosity, level: u8)
    ensures
        final(v).level == level,
{
    v.level = level;
}

/// The level of verbosity: the greatest level of which messages are said.
pub fn max_level(v: &Verbosity) -> (level: u8)
    ensures
        level == v.level,
{
    v.level
}

/// The level of verbosity that `count` requests for more on top of errors
/// ask for. No level is above 255.
pub fn level_for(count: u8) -> (level: u8)
    ensures
        level == if count + ERROR > u8::MAX {
            u8::MAX as int
        } else {
            count + ERROR
        },
{
    count.saturating_add(ERROR)
}

} // verus!
