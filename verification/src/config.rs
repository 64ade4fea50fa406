//! How a run is set up: its mode and its fixed names.

use vstd::prelude::*;
use crate::text::{parse_u64, parsed_u64};

verus! {

/// What a run works through.
#[derive(Debug, Clone, Copy, PartialEq, Eq, Structural)]
pub enum RunMode {
    /// Every item of the feed, page by page, newest first.
    Continuous,
    /// The one item with this identifier.
    Single(u64),
}

/// The command line named an item, but not by a number that can be an
/// identifier.
#[derive(Debug, Clone, Copy, PartialEq, Eq, Structural)]
pub struct InvalidItemId;

/// The mode that the optional command-line argument selects: none selects a
/// continuous run, an unsigned 64-bit number a run of that one item, and
/// anything else is refused.
pub open spec fn mode_for(argument: Option<Seq<char>>) -> Result<RunMode, InvalidItemId> {
    match argument {
        None => Ok(RunMode::Continuous),
        Some(text) => match parsed_u64(text) {
            Some(id) => Ok(RunMode::Single(id)),
            None => Err(InvalidItemId),
        },
    }
}

/// Selects the mode of a run from the optional command-line argument.
pub fn select_mode(argument: Option<&str>) -> (mode: Result<RunMode, InvalidItemId>)
    ensures
        mode == mode_for(
            match argument {
                Some(text) => Some(text@),
                None => None,
            },
        ),
{
    match argument {
        None => Ok(RunMode::Continuous),
        Some(text) => match parse_u64(text) {
            Some(id) => Ok(RunMode::Single(id)),
            None => Err(InvalidItemId),
        },
    }
}

/// The number of items to expect of a feed that reports `count` of them. The
/// feed's count is a signed number; below zero it stands for none.
pub open spec fn expected_items(count: i32) -> nat {
    if count < 0 {
        0
    } else {
        count as nat
    }
}

/// Computes [`expected_items`].
pub fn announced_total(count: i32) -> (total: u64)
    ensures
        total == expected_items(count),
{
    if count < 0 {
        0
    } else {
        count as u64
    }
}

/// The scratch directory of a run, made empty at its start and removed at its
/// end.
pub fn scratch_dir() -> (dir: &'static str)
    ensures
        dir@ == "./output"@,
{
    "./output"
}

/// The account whose items the harness builds, as an item names its author.
pub fn expected_author() -> (name: &'static str)
    ensures
        name@ == "everyrust"@,
{
    "everyrust"
}

/// The account whose items the harness builds, as the feed is asked for it.
pub fn feed_account() -> (name: &'static str)
    ensures
        name@ == "@everyrust"@,
{
    "@everyrust"
}

/// The compiler that builds the snippets.
pub fn compiler() -> (program: &'static str)
    ensures
        program@ == "rustc"@,
{
    "rustc"
}

} // verus!
