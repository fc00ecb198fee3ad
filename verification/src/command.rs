//! The commands a tick emits: clear a cell, or draw a glyph in one of the
//! two colour tiers. A terminal front end applies them in order.

use vstd::prelude::*;

verus! {

/// The two colour tiers of a visible segment: the bright leading cell and
/// the sustained trail behind it.
#[derive(Clone, Copy, Debug, PartialEq, Eq, Structural)]
pub enum Tier {
    Head,
    Trail,
}

/// One screen-cell change. `Clear` blanks a cell; `Draw` puts a glyph in
/// it, coloured by tier. Rows and columns are zero-based screen
/// coordinates.
#[derive(Clone, Copy, Debug, PartialEq, Eq, Structural)]
pub enum Command {
    Clear { col: u16, row: u16 },
    Draw { col: u16, row: u16, ch: char, tier: Tier },
}

/// How many commands of `s` are clears.
pub open spec fn clear_count(s: Seq<Command>) -> int
    decreases s.len(),
{
    if s.len() == 0 {
        0
    } else {
        clear_count(s.drop_last()) + if s.last() is Clear {
            1int
        } else {
            0int
        }
    }
}

/// How many commands of `s` are draws in the given tier.
pub open spec fn draw_count_in_tier(s: Seq<Command>, t: Tier) -> int
    decreases s.len(),
{
    if s.len() == 0 {
        0
    } else {
        draw_count_in_tier(s.drop_last(), t) + if s.last() matches Command::Draw {
            tier,
            ..
        } && tier == t {
            1int
        } else {
            0int
        }
    }
}

} // verus!
