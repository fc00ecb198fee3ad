//! One falling stream: its leading-edge row, its desired segment length,
//! and the sliding window of the most recent glyphs generated for it.
//!
//! The deterministic heart of the engine lives here: `tick` advances the
//! column one step given the next glyph and returns the screen commands
//! for the step, `needs_recycle` says when the stream has fully left the
//! screen, and `recycle` starts a fresh descent from given values.

use vstd::prelude::*;

use crate::command::{Command, Tier};

verus! {

/// Mathematical model of a column: head row (may be negative while the
/// stream is above the screen), desired segment length, and glyph window.
pub ghost struct ColumnModel {
    pub head: int,
    pub target: nat,
    pub buffer: Seq<char>,
}

/// Largest value `target_length` may take; keeps every row that a command
/// mentions inside `u16` and every length inside `i16`.
pub open spec fn max_target() -> int {
    0x7fff
}

impl ColumnModel {
    /// Internal invariant: the window never outgrows the desired length,
    /// and the desired length is positive and small enough for the
    /// arithmetic of a tick.
    pub open spec fn wf(self) -> bool {
        &&& self.buffer.len() <= self.target
        &&& 1 <= self.target <= max_target()
        &&& self.head <= 0x7fff
    }
}

/// How many cells of the column are visible: the head's distance from the
/// top, capped by how many glyphs the window holds, and never negative.
pub open spec fn visible_length(head: int, buf_len: int) -> int {
    if head <= 0 {
        0
    } else if head < buf_len {
        head
    } else {
        buf_len
    }
}

/// Row of the topmost visible cell: the head minus the visible span.
pub open spec fn tail_top(head: int, buf_len: int) -> int {
    head - visible_length(head, buf_len)
}

/// The glyph window after one tick: evict the oldest glyph once the
/// window is full, then append the new one.
pub open spec fn pushed_buffer(buffer: Seq<char>, target: nat, ch: char) -> Seq<char> {
    if buffer.len() >= target {
        buffer.drop_first().push(ch)
    } else {
        buffer.push(ch)
    }
}

/// The whole state after one tick fed with glyph `ch`: head down one row,
/// window slid by one.
pub open spec fn stepped(m: ColumnModel, ch: char) -> ColumnModel {
    ColumnModel {
        head: m.head + 1,
        target: m.target,
        buffer: pushed_buffer(m.buffer, m.target, ch),
    }
}

/// The length of the glyph window after a step; it does not depend on
/// the glyph fed in.
pub open spec fn stepped_len(pre: ColumnModel) -> int {
    if pre.buffer.len() >= pre.target {
        pre.buffer.len() as int
    } else {
        pre.buffer.len() + 1int
    }
}

/// Whether a tick taken from `pre` ends with the stream fully off the
/// screen: the top of the visible segment lands strictly below the
/// bottom row. The drawn glyph plays no part in it.
pub open spec fn will_recycle(pre: ColumnModel, height: int) -> bool {
    tail_top(pre.head + 1, stepped_len(pre)) > height
}

/// The clear a tick emits, for a column already stepped: when the top of
/// the visible segment has moved below row zero, the cell one row above
/// it is blanked. At most one clear per tick.
pub open spec fn clear_commands(x: u16, m: ColumnModel) -> Seq<Command> {
    if tail_top(m.head, m.buffer.len() as int) > 0 {
        seq![Command::Clear { col: x, row: (tail_top(m.head, m.buffer.len() as int) - 1) as u16 }]
    } else {
        Seq::empty()
    }
}

/// Colour of the cell at offset `n` of a visible segment of length `vis`:
/// the last cell is the bright head, all others the trail.
pub open spec fn tier_at(vis: int, n: int) -> Tier {
    if n == vis - 1 {
        Tier::Head
    } else {
        Tier::Trail
    }
}

/// Screen row of the cell at offset `n` of the visible segment.
pub open spec fn row_at(head: int, vis: int, n: int) -> int {
    head - (vis - n)
}

/// Glyph shown at offset `n` of the visible segment: the `n`-th of the
/// last `vis` glyphs of the window.
pub open spec fn glyph_at(buffer: Seq<char>, vis: int, n: int) -> char {
    buffer[buffer.len() - vis + n]
}

/// The draws a tick emits for the first `n` offsets of the visible
/// segment, for a column already stepped. A cell below the bottom row of
/// the screen is dropped, not drawn.
pub open spec fn draw_commands_upto(x: u16, m: ColumnModel, height: int, n: int) -> Seq<Command>
    decreases n,
{
    let vis = visible_length(m.head, m.buffer.len() as int);
    if n <= 0 {
        Seq::empty()
    } else if row_at(m.head, vis, n - 1) <= height {
        draw_commands_upto(x, m, height, n - 1).push(
            Command::Draw {
                col: x,
                row: row_at(m.head, vis, n - 1) as u16,
                ch: glyph_at(m.buffer, vis, n - 1),
                tier: tier_at(vis, n - 1),
            },
        )
    } else {
        draw_commands_upto(x, m, height, n - 1)
    }
}

/// All draws of a tick: one candidate per visible offset, screen-bounded.
pub open spec fn draw_commands(x: u16, m: ColumnModel, height: int) -> Seq<Command> {
    draw_commands_upto(x, m, height, visible_length(m.head, m.buffer.len() as int))
}

/// Everything a tick emits for column `x`, clears before draws, so a
/// stale clear can never blank the freshly drawn head.
pub open spec fn tick_commands(x: u16, m: ColumnModel, height: int) -> Seq<Command> {
    clear_commands(x, m) + draw_commands(x, m, height)
}

/// One falling stream of glyphs.
pub struct Column {
    /// Row of the leading edge; negative while the stream is still above
    /// the screen, larger than the screen height while it exits.
    pub head_position: i16,
    /// Desired visible segment length; the glyph window never outgrows it.
    pub target_length: usize,
    /// Sliding window of the most recent glyphs, oldest first.
    pub buffer: Vec<char>,
}

impl View for Column {
    type V = ColumnModel;

    open spec fn view(&self) -> ColumnModel {
        ColumnModel {
            head: self.head_position as int,
            target: self.target_length as nat,
            buffer: self.buffer@,
        }
    }
}

impl Column {
    /// Internal invariant of the executable column.
    pub open spec fn wf(self) -> bool {
        self@.wf()
    }

    /// The stream has fully left the screen: the top of its visible
    /// segment lies strictly below the bottom row.
    pub fn needs_recycle(&self, height: u16) -> (r: bool)
        requires
            self.wf(),
        ensures
            r == (tail_top(self@.head, self@.buffer.len() as int) > height),
    {
        let len = self.buffer.len() as i16;
        let vis: i16 = if self.head_position <= 0 {
            0
        } else if self.head_position < len {
            self.head_position
        } else {
            len
        };
        let top: i16 = self.head_position - vis;
        top > 0 && top as u16 > height
    }

    /// One tick of this column, fed with the next glyph: the head moves
    /// down one row, the glyph window slides by one, and the screen
    /// changes of the step come back in order, clears before draws.
    pub fn tick(&mut self, x: u16, ch: char, height: u16) -> (cmds: Vec<Command>)
        requires
            old(self).wf(),
            old(self).head_position < 0x7fff,
        ensures
            final(self).wf(),
            final(self)@ == stepped(old(self)@, ch),
            cmds@ == tick_commands(x, final(self)@, height as int),
    {
        self.head_position = self.head_position + 1;
        if self.buffer.len() >= self.target_length {
            self.buffer.remove(0);
        }
        self.buffer.push(ch);
        proof {
            assert(self@.buffer =~= pushed_buffer(old(self)@.buffer, old(self)@.target, ch));
        }

        let len: i16 = self.buffer.len() as i16;
        let vis: i16 = if self.head_position <= 0 {
            0
        } else if self.head_position < len {
            self.head_position
        } else {
            len
        };
        let top: i16 = self.head_position - vis;

        let mut cmds: Vec<Command> = Vec::new();
        if top > 0 {
            cmds.push(Command::Clear { col: x, row: (top - 1) as u16 });
        }
        proof {
            assert(cmds@ =~= clear_commands(x, self@));
        }

        let ghost m = self@;
        let mut n: i16 = 0;
        while n < vis
            invariant
                self@ == m,
                self.wf(),
                0 <= n <= vis,
                vis == visible_length(m.head, m.buffer.len() as int),
                vis <= self.buffer.len(),
                cmds@ == clear_commands(x, m) + draw_commands_upto(x, m, height as int, n as int),
            decreases vis - n,
        {
            let row: i16 = self.head_position - (vis - n);
            if row as i32 <= height as i32 {
                let tier = if n == vis - 1 {
                    Tier::Head
                } else {
                    Tier::Trail
                };
                let idx: usize = self.buffer.len() - vis as usize + n as usize;
                let g = self.buffer[idx];
                proof {
                    assert(row as int == row_at(m.head, vis as int, n as int));
                    assert(g == glyph_at(m.buffer, vis as int, n as int));
                    assert(tier == tier_at(vis as int, n as int));
                }
                cmds.push(Command::Draw { col: x, row: row as u16, ch: g, tier: tier });
                proof {
                    assert(cmds@ =~= clear_commands(x, m) + draw_commands_upto(
                        x,
                        m,
                        height as int,
                        n + 1,
                    ));
                }
            } else {
                proof {
                    assert(draw_commands_upto(x, m, height as int, n + 1)
                        =~= draw_commands_upto(x, m, height as int, n as int));
                }
            }
            n = n + 1;
        }
        cmds
    }

    /// Start a fresh descent: the head reseeded above the screen, a new
    /// desired length, a new glyph window.
    pub fn recycle(&mut self, new_head: i16, new_target: usize, new_buffer: Vec<char>)
        requires
            new_head < 0,
            1 <= new_target <= max_target(),
            new_buffer.len() <= new_target,
        ensures
            final(self).wf(),
            final(self)@.head == new_head,
            final(self)@.target == new_target,
            final(self)@.buffer == new_buffer@,
    {
        self.head_position = new_head;
        self.target_length = new_target;
        self.buffer = new_buffer;
    }
}

} // verus!
