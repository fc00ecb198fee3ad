//! The engine's laws, each stated over the spec functions that the
//! executable contracts use and proved once and for all.

use vstd::prelude::*;

use crate::column::{
    clear_commands, draw_commands, draw_commands_upto, glyph_at, pushed_buffer, row_at, stepped,
    stepped_len, tail_top, tick_commands, tier_at, visible_length, will_recycle, ColumnModel,
};
use crate::command::{clear_count, draw_count_in_tier, Command, Tier};
use crate::engine::{
    advance_rel, advance_rel_with, concat_all, frame_rel, recycle_depth, recycled_ok,
};

verus! {

/// After a tick the glyph window still fits the desired length: sliding
/// the window never lets it outgrow its cap.
pub proof fn lemma_capacity_preserved(m: ColumnModel, ch: char)
    requires
        m.wf(),
    ensures
        stepped(m, ch).buffer.len() <= stepped(m, ch).target,
{
}

/// The visible span is the head's distance from the top capped by the
/// window, clamped below at zero; it never goes negative and never
/// exceeds the desired length.
pub proof fn lemma_visible_length_bounds(m: ColumnModel)
    requires
        m.wf(),
    ensures
        0 <= visible_length(m.head, m.buffer.len() as int),
        visible_length(m.head, m.buffer.len() as int) <= m.target,
        visible_length(m.head, m.buffer.len() as int) == if (if m.head <= m.buffer.len() {
            m.head
        } else {
            m.buffer.len() as int
        }) <= 0 {
            0int
        } else {
            if m.head <= m.buffer.len() {
                m.head
            } else {
                m.buffer.len() as int
            }
        },
{
}

/// Clears count through concatenation.
proof fn lemma_clear_count_add(a: Seq<Command>, b: Seq<Command>)
    ensures
        clear_count(a + b) == clear_count(a) + clear_count(b),
    decreases b.len(),
{
    if b.len() == 0 {
        assert(a + b =~= a);
    } else {
        lemma_clear_count_add(a, b.drop_last());
        assert((a + b).drop_last() =~= a + b.drop_last());
    }
}

/// The draw part of a tick holds no clear at all.
proof fn lemma_draws_hold_no_clear(x: u16, m: ColumnModel, height: int, n: int)
    ensures
        clear_count(draw_commands_upto(x, m, height, n)) == 0,
    decreases n,
{
    if n > 0 {
        lemma_draws_hold_no_clear(x, m, height, n - 1);
        let prev = draw_commands_upto(x, m, height, n - 1);
        let vis = visible_length(m.head, m.buffer.len() as int);
        if row_at(m.head, vis, n - 1) <= height {
            let cmd = Command::Draw {
                col: x,
                row: row_at(m.head, vis, n - 1) as u16,
                ch: glyph_at(m.buffer, vis, n - 1),
                tier: tier_at(vis, n - 1),
            };
            assert(prev.push(cmd).drop_last() =~= prev);
            assert(prev.push(cmd).last() == cmd);
        }
    } else {
        assert(clear_count(Seq::<Command>::empty()) == 0);
    }
}

/// Exactly one clear is emitted per tick when the top of the visible
/// segment has passed row zero, and none otherwise.
pub proof fn lemma_one_clear_per_tick(x: u16, m: ColumnModel, height: int)
    ensures
        clear_count(tick_commands(x, m, height)) == if tail_top(
            m.head,
            m.buffer.len() as int,
        ) > 0 {
            1int
        } else {
            0int
        },
{
    let c = clear_commands(x, m);
    let d = draw_commands(x, m, height);
    lemma_clear_count_add(c, d);
    lemma_draws_hold_no_clear(x, m, height, visible_length(m.head, m.buffer.len() as int));
    assert(clear_count(Seq::<Command>::empty()) == 0);
    if tail_top(m.head, m.buffer.len() as int) > 0 {
        assert(c.drop_last() =~= Seq::<Command>::empty());
        assert(c.last() is Clear);
        assert(clear_count(c) == 1);
    }
}

/// Up to the last visible offset, every draw of a tick is in the trail
/// tier.
proof fn lemma_draws_upto_are_trail(x: u16, m: ColumnModel, height: int, n: int)
    requires
        n <= visible_length(m.head, m.buffer.len() as int) - 1,
    ensures
        draw_count_in_tier(draw_commands_upto(x, m, height, n), Tier::Head) == 0,
        draw_count_in_tier(draw_commands_upto(x, m, height, n), Tier::Trail)
            == draw_commands_upto(x, m, height, n).len(),
    decreases n,
{
    if n > 0 {
        lemma_draws_upto_are_trail(x, m, height, n - 1);
        let prev = draw_commands_upto(x, m, height, n - 1);
        let vis = visible_length(m.head, m.buffer.len() as int);
        if row_at(m.head, vis, n - 1) <= height {
            let cmd = Command::Draw {
                col: x,
                row: row_at(m.head, vis, n - 1) as u16,
                ch: glyph_at(m.buffer, vis, n - 1),
                tier: tier_at(vis, n - 1),
            };
            assert(tier_at(vis, n - 1) == Tier::Trail);
            assert(prev.push(cmd).drop_last() =~= prev);
            assert(prev.push(cmd).last() == cmd);
        }
    } else {
        assert(draw_count_in_tier(Seq::<Command>::empty(), Tier::Head) == 0);
        assert(draw_count_in_tier(Seq::<Command>::empty(), Tier::Trail) == 0);
    }
}

/// The bright tier goes to exactly one drawn cell of a non-empty visible
/// segment whose head row is still on the screen: the last one, at the
/// head's row; every other drawn cell uses the trail tier.
pub proof fn lemma_head_tier_once(x: u16, m: ColumnModel, height: int)
    requires
        visible_length(m.head, m.buffer.len() as int) > 0,
        m.head - 1 <= height,
    ensures
        draw_count_in_tier(draw_commands(x, m, height), Tier::Head) == 1,
        draw_count_in_tier(draw_commands(x, m, height), Tier::Trail) == draw_commands(
            x,
            m,
            height,
        ).len() - 1,
        draw_commands(x, m, height).last() == (Command::Draw {
            col: x,
            row: (m.head - 1) as u16,
            ch: m.buffer[m.buffer.len() - 1],
            tier: Tier::Head,
        }),
{
    let vis = visible_length(m.head, m.buffer.len() as int);
    lemma_draws_upto_are_trail(x, m, height, vis - 1);
    let prev = draw_commands_upto(x, m, height, vis - 1);
    let cmd = Command::Draw {
        col: x,
        row: (m.head - 1) as u16,
        ch: m.buffer[m.buffer.len() - 1],
        tier: Tier::Head,
    };
    assert(row_at(m.head, vis, vis - 1) == m.head - 1);
    assert(glyph_at(m.buffer, vis, vis - 1) == m.buffer[m.buffer.len() - 1]);
    assert(tier_at(vis, vis - 1) == Tier::Head);
    assert(draw_commands_upto(x, m, height, vis) == prev.push(cmd));
    assert(prev.push(cmd).drop_last() =~= prev);
    assert(prev.push(cmd).last() == cmd);
}

/// A column whose head has not yet passed the top row changes nothing on
/// the screen: no clear and no draw at all.
pub proof fn lemma_offscreen_column_is_silent(x: u16, m: ColumnModel, height: int)
    requires
        m.head <= 0,
    ensures
        tick_commands(x, m, height) =~= Seq::<Command>::empty(),
{
    assert(visible_length(m.head, m.buffer.len() as int) == 0);
}

/// After a recycle the column is dark again: a tick taken from any state
/// whose head is still negative emits nothing, whatever glyph it is fed,
/// until the head turns positive.
pub proof fn lemma_dark_until_visible(pre: ColumnModel, ch: char, x: u16, height: int)
    requires
        pre.head <= -1,
    ensures
        tick_commands(x, stepped(pre, ch), height) =~= Seq::<Command>::empty(),
{
    lemma_offscreen_column_is_silent(x, stepped(pre, ch), height);
}

/// Once the trailing edge has passed the bottom of the screen, the
/// advance that observes it resets the head to a negative row within the
/// recycle depth, so the column starts a fresh descent above the screen.
pub proof fn lemma_exit_triggers_recycle(
    pre: ColumnModel,
    post: ColumnModel,
    cmds: Seq<Command>,
    x: u16,
    height: int,
    alphabet: Seq<char>,
)
    requires
        pre.wf(),
        advance_rel(pre, post, cmds, x, height, alphabet),
        will_recycle(pre, height),
    ensures
        -recycle_depth() <= post.head <= -1,
        recycled_ok(post, alphabet),
{
    let ch = choose|ch: char| advance_rel_with(pre, post, cmds, x, height, alphabet, ch);
    assert(stepped(pre, ch).buffer == pushed_buffer(pre.buffer, pre.target, ch));
    if pre.buffer.len() >= pre.target {
        assert(pushed_buffer(pre.buffer, pre.target, ch) == pre.buffer.drop_first().push(ch));
        assert(pre.buffer.drop_first().len() == pre.buffer.len() - 1);
    }
    assert(stepped(pre, ch).buffer.len() == stepped_len(pre));
}

/// Identical glyph choices give identical outcomes: the commands of an
/// advance are a function of the starting state, the glyph, the column
/// index and the screen height alone, and so is the new state whenever
/// the tick does not end in a recycle.
pub proof fn lemma_same_glyphs_same_commands(
    pre: ColumnModel,
    post1: ColumnModel,
    cmds1: Seq<Command>,
    post2: ColumnModel,
    cmds2: Seq<Command>,
    x: u16,
    height: int,
    alphabet: Seq<char>,
    ch: char,
)
    requires
        pre.wf(),
        advance_rel_with(pre, post1, cmds1, x, height, alphabet, ch),
        advance_rel_with(pre, post2, cmds2, x, height, alphabet, ch),
    ensures
        cmds1 == cmds2,
        !will_recycle(pre, height) ==> post1 == post2,
{
    assert(stepped(pre, ch).buffer == pushed_buffer(pre.buffer, pre.target, ch));
    if pre.buffer.len() >= pre.target {
        assert(pushed_buffer(pre.buffer, pre.target, ch) == pre.buffer.drop_first().push(ch));
        assert(pre.buffer.drop_first().len() == pre.buffer.len() - 1);
    }
    assert(stepped(pre, ch).buffer.len() == stepped_len(pre));
}

/// A frame of width one behaves exactly as its single column advanced
/// alone: the whole frame's commands are that column's commands.
pub proof fn lemma_single_column_frame(
    pre: Seq<ColumnModel>,
    post: Seq<ColumnModel>,
    chunks: Seq<Seq<Command>>,
    height: int,
    alphabet: Seq<char>,
)
    requires
        pre.len() == 1,
        frame_rel(pre, post, chunks, height, alphabet),
    ensures
        advance_rel(pre[0], post[0], concat_all(chunks), 0u16, height, alphabet),
{
    assert(advance_rel(pre[0], post[0], chunks[0], 0u16, height, alphabet));
    assert(chunks.drop_last() =~= Seq::<Seq<Command>>::empty());
    assert(concat_all(Seq::<Seq<Command>>::empty()) =~= Seq::<Command>::empty());
    assert(concat_all(chunks) == concat_all(chunks.drop_last()) + chunks.last());
    assert(chunks.last() == chunks[0]);
    assert(concat_all(chunks) =~= chunks[0]);
}

} // verus!
