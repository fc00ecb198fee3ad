//! The random-driven engine: create columns, advance one column or a
//! whole frame of them by a tick, drawing glyphs and reseed values from
//! the injected randomness capability.
//!
//! The deterministic part of a tick is pinned exactly by `tick` in the
//! column module; what is stated here is what holds of every outcome of
//! the random draws.

use vstd::prelude::*;

use crate::column::{
    pushed_buffer, stepped, stepped_len, tail_top, tick_commands, will_recycle, Column, ColumnModel,
};
use crate::command::Command;
use crate::rng::{rand_char, rand_line, RandSource};

verus! {

/// Smallest desired segment length a reseed may draw.
pub open spec fn min_reseed_target() -> int {
    5
}

/// Largest desired segment length a reseed may draw.
pub open spec fn max_reseed_target() -> int {
    14
}

/// How far above the screen a recycled head may restart.
pub open spec fn recycle_depth() -> int {
    30
}

/// Every glyph of `buffer` comes from `alphabet`.
pub open spec fn drawn_from(alphabet: Seq<char>, buffer: Seq<char>) -> bool {
    forall|i: int| 0 <= i < buffer.len() ==> alphabet.contains(#[trigger] buffer[i])
}

/// What any freshly recycled column looks like: a negative head within
/// the recycle depth, a small desired length, and a full window of
/// glyphs from the alphabet.
pub open spec fn recycled_ok(post: ColumnModel, alphabet: Seq<char>) -> bool {
    &&& post.wf()
    &&& -recycle_depth() <= post.head <= -1
    &&& min_reseed_target() <= post.target <= max_reseed_target()
    &&& post.buffer.len() == post.target
    &&& drawn_from(alphabet, post.buffer)
}

/// One advance of column `x`, with the drawn glyph made explicit: the
/// commands are exactly those of the deterministic tick fed with `ch`,
/// and the new state is the stepped one — unless the stream has fully
/// left the screen, in which case it is some freshly recycled state.
pub open spec fn advance_rel_with(
    pre: ColumnModel,
    post: ColumnModel,
    cmds: Seq<Command>,
    x: u16,
    height: int,
    alphabet: Seq<char>,
    ch: char,
) -> bool {
    let mid = stepped(pre, ch);
    &&& alphabet.contains(ch)
    &&& cmds == tick_commands(x, mid, height)
    &&& if tail_top(mid.head, mid.buffer.len() as int) > height {
        recycled_ok(post, alphabet)
    } else {
        post == mid
    }
}

/// One advance of column `x`: as `advance_rel_with`, for some glyph of
/// the alphabet.
pub open spec fn advance_rel(
    pre: ColumnModel,
    post: ColumnModel,
    cmds: Seq<Command>,
    x: u16,
    height: int,
    alphabet: Seq<char>,
) -> bool {
    exists|ch: char| advance_rel_with(pre, post, cmds, x, height, alphabet, ch)
}

/// A column as it starts the very first descent: head staggered
/// somewhere in the screen-height band above the top row, a small
/// desired length, and an empty window.
pub fn new_column(height: u16, rng: &mut RandSource) -> (c: Column)
    requires
        height >= 1,
    ensures
        c.wf(),
        -(height as int) <= c@.head <= -1,
        min_reseed_target() <= c@.target <= max_reseed_target(),
        c@.buffer.len() == 0,
{
    let band: i16 = if height > 0x7fff {
        0x7fff
    } else {
        height as i16
    };
    let head = rng.i16_between(-band, -1);
    let target = rng.usize_between(5, 14);
    Column { head_position: head, target_length: target, buffer: Vec::new() }
}

/// One column per character-width unit of the screen, each starting its
/// own staggered descent.
pub fn new_columns(width: usize, height: u16, rng: &mut RandSource) -> (cols: Vec<Column>)
    requires
        height >= 1,
    ensures
        cols@.len() == width,
        forall|i: int|
            0 <= i < cols@.len() ==> (#[trigger] cols@[i]).wf() && -(height as int)
                <= cols@[i]@.head <= -1 && min_reseed_target() <= cols@[i]@.target
                <= max_reseed_target() && cols@[i]@.buffer.len() == 0,
{
    let mut cols: Vec<Column> = Vec::new();
    let mut k: usize = 0;
    while k < width
        invariant
            height >= 1,
            k <= width,
            cols@.len() == k,
            forall|i: int|
                0 <= i < cols@.len() ==> (#[trigger] cols@[i]).wf() && -(height as int)
                    <= cols@[i]@.head <= -1 && min_reseed_target() <= cols@[i]@.target
                    <= max_reseed_target() && cols@[i]@.buffer.len() == 0,
        decreases width - k,
    {
        let c = new_column(height, rng);
        cols.push(c);
        k = k + 1;
    }
    cols
}

/// Advance one column by a tick: feed it a random glyph, collect the
/// commands of the step, and recycle it once its stream has fully left
/// the screen. Whatever the draws, the result is related to the old
/// state by `advance_rel`.
pub fn advance(
    col: &mut Column,
    x: u16,
    alphabet: &Vec<char>,
    height: u16,
    rng: &mut RandSource,
) -> (cmds: Vec<Command>)
    requires
        old(col).wf(),
        old(col).head_position < 0x7fff,
        alphabet@.len() > 0,
    ensures
        final(col).wf(),
        advance_rel(old(col)@, final(col)@, cmds@, x, height as int, alphabet@),
        will_recycle(old(col)@, height as int) ==> recycled_ok(final(col)@, alphabet@),
        !will_recycle(old(col)@, height as int) ==> final(col)@.head == old(col)@.head + 1
            && final(col)@.target == old(col)@.target,
{
    let ch = rand_char(alphabet, rng);
    let cmds = col.tick(x, ch, height);
    proof {
        if old(col)@.buffer.len() >= old(col)@.target {
            assert(pushed_buffer(old(col)@.buffer, old(col)@.target, ch) == old(
                col,
            )@.buffer.drop_first().push(ch));
        }
        assert(stepped(old(col)@, ch).buffer.len() == stepped_len(old(col)@));
    }
    if col.needs_recycle(height) {
        let new_head = rng.i16_between(-30, -1);
        let new_target = rng.usize_between(5, 14);
        let new_buffer = rand_line(new_target as u32, alphabet, rng);
        col.recycle(new_head, new_target, new_buffer);
    }
    proof {
        assert(advance_rel_with(old(col)@, col@, cmds@, x, height as int, alphabet@, ch));
    }
    cmds
}

/// The commands of a frame, flattened in column order.
pub open spec fn concat_all(chunks: Seq<Seq<Command>>) -> Seq<Command>
    decreases chunks.len(),
{
    if chunks.len() == 0 {
        Seq::empty()
    } else {
        concat_all(chunks.drop_last()) + chunks.last()
    }
}

/// The models of a row of columns.
pub open spec fn col_models(cols: Seq<Column>) -> Seq<ColumnModel> {
    Seq::new(cols.len(), |i: int| cols[i]@)
}

/// One frame advance: every column advanced once, each against its own
/// column index, the per-column command chunks standing side by side.
pub open spec fn frame_rel(
    pre: Seq<ColumnModel>,
    post: Seq<ColumnModel>,
    chunks: Seq<Seq<Command>>,
    height: int,
    alphabet: Seq<char>,
) -> bool {
    &&& post.len() == pre.len()
    &&& chunks.len() == pre.len()
    &&& forall|i: int|
        0 <= i < pre.len() ==> advance_rel(pre[i], post[i], chunks[i], i as u16, height, alphabet)
}

/// Advance every column of a frame by one tick, left to right, and
/// return all their commands in that order.
pub fn advance_frame(
    cols: &mut Vec<Column>,
    alphabet: &Vec<char>,
    height: u16,
    rng: &mut RandSource,
) -> (cmds: Vec<Command>)
    requires
        alphabet@.len() > 0,
        old(cols)@.len() <= 0xffff,
        forall|i: int|
            0 <= i < old(cols)@.len() ==> (#[trigger] old(cols)@[i]).wf() && old(
                cols,
            )@[i].head_position < 0x7fff,
    ensures
        final(cols)@.len() == old(cols)@.len(),
        forall|i: int| 0 <= i < final(cols)@.len() ==> (#[trigger] final(cols)@[i]).wf(),
        exists|chunks: Seq<Seq<Command>>|
            #[trigger] frame_rel(
                col_models(old(cols)@),
                col_models(final(cols)@),
                chunks,
                height as int,
                alphabet@,
            ) && cmds@ == concat_all(chunks),
{
    let ghost pre = col_models(old(cols)@);
    let ghost mut chunks: Seq<Seq<Command>> = Seq::empty();
    let mut cmds: Vec<Command> = Vec::new();
    let mut x: usize = 0;
    while x < cols.len()
        invariant
            alphabet@.len() > 0,
            x <= cols@.len(),
            cols@.len() == pre.len(),
            pre.len() <= 0xffff,
            pre == col_models(old(cols)@),
            chunks.len() == x,
            cmds@ == concat_all(chunks),
            forall|i: int|
                x <= i < cols@.len() ==> cols@[i] == old(cols)@[i] && (#[trigger] cols@[i]).wf()
                    && cols@[i].head_position < 0x7fff,
            forall|i: int| 0 <= i < x ==> (#[trigger] cols@[i]).wf(),
            forall|i: int|
                0 <= i < x ==> advance_rel(
                    pre[i],
                    cols@[i]@,
                    #[trigger] chunks[i],
                    i as u16,
                    height as int,
                    alphabet@,
                ),
        decreases cols@.len() - x,
    {
        let mut c = cols.remove(x);
        let mut chunk = advance(&mut c, x as u16, alphabet, height, rng);
        let ghost chunk_view = chunk@;
        cols.insert(x, c);
        cmds.append(&mut chunk);
        proof {
            let old_chunks = chunks;
            chunks = chunks.push(chunk_view);
            assert(chunks.drop_last() =~= old_chunks);
            assert(cmds@ =~= concat_all(chunks));
        }
        x = x + 1;
    }
    proof {
        assert(col_models(cols@) =~= Seq::new(pre.len(), |i: int| cols@[i]@));
        assert(frame_rel(pre, col_models(cols@), chunks, height as int, alphabet@));
    }
    cmds
}

} // verus!
