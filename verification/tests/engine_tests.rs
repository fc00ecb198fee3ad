use digital_rain::alphabet::default_alphabet;
use digital_rain::column::Column;
use digital_rain::command::{Command, Tier};
use digital_rain::engine::{advance, advance_frame, new_column, new_columns};
use digital_rain::rng::{rand_char, rand_line, RandSource};

fn fresh_column(head: i16, target: usize) -> Column {
    Column { head_position: head, target_length: target, buffer: Vec::new() }
}

fn clears(cmds: &[Command]) -> Vec<Command> {
    cmds.iter().filter(|c| matches!(c, Command::Clear { .. })).cloned().collect()
}

fn head_draws(cmds: &[Command]) -> Vec<Command> {
    cmds.iter()
        .filter(|c| matches!(c, Command::Draw { tier: Tier::Head, .. }))
        .cloned()
        .collect()
}

#[test]
fn staggered_entry_scenario() {
    // Height 5, head starting at -2, desired length 3: the column walks
    // on screen tick by tick exactly as the two-tier rule dictates.
    let mut c = fresh_column(-2, 3);

    let t1 = c.tick(0, 'a', 5);
    assert_eq!(c.head_position, -1);
    assert!(t1.is_empty());

    let t2 = c.tick(0, 'b', 5);
    assert_eq!(c.head_position, 0);
    assert!(t2.is_empty());

    let t3 = c.tick(0, 'c', 5);
    assert_eq!(t3, vec![Command::Draw { col: 0, row: 0, ch: 'c', tier: Tier::Head }]);

    let t4 = c.tick(0, 'd', 5);
    assert_eq!(
        t4,
        vec![
            Command::Draw { col: 0, row: 0, ch: 'c', tier: Tier::Trail },
            Command::Draw { col: 0, row: 1, ch: 'd', tier: Tier::Head },
        ]
    );

    let t5 = c.tick(0, 'e', 5);
    assert_eq!(
        t5,
        vec![
            Command::Draw { col: 0, row: 0, ch: 'c', tier: Tier::Trail },
            Command::Draw { col: 0, row: 1, ch: 'd', tier: Tier::Trail },
            Command::Draw { col: 0, row: 2, ch: 'e', tier: Tier::Head },
        ]
    );

    let t6 = c.tick(0, 'f', 5);
    assert_eq!(
        t6,
        vec![
            Command::Clear { col: 0, row: 0 },
            Command::Draw { col: 0, row: 1, ch: 'd', tier: Tier::Trail },
            Command::Draw { col: 0, row: 2, ch: 'e', tier: Tier::Trail },
            Command::Draw { col: 0, row: 3, ch: 'f', tier: Tier::Head },
        ]
    );
    // Eviction happened: the window still holds only the last 3 glyphs.
    assert_eq!(c.buffer, vec!['d', 'e', 'f']);
}

#[test]
fn buffer_never_outgrows_target() {
    let alphabet = default_alphabet();
    let mut rng = RandSource::from_seed(7);
    let mut c = fresh_column(-3, 6);
    for _ in 0..200 {
        advance(&mut c, 0, &alphabet, 10, &mut rng);
        assert!(c.buffer.len() <= c.target_length);
    }
}

#[test]
fn buffers_fill_while_off_screen() {
    // A column far above the screen draws nothing, yet its window keeps
    // filling, so the trail history is ready when it enters.
    let mut c = fresh_column(-10, 4);
    for k in 0..5 {
        let cmds = c.tick(2, char::from(b'a' + k), 30);
        assert!(cmds.is_empty());
    }
    assert_eq!(c.buffer, vec!['b', 'c', 'd', 'e']);
    assert_eq!(c.head_position, -5);
}

#[test]
fn one_clear_exactly_when_tail_has_passed_top() {
    let mut c = fresh_column(-1, 2);
    for g in 0..20u8 {
        let cmds = c.tick(0, char::from(b'a' + (g % 26)), 50);
        // Recompute the visible span from the state after the tick.
        let vis = (c.head_position.max(0) as usize).min(c.buffer.len());
        let tail_top = c.head_position as i32 - vis as i32;
        let expected = if tail_top > 0 { 1 } else { 0 };
        assert_eq!(clears(&cmds).len(), expected);
    }
}

#[test]
fn head_tier_goes_to_last_draw_only() {
    let mut c = fresh_column(0, 5);
    for g in 0..12u8 {
        let cmds = c.tick(3, char::from(b'a' + (g % 26)), 40);
        let draws: Vec<&Command> =
            cmds.iter().filter(|k| matches!(k, Command::Draw { .. })).collect();
        if draws.is_empty() {
            continue;
        }
        assert_eq!(head_draws(&cmds).len(), 1);
        assert!(matches!(draws.last().unwrap(), Command::Draw { tier: Tier::Head, .. }));
        for d in &draws[..draws.len() - 1] {
            assert!(matches!(d, Command::Draw { tier: Tier::Trail, .. }));
        }
    }
}

#[test]
fn exit_recycles_and_column_goes_dark() {
    let alphabet = default_alphabet();
    let mut rng = RandSource::from_seed(11);
    let height: u16 = 4;
    let mut c = fresh_column(1, 3);
    // Walk the stream fully off a short screen; the advance that sees the
    // trailing edge below the bottom row must reseed the head negative.
    let mut recycled = false;
    for _ in 0..30 {
        let before = c.head_position;
        advance(&mut c, 0, &alphabet, height, &mut rng);
        if c.head_position < before {
            recycled = true;
            assert!(c.head_position < 0);
            assert!(c.head_position >= -30);
            assert!((5..=14).contains(&c.target_length));
            assert_eq!(c.buffer.len(), c.target_length);
            break;
        }
    }
    assert!(recycled, "the stream never left the screen");
    // From the reseeded state the column emits no draw until the head
    // turns positive again.
    while c.head_position < 0 {
        let cmds = advance(&mut c, 0, &alphabet, height, &mut rng);
        if c.head_position <= 0 {
            assert!(cmds.is_empty());
        }
    }
}

#[test]
fn same_seed_same_commands() {
    let alphabet = default_alphabet();
    let height: u16 = 12;
    let mut run_one: Vec<Command> = Vec::new();
    let mut run_two: Vec<Command> = Vec::new();
    for (seed, sink) in [(42u64, &mut run_one), (42u64, &mut run_two)] {
        let mut rng = RandSource::from_seed(seed);
        let mut cols = vec![fresh_column(-2, 5), fresh_column(-7, 8), fresh_column(0, 6)];
        for _ in 0..100 {
            sink.extend(advance_frame(&mut cols, &alphabet, height, &mut rng));
        }
    }
    assert!(!run_one.is_empty());
    assert_eq!(run_one, run_two);
}

#[test]
fn different_seeds_usually_differ() {
    // A sanity check that the seed really drives the draws: with the
    // whole alphabet in play, two long runs from different seeds are not
    // expected to coincide glyph for glyph.
    let alphabet = default_alphabet();
    let mut rng_a = RandSource::from_seed(1);
    let mut rng_b = RandSource::from_seed(2);
    let line_a = rand_line(64, &alphabet, &mut rng_a);
    let line_b = rand_line(64, &alphabet, &mut rng_b);
    assert_ne!(line_a, line_b);
}

#[test]
fn single_column_matches_multi_column() {
    let alphabet = default_alphabet();
    let height: u16 = 9;
    let mut rng_frame = RandSource::from_seed(99);
    let mut rng_alone = RandSource::from_seed(99);
    let mut cols = vec![fresh_column(-1, 4)];
    let mut alone = fresh_column(-1, 4);
    for _ in 0..60 {
        let frame_cmds = advance_frame(&mut cols, &alphabet, height, &mut rng_frame);
        let alone_cmds = advance(&mut alone, 0, &alphabet, height, &mut rng_alone);
        assert_eq!(frame_cmds, alone_cmds);
        assert_eq!(cols[0].head_position, alone.head_position);
        assert_eq!(cols[0].target_length, alone.target_length);
        assert_eq!(cols[0].buffer, alone.buffer);
    }
}

#[test]
fn frame_commands_carry_column_indices() {
    let alphabet = default_alphabet();
    let mut rng = RandSource::from_seed(5);
    let mut cols: Vec<Column> = (0..4).map(|_| fresh_column(2, 3)).collect();
    let cmds = advance_frame(&mut cols, &alphabet, 20, &mut rng);
    // Every column is on screen, so every column contributes draws, and
    // each command names the column it belongs to, left to right.
    let mut seen: Vec<u16> = cmds
        .iter()
        .map(|k| match k {
            Command::Clear { col, .. } => *col,
            Command::Draw { col, .. } => *col,
        })
        .collect();
    seen.dedup();
    assert_eq!(seen, vec![0, 1, 2, 3]);
}

#[test]
fn cells_below_bottom_row_are_dropped() {
    let height: u16 = 3;
    let mut c = fresh_column(3, 3);
    c.buffer = vec!['x', 'y', 'z'];
    // After the tick the head is at row 4, so its cell sits one past the
    // bottom row index and is silently dropped; rows up to `height` stay.
    let cmds = c.tick(0, 'w', height);
    assert_eq!(
        cmds,
        vec![
            Command::Clear { col: 0, row: 0 },
            Command::Draw { col: 0, row: 1, ch: 'y', tier: Tier::Trail },
            Command::Draw { col: 0, row: 2, ch: 'z', tier: Tier::Trail },
            Command::Draw { col: 0, row: 3, ch: 'w', tier: Tier::Head },
        ]
    );
    let cmds = c.tick(0, 'v', height);
    assert_eq!(
        cmds,
        vec![
            Command::Clear { col: 0, row: 1 },
            Command::Draw { col: 0, row: 2, ch: 'z', tier: Tier::Trail },
            Command::Draw { col: 0, row: 3, ch: 'w', tier: Tier::Trail },
        ]
    );
}

#[test]
fn new_column_starts_above_screen() {
    let mut rng = RandSource::from_seed(3);
    for _ in 0..50 {
        let c = new_column(24, &mut rng);
        assert!((-24..=-1).contains(&c.head_position));
        assert!((5..=14).contains(&c.target_length));
        assert!(c.buffer.is_empty());
    }
}

#[test]
fn new_columns_covers_width() {
    let mut rng = RandSource::from_seed(6);
    let cols = new_columns(80, 24, &mut rng);
    assert_eq!(cols.len(), 80);
    for c in &cols {
        assert!((-24..=-1).contains(&c.head_position));
        assert!((5..=14).contains(&c.target_length));
        assert!(c.buffer.is_empty());
    }
}

#[test]
fn alphabet_holds_both_character_classes() {
    let a = default_alphabet();
    assert_eq!(a.len(), 150);
    assert_eq!(a[0], '\u{ff66}');
    assert_eq!(a[55], '\u{ff9d}');
    assert_eq!(a[56], '!');
    assert_eq!(a[149], '~');
}

#[test]
fn rand_char_draws_from_candidates() {
    let mut rng = RandSource::from_seed(8);
    let candidates = vec!['q', 'r', 's'];
    for _ in 0..40 {
        let c = rand_char(&candidates, &mut rng);
        assert!(candidates.contains(&c));
    }
    // With a single candidate the draw is pinned: the sampler really
    // consulted the set, it did not echo an input back.
    let lone = vec!['k'];
    assert_eq!(rand_char(&lone, &mut rng), 'k');
}

#[test]
fn rand_line_length_and_contents() {
    let mut rng = RandSource::from_seed(9);
    let candidates = vec!['m', 'n'];
    let line = rand_line(17, &candidates, &mut rng);
    assert_eq!(line.len(), 17);
    assert!(line.iter().all(|c| candidates.contains(c)));
}

#[test]
fn sampler_bounds_are_inclusive() {
    let mut rng = RandSource::from_seed(10);
    assert_eq!(rng.index_below(1), 0);
    assert_eq!(rng.i16_between(-5, -5), -5);
    assert_eq!(rng.usize_between(9, 9), 9);
    for _ in 0..100 {
        let v = rng.i16_between(-30, -1);
        assert!((-30..=-1).contains(&v));
        let w = rng.usize_between(5, 14);
        assert!((5..=14).contains(&w));
        let u = rng.index_below(150);
        assert!(u < 150);
    }
}

#[test]
fn empty_frame_emits_nothing() {
    let alphabet = default_alphabet();
    let mut rng = RandSource::from_seed(4);
    let mut cols: Vec<Column> = Vec::new();
    let cmds = advance_frame(&mut cols, &alphabet, 10, &mut rng);
    assert!(cmds.is_empty());
    assert!(cols.is_empty());
}

#[test]
fn shortest_target_length_still_flows() {
    let mut c = fresh_column(0, 1);
    let t1 = c.tick(0, 'a', 5);
    assert_eq!(t1, vec![Command::Draw { col: 0, row: 0, ch: 'a', tier: Tier::Head }]);
    let t2 = c.tick(0, 'b', 5);
    assert_eq!(
        t2,
        vec![
            Command::Clear { col: 0, row: 0 },
            Command::Draw { col: 0, row: 1, ch: 'b', tier: Tier::Head },
        ]
    );
    assert_eq!(c.buffer, vec!['b']);
}
