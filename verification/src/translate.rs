//! The wave-to-path translator: turns one signal's level sequence into a
//! continuous polyline drawing program on a fixed unit grid, where one
//! period unit is `PERIOD_WIDTH` pixels wide and the full logic swing is
//! `WAVE_HEIGHT` milli-pixels tall.

use vstd::prelude::*;

use crate::document::{commands_view, PathCommand, PathCommandV};
use crate::error::ComposeError;
use crate::layout::{PERIOD_WIDTH, WAVE_HEIGHT};
use crate::signal::{signal_fits, Level, Signal, SignalV};

verus! {

/// Whether the translator supports every level of the wave: `Idle` is the
/// one level it refuses.
pub open spec fn wave_supported(levels: Seq<Level>) -> bool {
    forall|i: int| 0 <= i < levels.len() ==> levels[i] != Level::Idle
}

/// The rail the path starts on: `High` and `Down` resolve to the high
/// rail, every other first level to the low rail.
pub open spec fn spec_start_rail(levels: Seq<Level>) -> Level {
    if levels.len() > 0 && (levels[0] == Level::High || levels[0] == Level::Down) {
        Level::High
    } else {
        Level::Low
    }
}

/// The height of a rail: the high rail sits at zero, the low rail a full
/// logic swing further down.
pub open spec fn spec_rail_y(rail: Level) -> int {
    if rail == Level::High {
        0
    } else {
        WAVE_HEIGHT as int
    }
}

/// The rail the path sits on after drawing a level.
pub open spec fn spec_next_rail(rail: Level, level: Level) -> Level {
    match level {
        Level::Low => Level::Low,
        Level::High => Level::High,
        Level::Up => Level::High,
        Level::Down => Level::Low,
        Level::Idle => rail,
    }
}

/// The commands one level slot contributes, entered on `rail`:
/// - the current rail's steady state: one flat segment;
/// - the other steady state: a step to the other rail, then a flat
///   segment;
/// - `Up`: half a slot flat at the low rail, a rising edge, half a slot
///   flat at the high rail;
/// - `Down`: the mirror image of `Up`;
/// - `Idle`: nothing — the translator refuses it before this spec is
///   reached.
pub open spec fn spec_level_commands(rail: Level, level: Level, period: int) -> Seq<
    PathCommandV,
> {
    let w = period * (PERIOD_WIDTH as int);
    let half = period * ((PERIOD_WIDTH as int) / 2);
    if level == rail {
        seq![PathCommandV::HorizontalBy { dx: w }]
    } else {
        match level {
            Level::Low => seq![
                PathCommandV::VerticalBy { dy: WAVE_HEIGHT as int },
                PathCommandV::HorizontalBy { dx: w },
            ],
            Level::High => seq![
                PathCommandV::VerticalBy { dy: -(WAVE_HEIGHT as int) },
                PathCommandV::HorizontalBy { dx: w },
            ],
            Level::Up => seq![
                PathCommandV::VerticalTo { y: WAVE_HEIGHT as int },
                PathCommandV::HorizontalBy { dx: half },
                PathCommandV::VerticalBy { dy: -(WAVE_HEIGHT as int) },
                PathCommandV::HorizontalBy { dx: half },
            ],
            Level::Down => seq![
                PathCommandV::VerticalTo { y: 0 },
                PathCommandV::HorizontalBy { dx: half },
                PathCommandV::VerticalBy { dy: WAVE_HEIGHT as int },
                PathCommandV::HorizontalBy { dx: half },
            ],
            Level::Idle => Seq::empty(),
        }
    }
}

/// The commands a whole level sequence contributes, entered on `rail`.
pub open spec fn spec_wave_commands(levels: Seq<Level>, rail: Level, period: int) -> Seq<
    PathCommandV,
>
    decreases levels,
{
    if levels.len() == 0 {
        Seq::empty()
    } else {
        spec_level_commands(rail, levels[0], period) + spec_wave_commands(
            levels.drop_first(),
            spec_next_rail(rail, levels[0]),
            period,
        )
    }
}

/// The whole drawing program of a signal: a move to the start rail, the
/// phase offset where there is one, then the levels in order.
pub open spec fn spec_signal_commands(s: SignalV) -> Seq<PathCommandV> {
    let rail = spec_start_rail(s.levels);
    let head = seq![PathCommandV::Move { x: 0, y: spec_rail_y(rail) }];
    let phased = if s.phase != 0 {
        head.push(PathCommandV::HorizontalBy { dx: s.phase * (PERIOD_WIDTH as int) })
    } else {
        head
    };
    phased + spec_wave_commands(s.levels, rail, s.period)
}

/// Translates one signal into its polyline drawing program.
///
/// Returns the typed `UnsupportedLevel` error — and draws nothing — if
/// and only if the wave holds an `Idle` level.
pub fn signal_commands(sig: &Signal) -> (r: Result<Vec<PathCommand>, ComposeError>)
    requires
        signal_fits(sig@),
    ensures
        match r {
            Ok(cmds) => wave_supported(sig@.levels) && commands_view(cmds@)
                == spec_signal_commands(sig@),
            Err(e) => !wave_supported(sig@.levels) && e == ComposeError::UnsupportedLevel,
        },
{
    let ghost s = sig@;
    let mut out: Vec<PathCommand> = Vec::new();
    let mut rail: Level = Level::Low;
    if sig.wave.levels.len() > 0 {
        let first = sig.wave.levels[0];
        if first == Level::High || first == Level::Down {
            rail = Level::High;
        }
    }
    let y0: i64 = if rail == Level::High {
        0
    } else {
        WAVE_HEIGHT
    };
    out.push(PathCommand::Move { x: 0, y: y0 });
    if sig.phase != 0 {
        out.push(PathCommand::HorizontalBy { dx: sig.phase * PERIOD_WIDTH });
    }
    proof {
        assert(rail == spec_start_rail(s.levels));
        let head = seq![PathCommandV::Move { x: 0, y: spec_rail_y(rail) }];
        let phased = if s.phase != 0 {
            head.push(PathCommandV::HorizontalBy { dx: s.phase * (PERIOD_WIDTH as int) })
        } else {
            head
        };
        assert(commands_view(out@) =~= phased);
        assert(s.levels.skip(0) =~= s.levels);
        assert(commands_view(out@) + spec_wave_commands(s.levels.skip(0), rail, s.period)
            == spec_signal_commands(s));
    }
    let w: i64 = sig.period * PERIOD_WIDTH;
    let half: i64 = sig.period * (PERIOD_WIDTH / 2);
    let n = sig.wave.levels.len();
    let mut i: usize = 0;
    while i < n
        invariant
            signal_fits(s),
            s == sig@,
            n == s.levels.len(),
            0 <= i <= n,
            w == s.period * (PERIOD_WIDTH as int),
            half == s.period * ((PERIOD_WIDTH as int) / 2),
            rail == Level::Low || rail == Level::High,
            forall|j: int| 0 <= j < i ==> s.levels[j] != Level::Idle,
            commands_view(out@) + spec_wave_commands(s.levels.skip(i as int), rail, s.period)
                == spec_signal_commands(s),
        decreases n - i,
    {
        let level = sig.wave.levels[i];
        let ghost rest = s.levels.skip(i as int);
        let ghost rail0 = rail;
        proof {
            assert(rest.len() > 0);
            assert(rest[0] == s.levels[i as int]);
            assert(rest.drop_first() =~= s.levels.skip(i as int + 1));
        }
        let ghost before = commands_view(out@);
        if level == rail {
            out.push(PathCommand::HorizontalBy { dx: w });
        } else {
            match level {
                Level::Low => {
                    out.push(PathCommand::VerticalBy { dy: WAVE_HEIGHT });
                    out.push(PathCommand::HorizontalBy { dx: w });
                    rail = Level::Low;
                },
                Level::High => {
                    out.push(PathCommand::VerticalBy { dy: -WAVE_HEIGHT });
                    out.push(PathCommand::HorizontalBy { dx: w });
                    rail = Level::High;
                },
                Level::Up => {
                    out.push(PathCommand::VerticalTo { y: WAVE_HEIGHT });
                    out.push(PathCommand::HorizontalBy { dx: half });
                    out.push(PathCommand::VerticalBy { dy: -WAVE_HEIGHT });
                    out.push(PathCommand::HorizontalBy { dx: half });
                    rail = Level::High;
                },
                Level::Down => {
                    out.push(PathCommand::VerticalTo { y: 0 });
                    out.push(PathCommand::HorizontalBy { dx: half });
                    out.push(PathCommand::VerticalBy { dy: WAVE_HEIGHT });
                    out.push(PathCommand::HorizontalBy { dx: half });
                    rail = Level::Low;
                },
                Level::Idle => {
                    proof {
                        assert(s.levels[i as int] == Level::Idle);
                    }
                    return Err(ComposeError::UnsupportedLevel);
                },
            }
        }
        proof {
            assert(rail == spec_next_rail(rail0, rest[0]));
            assert(commands_view(out@) =~= before + spec_level_commands(rail0, rest[0], s.period));
            assert(spec_wave_commands(rest, rail0, s.period) == spec_level_commands(
                rail0,
                rest[0],
                s.period,
            ) + spec_wave_commands(rest.drop_first(), rail, s.period));
            assert(commands_view(out@) + spec_wave_commands(s.levels.skip(i as int + 1), rail, s.period)
                =~= before + spec_wave_commands(rest, rail0, s.period));
        }
        i = i + 1;
    }
    proof {
        assert(s.levels.skip(n as int) =~= Seq::<Level>::empty());
        assert(commands_view(out@) + Seq::<PathCommandV>::empty() =~= commands_view(out@));
    }
    Ok(out)
}

/// The total horizontal extent of a drawing program: the sum of its
/// horizontal segments.
pub open spec fn spec_x_extent(cmds: Seq<PathCommandV>) -> int
    decreases cmds,
{
    if cmds.len() == 0 {
        0
    } else {
        (match cmds[0] {
            PathCommandV::HorizontalBy { dx } => dx,
            _ => 0,
        }) + spec_x_extent(cmds.drop_first())
    }
}

/// The pen height after one command, starting from `y`.
pub open spec fn spec_step_y(y: int, c: PathCommandV) -> int {
    match c {
        PathCommandV::Move { y: ny, .. } => ny,
        PathCommandV::HorizontalBy { .. } => y,
        PathCommandV::VerticalBy { dy } => y + dy,
        PathCommandV::VerticalTo { y: ny } => ny,
    }
}

/// The pen height after a whole drawing program, starting from `y`.
pub open spec fn spec_y_after(cmds: Seq<PathCommandV>, y: int) -> int
    decreases cmds,
{
    if cmds.len() == 0 {
        y
    } else {
        spec_y_after(cmds.drop_first(), spec_step_y(y, cmds[0]))
    }
}

/// Whether every height the pen reaches lies within `[lo, hi]`.
pub open spec fn spec_path_within(cmds: Seq<PathCommandV>, y: int, lo: int, hi: int) -> bool
    decreases cmds,
{
    if cmds.len() == 0 {
        true
    } else {
        let y1 = spec_step_y(y, cmds[0]);
        lo <= y1 <= hi && spec_path_within(cmds.drop_first(), y1, lo, hi)
    }
}

/// Whether the pen never moves leftwards: every horizontal segment is
/// drawn to the right.
pub open spec fn spec_x_monotonic(cmds: Seq<PathCommandV>) -> bool {
    forall|i: int|
        0 <= i < cmds.len() ==> match #[trigger] cmds[i] {
            PathCommandV::HorizontalBy { dx } => dx >= 0,
            _ => true,
        }
}

proof fn lemma_x_extent_concat(a: Seq<PathCommandV>, b: Seq<PathCommandV>)
    ensures
        spec_x_extent(a + b) == spec_x_extent(a) + spec_x_extent(b),
    decreases a,
{
    if a.len() == 0 {
        assert(a + b =~= b);
    } else {
        assert((a + b).drop_first() =~= a.drop_first() + b);
        lemma_x_extent_concat(a.drop_first(), b);
    }
}

proof fn lemma_y_after_concat(a: Seq<PathCommandV>, b: Seq<PathCommandV>, y: int)
    ensures
        spec_y_after(a + b, y) == spec_y_after(b, spec_y_after(a, y)),
    decreases a,
{
    if a.len() == 0 {
        assert(a + b =~= b);
    } else {
        assert((a + b).drop_first() =~= a.drop_first() + b);
        lemma_y_after_concat(a.drop_first(), b, spec_step_y(y, a[0]));
    }
}

proof fn lemma_path_within_concat(a: Seq<PathCommandV>, b: Seq<PathCommandV>, y: int, lo: int, hi: int)
    requires
        spec_path_within(a, y, lo, hi),
        spec_path_within(b, spec_y_after(a, y), lo, hi),
    ensures
        spec_path_within(a + b, y, lo, hi),
    decreases a,
{
    if a.len() == 0 {
        assert(a + b =~= b);
    } else {
        assert((a + b).drop_first() =~= a.drop_first() + b);
        lemma_y_after_concat(a.drop_first(), b, spec_step_y(y, a[0]));
        lemma_path_within_concat(a.drop_first(), b, spec_step_y(y, a[0]), lo, hi);
    }
}

/// What one level slot does to the pen: it stays within the rails, it
/// ends on the next rail, and it advances by exactly one slot width.
proof fn lemma_level_commands(rail: Level, level: Level, period: int)
    requires
        rail == Level::Low || rail == Level::High,
        level != Level::Idle,
        period > 0,
    ensures
        spec_path_within(
            spec_level_commands(rail, level, period),
            spec_rail_y(rail),
            0,
            WAVE_HEIGHT as int,
        ),
        spec_y_after(spec_level_commands(rail, level, period), spec_rail_y(rail))
            == spec_rail_y(spec_next_rail(rail, level)),
        spec_x_extent(spec_level_commands(rail, level, period)) == period * (PERIOD_WIDTH as int),
{
    reveal_with_fuel(spec_path_within, 6);
    reveal_with_fuel(spec_y_after, 6);
    reveal_with_fuel(spec_x_extent, 6);
    let cmds = spec_level_commands(rail, level, period);
    if level == rail {
        assert(cmds.drop_first() =~= Seq::<PathCommandV>::empty());
    } else {
        match level {
            Level::Up | Level::Down => {
                assert(cmds.len() == 4);
                assert(period * ((PERIOD_WIDTH as int) / 2) + period * ((PERIOD_WIDTH as int) / 2)
                    == period * (PERIOD_WIDTH as int)) by (nonlinear_arith);
            },
            _ => {
                assert(cmds.len() == 2);
            },
        }
    }
}

/// The rail the path sits on after a whole level sequence.
pub open spec fn spec_rail_after(levels: Seq<Level>, rail: Level) -> Level
    decreases levels,
{
    if levels.len() == 0 {
        rail
    } else {
        spec_rail_after(levels.drop_first(), spec_next_rail(rail, levels[0]))
    }
}

proof fn lemma_wave_commands(levels: Seq<Level>, rail: Level, period: int)
    requires
        wave_supported(levels),
        rail == Level::Low || rail == Level::High,
        period > 0,
    ensures
        spec_path_within(
            spec_wave_commands(levels, rail, period),
            spec_rail_y(rail),
            0,
            WAVE_HEIGHT as int,
        ),
        spec_y_after(spec_wave_commands(levels, rail, period), spec_rail_y(rail)) == spec_rail_y(
            spec_rail_after(levels, rail),
        ),
        spec_x_extent(spec_wave_commands(levels, rail, period)) == levels.len() * (period * (
        PERIOD_WIDTH as int)),
    decreases levels,
{
    let cmds = spec_wave_commands(levels, rail, period);
    if levels.len() == 0 {
        assert(levels.len() * (period * (PERIOD_WIDTH as int)) == 0);
    } else {
        let first = levels[0];
        let next = spec_next_rail(rail, first);
        let head = spec_level_commands(rail, first, period);
        let tail = spec_wave_commands(levels.drop_first(), next, period);
        assert(levels.drop_first().len() < levels.len());
        assert(wave_supported(levels.drop_first())) by {
            assert(forall|i: int|
                0 <= i < levels.drop_first().len() ==> levels.drop_first()[i] == levels[i + 1]);
        }
        lemma_level_commands(rail, first, period);
        lemma_wave_commands(levels.drop_first(), next, period);
        lemma_y_after_concat(head, tail, spec_rail_y(rail));
        lemma_path_within_concat(head, tail, spec_rail_y(rail), 0, WAVE_HEIGHT as int);
        lemma_x_extent_concat(head, tail);
        assert(period * (PERIOD_WIDTH as int) + (levels.len() - 1) * (period * (PERIOD_WIDTH as int))
            == levels.len() * (period * (PERIOD_WIDTH as int))) by (nonlinear_arith);
    }
}

/// The translator's guarantee, first part: for every supported wave the
/// drawn polyline never leaves the vertical band `[0, WAVE_HEIGHT]`. In
/// particular this holds of every wave of `Low` and `High` levels alone.
pub proof fn lemma_signal_path_within_bounds(s: SignalV)
    requires
        wave_supported(s.levels),
        s.period > 0,
    ensures
        spec_path_within(spec_signal_commands(s), 0, 0, WAVE_HEIGHT as int),
{
    reveal_with_fuel(spec_path_within, 3);
    reveal_with_fuel(spec_y_after, 3);
    let rail = spec_start_rail(s.levels);
    let head = seq![PathCommandV::Move { x: 0, y: spec_rail_y(rail) }];
    let phased = if s.phase != 0 {
        head.push(PathCommandV::HorizontalBy { dx: s.phase * (PERIOD_WIDTH as int) })
    } else {
        head
    };
    let tail = spec_wave_commands(s.levels, rail, s.period);
    lemma_wave_commands(s.levels, rail, s.period);
    assert(spec_y_after(phased, 0) == spec_rail_y(rail));
    assert(spec_path_within(phased, 0, 0, WAVE_HEIGHT as int));
    lemma_path_within_concat(phased, tail, 0, 0, WAVE_HEIGHT as int);
}

/// The translator's guarantee, second part: the total horizontal extent
/// is exactly the phase offset plus one slot width per level.
pub proof fn lemma_signal_extent(s: SignalV)
    requires
        wave_supported(s.levels),
        s.period > 0,
    ensures
        spec_x_extent(spec_signal_commands(s)) == s.phase * (PERIOD_WIDTH as int)
            + s.levels.len() * (s.period * (PERIOD_WIDTH as int)),
{
    reveal_with_fuel(spec_x_extent, 3);
    let rail = spec_start_rail(s.levels);
    let head = seq![PathCommandV::Move { x: 0, y: spec_rail_y(rail) }];
    let phased = if s.phase != 0 {
        head.push(PathCommandV::HorizontalBy { dx: s.phase * (PERIOD_WIDTH as int) })
    } else {
        head
    };
    let tail = spec_wave_commands(s.levels, rail, s.period);
    lemma_wave_commands(s.levels, rail, s.period);
    assert(spec_x_extent(phased) == s.phase * (PERIOD_WIDTH as int)) by {
        if s.phase != 0 {
            assert(phased.drop_first() =~= seq![
                PathCommandV::HorizontalBy { dx: s.phase * (PERIOD_WIDTH as int) },
            ]);
        } else {
            assert(phased.drop_first() =~= Seq::<PathCommandV>::empty());
        }
    }
    lemma_x_extent_concat(phased, tail);
}

/// The translator's guarantee, third part: with a phase of at least zero
/// and a positive period, the polyline is x-monotonic.
pub proof fn lemma_signal_path_x_monotonic(s: SignalV)
    requires
        s.phase >= 0,
        s.period > 0,
    ensures
        spec_x_monotonic(spec_signal_commands(s)),
{
    let rail = spec_start_rail(s.levels);
    let head = seq![PathCommandV::Move { x: 0, y: spec_rail_y(rail) }];
    let phased = if s.phase != 0 {
        head.push(PathCommandV::HorizontalBy { dx: s.phase * (PERIOD_WIDTH as int) })
    } else {
        head
    };
    let tail = spec_wave_commands(s.levels, rail, s.period);
    assert(s.phase * (PERIOD_WIDTH as int) >= 0) by (nonlinear_arith)
        requires
            s.phase >= 0,
    ;
    assert(spec_x_monotonic(phased));
    lemma_wave_monotonic(s.levels, rail, s.period);
    assert forall|i: int| 0 <= i < spec_signal_commands(s).len() implies match #[trigger] spec_signal_commands(
        s,
    )[i] {
        PathCommandV::HorizontalBy { dx } => dx >= 0,
        _ => true,
    } by {
        if i < phased.len() {
            assert(spec_signal_commands(s)[i] == phased[i]);
        } else {
            assert(spec_signal_commands(s)[i] == tail[i - phased.len()]);
        }
    }
}

proof fn lemma_wave_monotonic(levels: Seq<Level>, rail: Level, period: int)
    requires
        period > 0,
    ensures
        spec_x_monotonic(spec_wave_commands(levels, rail, period)),
    decreases levels,
{
    if levels.len() > 0 {
        let first = levels[0];
        let next = spec_next_rail(rail, first);
        let head = spec_level_commands(rail, first, period);
        let tail = spec_wave_commands(levels.drop_first(), next, period);
        assert(period * (PERIOD_WIDTH as int) >= 0) by (nonlinear_arith)
            requires
                period > 0,
        ;
        assert(period * ((PERIOD_WIDTH as int) / 2) >= 0) by (nonlinear_arith)
            requires
                period > 0,
        ;
        assert(spec_x_monotonic(head));
        lemma_wave_monotonic(levels.drop_first(), next, period);
        assert forall|i: int| 0 <= i < (head + tail).len() implies match #[trigger] (head
            + tail)[i] {
            PathCommandV::HorizontalBy { dx } => dx >= 0,
            _ => true,
        } by {
            if i < head.len() {
                assert((head + tail)[i] == head[i]);
            } else {
                assert((head + tail)[i] == tail[i - head.len()]);
            }
        }
    }
}

} // verus!
