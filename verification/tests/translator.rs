use siggi::document::PathCommand;
use siggi::error::ComposeError;
use siggi::parse::wave_from_str;
use siggi::signal::{Signal, Wave};
use siggi::translate::signal_commands;

fn signal_of(notation: &str) -> Signal {
    Signal::new(String::from("sig"), wave_from_str(notation).expect("valid"))
}

fn horizontal_extent(cmds: &[PathCommand]) -> i64 {
    let mut x: i64 = 0;
    for c in cmds {
        if let PathCommand::HorizontalBy { dx } = c {
            x += dx;
        }
    }
    x
}

#[test]
fn draws_hlhl_as_the_canonical_square_wave() {
    // One period = 50 pixels (50_000 milli-pixels), full swing = 50 pixels.
    let cmds = signal_commands(&signal_of("hlhl")).expect("supported wave");
    assert_eq!(
        cmds,
        vec![
            PathCommand::Move { x: 0, y: 0 },
            PathCommand::HorizontalBy { dx: 50_000 },
            PathCommand::VerticalBy { dy: 50_000 },
            PathCommand::HorizontalBy { dx: 50_000 },
            PathCommand::VerticalBy { dy: -50_000 },
            PathCommand::HorizontalBy { dx: 50_000 },
            PathCommand::VerticalBy { dy: 50_000 },
            PathCommand::HorizontalBy { dx: 50_000 },
        ]
    );
}

#[test]
fn draws_ud_as_edges_with_half_period_flats() {
    // First slot: half a period flat at the low rail, then a rising edge.
    // Second slot: half a period flat at the high rail, then a falling
    // edge. Total extent: exactly two period widths.
    let cmds = signal_commands(&signal_of("ud")).expect("supported wave");
    assert_eq!(
        cmds,
        vec![
            PathCommand::Move { x: 0, y: 50_000 },
            PathCommand::VerticalTo { y: 50_000 },
            PathCommand::HorizontalBy { dx: 25_000 },
            PathCommand::VerticalBy { dy: -50_000 },
            PathCommand::HorizontalBy { dx: 25_000 },
            PathCommand::VerticalTo { y: 0 },
            PathCommand::HorizontalBy { dx: 25_000 },
            PathCommand::VerticalBy { dy: 50_000 },
            PathCommand::HorizontalBy { dx: 25_000 },
        ]
    );
    assert_eq!(horizontal_extent(&cmds), 2 * 50_000);
}

#[test]
fn starts_high_for_high_and_down_first_levels() {
    let high = signal_commands(&signal_of("h")).expect("supported");
    assert_eq!(high[0], PathCommand::Move { x: 0, y: 0 });
    let down = signal_commands(&signal_of("d")).expect("supported");
    assert_eq!(down[0], PathCommand::Move { x: 0, y: 0 });
    let low = signal_commands(&signal_of("l")).expect("supported");
    assert_eq!(low[0], PathCommand::Move { x: 0, y: 50_000 });
    let up = signal_commands(&signal_of("u")).expect("supported");
    assert_eq!(up[0], PathCommand::Move { x: 0, y: 50_000 });
}

#[test]
fn emits_the_phase_offset_before_the_first_level() {
    // A phase of 1.5 periods (1500 milli-periods) is 75 pixels.
    let sig = signal_of("hl").shift(1500);
    let cmds = signal_commands(&sig).expect("supported");
    assert_eq!(cmds[0], PathCommand::Move { x: 0, y: 0 });
    assert_eq!(cmds[1], PathCommand::HorizontalBy { dx: 75_000 });
    assert_eq!(horizontal_extent(&cmds), 75_000 + 2 * 50_000);
}

#[test]
fn scales_slots_by_the_period() {
    // A period of 2 units (2000 milli-periods) doubles every slot.
    let sig = signal_of("hu").scale(2000);
    let cmds = signal_commands(&sig).expect("supported");
    assert_eq!(
        cmds,
        vec![
            PathCommand::Move { x: 0, y: 0 },
            PathCommand::HorizontalBy { dx: 100_000 },
            PathCommand::VerticalTo { y: 50_000 },
            PathCommand::HorizontalBy { dx: 50_000 },
            PathCommand::VerticalBy { dy: -50_000 },
            PathCommand::HorizontalBy { dx: 50_000 },
        ]
    );
}

#[test]
fn keeps_the_path_within_the_logic_swing() {
    let sig = signal_of("hlhhlludlhdu");
    let cmds = signal_commands(&sig).expect("supported");
    let mut y: i64 = 0;
    for c in &cmds {
        match c {
            PathCommand::Move { y: ny, .. } => y = *ny,
            PathCommand::VerticalBy { dy } => y += dy,
            PathCommand::VerticalTo { y: ny } => y = *ny,
            PathCommand::HorizontalBy { .. } => {}
        }
        assert!(0 <= y && y <= 50_000);
    }
    assert_eq!(horizontal_extent(&cmds), 12 * 50_000);
}

#[test]
fn refuses_an_idle_level_with_a_typed_error() {
    let r = signal_commands(&signal_of("hli"));
    assert_eq!(r.unwrap_err(), ComposeError::UnsupportedLevel);
    let r = signal_commands(&signal_of("i"));
    assert_eq!(r.unwrap_err(), ComposeError::UnsupportedLevel);
}

#[test]
fn draws_an_empty_wave_as_the_bare_start_point() {
    let sig = Signal::new(String::from("sig"), Wave::new());
    let cmds = signal_commands(&sig).expect("supported");
    assert_eq!(cmds, vec![PathCommand::Move { x: 0, y: 50_000 }]);
}
