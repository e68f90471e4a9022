use siggi::error::ParseError;
use siggi::parse::{from_args, signal_from_str, wave_from_str};
use siggi::signal::Level;

#[test]
fn parses_the_full_notation_exactly() {
    let wave = wave_from_str("hlhllhhhllh").expect("valid notation");
    assert_eq!(
        wave.levels,
        vec![
            Level::High,
            Level::Low,
            Level::High,
            Level::Low,
            Level::Low,
            Level::High,
            Level::High,
            Level::High,
            Level::Low,
            Level::Low,
            Level::High,
        ]
    );
    assert_eq!(wave.levels.len(), 11);
}

#[test]
fn parses_each_character_case_insensitively() {
    let wave = wave_from_str("hludiHLUDI").expect("valid notation");
    let one_of_each = vec![
        Level::High,
        Level::Low,
        Level::Up,
        Level::Down,
        Level::Idle,
    ];
    let mut expected = one_of_each.clone();
    expected.extend(one_of_each);
    assert_eq!(wave.levels, expected);
}

#[test]
fn parses_the_empty_string_to_an_empty_wave() {
    let wave = wave_from_str("").expect("empty notation is valid");
    assert_eq!(wave.levels.len(), 0);
}

#[test]
fn rejects_any_character_outside_the_notation() {
    assert!(wave_from_str("hlx").is_err());
    assert!(wave_from_str("0").is_err());
    assert!(wave_from_str("hl hl").is_err());
    let err = wave_from_str("q").unwrap_err();
    assert_eq!(err.details(), "Could not parse signal wave");
}

#[test]
fn parses_a_positive_clock() {
    let sig = signal_from_str("pclk-4").expect("valid clock");
    assert_eq!(sig.name, "Clock");
    assert_eq!(sig.wave.levels, vec![Level::Down; 4]);
    assert_eq!(sig.phase, 0);
    assert_eq!(sig.period, 1000);
}

#[test]
fn parses_a_negative_clock() {
    let sig = signal_from_str("nclk-3").expect("valid clock");
    assert_eq!(sig.wave.levels, vec![Level::Up; 3]);
}

#[test]
fn rejects_malformed_clock_descriptions() {
    assert!(signal_from_str("pclk-").is_err());
    assert!(signal_from_str("pclk4").is_err());
    assert!(signal_from_str("xclk-4").is_err());
    assert!(signal_from_str("pclk-4a").is_err());
    assert!(signal_from_str("pclk-4-5").is_err());
    assert!(signal_from_str("").is_err());
    assert!(signal_from_str("pclk-99999999999999999999999999").is_err());
}

#[test]
fn builds_a_diagram_from_arguments() {
    let diag = from_args(
        String::from("args"),
        true,
        vec![String::from("pclk-2")],
        vec![String::from("hl"), String::from("ud")],
    )
    .expect("all arguments parse");
    assert_eq!(diag.lane_count(), 3);
    assert_eq!(diag.title(), "args");
    let lanes = diag.lanes();
    assert_eq!(lanes[0].signal.name, "Clock");
    assert_eq!(lanes[0].signal.wave.levels, vec![Level::Down; 2]);
    assert_eq!(lanes[1].signal.name, "s-0");
    assert_eq!(lanes[1].signal.wave.levels, vec![Level::High, Level::Low]);
    assert_eq!(lanes[2].signal.name, "s-1");
    assert_eq!(lanes[2].signal.wave.levels, vec![Level::Up, Level::Down]);
}

#[test]
fn numbers_unnamed_signals_past_nine() {
    let waves: Vec<String> = (0..12).map(|_| String::from("h")).collect();
    let diag = from_args(String::from("t"), false, vec![], waves).expect("valid");
    let lanes = diag.lanes();
    assert_eq!(lanes[10].signal.name, "s-10");
    assert_eq!(lanes[11].signal.name, "s-11");
}

#[test]
fn fails_on_a_bad_clock_argument() {
    let r = from_args(
        String::from("t"),
        false,
        vec![String::from("qclk-2")],
        vec![],
    );
    assert!(matches!(r, Err(ParseError::ParseWaveError(_))));
}

#[test]
fn fails_on_a_bad_wave_argument() {
    let r = from_args(
        String::from("t"),
        false,
        vec![],
        vec![String::from("hlz")],
    );
    assert!(matches!(r, Err(ParseError::ParseWaveError(_))));
}
