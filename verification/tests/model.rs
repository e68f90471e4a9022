use siggi::color::Color;
use siggi::diagram::{Diagram, Lane};
use siggi::error::{ParseError, ParseWaveError};
use siggi::markers::{Label, Line, TextAnchor, TextSize};
use siggi::parse::wave_from_str;
use siggi::signal::{Level, Signal, Wave};

#[test]
fn palette_colors_map_to_their_hex_codes() {
    assert_eq!(Color::Yellow.hex_code(), "#FFC300");
    assert_eq!(Color::Blue.hex_code(), "#0D84F0");
    assert_eq!(Color::Red.hex_code(), "#FF5733");
    assert_eq!(Color::White.hex_code(), "#FFFFFF");
    assert_eq!(Color::Black.hex_code(), "#000000");
    assert_eq!(Color::Darkgray.hex_code(), "#1c2833");
    assert_eq!(Color::Lightgray.hex_code(), "#74838f");
}

#[test]
fn custom_colors_render_as_lowercase_hex() {
    assert_eq!(Color::Custom((255, 3, 8)).hex_code(), "#ff0308");
    assert_eq!(Color::Custom((0, 0, 0)).hex_code(), "#000000");
    assert_eq!(Color::Custom((0x12, 0xab, 0xcd)).hex_code(), "#12abcd");
}

#[test]
fn an_empty_title_counts_as_no_title() {
    let with_empty = Diagram::new(Some(String::new()));
    assert_eq!(with_empty.title(), "");
    let with_title = Diagram::new(Some(String::from("demo")));
    assert_eq!(with_title.title(), "demo");
    let without = Diagram::new(None);
    assert_eq!(without.title(), "");
}

#[test]
fn diagram_accessors_reflect_its_construction() {
    let mut diag = Diagram::new(Some(String::from("d")));
    assert_eq!(diag.background(), Color::White);
    assert_eq!(diag.lane_count(), 0);
    diag.set_background(Color::Black);
    assert_eq!(diag.background(), Color::Black);
    diag.set_title(None);
    assert_eq!(diag.title(), "");
    diag.append(Lane::new(Signal::default()));
    assert_eq!(diag.lane_count(), 1);
    let dark = Diagram::new(None).dark(true);
    assert_eq!(dark.background(), Color::Darkgray);
    let light = Diagram::new(None).dark(false);
    assert_eq!(light.background(), Color::White);
}

#[test]
fn lanes_collect_markers_and_labels_in_order() {
    let mut lane = Lane::new(Signal::default())
        .add_marker(Line::new(1000, true, 1000, Color::Red))
        .add_mark_at(2000)
        .add_label(Label::new(String::from("a")))
        .add_label_at(String::from("b"), 3000);
    lane.append_marker(Line::default().at(4000));
    lane.append_marker_at(5000);
    lane.append_label_at(String::from("c"), 6000);
    let mut more = vec![Label::new(String::from("d"))];
    lane.append_labels(&mut more);
    assert!(more.is_empty());
    assert_eq!(lane.markers.len(), 4);
    assert_eq!(lane.markers[1].position, 2000);
    assert_eq!(lane.markers[3].position, 5000);
    assert_eq!(lane.labels.len(), 4);
    assert_eq!(lane.labels[0].text, "a");
    assert_eq!(lane.labels[3].text, "d");
}

#[test]
fn default_markers_are_thin_dashed_and_light() {
    let line = Line::default();
    assert_eq!(line.position, 0);
    assert!(line.dashed);
    assert_eq!(line.thickness, 1000);
    assert_eq!(line.color, Color::Lightgray);
}

#[test]
fn label_builders_set_each_attribute() {
    let label = Label::new(String::from("t"))
        .at(1500)
        .large()
        .align(TextAnchor::Start)
        .color_with(Color::Blue);
    assert_eq!(label.position, 1500);
    assert_eq!(label.size, TextSize::Large);
    assert_eq!(label.anchor, TextAnchor::Start);
    assert_eq!(label.color, Color::Blue);
    let small = Label::new(String::from("s")).small().with_size(TextSize::Smaller);
    assert_eq!(small.size, TextSize::Smaller);
}

#[test]
fn signal_builders_set_each_attribute() {
    let sig = Signal::new(String::from("n"), Wave::new())
        .shift(500)
        .scale(2000)
        .color_with(Color::Red);
    assert_eq!(sig.name, "n");
    assert_eq!(sig.phase, 500);
    assert_eq!(sig.period, 2000);
    assert_eq!(sig.color, Color::Red);

    let mut sig = Signal::default();
    assert_eq!(sig.name, "Sig");
    assert_eq!(sig.period, 1000);
    assert_eq!(sig.y_axis, (String::from("H"), String::from("L")));
    sig.set_name(String::from("renamed"))
        .set_phase(250)
        .set_period(750)
        .set_color(Color::Yellow);
    sig.set_wave(wave_from_str("hl").expect("valid"));
    assert_eq!(sig.name, "renamed");
    assert_eq!(sig.phase, 250);
    assert_eq!(sig.period, 750);
    assert_eq!(sig.color, Color::Yellow);
    assert_eq!(sig.len(), 2);
}

#[test]
fn waves_know_their_length() {
    assert_eq!(Wave::new().len(), 0);
    let wave = Wave { levels: vec![Level::High, Level::Low] };
    assert_eq!(wave.len(), 2);
}

#[test]
fn text_attributes_have_names_and_defaults() {
    assert_eq!(TextSize::Small.name(), "small");
    assert_eq!(TextSize::Smaller.name(), "smaller");
    assert_eq!(TextSize::Normal.name(), "normal");
    assert_eq!(TextSize::Larger.name(), "larger");
    assert_eq!(TextSize::Large.name(), "large");
    assert_eq!(TextSize::default(), TextSize::Normal);
    assert_eq!(TextAnchor::Start.name(), "start");
    assert_eq!(TextAnchor::End.name(), "end");
    assert_eq!(TextAnchor::Middle.name(), "middle");
    assert_eq!(TextAnchor::default(), TextAnchor::Middle);
}

#[test]
fn parse_errors_carry_their_message() {
    let err = ParseWaveError::new("went wrong");
    assert_eq!(err.details(), "went wrong");
    assert_eq!(
        ParseError::ParseWaveError(err).message(),
        " Error occured during wave parsing"
    );
    assert_eq!(
        ParseError::ParseSignalError.message(),
        " Error occured during signal parsing"
    );
    assert_eq!(
        ParseError::ParseConfigError.message(),
        " Error occured during config parsing"
    );
    assert_eq!(
        ParseError::ParseDiagramError.message(),
        " Error occured during diagram parsing"
    );
    assert_eq!(
        ParseError::ParseJsonError(String::from("eof")).message(),
        " Error occured during json parsing"
    );
}

#[test]
fn waves_and_signals_parse_through_from_str() {
    let wave: Wave = "hl".parse().expect("valid");
    assert_eq!(wave.levels, vec![Level::High, Level::Low]);
    assert!("hq".parse::<Wave>().is_err());
    let sig: Signal = "nclk-2".parse().expect("valid");
    assert_eq!(sig.wave.levels, vec![Level::Up, Level::Up]);
    assert!("clk-2".parse::<Signal>().is_err());
}
