use siggi::color::Color;
use siggi::compose::Compositor;
use siggi::diagram::{Diagram, Lane};
use siggi::document::{Document, Group, Node};
use siggi::error::ComposeError;
use siggi::layout::{document_height, document_width};
use siggi::markers::{Label, Line, TextAnchor, TextSize};
use siggi::parse::wave_from_str;
use siggi::signal::{Clock, Level, Signal, SignalGenerator};

fn lane_of(notation: &str) -> Lane {
    Lane::new(Signal::new(
        String::from("sig"),
        wave_from_str(notation).expect("valid"),
    ))
}

fn lanes_group(doc: &Document) -> &Group {
    match &doc.nodes[2] {
        Node::Group(g) => g,
        other => panic!("expected the lanes group, found {:?}", other),
    }
}

fn lane_group(doc: &Document, i: usize) -> &Group {
    match &lanes_group(doc).nodes[i] {
        Node::Group(g) => g,
        other => panic!("expected a lane group, found {:?}", other),
    }
}

fn marker_lines(doc: &Document, lane: usize) -> &Group {
    match &lane_group(doc, lane).nodes[5] {
        Node::Group(g) => g,
        other => panic!("expected the marker group, found {:?}", other),
    }
}

#[test]
fn computes_the_documented_width() {
    // Eleven levels at 50 pixels each, the 75 pixel wave offset, and
    // 30 pixels of padding on both sides: 685 pixels.
    let diag = Diagram::new(Some(String::from("t"))).add(lane_of("hlhllhhhllh"));
    assert_eq!(document_width(&diag), 685_000);
    let doc = Compositor::new().compose(&diag).expect("supported");
    assert_eq!(doc.width, 685_000);
}

#[test]
fn computes_the_documented_height() {
    // One 100 pixel lane, a 25 pixel header for the title, no footer,
    // and 30 pixels of padding on both sides: 185 pixels.
    let diag = Diagram::new(Some(String::from("t"))).add(lane_of("hl"));
    assert_eq!(document_height(&diag), 185_000);
    let doc = Compositor::new().compose(&diag).expect("supported");
    assert_eq!(doc.height, 185_000);
}

#[test]
fn leaves_out_the_header_without_a_title() {
    let diag = Diagram::new(None).add(lane_of("hl"));
    assert_eq!(document_height(&diag), 160_000);
    let doc = Compositor::new().compose(&diag).expect("supported");
    assert_eq!(doc.height, 160_000);
    // The lanes group then sits at the padding alone.
    assert_eq!(lanes_group(&doc).dy, 30_000);
}

#[test]
fn composing_twice_yields_structurally_identical_documents() {
    let diag = Diagram::new(Some(String::from("twice")))
        .dark(true)
        .add(lane_of("hlud").add_mark_at(1500).add_label_at(String::from("here"), 2000))
        .add(lane_of("llhh"));
    let comp = Compositor::new();
    let first = comp.compose(&diag).expect("supported");
    let second = comp.compose(&diag).expect("supported");
    assert_eq!(first, second);
}

#[test]
fn places_markers_at_position_times_period_width_in_every_lane() {
    // The same marker position in two lanes with different wave
    // lengths: both land at 2.5 * 50 = 125 pixels.
    let diag = Diagram::new(None)
        .add(lane_of("h").add_mark_at(2500))
        .add(lane_of("hlhlhlhlhl").add_mark_at(2500));
    let doc = Compositor::new().compose(&diag).expect("supported");
    for lane in 0..2 {
        match &marker_lines(&doc, lane).nodes[0] {
            Node::Line(l) => {
                assert_eq!(l.x1, 125_000);
                assert_eq!(l.x2, 125_000);
            },
            other => panic!("expected a marker line, found {:?}", other),
        }
    }
}

#[test]
fn places_labels_at_position_times_period_width() {
    let diag = Diagram::new(None).add(lane_of("h").add_label_at(String::from("t0"), 3000));
    let doc = Compositor::new().compose(&diag).expect("supported");
    let labels = match &lane_group(&doc, 0).nodes[6] {
        Node::Group(g) => g,
        other => panic!("expected the label group, found {:?}", other),
    };
    match &labels.nodes[0] {
        Node::Text(t) => {
            assert_eq!(t.content, "t0");
            assert_eq!(t.dx, 150_000);
            assert_eq!(t.size, TextSize::Small);
        },
        other => panic!("expected a label text, found {:?}", other),
    }
}

#[test]
fn an_empty_diagram_still_composes_to_a_minimal_document() {
    let diag = Diagram::new(None);
    let doc = Compositor::new().compose(&diag).expect("no lanes is fine");
    assert_eq!(doc.width, 135_000);
    assert_eq!(doc.height, 60_000);
    assert_eq!(doc.nodes.len(), 3);
    assert_eq!(lanes_group(&doc).nodes.len(), 0);
}

#[test]
fn surfaces_an_idle_level_as_a_typed_error() {
    let diag = Diagram::new(None).add(lane_of("hl")).add(lane_of("hi"));
    let r = Compositor::new().compose(&diag);
    assert_eq!(r.unwrap_err(), ComposeError::UnsupportedLevel);
}

#[test]
fn paints_the_background_and_title() {
    let diag = Diagram::new(Some(String::from("Demo"))).dark(true).add(lane_of("hl"));
    let doc = Compositor::new().compose(&diag).expect("supported");
    match &doc.nodes[0] {
        Node::Rect(r) => assert_eq!(r.fill, Color::Darkgray),
        other => panic!("expected the background, found {:?}", other),
    }
    match &doc.nodes[1] {
        Node::Text(t) => {
            assert_eq!(t.content, "Demo");
            assert_eq!(t.dx, doc.width / 2);
            assert_eq!(t.dy, 30_000);
            assert_eq!(t.anchor, TextAnchor::Middle);
        },
        other => panic!("expected the title, found {:?}", other),
    }
    // The lanes group sits at padding plus header.
    assert_eq!(lanes_group(&doc).dx, 30_000);
    assert_eq!(lanes_group(&doc).dy, 55_000);
}

#[test]
fn stacks_lanes_at_fixed_offsets() {
    let diag = Diagram::new(None).add(lane_of("h")).add(lane_of("l")).add(lane_of("u"));
    let doc = Compositor::new().compose(&diag).expect("supported");
    assert_eq!(lanes_group(&doc).nodes.len(), 3);
    for i in 0..3 {
        let g = lane_group(&doc, i);
        assert_eq!(g.dx, 0);
        assert_eq!(g.dy, (i as i64) * 100_000);
        assert_eq!(g.nodes.len(), 7);
    }
}

#[test]
fn draws_three_dashed_reference_lines_per_lane() {
    let diag = Diagram::new(None).add(lane_of("hlh"));
    let doc = Compositor::new().compose(&diag).expect("supported");
    let lines = match &lane_group(&doc, 0).nodes[3] {
        Node::Group(g) => g,
        other => panic!("expected the reference lines, found {:?}", other),
    };
    assert_eq!(lines.dy, 25_000);
    assert_eq!(lines.nodes.len(), 3);
    let heights = [0, 25_000, 50_000];
    for (node, want_y) in lines.nodes.iter().zip(heights) {
        match node {
            Node::Line(l) => {
                assert_eq!(l.y1, want_y);
                assert_eq!(l.y2, want_y);
                assert_eq!(l.x1, 75_000);
                assert_eq!(l.x2, 75_000 + 3 * 50_000);
                assert_eq!(l.color, Color::Lightgray);
                assert_eq!(l.width, 500);
                assert_eq!(l.dash, Some((10_000, 6_000)));
                assert!(l.rounded);
            },
            other => panic!("expected a reference line, found {:?}", other),
        }
    }
}

#[test]
fn styles_markers_by_their_attributes() {
    let solid = Line::new(1000, false, 2_000, Color::Red);
    let dashed = Line::new(-500, true, 1_000, Color::Blue);
    let diag = Diagram::new(None).add(lane_of("h").add_marker(solid).add_marker(dashed));
    let doc = Compositor::new().compose(&diag).expect("supported");
    let markers = marker_lines(&doc, 0);
    assert_eq!(markers.dx, 75_000);
    match &markers.nodes[0] {
        Node::Line(l) => {
            assert_eq!(l.x1, 50_000);
            assert_eq!(l.dash, None);
            assert_eq!(l.width, 2_000);
            assert_eq!(l.color, Color::Red);
            assert_eq!(l.y1, 12_500);
            assert_eq!(l.y2, 87_500);
        },
        other => panic!("expected a marker line, found {:?}", other),
    }
    match &markers.nodes[1] {
        Node::Line(l) => {
            // An off-wave position is valid and lands left of the wave.
            assert_eq!(l.x1, -25_000);
            assert_eq!(l.dash, Some((3_000, 3_000)));
        },
        other => panic!("expected a marker line, found {:?}", other),
    }
}

#[test]
fn labels_the_rails_and_the_signal() {
    let mut sig = Signal::new(String::from("data"), wave_from_str("hl").expect("valid"));
    sig.y_axis = (String::from("1"), String::from("0"));
    sig.color = Color::Yellow;
    let diag = Diagram::new(None).add(Lane::new(sig));
    let doc = Compositor::new().compose(&diag).expect("supported");
    let lane = lane_group(&doc, 0);
    match (&lane.nodes[0], &lane.nodes[1], &lane.nodes[2]) {
        (Node::Text(high), Node::Text(low), Node::Text(name)) => {
            assert_eq!(high.content, "1");
            assert_eq!(high.dx, 65_000);
            assert_eq!(high.dy, 25_000);
            assert_eq!(high.size, TextSize::Small);
            assert_eq!(low.content, "0");
            assert_eq!(low.dy, 75_000);
            assert_eq!(name.content, "data");
            assert_eq!(name.dx, 60_000);
            assert_eq!(name.dy, 50_000);
            assert_eq!(name.anchor, TextAnchor::End);
            assert_eq!(name.color, Color::Yellow);
        },
        other => panic!("expected the three texts, found {:?}", other),
    }
}

#[test]
fn renders_the_wave_as_a_rounded_path_at_the_wave_origin() {
    let diag = Diagram::new(None).add(lane_of("hl"));
    let doc = Compositor::new().compose(&diag).expect("supported");
    match &lane_group(&doc, 0).nodes[4] {
        Node::Path(p) => {
            assert_eq!(p.dx, 75_000);
            assert_eq!(p.dy, 25_000);
            assert_eq!(p.width, 3_000);
            assert!(p.rounded);
            assert_eq!(p.commands.len(), 4);
        },
        other => panic!("expected the wave path, found {:?}", other),
    }
}

#[test]
fn clocks_generate_repeated_edge_symbols() {
    let pos = Clock::positiv(3).to_signal();
    assert_eq!(pos.name, "Clock");
    assert_eq!(pos.wave.levels, vec![Level::Down; 3]);
    let neg = Clock::negativ(2).name("SCL").to_signal();
    assert_eq!(neg.name, "SCL");
    assert_eq!(neg.wave.levels, vec![Level::Up; 2]);
}

#[test]
fn a_compositor_remembers_its_configuration() {
    let mut comp = Compositor::new();
    comp.with("minimal");
    let diag = Diagram::new(None).add(lane_of("hl"));
    assert!(comp.compose(&diag).is_ok());
}
