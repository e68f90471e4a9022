//! The compositor: orchestrates the layout engine, the wave-to-path
//! translator and the overlay placer into one finished document.
//!
//! Composing is a pure value-to-value transform; the one failure mode is
//! an unsupported level reaching the translator, surfaced as a typed
//! error.

use vstd::prelude::*;

use crate::color::Color;
use crate::diagram::{diagram_fits, lane_fits, Diagram, DiagramV, Lane, LaneV};
use crate::document::{
    lemma_nodes_view_push, nodes_view, Colored, Dashed, Document, DocumentV, Group, GroupV,
    LineNode, LineNodeV, Node, NodeV, PathNode, PathNodeV, RectNode, Rounded, TextNode, TextNodeV,
    Thick, Transformable,
};
use crate::error::ComposeError;
use crate::layout::{
    document_height, document_width, get_max_wave_len, lane_offset, spec_doc_height,
    spec_doc_width, spec_header, spec_lane_offset, spec_max_wave_len, HEADER_HEIGHT, LANE_HEIGHT,
    MAX_WAVE_LEVELS, MILLI, PADDING, PERIOD_WIDTH, WAVE_HEIGHT, WAVE_OFFSET, WAVE_PADDING_BOTTOM,
    WAVE_PADDING_TOP,
};
use crate::markers::{position_fits, Label, LabelV, Line, LineV, TextAnchor, TextSize};
use crate::signal::{signal_fits, Signal, SignalV};
use crate::translate::{signal_commands, spec_signal_commands, wave_supported};

verus! {

/// Whether the translator supports every wave of the diagram.
pub open spec fn diagram_supported(d: DiagramV) -> bool {
    forall|i: int|
        0 <= i < d.lanes.len() ==> wave_supported(#[trigger] d.lanes[i].signal.levels)
}

/// The text node a label renders as, before it is placed.
pub open spec fn spec_text_of_label(l: LabelV) -> TextNodeV {
    TextNodeV { content: l.text, color: l.color, size: l.size, anchor: l.anchor, dx: 0, dy: 0 }
}

/// Renders a label as a text node at the origin.
fn text_of_label(label: &Label) -> (t: TextNode)
    ensures
        t@ == spec_text_of_label(label@),
{
    TextNode {
        content: label.text.clone(),
        color: label.color,
        size: label.size,
        anchor: label.anchor,
        dx: 0,
        dy: 0,
    }
}

/// A horizontal dashed reference line at height `y`, from `x1` to `x2`.
pub open spec fn spec_h_ref_line(x1: int, x2: int, y: int) -> LineNodeV {
    LineNodeV {
        x1: x1,
        y1: y,
        x2: x2,
        y2: y,
        color: Color::Lightgray,
        width: (MILLI as int) / 2,
        dash: Some((10 * (MILLI as int), 6 * (MILLI as int))),
        rounded: true,
    }
}

/// Draws a horizontal dashed reference line.
fn h_dashed_line(x1: i64, x2: i64, y: i64) -> (l: LineNode)
    ensures
        l@ == spec_h_ref_line(x1 as int, x2 as int, y as int),
{
    LineNode {
        x1,
        y1: y,
        x2,
        y2: y,
        color: Color::Black,
        width: MILLI,
        dash: None,
        rounded: false,
    }.with_color(Color::Lightgray).rounded().dash(10 * MILLI, 6 * MILLI).with_size(MILLI / 2)
}

/// A vertical dashed guide line at `x`, from `y1` down to `y2`.
pub open spec fn spec_v_guide_line(x: int, y1: int, y2: int) -> LineNodeV {
    LineNodeV {
        x1: x,
        y1: y1,
        x2: x,
        y2: y2,
        color: Color::Lightgray,
        width: MILLI as int,
        dash: Some((3 * (MILLI as int), 3 * (MILLI as int))),
        rounded: true,
    }
}

/// Draws a vertical dashed guide line.
fn v_dashed_line(x: i64, y1: i64, y2: i64) -> (l: LineNode)
    ensures
        l@ == spec_v_guide_line(x as int, y1 as int, y2 as int),
{
    LineNode {
        x1: x,
        y1,
        x2: x,
        y2,
        color: Color::Black,
        width: MILLI,
        dash: None,
        rounded: false,
    }.with_color(Color::Lightgray).with_size(MILLI).dash(3 * MILLI, 3 * MILLI).rounded()
}

/// The line node a marker renders as: a vertical guide segment at pixel
/// `position * PERIOD_WIDTH`, spanning a fixed band centered on the
/// lane's wave region, styled by the marker's dashed, thickness and
/// color attributes.
pub open spec fn spec_marker_line(m: LineV) -> LineNodeV {
    LineNodeV {
        x1: m.position * (PERIOD_WIDTH as int),
        y1: (WAVE_PADDING_TOP as int) / 2,
        x2: m.position * (PERIOD_WIDTH as int),
        y2: (WAVE_PADDING_TOP as int) + (WAVE_HEIGHT as int) + (WAVE_PADDING_BOTTOM as int) / 2,
        color: m.color,
        width: m.thickness,
        dash: if m.dashed {
            Some((3 * (MILLI as int), 3 * (MILLI as int)))
        } else {
            None
        },
        rounded: true,
    }
}

/// Renders one marker as a vertical guide line.
fn marker_line(m: &Line) -> (l: LineNode)
    requires
        position_fits(m@.position),
    ensures
        l@ == spec_marker_line(m@),
{
    let x = m.position * PERIOD_WIDTH;
    let node = v_dashed_line(
        x,
        WAVE_PADDING_TOP / 2,
        WAVE_PADDING_TOP + WAVE_HEIGHT + WAVE_PADDING_BOTTOM / 2,
    ).with_color(m.color).with_size(m.thickness);
    if m.dashed {
        node
    } else {
        LineNode { dash: None, ..node }
    }
}

/// The text node a label renders as once placed: anchored at pixel
/// `position * PERIOD_WIDTH`.
pub open spec fn spec_label_text(l: LabelV) -> TextNodeV {
    TextNodeV { dx: l.position * (PERIOD_WIDTH as int), ..spec_text_of_label(l) }
}

/// Renders one label as a placed text node.
fn label_text(label: &Label) -> (t: TextNode)
    requires
        position_fits(label@.position),
    ensures
        t@ == spec_label_text(label@),
{
    text_of_label(label).translate(label.position * PERIOD_WIDTH, 0)
}

/// The three fixed horizontal dashed reference lines of a lane, at 0%,
/// 50% and 100% of the wave height, spanning the visible wave width.
pub open spec fn spec_level_lines(x1: int, x2: int) -> GroupV {
    GroupV {
        dx: 0,
        dy: WAVE_PADDING_TOP as int,
        nodes: seq![
            NodeV::Line(spec_h_ref_line(x1, x2, 0)),
            NodeV::Line(spec_h_ref_line(x1, x2, (WAVE_HEIGHT as int) / 2)),
            NodeV::Line(spec_h_ref_line(x1, x2, WAVE_HEIGHT as int)),
        ],
    }
}

/// The group of marker guide lines of a lane, in order, before the
/// group is placed.
pub open spec fn spec_markers_nodes(ms: Seq<LineV>) -> Seq<NodeV> {
    ms.map_values(|m: LineV| NodeV::Line(spec_marker_line(m)))
}

/// The group of label texts of a lane, in order, before the group is
/// placed.
pub open spec fn spec_labels_nodes(ls: Seq<LabelV>) -> Seq<NodeV> {
    ls.map_values(|l: LabelV| NodeV::Text(spec_label_text(l)))
}

/// The path node a signal's wave renders as, before it is placed.
pub open spec fn spec_path_of_signal(s: SignalV) -> PathNodeV {
    PathNodeV {
        color: s.color,
        width: 3 * (MILLI as int),
        rounded: true,
        dx: 0,
        dy: 0,
        commands: spec_signal_commands(s),
    }
}

/// Renders a signal's wave as a path node at the origin. Fails, with
/// nothing drawn, if and only if the wave holds an `Idle` level.
fn path_of_signal(sig: &Signal) -> (r: Result<PathNode, ComposeError>)
    requires
        signal_fits(sig@),
    ensures
        match r {
            Ok(p) => wave_supported(sig@.levels) && p@ == spec_path_of_signal(sig@),
            Err(e) => !wave_supported(sig@.levels) && e == ComposeError::UnsupportedLevel,
        },
{
    let commands = match signal_commands(sig) {
        Ok(c) => c,
        Err(e) => {
            return Err(e);
        },
    };
    Ok(
        PathNode {
            color: sig.color,
            width: 3 * MILLI,
            rounded: true,
            dx: 0,
            dy: 0,
            commands,
        },
    )
}

/// The label a signal's name renders through: anchored at its end, in
/// the signal's color.
fn signal_title_to_label(title: String, color: Color) -> (l: Label)
    ensures
        l@ == (LabelV {
            anchor: TextAnchor::End,
            color: color,
            ..crate::markers::spec_label_of(title@)
        }),
{
    Label::new(title).align(TextAnchor::End).color_with(color)
}

/// A rail-name text, placed at a fixed offset left of the wave origin.
pub open spec fn spec_rail_label(text: Seq<char>, y: int) -> TextNodeV {
    TextNodeV {
        content: text,
        color: Color::Black,
        size: TextSize::Small,
        anchor: TextAnchor::Middle,
        dx: (WAVE_OFFSET as int) - 10 * (MILLI as int),
        dy: y,
    }
}

/// The signal-name text, placed at a fixed offset left of the wave
/// origin, vertically centered on the wave.
pub open spec fn spec_name_label(s: SignalV) -> TextNodeV {
    TextNodeV {
        content: s.name,
        color: s.color,
        size: TextSize::Normal,
        anchor: TextAnchor::End,
        dx: (WAVE_OFFSET as int) - 15 * (MILLI as int),
        dy: (WAVE_PADDING_TOP as int) + (WAVE_HEIGHT as int) / 2,
    }
}

/// One lane's group, before it is moved to its vertical band: the two
/// rail-name texts, the signal-name text, the three reference lines, the
/// wave path at the wave origin, then the marker and label overlays.
pub open spec fn spec_lane_group(l: LaneV, max_ww: int) -> GroupV {
    GroupV {
        dx: 0,
        dy: 0,
        nodes: seq![
            NodeV::Text(spec_rail_label(l.signal.y_high, WAVE_PADDING_TOP as int)),
            NodeV::Text(
                spec_rail_label(l.signal.y_low, (WAVE_PADDING_TOP as int) + (WAVE_HEIGHT as int)),
            ),
            NodeV::Text(spec_name_label(l.signal)),
            NodeV::Group(spec_level_lines(WAVE_OFFSET as int, (WAVE_OFFSET as int) + max_ww)),
            NodeV::Path(
                PathNodeV {
                    dx: WAVE_OFFSET as int,
                    dy: WAVE_PADDING_TOP as int,
                    ..spec_path_of_signal(l.signal)
                },
            ),
            NodeV::Group(
                GroupV { dx: WAVE_OFFSET as int, dy: 0, nodes: spec_markers_nodes(l.markers) },
            ),
            NodeV::Group(
                GroupV {
                    dx: WAVE_OFFSET as int,
                    dy: LANE_HEIGHT as int,
                    nodes: spec_labels_nodes(l.labels),
                },
            ),
        ],
    }
}

/// The title text of a diagram: empty where there is no title.
pub open spec fn spec_title_text(title: Option<Seq<char>>) -> Seq<char> {
    match title {
        Some(t) => t,
        None => Seq::empty(),
    }
}

/// The lane groups of a document, each moved to its vertical band.
pub open spec fn spec_lanes_nodes(lanes: Seq<LaneV>, max_ww: int) -> Seq<NodeV> {
    Seq::new(
        lanes.len(),
        |j: int|
            NodeV::Group(
                GroupV {
                    dx: 0,
                    dy: spec_lane_offset(j),
                    nodes: spec_lane_group(lanes[j], max_ww).nodes,
                },
            ),
    )
}

/// The document a diagram composes to: the view box, the full-bleed
/// background, the centered title text, and one group per lane, nested
/// under one group offset by the outer padding and the header.
pub open spec fn spec_compose(d: DiagramV) -> DocumentV {
    let width = spec_doc_width(d);
    let max_ww = spec_max_wave_len(d.lanes) * ((PERIOD_WIDTH as int) * (MILLI as int));
    DocumentV {
        width: width,
        height: spec_doc_height(d),
        nodes: seq![
            NodeV::Rect { fill: d.background },
            NodeV::Text(
                TextNodeV {
                    content: spec_title_text(d.title),
                    color: Color::Black,
                    size: TextSize::Normal,
                    anchor: TextAnchor::Middle,
                    dx: width / 2,
                    dy: PADDING as int,
                },
            ),
            NodeV::Group(
                GroupV {
                    dx: PADDING as int,
                    dy: (PADDING as int) + spec_header(d.title),
                    nodes: spec_lanes_nodes(d.lanes, max_ww),
                },
            ),
        ],
    }
}

/// The compositor: a pure value-to-value transform from diagrams to
/// documents.
#[derive(Debug, Clone, Copy)]
pub struct Compositor {
    config: Option<&'static str>,
}

impl View for Compositor {
    type V = Option<Seq<char>>;

    closed spec fn view(&self) -> Option<Seq<char>> {
        match self.config {
            Some(c) => Some(c@),
            None => None,
        }
    }
}

impl Default for Compositor {
    fn default() -> (c: Self)
        ensures
            c@ is None,
    {
        Compositor { config: None }
    }
}

impl Compositor {
    pub fn new() -> (c: Self)
        ensures
            c@ is None,
    {
        Compositor { config: None }
    }

    /// Remembers a configuration name. Composing does not yet read it.
    pub fn with(&mut self, config: &'static str) -> (r: &mut Self)
        ensures
            (*r)@ == Some(config@),
            *final(self) == *final(r),
    {
        self.config = Some(config);
        self
    }

    /// The three fixed reference lines of one lane, from `start` to
    /// `end`, moved down to the wave region.
    fn compose_lane_level_lines(&self, start: i64, end: i64) -> (g: Group)
        ensures
            g@ == spec_level_lines(start as int, end as int),
    {
        let mut nodes: Vec<Node> = Vec::new();
        nodes.push(Node::Line(h_dashed_line(start, end, 0)));
        nodes.push(Node::Line(h_dashed_line(start, end, WAVE_HEIGHT / 2)));
        nodes.push(Node::Line(h_dashed_line(start, end, WAVE_HEIGHT)));
        let g = Group { dx: 0, dy: 0, nodes }.translate(0, WAVE_PADDING_TOP);
        proof {
            broadcast use lemma_nodes_view_push;

            assert(g@.nodes =~= spec_level_lines(start as int, end as int).nodes);
        }
        g
    }

    /// One lane's marker overlays, in order, before the group is placed.
    fn compose_lane_markers(&self, markers: &Vec<Line>) -> (g: Group)
        requires
            forall|i: int|
                0 <= i < markers@.len() ==> position_fits(#[trigger] markers@[i]@.position),
        ensures
            g@ == (GroupV {
                dx: 0,
                dy: 0,
                nodes: spec_markers_nodes(markers@.map_values(|m: Line| m@)),
            }),
    {
        let ghost ms = markers@.map_values(|m: Line| m@);
        let mut nodes: Vec<Node> = Vec::new();
        let mut i: usize = 0;
        while i < markers.len()
            invariant
                0 <= i <= markers@.len(),
                ms == markers@.map_values(|m: Line| m@),
                forall|j: int|
                    0 <= j < markers@.len() ==> position_fits(#[trigger] markers@[j]@.position),
                nodes_view(nodes@) == spec_markers_nodes(ms.take(i as int)),
            decreases markers@.len() - i,
        {
            let ln = marker_line(&markers[i]);
            nodes.push(Node::Line(ln));
            proof {
                broadcast use lemma_nodes_view_push;

                assert(spec_markers_nodes(ms.take(i as int + 1)) =~= spec_markers_nodes(
                    ms.take(i as int),
                ).push(NodeV::Line(spec_marker_line(ms[i as int]))));
            }
            i = i + 1;
        }
        proof {
            assert(ms.take(markers@.len() as int) =~= ms);
        }
        Group { dx: 0, dy: 0, nodes }
    }

    /// One lane's label overlays, in order, before the group is placed.
    fn compose_lane_labels(&self, labels: &Vec<Label>) -> (g: Group)
        requires
            forall|i: int|
                0 <= i < labels@.len() ==> position_fits(#[trigger] labels@[i]@.position),
        ensures
            g@ == (GroupV {
                dx: 0,
                dy: 0,
                nodes: spec_labels_nodes(labels@.map_values(|l: Label| l@)),
            }),
    {
        let ghost ls = labels@.map_values(|l: Label| l@);
        let mut nodes: Vec<Node> = Vec::new();
        let mut i: usize = 0;
        while i < labels.len()
            invariant
                0 <= i <= labels@.len(),
                ls == labels@.map_values(|l: Label| l@),
                forall|j: int|
                    0 <= j < labels@.len() ==> position_fits(#[trigger] labels@[j]@.position),
                nodes_view(nodes@) == spec_labels_nodes(ls.take(i as int)),
            decreases labels@.len() - i,
        {
            let t = label_text(&labels[i]);
            nodes.push(Node::Text(t));
            proof {
                broadcast use lemma_nodes_view_push;

                assert(spec_labels_nodes(ls.take(i as int + 1)) =~= spec_labels_nodes(
                    ls.take(i as int),
                ).push(NodeV::Text(spec_label_text(ls[i as int]))));
            }
            i = i + 1;
        }
        proof {
            assert(ls.take(labels@.len() as int) =~= ls);
        }
        Group { dx: 0, dy: 0, nodes }
    }

    /// Builds one lane's group: rail names, reference lines, the wave
    /// path, and the overlays. Fails, with nothing drawn, if and only
    /// if the lane's wave holds an `Idle` level.
    fn compose_lane(&self, lane: &Lane, max_ww: i64) -> (r: Result<Group, ComposeError>)
        requires
            lane_fits(lane@),
            0 <= max_ww,
            max_ww as int <= (MAX_WAVE_LEVELS as int) * ((PERIOD_WIDTH as int) * (MILLI as int)),
        ensures
            match r {
                Ok(g) => wave_supported(lane@.signal.levels) && g@ == spec_lane_group(
                    lane@,
                    max_ww as int,
                ),
                Err(e) => !wave_supported(lane@.signal.levels) && e
                    == ComposeError::UnsupportedLevel,
            },
    {
        proof {
            assert forall|i: int|
                0 <= i < lane.markers@.len() implies position_fits(
                #[trigger] lane.markers@[i]@.position,
            ) by {
                assert(lane@.markers[i] == lane.markers@[i]@);
            }
            assert forall|i: int|
                0 <= i < lane.labels@.len() implies position_fits(
                #[trigger] lane.labels@[i]@.position,
            ) by {
                assert(lane@.labels[i] == lane.labels@[i]@);
            }
        }
        let path = match path_of_signal(&lane.signal) {
            Ok(p) => p,
            Err(e) => {
                return Err(e);
            },
        };
        let wave_end = WAVE_OFFSET + max_ww;

        let y_high_text = text_of_label(&Label::new(lane.signal.y_axis.0.clone()).small())
            .translate(WAVE_OFFSET - 10 * MILLI, WAVE_PADDING_TOP);
        let y_low_text = text_of_label(&Label::new(lane.signal.y_axis.1.clone()).small())
            .translate(WAVE_OFFSET - 10 * MILLI, WAVE_PADDING_TOP + WAVE_HEIGHT);
        let name_text = text_of_label(
            &signal_title_to_label(lane.signal.name.clone(), lane.signal.color),
        ).translate(WAVE_OFFSET - 15 * MILLI, WAVE_PADDING_TOP + WAVE_HEIGHT / 2);

        let mut nodes: Vec<Node> = Vec::new();
        nodes.push(Node::Text(y_high_text));
        nodes.push(Node::Text(y_low_text));
        nodes.push(Node::Text(name_text));
        nodes.push(Node::Group(self.compose_lane_level_lines(WAVE_OFFSET, wave_end)));
        nodes.push(Node::Path(path.translate(WAVE_OFFSET, WAVE_PADDING_TOP)));
        nodes.push(
            Node::Group(self.compose_lane_markers(&lane.markers).translate(WAVE_OFFSET, 0)),
        );
        nodes.push(
            Node::Group(self.compose_lane_labels(&lane.labels).translate(WAVE_OFFSET, LANE_HEIGHT)),
        );
        let g = Group { dx: 0, dy: 0, nodes };
        proof {
            broadcast use lemma_nodes_view_push;

            assert(g@.nodes =~= spec_lane_group(lane@, max_ww as int).nodes);
        }
        Ok(g)
    }

    /// Composes a diagram into a finished document.
    ///
    /// Succeeds — with exactly the document `spec_compose` describes —
    /// if and only if no wave of the diagram holds an `Idle` level;
    /// otherwise nothing is produced but the typed error.
    pub fn compose(&self, diag: &Diagram) -> (r: Result<Document, ComposeError>)
        requires
            diagram_fits(diag@),
        ensures
            match r {
                Ok(doc) => diagram_supported(diag@) && doc@ == spec_compose(diag@),
                Err(e) => !diagram_supported(diag@) && e == ComposeError::UnsupportedLevel,
            },
    {
        let ghost d = diag@;
        proof {
            crate::layout::lemma_max_wave_len_le(d.lanes);
        }
        let max_len = get_max_wave_len(diag);
        let max_wave_width = (max_len as i64) * (PERIOD_WIDTH * MILLI);
        let width = document_width(diag);
        let height = document_height(diag);

        let bg = RectNode { fill: diag.background() };
        let title_text = text_of_label(&Label::new(diag.title())).translate(width / 2, PADDING);

        let lanes = diag.lanes();
        let mut lane_nodes: Vec<Node> = Vec::new();
        let mut num: usize = 0;
        while num < lanes.len()
            invariant
                diagram_fits(d),
                d == diag@,
                lanes@.map_values(|l: Lane| l@) == d.lanes,
                0 <= num <= d.lanes.len(),
                0 <= max_wave_width,
                max_wave_width as int == spec_max_wave_len(d.lanes) * ((PERIOD_WIDTH as int) * (
                MILLI as int)),
                max_wave_width as int <= (MAX_WAVE_LEVELS as int) * ((PERIOD_WIDTH as int) * (
                MILLI as int)),
                forall|j: int|
                    0 <= j < num ==> wave_supported(#[trigger] d.lanes[j].signal.levels),
                nodes_view(lane_nodes@) == spec_lanes_nodes(
                    d.lanes.take(num as int),
                    max_wave_width as int,
                ),
            decreases lanes@.len() - num,
        {
            let g = match self.compose_lane(&lanes[num], max_wave_width) {
                Ok(g) => g,
                Err(e) => {
                    proof {
                        assert(!wave_supported(d.lanes[num as int].signal.levels));
                    }
                    return Err(e);
                },
            };
            let g = g.translate(0, lane_offset(num));
            lane_nodes.push(Node::Group(g));
            proof {
                broadcast use lemma_nodes_view_push;

                assert(spec_lanes_nodes(d.lanes.take(num as int + 1), max_wave_width as int)
                    =~= spec_lanes_nodes(d.lanes.take(num as int), max_wave_width as int).push(
                    NodeV::Group(
                        GroupV {
                            dx: 0,
                            dy: spec_lane_offset(num as int),
                            nodes: spec_lane_group(d.lanes[num as int], max_wave_width as int).nodes,
                        },
                    ),
                ));
            }
            num = num + 1;
        }
        proof {
            assert(d.lanes.take(d.lanes.len() as int) =~= d.lanes);
        }

        let header: i64 = if diag.has_title() {
            HEADER_HEIGHT
        } else {
            0
        };
        let lanes_group = Group { dx: PADDING, dy: PADDING + header, nodes: lane_nodes };
        let mut nodes: Vec<Node> = Vec::new();
        nodes.push(Node::Rect(bg));
        nodes.push(Node::Text(title_text));
        nodes.push(Node::Group(lanes_group));
        let doc = Document { width, height, nodes };
        proof {
            broadcast use lemma_nodes_view_push;

            assert(doc@.nodes =~= spec_compose(d).nodes);
        }
        Ok(doc)
    }
}

/// Composing is deterministic: any two documents composed from the same
/// diagram value are structurally identical.
pub proof fn lemma_compose_deterministic(d: DiagramV, doc1: DocumentV, doc2: DocumentV)
    requires
        doc1 == spec_compose(d),
        doc2 == spec_compose(d),
    ensures
        doc1 == doc2,
{
}

/// A marker at position `p` always lands at pixel `x == p * PERIOD_WIDTH`
/// within its lane group, whatever the lane around it holds.
pub proof fn lemma_marker_pixel_x(m: LineV)
    ensures
        spec_marker_line(m).x1 == m.position * (PERIOD_WIDTH as int),
        spec_marker_line(m).x2 == m.position * (PERIOD_WIDTH as int),
{
}

/// A label at position `p` always lands at pixel `x == p * PERIOD_WIDTH`
/// within its lane group, whatever the lane around it holds.
pub proof fn lemma_label_pixel_x(l: LabelV)
    ensures
        spec_label_text(l).dx == l.position * (PERIOD_WIDTH as int),
{
}

/// The overlay groups of a lane depend on the markers and labels alone:
/// two lanes with the same overlays place them identically, whatever
/// their waves, the surrounding lanes, or the lane's own band.
pub proof fn lemma_overlays_identical_across_lanes(l1: LaneV, l2: LaneV, ww1: int, ww2: int)
    requires
        l1.markers == l2.markers,
        l1.labels == l2.labels,
    ensures
        spec_lane_group(l1, ww1).nodes[5] == spec_lane_group(l2, ww2).nodes[5],
        spec_lane_group(l1, ww1).nodes[6] == spec_lane_group(l2, ww2).nodes[6],
{
}

} // verus!
