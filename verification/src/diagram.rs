//! The diagram model: lanes stacked in paint order, each holding one
//! signal with its markers and labels.

use vstd::prelude::*;

use crate::color::Color;
use crate::layout::MAX_LANES;
use crate::markers::{position_fits, Label, LabelV, Line, LineV, TextSize};
use crate::signal::{signal_fits, Signal, SignalV};

verus! {

/// The mathematical value of a lane.
pub ghost struct LaneV {
    pub signal: SignalV,
    pub markers: Seq<LineV>,
    pub labels: Seq<LabelV>,
}

/// Whether a lane's scalars lie within what the fixed-point arithmetic
/// admits.
pub open spec fn lane_fits(l: LaneV) -> bool {
    &&& signal_fits(l.signal)
    &&& forall|i: int| 0 <= i < l.markers.len() ==> position_fits(#[trigger] l.markers[i].position)
    &&& forall|i: int| 0 <= i < l.labels.len() ==> position_fits(#[trigger] l.labels[i].position)
}

/// Whether a diagram's scalars lie within what the fixed-point
/// arithmetic admits.
pub open spec fn diagram_fits(d: DiagramV) -> bool {
    &&& d.lanes.len() <= MAX_LANES as int
    &&& forall|i: int| 0 <= i < d.lanes.len() ==> lane_fits(#[trigger] d.lanes[i])
}

/// One horizontal track: exactly one signal, plus its markers and labels.
/// Lane order is paint order and stacking order.
#[derive(Debug, PartialEq)]
pub struct Lane {
    pub signal: Signal,
    pub markers: Vec<Line>,
    pub labels: Vec<Label>,
}

impl View for Lane {
    type V = LaneV;

    open spec fn view(&self) -> LaneV {
        LaneV {
            signal: self.signal@,
            markers: self.markers@.map_values(|m: Line| m@),
            labels: self.labels@.map_values(|l: Label| l@),
        }
    }
}

impl Lane {
    pub fn new(signal: Signal) -> (l: Self)
        ensures
            l@ == (LaneV { signal: signal@, markers: Seq::empty(), labels: Seq::empty() }),
    {
        let l = Lane { signal, markers: Vec::new(), labels: Vec::new() };
        proof {
            assert(l@.markers =~= Seq::<LineV>::empty());
            assert(l@.labels =~= Seq::<LabelV>::empty());
        }
        l
    }

    /// Adds a marker to the lane. Supports the builder pattern.
    pub fn add_marker(self, marker: Line) -> (l: Self)
        ensures
            l@ == (LaneV { markers: self@.markers.push(marker@), ..self@ }),
    {
        let ghost prev = self@;
        let mut lane = self;
        lane.markers.push(marker);
        proof {
            assert(lane@.markers =~= prev.markers.push(marker@));
        }
        lane
    }

    /// Adds a label to the lane. Supports the builder pattern.
    pub fn add_label(self, label: Label) -> (l: Self)
        ensures
            l@ == (LaneV { labels: self@.labels.push(label@), ..self@ }),
    {
        let ghost prev = self@;
        let mut lane = self;
        lane.labels.push(label);
        proof {
            assert(lane@.labels =~= prev.labels.push(label@));
        }
        lane
    }

    /// Appends a marker to the lane.
    pub fn append_marker(&mut self, marker: Line) -> (r: &mut Self)
        ensures
            r@ == (LaneV { markers: old(self)@.markers.push(marker@), ..old(self)@ }),
            *final(self) == *final(r),
    {
        self.markers.push(marker);
        proof {
            assert(self@.markers =~= old(self)@.markers.push(marker@));
        }
        self
    }

    /// Moves the given labels to the end of the lane's labels.
    pub fn append_labels(&mut self, labels: &mut Vec<Label>) -> (r: &mut Self)
        ensures
            r@ == (LaneV { labels: old(self)@.labels + old(labels)@.map_values(|l: Label| l@), ..old(self)@ }),
            final(labels)@ == Seq::<Label>::empty(),
            *final(self) == *final(r),
    {
        self.labels.append(labels);
        proof {
            assert(self@.labels =~= old(self)@.labels + old(labels)@.map_values(|l: Label| l@));
        }
        self
    }

    /// Adds a default marker at the given position, in milli-periods.
    /// Supports the builder pattern.
    pub fn add_mark_at(self, position: i64) -> (l: Self)
        ensures
            l@ == (LaneV {
                markers: self@.markers.push(
                    LineV { position: position as int, ..crate::markers::spec_default_line() },
                ),
                ..self@
            }),
    {
        self.add_marker(Line::default().at(position))
    }

    /// Appends a default marker at the given position, in milli-periods.
    pub fn append_marker_at(&mut self, position: i64) -> (r: &mut Self)
        ensures
            r@ == (LaneV {
                markers: old(self)@.markers.push(
                    LineV { position: position as int, ..crate::markers::spec_default_line() },
                ),
                ..old(self)@
            }),
            *final(self) == *final(r),
    {
        self.markers.push(Line::default().at(position));
        proof {
            assert(self@.markers =~= old(self)@.markers.push(
                LineV { position: position as int, ..crate::markers::spec_default_line() },
            ));
        }
        self
    }

    /// Adds a text as a small label at the given position, in
    /// milli-periods. Supports the builder pattern.
    pub fn add_label_at(self, text: String, position: i64) -> (l: Self)
        ensures
            l@ == (LaneV {
                labels: self@.labels.push(
                    LabelV {
                        position: position as int,
                        size: TextSize::Small,
                        ..crate::markers::spec_label_of(text@)
                    },
                ),
                ..self@
            }),
    {
        self.add_label(Label::new(text).at(position).with_size(TextSize::Small))
    }

    /// Appends a text as a small label at the given position, in
    /// milli-periods.
    pub fn append_label_at(&mut self, text: String, position: i64) -> (r: &mut Self)
        ensures
            r@ == (LaneV {
                labels: old(self)@.labels.push(
                    LabelV {
                        position: position as int,
                        size: TextSize::Small,
                        ..crate::markers::spec_label_of(text@)
                    },
                ),
                ..old(self)@
            }),
            *final(self) == *final(r),
    {
        let ghost prev = self@;
        let label = Label::new(text).at(position).with_size(TextSize::Small);
        self.labels.push(label);
        proof {
            assert(self@.labels =~= prev.labels.push(label@));
        }
        self
    }
}

/// The mathematical value of a diagram.
pub ghost struct DiagramV {
    pub title: Option<Seq<char>>,
    pub lanes: Seq<LaneV>,
    pub background: Color,
}

/// An immutable value tree: optional title, background color, and an
/// ordered sequence of lanes.
#[derive(Debug, PartialEq)]
pub struct Diagram {
    title: Option<String>,
    lanes: Vec<Lane>,
    background: Color,
}

impl View for Diagram {
    type V = DiagramV;

    closed spec fn view(&self) -> DiagramV {
        DiagramV {
            title: match self.title {
                Some(t) => Some(t@),
                None => None,
            },
            lanes: self.lanes@.map_values(|l: Lane| l@),
            background: self.background,
        }
    }
}

/// An empty title collapses to no title at all.
pub open spec fn spec_normalized_title(title: Option<Seq<char>>) -> Option<Seq<char>> {
    match title {
        Some(t) => if t.len() == 0 {
            None
        } else {
            Some(t)
        },
        None => None,
    }
}

impl Default for Diagram {
    fn default() -> (d: Self)
        ensures
            d@ == (DiagramV { title: None, lanes: Seq::empty(), background: Color::White }),
    {
        let d = Diagram { title: None, lanes: Vec::new(), background: Color::White };
        proof {
            assert(d@.lanes =~= Seq::<LaneV>::empty());
        }
        d
    }
}

impl Diagram {
    /// Constructs a new diagram with a white background and no lanes.
    /// An empty title counts as no title.
    pub fn new(title: Option<String>) -> (d: Self)
        ensures
            d@ == (DiagramV {
                title: spec_normalized_title(
                    match title {
                        Some(t) => Some(t@),
                        None => None,
                    },
                ),
                lanes: Seq::empty(),
                background: Color::White,
            }),
    {
        let normalized = match title {
            Some(t) => if t.as_str().is_empty() {
                None
            } else {
                Some(t)
            },
            None => None,
        };
        let d = Diagram { title: normalized, lanes: Vec::new(), background: Color::White };
        proof {
            assert(d@.lanes =~= Seq::<LaneV>::empty());
        }
        d
    }

    /// Sets the diagram's background to dark gray if asked to.
    /// Supports the builder pattern.
    pub fn dark(self, dark: bool) -> (d: Self)
        ensures
            d@ == (DiagramV {
                background: if dark {
                    Color::Darkgray
                } else {
                    self@.background
                },
                ..self@
            }),
    {
        if dark {
            let mut d = self;
            d.background = Color::Darkgray;
            d
        } else {
            self
        }
    }

    /// Adds a lane to the diagram. Supports the builder pattern.
    pub fn add(self, lane: Lane) -> (d: Self)
        ensures
            d@ == (DiagramV { lanes: self@.lanes.push(lane@), ..self@ }),
    {
        let ghost prev = self@;
        let mut d = self;
        d.lanes.push(lane);
        proof {
            assert(d@.lanes =~= prev.lanes.push(lane@));
        }
        d
    }

    /// Appends a lane to the diagram.
    pub fn append(&mut self, lane: Lane) -> (r: &mut Self)
        ensures
            r@ == (DiagramV { lanes: old(self)@.lanes.push(lane@), ..old(self)@ }),
            *final(self) == *final(r),
    {
        let ghost prev = self@;
        let ghost lanev = lane@;
        self.lanes.push(lane);
        proof {
            assert(self@.lanes =~= prev.lanes.push(lanev));
        }
        self
    }

    /// Sets the diagram's title, as given.
    pub fn set_title(&mut self, title: Option<String>)
        ensures
            final(self)@ == (DiagramV {
                title: match title {
                    Some(t) => Some(t@),
                    None => None,
                },
                ..old(self)@
            }),
    {
        self.title = title;
    }

    /// Sets the diagram's background.
    pub fn set_background(&mut self, background: Color)
        ensures
            final(self)@ == (DiagramV { background: background, ..old(self)@ }),
    {
        self.background = background;
    }

    /// The diagram's title, or the empty string where there is none.
    pub fn title(&self) -> (t: String)
        ensures
            t@ == match self@.title {
                Some(s) => s,
                None => Seq::<char>::empty(),
            },
    {
        match &self.title {
            Some(t) => t.clone(),
            None => String::new(),
        }
    }

    /// Whether the diagram carries a title.
    pub fn has_title(&self) -> (b: bool)
        ensures
            b == self@.title.is_some(),
    {
        self.title.is_some()
    }

    /// The diagram's background.
    pub fn background(&self) -> (c: Color)
        ensures
            c == self@.background,
    {
        self.background
    }

    /// The number of lanes in the diagram.
    pub fn lane_count(&self) -> (n: usize)
        ensures
            n == self@.lanes.len(),
    {
        self.lanes.len()
    }

    /// The diagram's lanes.
    pub fn lanes(&self) -> (lanes: &Vec<Lane>)
        ensures
            lanes@.map_values(|l: Lane| l@) == self@.lanes,
    {
        &self.lanes
    }
}

} // verus!
