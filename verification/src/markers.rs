//! Lane overlays: vertical guide-line markers and text labels.

use vstd::prelude::*;

use crate::color::Color;
use crate::layout::{MAX_POSITION, MILLI};

verus! {

/// Whether a position lies within what the fixed-point arithmetic
/// admits.
pub open spec fn position_fits(position: int) -> bool {
    -(MAX_POSITION as int) <= position <= MAX_POSITION as int
}

/// Something placed at a horizontal position, given in milli-periods.
pub trait Marker {
    /// The marker's position, in milli-periods.
    spec fn spec_position(&self) -> int;

    /// The marker's position, in milli-periods.
    fn position(&self) -> (p: i64)
        ensures
            p as int == self.spec_position(),
    ;
}

/// The mathematical value of a guide-line marker.
pub ghost struct LineV {
    pub position: int,
    pub dashed: bool,
    pub thickness: int,
    pub color: Color,
}

/// A vertical guide-line annotation at a horizontal position.
#[derive(Debug, Clone, Copy, PartialEq)]
pub struct Line {
    /// Horizontal position in milli-periods; may lie before or past the
    /// visible wave.
    pub position: i64,
    pub dashed: bool,
    /// Stroke width in milli-pixels.
    pub thickness: i64,
    pub color: Color,
}

impl View for Line {
    type V = LineV;

    open spec fn view(&self) -> LineV {
        LineV {
            position: self.position as int,
            dashed: self.dashed,
            thickness: self.thickness as int,
            color: self.color,
        }
    }
}

/// The marker every constructor starts from: a dashed light-gray line of
/// one pixel thickness at position zero.
pub open spec fn spec_default_line() -> LineV {
    LineV { position: 0, dashed: true, thickness: MILLI as int, color: Color::Lightgray }
}

impl Default for Line {
    fn default() -> (l: Self)
        ensures
            l@ == spec_default_line(),
    {
        Line { position: 0, dashed: true, thickness: MILLI, color: Color::Lightgray }
    }
}

impl Line {
    pub fn new(position: i64, dashed: bool, thickness: i64, color: Color) -> (l: Self)
        ensures
            l@ == (LineV {
                position: position as int,
                dashed: dashed,
                thickness: thickness as int,
                color: color,
            }),
    {
        Line { position, dashed, thickness, color }
    }

    /// Places the line at the given wave position, in milli-periods.
    /// Supports the builder pattern.
    pub fn at(self, position: i64) -> (l: Self)
        ensures
            l@ == (LineV { position: position as int, ..self@ }),
    {
        Line { position, ..self }
    }
}

impl Marker for Line {
    open spec fn spec_position(&self) -> int {
        self.position as int
    }

    fn position(&self) -> (p: i64) {
        self.position
    }
}

/// A size category for rendered text.
#[derive(Debug, Clone, Copy, PartialEq, Eq, Structural)]
pub enum TextSize {
    Small,
    Smaller,
    Normal,
    Larger,
    Large,
}

impl Default for TextSize {
    fn default() -> (s: Self)
        ensures
            s == TextSize::Normal,
    {
        TextSize::Normal
    }
}

/// The name a text size renders as.
pub open spec fn spec_text_size_name(s: TextSize) -> Seq<char> {
    match s {
        TextSize::Small => "small"@,
        TextSize::Smaller => "smaller"@,
        TextSize::Normal => "normal"@,
        TextSize::Larger => "larger"@,
        TextSize::Large => "large"@,
    }
}

impl TextSize {
    /// The name this size renders as.
    pub fn name(&self) -> (s: String)
        ensures
            s@ == spec_text_size_name(*self),
    {
        match *self {
            TextSize::Small => String::from_str("small"),
            TextSize::Smaller => String::from_str("smaller"),
            TextSize::Normal => String::from_str("normal"),
            TextSize::Larger => String::from_str("larger"),
            TextSize::Large => String::from_str("large"),
        }
    }
}

/// Where rendered text is anchored horizontally.
#[derive(Debug, Clone, Copy, PartialEq, Eq, Structural)]
pub enum TextAnchor {
    Start,
    End,
    Middle,
}

impl Default for TextAnchor {
    fn default() -> (a: Self)
        ensures
            a == TextAnchor::Middle,
    {
        TextAnchor::Middle
    }
}

/// The name a text anchor renders as.
pub open spec fn spec_text_anchor_name(a: TextAnchor) -> Seq<char> {
    match a {
        TextAnchor::Start => "start"@,
        TextAnchor::End => "end"@,
        TextAnchor::Middle => "middle"@,
    }
}

impl TextAnchor {
    /// The name this anchor renders as.
    pub fn name(&self) -> (s: String)
        ensures
            s@ == spec_text_anchor_name(*self),
    {
        match *self {
            TextAnchor::Start => String::from_str("start"),
            TextAnchor::End => String::from_str("end"),
            TextAnchor::Middle => String::from_str("middle"),
        }
    }
}

/// The mathematical value of a label.
pub ghost struct LabelV {
    pub text: Seq<char>,
    pub position: int,
    pub color: Color,
    pub size: TextSize,
    pub anchor: TextAnchor,
}

/// A text annotation at a horizontal position.
#[derive(Debug, Clone, PartialEq)]
pub struct Label {
    pub text: String,
    /// Horizontal position in milli-periods.
    pub position: i64,
    pub color: Color,
    pub size: TextSize,
    pub anchor: TextAnchor,
}

impl View for Label {
    type V = LabelV;

    open spec fn view(&self) -> LabelV {
        LabelV {
            text: self.text@,
            position: self.position as int,
            color: self.color,
            size: self.size,
            anchor: self.anchor,
        }
    }
}

/// The label a text starts from: centered normal-sized black text at
/// position zero.
pub open spec fn spec_label_of(text: Seq<char>) -> LabelV {
    LabelV {
        text: text,
        position: 0,
        color: Color::Black,
        size: TextSize::Normal,
        anchor: TextAnchor::Middle,
    }
}

impl Label {
    /// A label carrying the given text, with every other attribute at its
    /// default.
    pub fn new(text: String) -> (l: Self)
        ensures
            l@ == spec_label_of(text@),
    {
        Label {
            text,
            position: 0,
            color: Color::Black,
            size: TextSize::Normal,
            anchor: TextAnchor::Middle,
        }
    }

    /// Places the label at the given wave position, in milli-periods.
    /// Supports the builder pattern.
    pub fn at(self, position: i64) -> (l: Self)
        ensures
            l@ == (LabelV { position: position as int, ..self@ }),
    {
        Label { position, ..self }
    }

    pub fn small(self) -> (l: Self)
        ensures
            l@ == (LabelV { size: TextSize::Small, ..self@ }),
    {
        Label { size: TextSize::Small, ..self }
    }

    pub fn large(self) -> (l: Self)
        ensures
            l@ == (LabelV { size: TextSize::Large, ..self@ }),
    {
        Label { size: TextSize::Large, ..self }
    }

    pub fn with_size(self, size: TextSize) -> (l: Self)
        ensures
            l@ == (LabelV { size: size, ..self@ }),
    {
        Label { size, ..self }
    }

    pub fn align(self, anchor: TextAnchor) -> (l: Self)
        ensures
            l@ == (LabelV { anchor: anchor, ..self@ }),
    {
        Label { anchor, ..self }
    }

    pub fn color_with(self, color: Color) -> (l: Self)
        ensures
            l@ == (LabelV { color: color, ..self@ }),
    {
        Label { color, ..self }
    }
}

impl Marker for Label {
    open spec fn spec_position(&self) -> int {
        self.position as int
    }

    fn position(&self) -> (p: i64) {
        self.position
    }
}

} // verus!
