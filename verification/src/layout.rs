//! The layout engine: fixed visual constants, document extents and lane
//! offsets.
//!
//! All lengths are in milli-pixels (thousandths of an abstract pixel),
//! except [`PERIOD_WIDTH`], which converts period units to pixels and
//! milli-periods to milli-pixels.

use vstd::prelude::*;

use crate::diagram::{diagram_fits, Diagram, DiagramV, LaneV};

verus! {

/// Thousandths per unit: scalars of the library are fixed-point values
/// carried as `i64` counts of thousandths.
pub const MILLI: i64 = 1000;

/// Pixels of horizontal room per period unit (`W`).
pub const PERIOD_WIDTH: i64 = 50;

/// Full logic swing of a wave (`H`), in milli-pixels.
pub const WAVE_HEIGHT: i64 = 50 * MILLI;

/// Outer padding on every side of the document, in milli-pixels.
pub const PADDING: i64 = 30 * MILLI;

/// Vertical room for the title, in milli-pixels; left out when the diagram
/// has no title.
pub const HEADER_HEIGHT: i64 = 25 * MILLI;

/// Vertical room below the lanes, in milli-pixels.
pub const FOOTER_HEIGHT: i64 = 0;

/// Room above the wave inside a lane, in milli-pixels.
pub const WAVE_PADDING_TOP: i64 = 25 * MILLI;

/// Room below the wave inside a lane, in milli-pixels.
pub const WAVE_PADDING_BOTTOM: i64 = 25 * MILLI;

/// Height of one lane, in milli-pixels: the wave plus its paddings.
pub const LANE_HEIGHT: i64 = WAVE_HEIGHT + WAVE_PADDING_TOP + WAVE_PADDING_BOTTOM;

/// Horizontal offset at which every wave starts, in milli-pixels.
pub const WAVE_OFFSET: i64 = 75 * MILLI;

/// The largest phase shift the fixed-point arithmetic admits, in
/// milli-periods.
pub const MAX_PHASE: i64 = 1_000_000_000;

/// The largest period width the fixed-point arithmetic admits, in
/// milli-periods.
pub const MAX_PERIOD: i64 = 1_000_000_000;

/// The most levels one wave may hold.
pub const MAX_WAVE_LEVELS: usize = 100_000;

/// The most lanes one diagram may hold.
pub const MAX_LANES: usize = 100_000;

/// The largest magnitude of a marker or label position, in milli-periods.
pub const MAX_POSITION: i64 = 1_000_000_000_000;

/// The raw level count of the longest wave across all lanes. Period and
/// phase scaling of individual signals is intentionally not factored in.
pub open spec fn spec_max_wave_len(lanes: Seq<LaneV>) -> int
    decreases lanes,
{
    if lanes.len() == 0 {
        0
    } else {
        let rest = spec_max_wave_len(lanes.drop_last());
        let last = lanes.last().signal.levels.len() as int;
        if last >= rest {
            last
        } else {
            rest
        }
    }
}

/// The longest wave never exceeds the level bound when every lane fits.
pub proof fn lemma_max_wave_len_le(lanes: Seq<LaneV>)
    requires
        forall|i: int| 0 <= i < lanes.len() ==> crate::diagram::lane_fits(#[trigger] lanes[i]),
    ensures
        0 <= spec_max_wave_len(lanes) <= MAX_WAVE_LEVELS as int,
    decreases lanes,
{
    if lanes.len() > 0 {
        assert(forall|i: int|
            0 <= i < lanes.drop_last().len() ==> #[trigger] lanes.drop_last()[i] == lanes[i]);
        lemma_max_wave_len_le(lanes.drop_last());
        assert(crate::diagram::lane_fits(lanes[lanes.len() - 1]));
    }
}

/// The raw level count of the longest wave in the diagram, zero where
/// there are no lanes.
pub fn get_max_wave_len(diag: &Diagram) -> (n: usize)
    ensures
        n as int == spec_max_wave_len(diag@.lanes),
{
    let lanes = diag.lanes();
    let mut best: usize = 0;
    let mut i: usize = 0;
    while i < lanes.len()
        invariant
            0 <= i <= lanes.len(),
            lanes@.map_values(|l: crate::diagram::Lane| l@) == diag@.lanes,
            best as int == spec_max_wave_len(diag@.lanes.take(i as int)),
        decreases lanes.len() - i,
    {
        let len = lanes[i].signal.len();
        if len > best {
            best = len;
        }
        proof {
            let taken = diag@.lanes.take(i as int + 1);
            assert(taken.drop_last() =~= diag@.lanes.take(i as int));
            assert(taken.last() == diag@.lanes[i as int]);
        }
        i = i + 1;
    }
    proof {
        assert(diag@.lanes.take(diag@.lanes.len() as int) =~= diag@.lanes);
    }
    best
}

/// The vertical room the title takes: nothing where there is no title.
pub open spec fn spec_header(title: Option<Seq<char>>) -> int {
    match title {
        Some(_) => HEADER_HEIGHT as int,
        None => 0,
    }
}

/// The document's width: the longest wave, the wave offset, and padding
/// on both sides.
pub open spec fn spec_doc_width(d: DiagramV) -> int {
    spec_max_wave_len(d.lanes) * ((PERIOD_WIDTH as int) * (MILLI as int)) + (WAVE_OFFSET as int)
        + 2 * (PADDING as int)
}

/// The document's height: one fixed-height lane per lane of the diagram,
/// the header where there is a title, the footer, and padding on both
/// sides.
pub open spec fn spec_doc_height(d: DiagramV) -> int {
    d.lanes.len() * (LANE_HEIGHT as int) + spec_header(d.title) + (FOOTER_HEIGHT as int) + 2 * (
    PADDING as int)
}

/// The top of lane `i`'s vertical band.
pub open spec fn spec_lane_offset(i: int) -> int {
    i * (LANE_HEIGHT as int)
}

/// Computes the document's width, in milli-pixels.
pub fn document_width(diag: &Diagram) -> (w: i64)
    requires
        diagram_fits(diag@),
    ensures
        w as int == spec_doc_width(diag@),
        0 < w,
{
    proof {
        lemma_max_wave_len_le(diag@.lanes);
    }
    let max_len = get_max_wave_len(diag);
    let max_wave_width = (max_len as i64) * (PERIOD_WIDTH * MILLI);
    max_wave_width + WAVE_OFFSET + 2 * PADDING
}

/// Computes the document's height, in milli-pixels.
pub fn document_height(diag: &Diagram) -> (h: i64)
    requires
        diagram_fits(diag@),
    ensures
        h as int == spec_doc_height(diag@),
        0 < h,
{
    let header: i64 = if diag.has_title() {
        HEADER_HEIGHT
    } else {
        0
    };
    let lanes: i64 = (diag.lane_count() as i64) * LANE_HEIGHT;
    lanes + header + FOOTER_HEIGHT + 2 * PADDING
}

/// Computes the top of lane `i`'s vertical band, in milli-pixels.
pub fn lane_offset(i: usize) -> (y: i64)
    requires
        i as int <= MAX_LANES as int,
    ensures
        y as int == spec_lane_offset(i as int),
{
    (i as i64) * LANE_HEIGHT
}

} // verus!
