//! Where things stand on the screen.
//!
//! An area is split by `ratatui`'s constraint solver. Its outcome is not always
//! determined by what it is given (it says so of constraints that cannot all be
//! met), so it is spoken of by a relation: `possible_split` holds of the
//! outcomes that the solver can have.

use ratatui::layout::{Constraint, Direction, Layout, Rect};
use vstd::prelude::*;

verus! {

/// A rectangle of the screen, in cells.
#[derive(Clone, Copy, Debug, PartialEq, Eq, Structural)]
pub struct Area {
    pub x: u16,
    pub y: u16,
    pub width: u16,
    pub height: u16,
}

/// Along which side an area is split.
#[derive(Clone, Copy, Debug, PartialEq, Eq, Structural)]
pub enum Axis {
    /// Into parts above each other.
    Vertical,
    /// Into parts beside each other.
    Horizontal,
}

/// What a part of an area asks for.
#[derive(Clone, Copy, Debug, PartialEq, Eq, Structural)]
pub enum Share {
    /// At least so many cells.
    Min(u16),
    /// So many cells.
    Length(u16),
    /// So many hundredths of the area.
    Percentage(u16),
    /// A fraction of the area.
    Ratio(u32, u32),
}

/// `parts` is an outcome that splitting `area` can have.
pub uninterp spec fn possible_split(
    area: Area,
    axis: Axis,
    spacing: u16,
    shares: Seq<Share>,
    parts: Seq<Area>,
) -> bool;

/// The part does not reach beyond the area on any side.
pub open spec fn inside(part: Area, area: Area) -> bool {
    &&& area.x <= part.x
    &&& part.x + part.width <= area.x + area.width
    &&& area.y <= part.y
    &&& part.y + part.height <= area.y + area.height
}

/// The part lies inside the area, and keeps its extent across the axis.
pub open spec fn spans(part: Area, area: Area, axis: Axis) -> bool {
    &&& inside(part, area)
    &&& match axis {
        Axis::Vertical => part.x == area.x && part.width == area.width,
        Axis::Horizontal => part.y == area.y && part.height == area.height,
    }
}

/// `ratatui::layout::Layout::split` gives each constraint a part of the area.
/// The contract claims that there are as many parts as constraints, and that
/// each lies inside the area, which the solver has as a required constraint, and
/// spans it across the axis. How long a part is along the axis is left to the
/// solver: of that it claims only that the outcome is one which the call can
/// have.
#[verifier::external_body]
fn split(area: Area, axis: Axis, spacing: u16, shares: &Vec<Share>) -> (parts: Vec<Area>)
    ensures
        possible_split(area, axis, spacing, shares@, parts@),
        parts@.len() == shares@.len(),
        forall|i: int| 0 <= i < parts@.len() ==> spans(#[trigger] parts@[i], area, axis),
{
    let direction = match axis {
        Axis::Vertical => Direction::Vertical,
        Axis::Horizontal => Direction::Horizontal,
    };
    let constraints = shares.iter().map(|share| match *share {
        Share::Min(n) => Constraint::Min(n),
        Share::Length(n) => Constraint::Length(n),
        Share::Percentage(n) => Constraint::Percentage(n),
        Share::Ratio(n, d) => Constraint::Ratio(n, d),
    });
    let whole = Rect { x: area.x, y: area.y, width: area.width, height: area.height };
    let parts = Layout::new(direction, constraints).spacing(spacing).split(whole);
    parts.iter().map(|r| Area { x: r.x, y: r.y, width: r.width, height: r.height }).collect()
}

/// The four bands of the screen.
#[derive(Clone, Copy, Debug, PartialEq, Eq, Structural)]
pub struct FrameAreas {
    pub header: Area,
    pub main: Area,
    pub log: Area,
    pub footer: Area,
}

/// What the bands of the screen ask for.
pub open spec fn frame_shares() -> Seq<Share> {
    seq![Share::Length(3), Share::Min(20), Share::Length(12), Share::Length(4)]
}

/// The bands stand below each other in `area`.
pub open spec fn in_bands(bands: FrameAreas, area: Area) -> bool {
    possible_split(
        area,
        Axis::Vertical,
        0,
        frame_shares(),
        seq![bands.header, bands.main, bands.log, bands.footer],
    )
}

/// Splits the screen into its bands.
pub fn frame_areas(area: Area) -> (r: FrameAreas)
    ensures
        possible_split(
            area,
            Axis::Vertical,
            0,
            frame_shares(),
            seq![r.header, r.main, r.log, r.footer],
        ),
        spans(r.header, area, Axis::Vertical),
        spans(r.main, area, Axis::Vertical),
        spans(r.log, area, Axis::Vertical),
        spans(r.footer, area, Axis::Vertical),
        in_bands(r, area),
{
    let shares: Vec<Share> =
        vec![Share::Length(3), Share::Min(20), Share::Length(12), Share::Length(4)];
    assert(shares@ =~= frame_shares());
    let parts = split(area, Axis::Vertical, 0, &shares);
    assert(parts@ =~= seq![parts@[0], parts@[1], parts@[2], parts@[3]]);
    FrameAreas { header: parts[0], main: parts[1], log: parts[2], footer: parts[3] }
}

/// What the two panes of the header ask for.
pub open spec fn header_shares() -> Seq<Share> {
    seq![Share::Min(32), Share::Length(48)]
}

/// The pane of the title stands beside that of the session in `area`.
pub open spec fn in_header(title: Area, session: Area, area: Area) -> bool {
    possible_split(area, Axis::Horizontal, 0, header_shares(), seq![title, session])
}

/// Splits the header into the pane of the title and that of the session.
pub fn header_areas(area: Area) -> (r: (Area, Area))
    ensures
        possible_split(area, Axis::Horizontal, 0, header_shares(), seq![r.0, r.1]),
        spans(r.0, area, Axis::Horizontal),
        spans(r.1, area, Axis::Horizontal),
        in_header(r.0, r.1, area),
{
    let shares: Vec<Share> = vec![Share::Min(32), Share::Length(48)];
    assert(shares@ =~= header_shares());
    let parts = split(area, Axis::Horizontal, 0, &shares);
    assert(parts@ =~= seq![parts@[0], parts@[1]]);
    (parts[0], parts[1])
}

/// The four panes of the main band.
#[derive(Clone, Copy, Debug, PartialEq, Eq, Structural)]
pub struct MainAreas {
    pub chart: Area,
    pub meters: Area,
    pub stats: Area,
    pub status: Area,
}

/// What the two rows of the main band ask for.
pub open spec fn row_shares() -> Seq<Share> {
    seq![Share::Min(12), Share::Length(7)]
}

/// What the two panes of a row ask for.
pub open spec fn column_shares() -> Seq<Share> {
    seq![Share::Percentage(48), Share::Percentage(52)]
}

/// Splits a row of the main band into its panes.
pub fn columns(row: Area) -> (r: (Area, Area))
    ensures
        possible_split(row, Axis::Horizontal, 1, column_shares(), seq![r.0, r.1]),
        spans(r.0, row, Axis::Horizontal),
        spans(r.1, row, Axis::Horizontal),
{
    let shares: Vec<Share> = vec![Share::Percentage(48), Share::Percentage(52)];
    assert(shares@ =~= column_shares());
    let parts = split(row, Axis::Horizontal, 1, &shares);
    assert(parts@ =~= seq![parts@[0], parts@[1]]);
    (parts[0], parts[1])
}

/// The panes stand in the rows `top` and `bottom` of `area`.
pub open spec fn in_rows(panes: MainAreas, area: Area, top: Area, bottom: Area) -> bool {
    &&& possible_split(area, Axis::Vertical, 1, row_shares(), seq![top, bottom])
    &&& spans(top, area, Axis::Vertical)
    &&& spans(bottom, area, Axis::Vertical)
    &&& spans(panes.chart, top, Axis::Horizontal)
    &&& spans(panes.meters, top, Axis::Horizontal)
    &&& spans(panes.stats, bottom, Axis::Horizontal)
    &&& spans(panes.status, bottom, Axis::Horizontal)
    &&& possible_split(
        top,
        Axis::Horizontal,
        1,
        column_shares(),
        seq![panes.chart, panes.meters],
    )
    &&& possible_split(
        bottom,
        Axis::Horizontal,
        1,
        column_shares(),
        seq![panes.stats, panes.status],
    )
}

/// Splits the main band into its panes: the chart and the meters above the
/// figures and the status.
pub fn main_areas(area: Area) -> (r: MainAreas)
    ensures
        exists|top: Area, bottom: Area| #[trigger] in_rows(r, area, top, bottom),
        inside(r.chart, area),
        inside(r.meters, area),
        inside(r.stats, area),
        inside(r.status, area),
        r.chart.y == r.meters.y && r.chart.height == r.meters.height,
        r.stats.y == r.status.y && r.stats.height == r.status.height,
{
    let shares: Vec<Share> = vec![Share::Min(12), Share::Length(7)];
    assert(shares@ =~= row_shares());
    let rows = split(area, Axis::Vertical, 1, &shares);
    assert(rows@ =~= seq![rows@[0], rows@[1]]);
    let (chart, meters) = columns(rows[0]);
    let (stats, status) = columns(rows[1]);
    let r = MainAreas { chart, meters, stats, status };
    assert(in_rows(r, area, rows@[0], rows@[1]));
    r
}

/// What the three groups of meters ask for.
pub open spec fn meter_shares() -> Seq<Share> {
    seq![Share::Ratio(1, 3), Share::Ratio(1, 3), Share::Ratio(1, 3)]
}

/// The groups of meters stand beside each other in `area`.
pub open spec fn in_thirds(first: Area, second: Area, third: Area, area: Area) -> bool {
    possible_split(area, Axis::Horizontal, 1, meter_shares(), seq![first, second, third])
}

/// Splits the pane of the meters into one for each group.
pub fn meter_areas(area: Area) -> (r: (Area, Area, Area))
    ensures
        possible_split(area, Axis::Horizontal, 1, meter_shares(), seq![r.0, r.1, r.2]),
        spans(r.0, area, Axis::Horizontal),
        spans(r.1, area, Axis::Horizontal),
        spans(r.2, area, Axis::Horizontal),
        in_thirds(r.0, r.1, r.2, area),
{
    let shares: Vec<Share> = vec![Share::Ratio(1, 3), Share::Ratio(1, 3), Share::Ratio(1, 3)];
    assert(shares@ =~= meter_shares());
    let parts = split(area, Axis::Horizontal, 1, &shares);
    assert(parts@ =~= seq![parts@[0], parts@[1], parts@[2]]);
    (parts[0], parts[1], parts[2])
}

/// What the frame of a pane leaves of its area.
pub open spec fn framed(area: Area) -> Area {
    Area {
        x: if area.x == u16::MAX { u16::MAX } else { (area.x + 1) as u16 },
        y: if area.y == u16::MAX { u16::MAX } else { (area.y + 1) as u16 },
        width: if area.width < 2 { 0 } else { (area.width - 2) as u16 },
        height: if area.height < 2 { 0 } else { (area.height - 2) as u16 },
    }
}

/// What the frame of a pane leaves of its area.
pub fn inner_area(area: Area) -> (r: Area)
    ensures
        r == framed(area),
{
    Area {
        x: area.x.saturating_add(1),
        y: area.y.saturating_add(1),
        width: area.width.saturating_sub(2),
        height: area.height.saturating_sub(2),
    }
}

/// What `n` lines ask for.
pub open spec fn line_shares(n: nat) -> Seq<Share> {
    Seq::new(n, |i: int| Share::Length(1))
}

/// Splits an area into two lines for each of `n` meters.
pub fn meter_lines(area: Area, n: usize) -> (r: Vec<Area>)
    ensures
        r@.len() == 2 * n,
        possible_split(area, Axis::Vertical, 0, line_shares((2 * n) as nat), r@),
        forall|i: int| 0 <= i < r@.len() ==> spans(#[trigger] r@[i], area, Axis::Vertical),
{
    let mut shares: Vec<Share> = Vec::new();
    let mut i: usize = 0;
    while i < n
        invariant
            i <= n,
            shares@ =~= line_shares((2 * i) as nat),
        decreases n - i,
    {
        shares.push(Share::Length(1));
        shares.push(Share::Length(1));
        i += 1;
    }
    split(area, Axis::Vertical, 0, &shares)
}

/// What the name and the value of a meter ask for.
pub open spec fn name_shares(value_width: u16) -> Seq<Share> {
    seq![Share::Min(8), Share::Length(value_width)]
}

/// Splits a line into a place for the name of a meter and one for its value.
pub fn name_and_value(line: Area, value_width: u16) -> (r: (Area, Area))
    ensures
        possible_split(line, Axis::Horizontal, 0, name_shares(value_width), seq![r.0, r.1]),
        spans(r.0, line, Axis::Horizontal),
        spans(r.1, line, Axis::Horizontal),
{
    let shares: Vec<Share> = vec![Share::Min(8), Share::Length(value_width)];
    assert(shares@ =~= name_shares(value_width));
    let parts = split(line, Axis::Horizontal, 0, &shares);
    assert(parts@ =~= seq![parts@[0], parts@[1]]);
    (parts[0], parts[1])
}

/// What lies inside a part of an area lies inside the area: so every pane, and
/// whatever is put into one, lies on the screen.
pub proof fn part_of_a_part_lies_inside(inner: Area, part: Area, area: Area)
    requires
        inside(inner, part),
        inside(part, area),
    ensures
        inside(inner, area),
{
}

/// What a frame leaves of an area that is not empty lies inside the area.
pub proof fn frame_leaves_a_part(area: Area)
    requires
        area.width > 0,
        area.height > 0,
    ensures
        inside(framed(area), area),
{
}

/// A frame takes nothing away from beyond the area: what it leaves lies inside
/// wherever anything is left.
pub proof fn framed_area_lies_inside(area: Area)
    requires
        area.x + area.width <= u16::MAX,
        area.y + area.height <= u16::MAX,
        framed(area).width > 0,
        framed(area).height > 0,
    ensures
        area.x < framed(area).x,
        framed(area).x + framed(area).width < area.x + area.width,
        area.y < framed(area).y,
        framed(area).y + framed(area).height < area.y + area.height,
{
}

/// The screen is split, from top to bottom, into three lines of header, the main
/// band with at least twenty, twelve lines of log, and four of footer.
pub proof fn bands_ask_for_their_lines(bands: FrameAreas, area: Area)
    requires
        in_bands(bands, area),
    ensures
        possible_split(
            area,
            Axis::Vertical,
            0,
            seq![Share::Length(3), Share::Min(20), Share::Length(12), Share::Length(4)],
            seq![bands.header, bands.main, bands.log, bands.footer],
        ),
{
}

/// The main band is split into a row with at least twelve lines above one of
/// seven, a line apart; and each of them into two panes, a cell apart: the chart
/// beside the meters above, and the figures beside the status below.
pub proof fn panes_ask_for_their_places(panes: MainAreas, area: Area, top: Area, bottom: Area)
    requires
        in_rows(panes, area, top, bottom),
    ensures
        possible_split(
            area,
            Axis::Vertical,
            1,
            seq![Share::Min(12), Share::Length(7)],
            seq![top, bottom],
        ),
        possible_split(
            top,
            Axis::Horizontal,
            1,
            seq![Share::Percentage(48), Share::Percentage(52)],
            seq![panes.chart, panes.meters],
        ),
        possible_split(
            bottom,
            Axis::Horizontal,
            1,
            seq![Share::Percentage(48), Share::Percentage(52)],
            seq![panes.stats, panes.status],
        ),
{
}

/// The header asks for at least thirty-two cells for its title and for forty-eight
/// for the session; the groups of meters for a third each; every line for one
/// cell of height; and a meter's name for at least eight cells beside its value.
pub proof fn parts_ask_for_their_shares(n: nat, width: u16)
    ensures
        header_shares() == seq![Share::Min(32), Share::Length(48)],
        meter_shares() == seq![Share::Ratio(1, 3), Share::Ratio(1, 3), Share::Ratio(1, 3)],
        line_shares(n).len() == n,
        forall|i: int| 0 <= i < n ==> #[trigger] line_shares(n)[i] == Share::Length(1),
        name_shares(width) == seq![Share::Min(8), Share::Length(width)],
{
}

/// A frame takes one cell on each side, where there is one to take.
pub proof fn frame_takes_one_cell_on_each_side(area: Area)
    ensures
        area.x < u16::MAX ==> framed(area).x == area.x + 1,
        area.y < u16::MAX ==> framed(area).y == area.y + 1,
        area.width >= 2 ==> framed(area).width == area.width - 2,
        area.height >= 2 ==> framed(area).height == area.height - 2,
        area.width < 2 ==> framed(area).width == 0,
        area.height < 2 ==> framed(area).height == 0,
{
}

/// In the header the title, with at least thirty-two cells, stands to the left of
/// the session, with forty-eight; and the groups of meters stand from left to
/// right, a cell apart, with a third each.
pub proof fn title_and_groups_stand_from_left_to_right(
    title: Area,
    session: Area,
    header: Area,
    first: Area,
    second: Area,
    third: Area,
    meters: Area,
)
    requires
        in_header(title, session, header),
        in_thirds(first, second, third, meters),
    ensures
        possible_split(
            header,
            Axis::Horizontal,
            0,
            seq![Share::Min(32), Share::Length(48)],
            seq![title, session],
        ),
        possible_split(
            meters,
            Axis::Horizontal,
            1,
            seq![Share::Ratio(1, 3), Share::Ratio(1, 3), Share::Ratio(1, 3)],
            seq![first, second, third],
        ),
{
}

} // verus!
