//! The meters: what they show, and where.

use vstd::prelude::*;
use vstd::string::*;

use crate::layout;
use crate::layout::{inner_area, meter_lines, name_and_value, Area, Axis, Share};
use crate::reading;
use crate::reading::Reading;
use crate::snapshot;
use crate::snapshot::{BitaxeSnapshot, Numeral};
use crate::text;
use crate::text::{chars_of, fit_label};

verus! {

/// What a meter shows: a numeral of a reading with a unit, and a bar that is
/// full where the reading is `full`.
#[derive(Debug)]
pub struct Meter {
    pub label: &'static str,
    pub shown: Numeral,
    pub unit: &'static str,
    pub full: Reading,
}

/// The model of what a meter shows.
pub struct MeterModel {
    pub label: Seq<char>,
    pub shown: Numeral,
    pub unit: Seq<char>,
    pub full: Reading,
}

impl DeepView for Meter {
    type V = MeterModel;

    open spec fn deep_view(&self) -> MeterModel {
        MeterModel {
            label: self.label@,
            shown: self.shown,
            unit: self.unit@,
            full: self.full,
        }
    }
}

/// A meter of a reading as it is.
pub open spec fn meter_model(
    label: Seq<char>,
    value: Reading,
    decimals: usize,
    unit: Seq<char>,
    full: Reading,
) -> MeterModel {
    MeterModel { label, shown: Numeral { value, divisor: 1, decimals }, unit, full }
}

/// A meter of a reading as it is.
fn meter(
    label: &'static str,
    value: Reading,
    decimals: usize,
    unit: &'static str,
    full: Reading,
) -> (r: Meter)
    ensures
        r.deep_view() == meter_model(label@, value, decimals, unit@, full),
{
    Meter { label, shown: Numeral { value, divisor: 1, decimals }, unit, full }
}

/// The meters of the first group.
pub open spec fn power_model(s: BitaxeSnapshot) -> Seq<MeterModel> {
    let one = reading::number(1);
    seq![
        meter_model("Power"@, s.power, 1, "W"@, s.max_power.raised_to(one)),
        meter_model("Input Voltage"@, s.input_voltage, 2, "V"@, reading::half_number(11)),
        meter_model("ASIC Freq"@, s.frequency, 0, "MHz"@, s.max_frequency.raised_to(one)),
        meter_model("Current"@, s.current_amps, 2, "A"@, reading::number(6)),
        MeterModel {
            label: "ASIC Voltage"@,
            shown: Numeral { value: s.core_voltage_actual, divisor: 1000, decimals: 2 },
            unit: "V"@,
            full: reading::number(1500),
        },
    ]
}

/// The meters of the second group.
pub open spec fn heat_model(s: BitaxeSnapshot) -> Seq<MeterModel> {
    seq![
        meter_model("ASIC Temp"@, s.temp, 0, "C"@, reading::number(90)),
        meter_model("VRM Temp"@, s.vr_temp, 0, "C"@, reading::number(100)),
        meter_model("Temp Target"@, s.temp_target, 0, "C"@, reading::number(90)),
        meter_model("Error Rate"@, s.error_percentage, 2, "%"@, reading::number(5)),
    ]
}

/// The meters of the third group.
pub open spec fn fan_model(s: BitaxeSnapshot) -> Seq<MeterModel> {
    seq![
        meter_model("Fan Speed"@, s.fan_percent, 1, "%"@, reading::number(100)),
        meter_model("Fan RPM"@, s.fan_rpm, 0, "RPM"@, reading::number(7000)),
    ]
}

/// The meters of power and frequency.
pub fn power_meters(s: &BitaxeSnapshot) -> (r: Vec<Meter>)
    ensures
        r.deep_view() == power_model(*s),
{
    let one = Reading::whole(1);
    let mut r: Vec<Meter> = Vec::new();
    r.push(meter("Power", s.power, 1, "W", s.max_power.at_least(one)));
    r.push(meter("Input Voltage", s.input_voltage, 2, "V", Reading::halves(11)));
    r.push(meter("ASIC Freq", s.frequency, 0, "MHz", s.max_frequency.at_least(one)));
    r.push(meter("Current", s.current_amps, 2, "A", Reading::whole(6)));
    r.push(
        Meter {
            label: "ASIC Voltage",
            shown: Numeral { value: s.core_voltage_actual, divisor: 1000, decimals: 2 },
            unit: "V",
            full: Reading::whole(1500),
        },
    );
    assert(r.deep_view() =~= power_model(*s));
    r
}

/// The meters of heat and errors.
pub fn heat_meters(s: &BitaxeSnapshot) -> (r: Vec<Meter>)
    ensures
        r.deep_view() == heat_model(*s),
{
    let mut r: Vec<Meter> = Vec::new();
    r.push(meter("ASIC Temp", s.temp, 0, "C", Reading::whole(90)));
    r.push(meter("VRM Temp", s.vr_temp, 0, "C", Reading::whole(100)));
    r.push(meter("Temp Target", s.temp_target, 0, "C", Reading::whole(90)));
    r.push(meter("Error Rate", s.error_percentage, 2, "%", Reading::whole(5)));
    assert(r.deep_view() =~= heat_model(*s));
    r
}

/// The meters of the fan.
pub fn fan_meters(s: &BitaxeSnapshot) -> (r: Vec<Meter>)
    ensures
        r.deep_view() == fan_model(*s),
{
    let mut r: Vec<Meter> = Vec::new();
    r.push(meter("Fan Speed", s.fan_percent, 1, "%", Reading::whole(100)));
    r.push(meter("Fan RPM", s.fan_rpm, 0, "RPM", Reading::whole(7000)));
    assert(r.deep_view() =~= fan_model(*s));
    r
}

/// A group of meters.
#[derive(Debug)]
pub struct MeterGroup {
    pub title: &'static str,
    pub meters: Vec<Meter>,
}

/// The groups of meters, each with its title.
pub open spec fn groups_model(s: BitaxeSnapshot) -> Seq<(Seq<char>, Seq<MeterModel>)> {
    seq![("Power"@, power_model(s)), ("Heat"@, heat_model(s)), ("Fan"@, fan_model(s))]
}

/// The groups of meters, from left to right.
pub fn meter_groups(s: &BitaxeSnapshot) -> (r: (MeterGroup, MeterGroup, MeterGroup))
    ensures
        r.0.title@ == "Power"@ && r.0.meters.deep_view() == power_model(*s),
        r.1.title@ == "Heat"@ && r.1.meters.deep_view() == heat_model(*s),
        r.2.title@ == "Fan"@ && r.2.meters.deep_view() == fan_model(*s),
        seq![
            (r.0.title@, r.0.meters.deep_view()),
            (r.1.title@, r.1.meters.deep_view()),
            (r.2.title@, r.2.meters.deep_view()),
        ] == groups_model(*s),
{
    (
        MeterGroup { title: "Power", meters: power_meters(s) },
        MeterGroup { title: "Heat", meters: heat_meters(s) },
        MeterGroup { title: "Fan", meters: fan_meters(s) },
    )
}

// ---------------------------------------------------------------------------
// Rows
// ---------------------------------------------------------------------------

/// A meter whose numeral and ratio have been computed.
#[derive(Debug)]
pub struct MeterRow {
    pub label: String,
    pub value: String,
    pub ratio: Reading,
}

impl MeterRow {
    /// A meter with the given texts and ratio.
    pub fn new(label: &str, value: String, ratio: Reading) -> (r: Self)
        ensures
            r.label@ == label@,
            r.value == value,
            r.ratio == ratio,
    {
        MeterRow { label: label.to_owned(), value, ratio }
    }
}

/// The value of a meter: its numeral and its unit.
pub open spec fn value_text(numeral: Seq<char>, unit: Seq<char>) -> Seq<char> {
    numeral + " "@ + unit
}

/// The row of a meter, where `numeral` is the text of its numeral, and `ratio`
/// its reading divided by the full one.
pub fn meter_row(meter: &Meter, numeral: &str, ratio: Reading) -> (r: MeterRow)
    ensures
        r.label@ == meter.label@,
        r.value@ == numeral@ + " "@ + meter.unit@,
        r.value@ == value_text(numeral@, meter.unit@),
        r.ratio == ratio,
{
    let mut value = numeral.to_owned();
    value.append(" ");
    value.append(meter.unit);
    MeterRow::new(meter.label, value, ratio)
}

/// The length of a value, counted in 16 bits.
pub open spec fn value_len(row: MeterRow) -> u16 {
    (row.value@.len() % 0x1_0000) as u16
}

/// The longest value of the rows, if there are any.
pub open spec fn longest_value(rows: Seq<MeterRow>) -> Option<u16>
    decreases rows.len(),
{
    if rows.len() == 0 {
        None
    } else {
        match longest_value(rows.drop_last()) {
            Some(longest) if value_len(rows.last()) < longest => Some(longest),
            _ => Some(value_len(rows.last())),
        }
    }
}

/// The width of the values: one more than the longest (eight, where there are
/// none), but no more than the width leaves beside eight cells for the names,
/// and that no less than eight.
pub open spec fn value_width(rows: Seq<MeterRow>, available: u16) -> u16 {
    let longest = match longest_value(rows) {
        Some(longest) => longest,
        None => 8,
    };
    let wanted = if longest == u16::MAX { u16::MAX } else { (longest + 1) as u16 };
    let allowed = if available < 16 { 8 } else { (available - 8) as u16 };
    if wanted < allowed {
        wanted
    } else {
        allowed
    }
}

/// The width of the values of a group that is `available_width` wide.
pub fn meter_value_width(rows: &Vec<MeterRow>, available_width: u16) -> (r: u16)
    ensures
        r == value_width(rows@, available_width),
{
    let mut longest: Option<u16> = None;
    let mut i: usize = 0;
    while i < rows.len()
        invariant
            i <= rows@.len(),
            longest == longest_value(rows@.take(i as int)),
        decreases rows.len() - i,
    {
        let n: u16 = (chars_of(rows[i].value.as_str()).len() % 0x1_0000) as u16;
        assert(n == value_len(rows@[i as int]));
        assert(rows@.take(i + 1).drop_last() =~= rows@.take(i as int));
        longest =
        match longest {
            Some(best) => if n < best {
                Some(best)
            } else {
                Some(n)
            },
            None => Some(n),
        };
        i += 1;
    }
    assert(rows@.take(i as int) =~= rows@);
    let wanted: u16 = match longest {
        Some(best) => best.saturating_add(1),
        None => 9,
    };
    let left: u16 = available_width.saturating_sub(8);
    let allowed: u16 = if left < 8 { 8 } else { left };
    if wanted < allowed {
        wanted
    } else {
        allowed
    }
}

// ---------------------------------------------------------------------------
// Slots
// ---------------------------------------------------------------------------

/// The place of a meter on the screen.
#[derive(Debug)]
pub struct MeterSlot {
    /// The name, as much of it as there is room for.
    pub label: String,
    pub label_area: Area,
    pub value_area: Area,
    pub gauge_area: Area,
    /// How far the bar is filled, between zero and one.
    pub fill: Reading,
}

/// `slot` shows `row` in the given areas.
pub open spec fn is_slot_of(
    slot: MeterSlot,
    row: MeterRow,
    label_area: Area,
    value_area: Area,
    gauge_area: Area,
) -> bool {
    let room: nat = if label_area.width == 0 { 0 } else { (label_area.width - 1) as nat };
    &&& slot.label@ == text::clipped(row.label@, room)
    &&& slot.label_area == label_area
    &&& slot.value_area == value_area
    &&& slot.gauge_area == gauge_area
    &&& slot.fill == row.ratio.confined(reading::number(0), reading::number(1))
}

/// `slot` shows `row` in two lines: its name and its value in the first, and its
/// bar in the second.
pub open spec fn shows_in_lines(
    slot: MeterSlot,
    row: MeterRow,
    first: Area,
    second: Area,
    width: u16,
) -> bool {
    &&& layout::possible_split(
        first,
        Axis::Horizontal,
        0,
        layout::name_shares(width),
        seq![slot.label_area, slot.value_area],
    )
    &&& layout::spans(slot.label_area, first, Axis::Horizontal)
    &&& layout::spans(slot.value_area, first, Axis::Horizontal)
    &&& is_slot_of(slot, row, slot.label_area, slot.value_area, second)
}

/// The slots show the rows below each other, in the lines that `inner` is split
/// into.
pub open spec fn stacks(
    slots: Seq<MeterSlot>,
    rows: Seq<MeterRow>,
    inner: Area,
    lines: Seq<Area>,
) -> bool {
    &&& lines.len() == 2 * rows.len()
    &&& layout::possible_split(
        inner,
        Axis::Vertical,
        0,
        layout::line_shares((2 * rows.len()) as nat),
        lines,
    )
    &&& forall|j: int|
        0 <= j < lines.len() ==> layout::spans(#[trigger] lines[j], inner, Axis::Vertical)
    &&& slots.len() == rows.len()
    &&& forall|i: int|
        0 <= i < rows.len() ==> shows_in_lines(
            #[trigger] slots[i],
            rows[i],
            lines[2 * i],
            lines[2 * i + 1],
            value_width(rows, inner.width),
        )
}

/// The places of the slot lie inside `inner`.
pub open spec fn keeps_inside(slot: MeterSlot, inner: Area) -> bool {
    &&& layout::inside(slot.label_area, inner)
    &&& layout::inside(slot.value_area, inner)
    &&& layout::inside(slot.gauge_area, inner)
}

/// Puts a meter into the given areas.
pub fn place_meter(row: &MeterRow, label_area: Area, value_area: Area, gauge_area: Area) -> (r:
    MeterSlot)
    ensures
        is_slot_of(r, *row, label_area, value_area, gauge_area),
{
    let room: usize = label_area.width.saturating_sub(1) as usize;
    MeterSlot {
        label: fit_label(row.label.as_str(), room),
        label_area,
        value_area,
        gauge_area,
        fill: row.ratio.clamp_to(Reading::whole(0), Reading::whole(1)),
    }
}

/// Puts the meters of a group into its pane, below each other, in two lines
/// each.
pub fn meter_slots(area: Area, rows: &Vec<MeterRow>) -> (r: Vec<MeterSlot>)
    ensures
        r@.len() == rows@.len(),
        exists|lines: Seq<Area>| #[trigger] stacks(r@, rows@, layout::framed(area), lines),
        forall|i: int|
            0 <= i < r@.len() ==> keeps_inside(#[trigger] r@[i], layout::framed(area)),
{
    let inner = inner_area(area);
    let n: usize = rows.len();
    let lines = meter_lines(inner, n);
    assert(lines.len() == 2 * n);
    let width = meter_value_width(rows, inner.width);
    let mut r: Vec<MeterSlot> = Vec::new();
    let mut i: usize = 0;
    while i < n
        invariant
            i <= n == rows@.len(),
            lines@.len() == 2 * n <= usize::MAX,
            r@.len() == i,
            forall|j: int|
                0 <= j < i ==> shows_in_lines(
                    #[trigger] r@[j],
                    rows@[j],
                    lines@[2 * j],
                    lines@[2 * j + 1],
                    width,
                ),
        decreases n - i,
    {
        let (label_area, value_area) = name_and_value(lines[2 * i], width);
        r.push(place_meter(&rows[i], label_area, value_area, lines[2 * i + 1]));
        i += 1;
    }
    assert(stacks(r@, rows@, inner, lines@));
    assert forall|i: int| 0 <= i < r@.len() implies keeps_inside(#[trigger] r@[i], inner) by {
        meters_keep_to_their_lines(r@, rows@, inner, lines@, i);
    }
    r
}

// ---------------------------------------------------------------------------
// Laws
// ---------------------------------------------------------------------------

/// The bar of a meter is never filled below nothing or beyond its end, whatever
/// the ratio, as long as it is a number.
pub proof fn bar_is_filled_within_its_bounds(ratio: Reading)
    requires
        !ratio.is_nan(),
    ensures
        ({
            let fill = ratio.confined(reading::number(0), reading::number(1));
            !fill.is_nan() && 0 <= fill.scaled() <= reading::one()
        }),
{
    reading::half_number_is_encoded(0);
    reading::half_number_is_encoded(2);
}

/// Every meter of a group stays inside what the frame leaves: its bar begins at
/// the left edge and is as wide as it; and its name and its value stand as high
/// on the screen as the first of its lines, and are as tall as it.
pub proof fn meters_keep_to_their_lines(
    slots: Seq<MeterSlot>,
    rows: Seq<MeterRow>,
    inner: Area,
    lines: Seq<Area>,
    i: int,
)
    requires
        stacks(slots, rows, inner, lines),
        0 <= i < rows.len(),
    ensures
        keeps_inside(slots[i], inner),
        slots[i].gauge_area.x == inner.x,
        slots[i].gauge_area.width == inner.width,
        slots[i].label_area.y == lines[2 * i].y,
        slots[i].label_area.height == lines[2 * i].height,
        slots[i].value_area.y == slots[i].label_area.y,
        slots[i].value_area.height == slots[i].label_area.height,
{
    assert(shows_in_lines(
        slots[i],
        rows[i],
        lines[2 * i],
        lines[2 * i + 1],
        value_width(rows, inner.width),
    ));
    assert(layout::spans(lines[2 * i], inner, Axis::Vertical));
    assert(layout::spans(lines[2 * i + 1], inner, Axis::Vertical));
}

/// The meters of a group never reach beyond its pane, unless the pane is empty.
pub proof fn meters_stay_in_their_pane(slot: MeterSlot, pane: Area)
    requires
        pane.width > 0,
        pane.height > 0,
        keeps_inside(slot, layout::framed(pane)),
    ensures
        keeps_inside(slot, pane),
{
    layout::frame_leaves_a_part(pane);
}

/// In a group that is at least sixteen cells wide, the values leave eight of
/// them for the names; and where they are given less than they ask for, it is
/// all that is left.
pub proof fn values_leave_room_for_names(rows: Seq<MeterRow>, available: u16)
    requires
        available >= 16,
    ensures
        value_width(rows, available) + 8 <= available,
        value_width(rows, available) + 8 < available ==> match longest_value(rows) {
            Some(longest) => value_width(rows, available) == longest + 1,
            None => value_width(rows, available) == 9,
        },
{
}

/// The meter is named `label` and shows the reading `value` itself, with
/// `decimals` digits behind the point and `unit` behind that.
pub open spec fn shows(
    m: MeterModel,
    label: Seq<char>,
    value: Reading,
    decimals: usize,
    unit: Seq<char>,
) -> bool {
    &&& m.label == label
    &&& m.shown.value == value
    &&& m.shown.divisor == 1
    &&& m.shown.decimals == decimals
    &&& m.unit == unit
}

/// Each meter of power shows the reading that it is named after, in its unit; the
/// bars of power and frequency are full at the most that the device can do, which
/// is never less than one, and the others at fixed amounts.
pub proof fn power_meters_show_their_readings(s: BitaxeSnapshot)
    ensures
        ({
            let m = power_model(s);
            &&& m.len() == 5
            &&& shows(m[0], "Power"@, s.power, 1, "W"@)
            &&& snapshot::follows_from(1, s.max_power, m[0].full)
            &&& shows(m[1], "Input Voltage"@, s.input_voltage, 2, "V"@)
            &&& m[1].full.is_halves(11)
            &&& shows(m[2], "ASIC Freq"@, s.frequency, 0, "MHz"@)
            &&& snapshot::follows_from(1, s.max_frequency, m[2].full)
            &&& shows(m[3], "Current"@, s.current_amps, 2, "A"@)
            &&& m[3].full.is_halves(12)
            &&& m[4].label == "ASIC Voltage"@ && m[4].unit == "V"@
            &&& m[4].shown.value == s.core_voltage_actual
            &&& m[4].shown.divisor == 1000 && m[4].shown.decimals == 2
            &&& m[4].full.is_halves(3000)
        }),
{
    snapshot::raised_reading_is_itself_or_the_floor(s.max_power, 1);
    snapshot::raised_reading_is_itself_or_the_floor(s.max_frequency, 1);
    reading::half_number_is_encoded(11);
    reading::half_number_is_encoded(12);
    reading::half_number_is_encoded(3000);
}

/// Each meter of heat and of the fan shows the reading that it is named after, in
/// its unit, and its bar is full at a fixed amount.
pub proof fn heat_and_fan_meters_show_their_readings(s: BitaxeSnapshot)
    ensures
        ({
            let m = heat_model(s);
            &&& m.len() == 4
            &&& shows(m[0], "ASIC Temp"@, s.temp, 0, "C"@) && m[0].full.is_halves(180)
            &&& shows(m[1], "VRM Temp"@, s.vr_temp, 0, "C"@) && m[1].full.is_halves(200)
            &&& shows(m[2], "Temp Target"@, s.temp_target, 0, "C"@) && m[2].full.is_halves(180)
            &&& shows(m[3], "Error Rate"@, s.error_percentage, 2, "%"@) && m[3].full.is_halves(10)
        }),
        ({
            let m = fan_model(s);
            &&& m.len() == 2
            &&& shows(m[0], "Fan Speed"@, s.fan_percent, 1, "%"@) && m[0].full.is_halves(200)
            &&& shows(m[1], "Fan RPM"@, s.fan_rpm, 0, "RPM"@) && m[1].full.is_halves(14000)
        }),
{
    reading::half_number_is_encoded(180);
    reading::half_number_is_encoded(200);
    reading::half_number_is_encoded(10);
    reading::half_number_is_encoded(14000);
}

/// A change of one reading leaves the meters of the others as they were.
pub proof fn meters_do_not_mix(s: BitaxeSnapshot, t: BitaxeSnapshot)
    ensures
        s.power == t.power && s.max_power == t.max_power ==> power_model(s)[0] == power_model(t)[0],
        s.input_voltage == t.input_voltage ==> power_model(s)[1] == power_model(t)[1],
        s.frequency == t.frequency && s.max_frequency == t.max_frequency ==> power_model(s)[2]
            == power_model(t)[2],
        s.current_amps == t.current_amps ==> power_model(s)[3] == power_model(t)[3],
        s.core_voltage_actual == t.core_voltage_actual ==> power_model(s)[4] == power_model(t)[4],
        s.temp == t.temp ==> heat_model(s)[0] == heat_model(t)[0],
        s.vr_temp == t.vr_temp ==> heat_model(s)[1] == heat_model(t)[1],
        s.temp_target == t.temp_target ==> heat_model(s)[2] == heat_model(t)[2],
        s.error_percentage == t.error_percentage ==> heat_model(s)[3] == heat_model(t)[3],
        s.fan_percent == t.fan_percent ==> fan_model(s)[0] == fan_model(t)[0],
        s.fan_rpm == t.fan_rpm ==> fan_model(s)[1] == fan_model(t)[1],
{
}

/// The groups stand from left to right under the names of what they show.
pub proof fn groups_are_named_after_their_meters(s: BitaxeSnapshot)
    ensures
        ({
            let groups = groups_model(s);
            &&& groups.len() == 3
            &&& groups[0].0 == "Power"@ && groups[0].1 == power_model(s)
            &&& groups[1].0 == "Heat"@ && groups[1].1 == heat_model(s)
            &&& groups[2].0 == "Fan"@ && groups[2].1 == fan_model(s)
        }),
{
}

/// The value of a meter reads its numeral, a blank and its unit, every character
/// of both.
pub proof fn value_reads_numeral_and_unit(numeral: Seq<char>, unit: Seq<char>)
    ensures
        value_text(numeral, unit).len() == numeral.len() + 1 + unit.len(),
        value_text(numeral, unit).take(numeral.len() as int) == numeral,
        value_text(numeral, unit)[numeral.len() as int] == ' ',
        value_text(numeral, unit).skip((numeral.len() + 1) as int) == unit,
{
    reveal_strlit(" ");
    assert(value_text(numeral, unit).take(numeral.len() as int) =~= numeral);
    assert(value_text(numeral, unit).skip((numeral.len() + 1) as int) =~= unit);
}

/// The longest value is that of one of the rows, and none is longer.
pub proof fn longest_value_is_an_upper_bound(rows: Seq<MeterRow>)
    ensures
        longest_value(rows) is None <==> rows.len() == 0,
        longest_value(rows) matches Some(longest) ==> (exists|i: int|
            0 <= i < rows.len() && value_len(#[trigger] rows[i]) == longest) && forall|i: int|
            0 <= i < rows.len() ==> value_len(#[trigger] rows[i]) <= longest,
    decreases rows.len(),
{
    if rows.len() > 0 {
        let front = rows.drop_last();
        longest_value_is_an_upper_bound(front);
        let longest = longest_value(rows)->0;
        assert(rows.last() == rows[rows.len() - 1]);
        if longest != value_len(rows.last()) {
            let i = choose|i: int| 0 <= i < front.len() && value_len(#[trigger] front[i]) == longest;
            assert(rows[i] == front[i]);
        }
        assert forall|i: int| 0 <= i < rows.len() implies value_len(#[trigger] rows[i])
            <= longest by {
            if i < front.len() {
                assert(rows[i] == front[i]);
            }
        }
    }
}

/// The column of the values is one cell wider than the longest of them, unless
/// that would leave less than eight cells for the names in a group that is wide
/// enough: so every value that is no longer than that fits with a cell to spare,
/// and no cell is wasted.
pub proof fn values_get_the_room_they_need(rows: Seq<MeterRow>, available: u16)
    requires
        forall|i: int| 0 <= i < rows.len() ==> (#[trigger] rows[i]).value@.len() < u16::MAX,
    ensures
        ({
            let width = value_width(rows, available);
            let most = if available < 16 {
                8int
            } else {
                available - 8
            };
            &&& width <= most
            &&& width < most ==> forall|i: int|
                0 <= i < rows.len() ==> (#[trigger] rows[i]).value@.len() < width
            &&& rows.len() > 0 ==> exists|i: int|
                0 <= i < rows.len() && width <= (#[trigger] rows[i]).value@.len() + 1
            &&& rows.len() == 0 ==> width == if most < 9 {
                most
            } else {
                9
            }
        }),
{
    longest_value_is_an_upper_bound(rows);
    assert forall|i: int| 0 <= i < rows.len() implies value_len(#[trigger] rows[i])
        == rows[i].value@.len() by {
        vstd::arithmetic::div_mod::lemma_small_mod(rows[i].value@.len(), 0x1_0000);
    }
    if rows.len() > 0 {
        let longest = longest_value(rows)->0;
        let i = choose|i: int| 0 <= i < rows.len() && value_len(#[trigger] rows[i]) == longest;
        assert(value_width(rows, available) <= rows[i].value@.len() + 1);
    }
}

/// A meter shows its name whole where that is shorter than its place, and as much
/// of it as fits otherwise; its bar is filled as far as the ratio says wherever
/// that lies between nothing and the whole; and each part stands in the place
/// that it was given.
pub proof fn slot_shows_its_row(
    slot: MeterSlot,
    row: MeterRow,
    label_area: Area,
    value_area: Area,
    gauge_area: Area,
)
    requires
        is_slot_of(slot, row, label_area, value_area, gauge_area),
    ensures
        slot.label_area == label_area,
        slot.value_area == value_area,
        slot.gauge_area == gauge_area,
        row.label@.len() < label_area.width ==> slot.label@ == row.label@,
        row.label@.len() >= label_area.width > 2 ==> slot.label@.len() == label_area.width - 1
            && slot.label@.last() == '\u{2026}' && forall|i: int|
            0 <= i < label_area.width - 2 ==> #[trigger] slot.label@[i] == row.label@[i],
        !row.ratio.is_nan() && 0 <= row.ratio.scaled() <= reading::one() ==> slot.fill == row.ratio,
        !row.ratio.is_nan() && row.ratio.scaled() < 0 ==> slot.fill.is_halves(0),
        !row.ratio.is_nan() && row.ratio.scaled() > reading::one() ==> slot.fill.is_halves(2),
{
    reading::half_number_is_encoded(0);
    reading::half_number_is_encoded(2);
    let room: nat = if label_area.width == 0 { 0 } else { (label_area.width - 1) as nat };
    text::clipping_uses_all_of_the_room(row.label@, room);
    assert(reading::number(0).scaled() == 0);
    assert(reading::number(1).scaled() == reading::one());
}

/// The meters take two lines each, from the top: the first is split between the
/// name, with at least eight cells, and the value, in the column that is as wide
/// for all of them; and the second is the bar's.
pub proof fn meters_take_two_lines_each(
    slots: Seq<MeterSlot>,
    rows: Seq<MeterRow>,
    inner: Area,
    lines: Seq<Area>,
    i: int,
)
    requires
        stacks(slots, rows, inner, lines),
        0 <= i < rows.len(),
    ensures
        slots.len() == rows.len(),
        lines.len() == 2 * rows.len(),
        layout::possible_split(
            inner,
            Axis::Vertical,
            0,
            Seq::new(2 * rows.len(), |j: int| Share::Length(1)),
            lines,
        ),
        layout::possible_split(
            lines[2 * i],
            Axis::Horizontal,
            0,
            seq![Share::Min(8), Share::Length(value_width(rows, inner.width))],
            seq![slots[i].label_area, slots[i].value_area],
        ),
        slots[i].gauge_area == lines[2 * i + 1],
        is_slot_of(
            slots[i],
            rows[i],
            slots[i].label_area,
            slots[i].value_area,
            slots[i].gauge_area,
        ),
{
    assert(layout::line_shares(2 * rows.len()) =~= Seq::new(
        2 * rows.len(),
        |j: int| Share::Length(1),
    ));
    assert(shows_in_lines(
        slots[i],
        rows[i],
        lines[2 * i],
        lines[2 * i + 1],
        value_width(rows, inner.width),
    ));
}

} // verus!
