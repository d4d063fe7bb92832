//! What the device reports, and the snapshot that the dashboard keeps of it.
//!
//! Sums, quotients and decimal numerals of readings are made by the caller: the
//! functions named `..._needed` say which ones, and the answers come back in
//! `Derived` and `Rendered`.

use vstd::prelude::*;
use vstd::string::*;

use crate::metric;
use crate::metric::{format_metric_value, metric_numeral, MetricValue, WideNumeral};
use crate::reading;
use crate::reading::{highest, Reading};
use crate::text;
use crate::text::eq_ignore_case;

verus! {

/// How far above its target the temperature counts as hot.
pub const HOT_MARGIN: u16 = 8;

/// The percentage of the expected hashrate below which mining counts as slow.
pub const SLOW_PERCENT: u16 = 85;

// ---------------------------------------------------------------------------
// What the device reports
// ---------------------------------------------------------------------------

/// A reason for which shares were rejected, and how many.
#[derive(Clone, Debug)]
pub struct RejectedReason {
    pub message: String,
    pub count: u32,
}

/// What the device says of its mining chip.
#[derive(Clone, Debug)]
pub struct AsicInfo {
    pub frequency_options: Vec<Reading>,
}

/// What the device says of itself.
#[derive(Debug)]
pub struct SystemInfo {
    pub power: Reading,
    pub voltage: Reading,
    pub current: Reading,
    pub temp: Reading,
    pub vr_temp: Reading,
    pub max_power: Reading,
    pub hash_rate: Reading,
    pub expected_hashrate: Reading,
    pub error_percentage: Reading,
    pub best_diff: MetricValue,
    pub network_difficulty: MetricValue,
    pub is_using_fallback_stratum: u8,
    pub core_voltage_actual: Reading,
    pub frequency: Reading,
    pub wifi_status: String,
    pub wifi_rssi: i32,
    pub shares_accepted: u32,
    pub shares_rejected: u32,
    pub shares_rejected_reasons: Vec<RejectedReason>,
    pub stratum_url: String,
    pub stratum_user: String,
    pub response_time: Reading,
    pub temptarget: Reading,
    pub fanspeed: Reading,
    pub fanrpm: Reading,
    pub free_heap: u64,
}

/// The maximal power of a device that does not report one.
pub fn default_max_power() -> (r: Reading)
    ensures
        r == reading::number(40),
{
    Reading::whole(40)
}

/// The target temperature of a device that does not report one.
pub fn default_temp_target() -> (r: Reading)
    ensures
        r == reading::number(60),
{
    Reading::whole(60)
}

/// A quotient of a reading: `dividend / divisor`.
#[derive(Clone, Copy, Debug, PartialEq, Eq, Structural)]
pub struct Quotient {
    pub dividend: Reading,
    pub divisor: u32,
}

/// A quotient of a whole number, as a reading: `dividend / divisor`.
#[derive(Clone, Copy, Debug, PartialEq, Eq, Structural)]
pub struct WholeQuotient {
    pub dividend: u64,
    pub divisor: u32,
}

/// What has to be computed for a snapshot.
#[derive(Clone, Copy, Debug, PartialEq, Eq, Structural)]
pub struct DerivedNeeds {
    pub input_voltage: Quotient,
    pub current_amps: Quotient,
    pub free_heap_mb: WholeQuotient,
    pub best_diff: Option<WideNumeral>,
    pub network_difficulty: Option<WideNumeral>,
}

/// What was computed for a snapshot, as `DerivedNeeds` asks for it. A numeral
/// that is not needed is ignored.
#[derive(Debug)]
pub struct Derived {
    pub input_voltage: Reading,
    pub current_amps: Reading,
    pub free_heap_mb: Reading,
    pub best_diff: String,
    pub network_difficulty: String,
}

impl SystemInfo {
    /// What has to be computed for a snapshot.
    pub open spec fn to_derive(self) -> DerivedNeeds {
        DerivedNeeds {
            input_voltage: Quotient { dividend: self.voltage, divisor: 1000 },
            current_amps: Quotient { dividend: self.current, divisor: 1000 },
            free_heap_mb: WholeQuotient { dividend: self.free_heap, divisor: 1_048_576 },
            best_diff: metric::numeral_needed(self.best_diff@),
            network_difficulty: metric::numeral_needed(self.network_difficulty@),
        }
    }

    /// What has to be computed for a snapshot: volts and amperes out of
    /// thousandths, mebibytes out of bytes, and the numerals of the metrics.
    pub fn derived_needed(&self) -> (r: DerivedNeeds)
        ensures
            r.input_voltage == (Quotient { dividend: self.voltage, divisor: 1000 }),
            r.current_amps == (Quotient { dividend: self.current, divisor: 1000 }),
            r.free_heap_mb == (WholeQuotient { dividend: self.free_heap, divisor: 1_048_576 }),
            r.best_diff == metric::numeral_needed(self.best_diff@),
            r.network_difficulty == metric::numeral_needed(self.network_difficulty@),
            r == self.to_derive(),
    {
        DerivedNeeds {
            input_voltage: Quotient { dividend: self.voltage, divisor: 1000 },
            current_amps: Quotient { dividend: self.current, divisor: 1000 },
            free_heap_mb: WholeQuotient { dividend: self.free_heap, divisor: 1_048_576 },
            best_diff: metric_numeral(&self.best_diff),
            network_difficulty: metric_numeral(&self.network_difficulty),
        }
    }
}

// ---------------------------------------------------------------------------
// The snapshot
// ---------------------------------------------------------------------------

/// The state of the device at its last successful poll.
#[derive(Clone, Debug)]
pub struct BitaxeSnapshot {
    pub power: Reading,
    pub max_power: Reading,
    pub input_voltage: Reading,
    pub current_amps: Reading,
    pub temp: Reading,
    pub vr_temp: Reading,
    pub temp_target: Reading,
    pub hashrate: Reading,
    pub expected_hashrate: Reading,
    pub error_percentage: Reading,
    pub best_diff: String,
    pub network_difficulty: String,
    pub shares_accepted: u32,
    pub shares_rejected: u32,
    pub share_reasons: Vec<RejectedReason>,
    pub response_time_ms: Reading,
    pub frequency: Reading,
    pub max_frequency: Reading,
    pub core_voltage_actual: Reading,
    pub fan_percent: Reading,
    pub fan_rpm: Reading,
    pub wifi_status: String,
    pub wifi_rssi: i32,
    pub stratum_url: String,
    pub stratum_user: String,
    pub is_using_fallback_stratum: bool,
    pub free_heap_mb: Reading,
}

/// A numeral to be made of a reading: of `value / divisor`, with `decimals`
/// digits behind the point.
#[derive(Clone, Copy, Debug, PartialEq, Eq, Structural)]
pub struct Numeral {
    pub value: Reading,
    pub divisor: u32,
    pub decimals: usize,
}

/// The numerals that a snapshot is shown with.
#[derive(Clone, Copy, Debug, PartialEq, Eq, Structural)]
pub struct FigureNeeds {
    pub temp: Numeral,
    pub temp_target: Numeral,
    pub hashrate: Numeral,
    pub expected_hashrate: Numeral,
    pub response_time: Numeral,
    pub free_heap: Numeral,
}

/// The texts of those numerals.
#[derive(Clone, Debug)]
pub struct Figures {
    pub temp: String,
    pub temp_target: String,
    pub hashrate: String,
    pub expected_hashrate: String,
    pub response_time: String,
    pub free_heap: String,
}

/// The readings that a snapshot is judged by, as `LimitNeeds` asks for them.
#[derive(Clone, Copy, Debug, PartialEq, Eq, Structural)]
pub struct Limits {
    pub hot: Reading,
    pub slow: Reading,
}

/// What the limits of a snapshot are made of: `hot` is `temp_target + margin`,
/// and `slow` is `expected_hashrate * (percent / 100)`.
#[derive(Clone, Copy, Debug, PartialEq, Eq, Structural)]
pub struct LimitNeeds {
    pub temp_target: Reading,
    pub margin: u16,
    pub expected_hashrate: Reading,
    pub percent: u16,
}

/// What was computed of a snapshot.
#[derive(Clone, Debug)]
pub struct Rendered {
    pub limits: Limits,
    pub figures: Figures,
}

/// The number of stale shares among `reasons`: the count of the first reason
/// that reads "stale", in capitals or not.
pub open spec fn stale_count(reasons: Seq<RejectedReason>) -> u32
    decreases reasons.len(),
{
    if reasons.len() == 0 {
        0
    } else if text::equal_ignoring_case(reasons[0].message@, "stale"@) {
        reasons[0].count
    } else {
        stale_count(reasons.skip(1))
    }
}

impl BitaxeSnapshot {
    /// The numerals that the snapshot is shown with.
    pub open spec fn to_show(self) -> FigureNeeds {
        FigureNeeds {
            temp: Numeral { value: self.temp, divisor: 1, decimals: 1 },
            temp_target: Numeral { value: self.temp_target, divisor: 1, decimals: 0 },
            hashrate: Numeral { value: self.hashrate, divisor: 1, decimals: 1 },
            expected_hashrate: Numeral { value: self.expected_hashrate, divisor: 1, decimals: 1 },
            response_time: Numeral { value: self.response_time_ms, divisor: 1, decimals: 0 },
            free_heap: Numeral { value: self.free_heap_mb, divisor: 1, decimals: 1 },
        }
    }

    /// What the limits of the snapshot are made of.
    pub open spec fn to_judge_by(self) -> LimitNeeds {
        LimitNeeds {
            temp_target: self.temp_target,
            margin: HOT_MARGIN,
            expected_hashrate: self.expected_hashrate,
            percent: SLOW_PERCENT,
        }
    }

    /// The temperature exceeds the limit.
    pub open spec fn hot(self, limits: Limits) -> bool {
        limits.hot.less(self.temp)
    }

    /// The hashrate falls short of the limit.
    pub open spec fn slow(self, limits: Limits) -> bool {
        self.hashrate.less(limits.slow)
    }

    /// The label of the pool.
    pub open spec fn pool(self) -> Seq<char> {
        if self.stratum_url@.len() == 0 {
            "n/a"@
        } else if self.is_using_fallback_stratum {
            self.stratum_url@ + " (fallback)"@
        } else {
            self.stratum_url@
        }
    }

    /// The sentence that sums the snapshot up: the first that applies of heat, a
    /// lost primary pool, a low hashrate and nothing of the kind.
    pub open spec fn summary(self, rendered: Rendered) -> Seq<char> {
        let shown = rendered.figures;
        if self.hot(rendered.limits) {
            "ASIC is running hot at "@ + shown.temp@ + "C, above the "@ + shown.temp_target@
                + "C target."@
        } else if self.is_using_fallback_stratum {
            "Primary pool unavailable, mining on fallback "@ + self.stratum_url@ + "."@
        } else if self.slow(rendered.limits) {
            "Hashrate "@ + shown.hashrate@ + " GH/s is below expected "@ + shown.expected_hashrate@
                + " GH/s."@
        } else {
            "Mining normally at "@ + shown.hashrate@ + " GH/s with "@ + shown.response_time@
                + " ms pool latency."@
        }
    }

    /// Whether this is the snapshot of a device that was never reached.
    pub open spec fn is_placeholder(self) -> bool {
        let zero = reading::number(0);
        &&& self.power == zero
        &&& self.max_power == reading::number(40)
        &&& self.input_voltage == zero
        &&& self.current_amps == zero
        &&& self.temp == zero
        &&& self.vr_temp == zero
        &&& self.temp_target == reading::number(60)
        &&& self.hashrate == zero
        &&& self.expected_hashrate == reading::number(1)
        &&& self.error_percentage == zero
        &&& self.best_diff@ == "n/a"@
        &&& self.network_difficulty@ == "n/a"@
        &&& self.shares_accepted == 0
        &&& self.shares_rejected == 0
        &&& self.share_reasons@.len() == 0
        &&& self.response_time_ms == zero
        &&& self.frequency == zero
        &&& self.max_frequency == reading::number(1)
        &&& self.core_voltage_actual == zero
        &&& self.fan_percent == zero
        &&& self.fan_rpm == zero
        &&& self.wifi_status@ == "unknown"@
        &&& self.wifi_rssi == 0
        &&& self.stratum_url@.len() == 0
        &&& self.stratum_user@ == "n/a"@
        &&& !self.is_using_fallback_stratum
        &&& self.free_heap_mb == zero
    }

    /// Whether this is the snapshot of the given report.
    pub open spec fn is_of(self, info: SystemInfo, asic: AsicInfo, derived: Derived) -> bool {
        let zero = reading::number(0);
        let one = reading::number(1);
        let top = match reading::highest_of(asic.frequency_options@) {
            Some(frequency) => frequency,
            None => info.frequency,
        };
        &&& self.power == info.power
        &&& self.max_power == info.max_power.raised_to(one)
        &&& self.input_voltage == derived.input_voltage
        &&& self.current_amps == derived.current_amps
        &&& self.temp == info.temp.raised_to(zero)
        &&& self.vr_temp == info.vr_temp.raised_to(zero)
        &&& self.temp_target == info.temptarget.raised_to(one)
        &&& self.hashrate == info.hash_rate.raised_to(zero)
        &&& self.expected_hashrate == info.expected_hashrate.raised_to(one)
        &&& self.error_percentage == info.error_percentage.raised_to(zero)
        &&& self.best_diff@ == metric::metric_text(info.best_diff@, derived.best_diff@)
        &&& self.network_difficulty@ == metric::metric_text(
            info.network_difficulty@,
            derived.network_difficulty@,
        )
        &&& self.shares_accepted == info.shares_accepted
        &&& self.shares_rejected == info.shares_rejected
        &&& self.share_reasons == info.shares_rejected_reasons
        &&& self.response_time_ms == info.response_time.raised_to(zero)
        &&& self.frequency == info.frequency.raised_to(zero)
        &&& self.max_frequency == top.raised_to(one)
        &&& self.core_voltage_actual == info.core_voltage_actual.raised_to(zero)
        &&& self.fan_percent == info.fanspeed.confined(zero, reading::number(100))
        &&& self.fan_rpm == info.fanrpm.raised_to(zero)
        &&& self.wifi_status == info.wifi_status
        &&& self.wifi_rssi == info.wifi_rssi
        &&& self.stratum_url == info.stratum_url
        &&& self.stratum_user == info.stratum_user
        &&& self.is_using_fallback_stratum == (info.is_using_fallback_stratum != 0)
        &&& self.free_heap_mb == derived.free_heap_mb
    }

    /// The snapshot of a device that was never reached.
    pub fn placeholder() -> (r: Self)
        ensures
            r.is_placeholder(),
    {
        let zero = Reading::whole(0);
        let one = Reading::whole(1);
        BitaxeSnapshot {
            power: zero,
            max_power: Reading::whole(40),
            input_voltage: zero,
            current_amps: zero,
            temp: zero,
            vr_temp: zero,
            temp_target: Reading::whole(60),
            hashrate: zero,
            expected_hashrate: one,
            error_percentage: zero,
            best_diff: "n/a".to_owned(),
            network_difficulty: "n/a".to_owned(),
            shares_accepted: 0,
            shares_rejected: 0,
            share_reasons: Vec::new(),
            response_time_ms: zero,
            frequency: zero,
            max_frequency: one,
            core_voltage_actual: zero,
            fan_percent: zero,
            fan_rpm: zero,
            wifi_status: "unknown".to_owned(),
            wifi_rssi: 0,
            stratum_url: String::new(),
            stratum_user: "n/a".to_owned(),
            is_using_fallback_stratum: false,
            free_heap_mb: zero,
        }
    }

    /// The snapshot of what the device reported.
    pub fn from_api(info: SystemInfo, asic: &AsicInfo, derived: Derived) -> (r: Self)
        ensures
            r.is_of(info, *asic, derived),
    {
        let zero = Reading::whole(0);
        let one = Reading::whole(1);
        let top = match highest(&asic.frequency_options) {
            Some(frequency) => frequency,
            None => info.frequency,
        };
        let best_diff = format_metric_value(&info.best_diff, derived.best_diff.as_str());
        let network_difficulty = format_metric_value(
            &info.network_difficulty,
            derived.network_difficulty.as_str(),
        );
        BitaxeSnapshot {
            power: info.power,
            max_power: info.max_power.at_least(one),
            input_voltage: derived.input_voltage,
            current_amps: derived.current_amps,
            temp: info.temp.at_least(zero),
            vr_temp: info.vr_temp.at_least(zero),
            temp_target: info.temptarget.at_least(one),
            hashrate: info.hash_rate.at_least(zero),
            expected_hashrate: info.expected_hashrate.at_least(one),
            error_percentage: info.error_percentage.at_least(zero),
            best_diff,
            network_difficulty,
            shares_accepted: info.shares_accepted,
            shares_rejected: info.shares_rejected,
            share_reasons: info.shares_rejected_reasons,
            response_time_ms: info.response_time.at_least(zero),
            frequency: info.frequency.at_least(zero),
            max_frequency: top.at_least(one),
            core_voltage_actual: info.core_voltage_actual.at_least(zero),
            fan_percent: info.fanspeed.clamp_to(zero, Reading::whole(100)),
            fan_rpm: info.fanrpm.at_least(zero),
            wifi_status: info.wifi_status,
            wifi_rssi: info.wifi_rssi,
            stratum_url: info.stratum_url,
            stratum_user: info.stratum_user,
            is_using_fallback_stratum: info.is_using_fallback_stratum != 0,
            free_heap_mb: derived.free_heap_mb,
        }
    }

    /// The numerals that the snapshot is shown with.
    pub fn figures_needed(&self) -> (r: FigureNeeds)
        ensures
            r.temp == (Numeral { value: self.temp, divisor: 1, decimals: 1 }),
            r.temp_target == (Numeral { value: self.temp_target, divisor: 1, decimals: 0 }),
            r.hashrate == (Numeral { value: self.hashrate, divisor: 1, decimals: 1 }),
            r.expected_hashrate == (Numeral {
                value: self.expected_hashrate,
                divisor: 1,
                decimals: 1,
            }),
            r.response_time == (Numeral { value: self.response_time_ms, divisor: 1, decimals: 0 }),
            r.free_heap == (Numeral { value: self.free_heap_mb, divisor: 1, decimals: 1 }),
            r == self.to_show(),
    {
        FigureNeeds {
            temp: Numeral { value: self.temp, divisor: 1, decimals: 1 },
            temp_target: Numeral { value: self.temp_target, divisor: 1, decimals: 0 },
            hashrate: Numeral { value: self.hashrate, divisor: 1, decimals: 1 },
            expected_hashrate: Numeral { value: self.expected_hashrate, divisor: 1, decimals: 1 },
            response_time: Numeral { value: self.response_time_ms, divisor: 1, decimals: 0 },
            free_heap: Numeral { value: self.free_heap_mb, divisor: 1, decimals: 1 },
        }
    }

    /// What the limits of the snapshot are made of.
    pub fn limits_needed(&self) -> (r: LimitNeeds)
        ensures
            r == (LimitNeeds {
                temp_target: self.temp_target,
                margin: HOT_MARGIN,
                expected_hashrate: self.expected_hashrate,
                percent: SLOW_PERCENT,
            }),
            r == self.to_judge_by(),
    {
        LimitNeeds {
            temp_target: self.temp_target,
            margin: HOT_MARGIN,
            expected_hashrate: self.expected_hashrate,
            percent: SLOW_PERCENT,
        }
    }

    /// Whether the temperature exceeds the limit.
    pub fn is_hot(&self, limits: Limits) -> (r: bool)
        ensures
            r == self.hot(limits),
    {
        limits.hot.is_less(self.temp)
    }

    /// The number of stale shares.
    pub fn stale_shares(&self) -> (r: u32)
        ensures
            r == stale_count(self.share_reasons@),
    {
        let mut i: usize = 0;
        assert(self.share_reasons@.skip(0) =~= self.share_reasons@);
        while i < self.share_reasons.len()
            invariant
                i <= self.share_reasons@.len(),
                stale_count(self.share_reasons@) == stale_count(
                    self.share_reasons@.skip(i as int),
                ),
            decreases self.share_reasons.len() - i,
        {
            let reason = &self.share_reasons[i];
            if eq_ignore_case(reason.message.as_str(), "stale") {
                return reason.count;
            }
            assert(self.share_reasons@.skip(i as int).skip(1) =~= self.share_reasons@.skip(i + 1));
            i += 1;
        }
        0
    }

    /// The label of the pool.
    pub fn pool_label(&self) -> (r: String)
        ensures
            r@ == self.pool(),
    {
        if self.stratum_url.as_str().is_empty() {
            "n/a".to_owned()
        } else if self.is_using_fallback_stratum {
            let mut r = self.stratum_url.clone();
            r.append(" (fallback)");
            r
        } else {
            self.stratum_url.clone()
        }
    }

    /// The sentence that sums the snapshot up.
    pub fn summary_message(&self, rendered: &Rendered) -> (r: String)
        ensures
            r@ == self.summary(*rendered),
    {
        let shown = &rendered.figures;
        if self.is_hot(rendered.limits) {
            let mut r = "ASIC is running hot at ".to_owned();
            r.append(shown.temp.as_str());
            r.append("C, above the ");
            r.append(shown.temp_target.as_str());
            r.append("C target.");
            r
        } else if self.is_using_fallback_stratum {
            let mut r = "Primary pool unavailable, mining on fallback ".to_owned();
            r.append(self.stratum_url.as_str());
            r.append(".");
            r
        } else if self.hashrate.is_less(rendered.limits.slow) {
            let mut r = "Hashrate ".to_owned();
            r.append(shown.hashrate.as_str());
            r.append(" GH/s is below expected ");
            r.append(shown.expected_hashrate.as_str());
            r.append(" GH/s.");
            r
        } else {
            let mut r = "Mining normally at ".to_owned();
            r.append(shown.hashrate.as_str());
            r.append(" GH/s with ");
            r.append(shown.response_time.as_str());
            r.append(" ms pool latency.");
            r
        }
    }
}

// ---------------------------------------------------------------------------
// Laws
// ---------------------------------------------------------------------------

/// `r` is a number, and at least `n`.
pub open spec fn reads_at_least(r: Reading, n: int) -> bool {
    !r.is_nan() && r.scaled() >= n * reading::one()
}

/// A reading raised to a number is a number, and at least that one.
proof fn raised_reading_is_at_least(r: Reading, n: u16)
    ensures
        reads_at_least(r.raised_to(reading::number(n as int)), n as int),
{
    reading::half_number_is_encoded((2 * n) as nat);
    assert(2 * n * reading::one() == 2 * (n * reading::one())) by (nonlinear_arith);
}

/// Whatever the device reports, the readings of its snapshot that are shown as
/// amounts are numbers and not negative; those that others are divided by are
/// at least one; and the fan runs at a percentage.
pub proof fn snapshot_readings_are_in_range(
    s: BitaxeSnapshot,
    info: SystemInfo,
    asic: AsicInfo,
    derived: Derived,
)
    requires
        s.is_of(info, asic, derived),
    ensures
        reads_at_least(s.max_power, 1),
        reads_at_least(s.temp_target, 1),
        reads_at_least(s.expected_hashrate, 1),
        reads_at_least(s.max_frequency, 1),
        reads_at_least(s.temp, 0),
        reads_at_least(s.vr_temp, 0),
        reads_at_least(s.hashrate, 0),
        reads_at_least(s.error_percentage, 0),
        reads_at_least(s.response_time_ms, 0),
        reads_at_least(s.frequency, 0),
        reads_at_least(s.core_voltage_actual, 0),
        reads_at_least(s.fan_rpm, 0),
        !info.fanspeed.is_nan() ==> reads_at_least(s.fan_percent, 0) && s.fan_percent.scaled()
            <= 100 * reading::one(),
{
    raised_reading_is_at_least(info.max_power, 1);
    raised_reading_is_at_least(info.temptarget, 1);
    raised_reading_is_at_least(info.expected_hashrate, 1);
    let top = match reading::highest_of(asic.frequency_options@) {
        Some(frequency) => frequency,
        None => info.frequency,
    };
    raised_reading_is_at_least(top, 1);
    raised_reading_is_at_least(info.temp, 0);
    raised_reading_is_at_least(info.vr_temp, 0);
    raised_reading_is_at_least(info.hash_rate, 0);
    raised_reading_is_at_least(info.error_percentage, 0);
    raised_reading_is_at_least(info.response_time, 0);
    raised_reading_is_at_least(info.frequency, 0);
    raised_reading_is_at_least(info.core_voltage_actual, 0);
    raised_reading_is_at_least(info.fanrpm, 0);
    reading::half_number_is_encoded(0);
    reading::half_number_is_encoded(200);
}

/// A reading raised to a number: itself where it is at least that, else the
/// number.
pub proof fn raised_reading_is_itself_or_the_floor(r: Reading, n: u16)
    ensures
        follows_from(n as int, r, r.raised_to(reading::number(n as int))),
{
    reading::half_number_is_encoded((2 * n) as nat);
    assert(2 * n * reading::one() == 2 * (n * reading::one())) by (nonlinear_arith);
}

/// `shown` is what becomes of `reported` under the floor `n`: the very reading
/// where it is a number and at least that, and the floor where it is not.
pub open spec fn follows_from(n: int, reported: Reading, shown: Reading) -> bool {
    &&& reads_at_least(reported, n) ==> shown == reported
    &&& !reads_at_least(reported, n) ==> shown.is_halves(2 * n)
}

/// Each reading of the snapshot is the reported one of the same name, as it was
/// reported wherever that is a number not below its floor; and the texts, the
/// counts and the amounts that need no floor are those of the report.
pub proof fn snapshot_follows_the_report(
    s: BitaxeSnapshot,
    info: SystemInfo,
    asic: AsicInfo,
    derived: Derived,
)
    requires
        s.is_of(info, asic, derived),
    ensures
        follows_from(0, info.temp, s.temp),
        follows_from(0, info.vr_temp, s.vr_temp),
        follows_from(0, info.hash_rate, s.hashrate),
        follows_from(0, info.error_percentage, s.error_percentage),
        follows_from(0, info.response_time, s.response_time_ms),
        follows_from(0, info.frequency, s.frequency),
        follows_from(0, info.core_voltage_actual, s.core_voltage_actual),
        follows_from(0, info.fanrpm, s.fan_rpm),
        follows_from(1, info.max_power, s.max_power),
        follows_from(1, info.temptarget, s.temp_target),
        follows_from(1, info.expected_hashrate, s.expected_hashrate),
        s.power == info.power,
        s.shares_accepted == info.shares_accepted,
        s.shares_rejected == info.shares_rejected,
        s.share_reasons == info.shares_rejected_reasons,
        s.wifi_status == info.wifi_status,
        s.wifi_rssi == info.wifi_rssi,
        s.stratum_url == info.stratum_url,
        s.stratum_user == info.stratum_user,
        s.is_using_fallback_stratum <==> info.is_using_fallback_stratum != 0,
        s.input_voltage == derived.input_voltage,
        s.current_amps == derived.current_amps,
        s.free_heap_mb == derived.free_heap_mb,
{
    raised_reading_is_itself_or_the_floor(info.temp, 0);
    raised_reading_is_itself_or_the_floor(info.vr_temp, 0);
    raised_reading_is_itself_or_the_floor(info.hash_rate, 0);
    raised_reading_is_itself_or_the_floor(info.error_percentage, 0);
    raised_reading_is_itself_or_the_floor(info.response_time, 0);
    raised_reading_is_itself_or_the_floor(info.frequency, 0);
    raised_reading_is_itself_or_the_floor(info.core_voltage_actual, 0);
    raised_reading_is_itself_or_the_floor(info.fanrpm, 0);
    raised_reading_is_itself_or_the_floor(info.max_power, 1);
    raised_reading_is_itself_or_the_floor(info.temptarget, 1);
    raised_reading_is_itself_or_the_floor(info.expected_hashrate, 1);
    reading::half_number_is_encoded(0);
    reading::half_number_is_encoded(2);
}

/// The fan runs at the reported percentage wherever that is one; else at the end
/// of the range that it is beyond.
pub proof fn fan_runs_at_the_reported_percentage(
    s: BitaxeSnapshot,
    info: SystemInfo,
    asic: AsicInfo,
    derived: Derived,
)
    requires
        s.is_of(info, asic, derived),
    ensures
        0 <= info.fanspeed.scaled() <= 100 * reading::one() ==> s.fan_percent == info.fanspeed,
        !info.fanspeed.is_nan() && info.fanspeed.scaled() < 0 ==> s.fan_percent.is_halves(0),
        !info.fanspeed.is_nan() && info.fanspeed.scaled() > 100 * reading::one()
            ==> s.fan_percent.is_halves(200),
        info.fanspeed.is_nan() ==> s.fan_percent == info.fanspeed,
{
    reading::half_number_is_encoded(0);
    reading::half_number_is_encoded(200);
    assert(reading::number(0).scaled() == 0);
    assert(reading::number(100).scaled() == 100 * reading::one());
}

/// The difficulties are shown as the device gave them, each under its own name:
/// a text as it stands, a missing one as not available, and a number by the
/// numeral that was made of it.
pub proof fn difficulties_follow_the_report(
    s: BitaxeSnapshot,
    info: SystemInfo,
    asic: AsicInfo,
    derived: Derived,
)
    requires
        s.is_of(info, asic, derived),
    ensures
        info.best_diff matches MetricValue::Text(text) ==> s.best_diff@ == text@,
        info.best_diff matches MetricValue::Json(text) ==> s.best_diff@ == text@,
        info.best_diff is Null ==> s.best_diff@ == "n/a"@,
        info.best_diff is Number ==> derived.best_diff@.is_prefix_of(s.best_diff@)
            && s.best_diff@.len() <= derived.best_diff@.len() + 1,
        info.network_difficulty matches MetricValue::Text(text) ==> s.network_difficulty@ == text@,
        info.network_difficulty matches MetricValue::Json(text) ==> s.network_difficulty@ == text@,
        info.network_difficulty is Null ==> s.network_difficulty@ == "n/a"@,
        info.network_difficulty is Number ==> derived.network_difficulty@.is_prefix_of(
            s.network_difficulty@,
        ) && s.network_difficulty@.len() <= derived.network_difficulty@.len() + 1,
{
    assert(s.best_diff@.subrange(0, derived.best_diff@.len() as int) =~= derived.best_diff@
        || !(info.best_diff is Number));
    assert(s.network_difficulty@.subrange(0, derived.network_difficulty@.len() as int)
        =~= derived.network_difficulty@ || !(info.network_difficulty is Number));
}

/// The top frequency is the highest that the chip offers, or the present one
/// where it offers none; and never less than one.
pub proof fn top_frequency_is_the_highest_offered(
    s: BitaxeSnapshot,
    info: SystemInfo,
    asic: AsicInfo,
    derived: Derived,
)
    requires
        s.is_of(info, asic, derived),
    ensures
        asic.frequency_options@.len() == 0 ==> follows_from(1, info.frequency, s.max_frequency),
        asic.frequency_options@.len() > 0 ==> exists|top: Reading|
            #![trigger asic.frequency_options@.contains(top)]
            asic.frequency_options@.contains(top) && follows_from(1, top, s.max_frequency)
                && forall|i: int|
                0 <= i < asic.frequency_options@.len()
                    ==> !top.less(#[trigger] asic.frequency_options@[i]),
{
    let options = asic.frequency_options@;
    reading::highest_is_an_upper_bound(options);
    match reading::highest_of(options) {
        Some(top) => {
            raised_reading_is_itself_or_the_floor(top, 1);
            assert(options.contains(top));
            assert forall|i: int| 0 <= i < options.len() implies !top.less(
                #[trigger] options[i],
            ) by {
                reading::total_order_extends_the_numeric_one(top, options[i]);
            }
        },
        None => {
            raised_reading_is_itself_or_the_floor(info.frequency, 1);
        },
    }
    reading::half_number_is_encoded(2);
}

/// What the device reports under one name changes nothing else: two snapshots
/// agree in every field whose report agrees, whatever else was reported.
pub proof fn reports_do_not_mix(
    s: BitaxeSnapshot,
    info: SystemInfo,
    derived: Derived,
    t: BitaxeSnapshot,
    other: SystemInfo,
    others: Derived,
    asic: AsicInfo,
)
    requires
        s.is_of(info, asic, derived),
        t.is_of(other, asic, others),
    ensures
        info.temp == other.temp ==> s.temp == t.temp,
        info.vr_temp == other.vr_temp ==> s.vr_temp == t.vr_temp,
        info.hash_rate == other.hash_rate ==> s.hashrate == t.hashrate,
        info.error_percentage == other.error_percentage ==> s.error_percentage == t.error_percentage,
        info.response_time == other.response_time ==> s.response_time_ms == t.response_time_ms,
        info.frequency == other.frequency ==> s.frequency == t.frequency,
        info.core_voltage_actual == other.core_voltage_actual ==> s.core_voltage_actual == t.core_voltage_actual,
        info.fanrpm == other.fanrpm ==> s.fan_rpm == t.fan_rpm,
        info.max_power == other.max_power ==> s.max_power == t.max_power,
        info.temptarget == other.temptarget ==> s.temp_target == t.temp_target,
        info.expected_hashrate == other.expected_hashrate ==> s.expected_hashrate == t.expected_hashrate,
        info.power == other.power ==> s.power == t.power,
        info.shares_accepted == other.shares_accepted ==> s.shares_accepted == t.shares_accepted,
        info.shares_rejected == other.shares_rejected ==> s.shares_rejected == t.shares_rejected,
        info.shares_rejected_reasons == other.shares_rejected_reasons ==> s.share_reasons == t.share_reasons,
        info.wifi_status == other.wifi_status ==> s.wifi_status == t.wifi_status,
        info.wifi_rssi == other.wifi_rssi ==> s.wifi_rssi == t.wifi_rssi,
        info.stratum_url == other.stratum_url ==> s.stratum_url == t.stratum_url,
        info.stratum_user == other.stratum_user ==> s.stratum_user == t.stratum_user,
        info.fanspeed == other.fanspeed ==> s.fan_percent == t.fan_percent,
        info.is_using_fallback_stratum == other.is_using_fallback_stratum ==> s.is_using_fallback_stratum == t.is_using_fallback_stratum,
        info.frequency == other.frequency ==> s.max_frequency == t.max_frequency,
        asic.frequency_options@.len() > 0 ==> s.max_frequency == t.max_frequency,
        derived.input_voltage == others.input_voltage ==> s.input_voltage == t.input_voltage,
        derived.current_amps == others.current_amps ==> s.current_amps == t.current_amps,
        derived.free_heap_mb == others.free_heap_mb ==> s.free_heap_mb == t.free_heap_mb,
        info.best_diff@ == other.best_diff@ && derived.best_diff@ == others.best_diff@
            ==> s.best_diff@ == t.best_diff@,
        info.network_difficulty@ == other.network_difficulty@ && derived.network_difficulty@
            == others.network_difficulty@ ==> s.network_difficulty@ == t.network_difficulty@,
{
    reading::highest_is_an_upper_bound(asic.frequency_options@);
}

/// What is computed for a snapshot is made of the reported value of the same
/// name: volts and amperes of thousandths, mebibytes of bytes.
pub proof fn quotients_are_of_the_report(info: SystemInfo)
    ensures
        info.to_derive().input_voltage.dividend == info.voltage,
        info.to_derive().input_voltage.divisor == 1000,
        info.to_derive().current_amps.dividend == info.current,
        info.to_derive().current_amps.divisor == 1000,
        info.to_derive().free_heap_mb.dividend == info.free_heap,
        info.to_derive().free_heap_mb.divisor == 1024 * 1024,
        info.best_diff matches MetricValue::Number(value) ==> (
        info.to_derive().best_diff matches Some(numeral) && numeral.value == value),
        !(info.best_diff is Number) ==> info.to_derive().best_diff is None,
        info.network_difficulty matches MetricValue::Number(value) ==> (
        info.to_derive().network_difficulty matches Some(numeral) && numeral.value == value),
        !(info.network_difficulty is Number) ==> info.to_derive().network_difficulty is None,
{
}

/// `numeral` is made of the whole of `value`, with `decimals` digits behind the
/// point.
pub open spec fn is_numeral_of(numeral: Numeral, value: Reading, decimals: usize) -> bool {
    numeral.value == value && numeral.divisor == 1 && numeral.decimals == decimals
}

/// Each figure is the numeral of the reading that it is named after, and the
/// limits are made of the target temperature and eight degrees, and of eighty-five
/// hundredths of the expected hashrate.
pub proof fn figures_and_limits_are_of_the_snapshot(s: BitaxeSnapshot)
    ensures
        is_numeral_of(s.to_show().temp, s.temp, 1),
        is_numeral_of(s.to_show().temp_target, s.temp_target, 0),
        is_numeral_of(s.to_show().hashrate, s.hashrate, 1),
        is_numeral_of(s.to_show().expected_hashrate, s.expected_hashrate, 1),
        is_numeral_of(s.to_show().response_time, s.response_time_ms, 0),
        is_numeral_of(s.to_show().free_heap, s.free_heap_mb, 1),
        s.to_judge_by().temp_target == s.temp_target,
        s.to_judge_by().margin == 8,
        s.to_judge_by().expected_hashrate == s.expected_hashrate,
        s.to_judge_by().percent == 85,
{
}

/// Heat comes first: whenever the temperature exceeds the limit, the summary is
/// the sentence about it, whatever the pool and the hashrate. The sentence about
/// the fallback pool comes exactly when the device is not hot and mines there,
/// that about a low hashrate exactly when neither holds and the hashrate is below
/// its limit, and the good news exactly when nothing is wrong.
pub proof fn summary_tells_the_worst_first(s: BitaxeSnapshot, rendered: Rendered)
    ensures
        ({
            let hot = rendered.limits.hot.less(s.temp);
            let slow = s.hashrate.less(rendered.limits.slow);
            let fallback = s.is_using_fallback_stratum;
            let shown = rendered.figures;
            let summary = s.summary(rendered);
            &&& hot ==> summary == "ASIC is running hot at "@ + shown.temp@ + "C, above the "@
                + shown.temp_target@ + "C target."@
            &&& !hot && fallback ==> summary == "Primary pool unavailable, mining on fallback "@
                + s.stratum_url@ + "."@
            &&& !hot && !fallback && slow ==> summary == "Hashrate "@ + shown.hashrate@
                + " GH/s is below expected "@ + shown.expected_hashrate@ + " GH/s."@
            &&& !hot && !fallback && !slow ==> summary == "Mining normally at "@ + shown.hashrate@
                + " GH/s with "@ + shown.response_time@ + " ms pool latency."@
            &&& "ASIC is running hot"@.is_prefix_of(summary) <==> hot
            &&& "Primary pool unavailable"@.is_prefix_of(summary) <==> !hot && fallback
            &&& "Hashrate"@.is_prefix_of(summary) <==> !hot && !fallback && slow
            &&& "Mining normally"@.is_prefix_of(summary) <==> !hot && !fallback && !slow
        }),
{
    reveal_strlit("ASIC is running hot");
    reveal_strlit("ASIC is running hot at ");
    reveal_strlit("Primary pool unavailable");
    reveal_strlit("Primary pool unavailable, mining on fallback ");
    reveal_strlit("Hashrate");
    reveal_strlit("Hashrate ");
    reveal_strlit("Mining normally");
    reveal_strlit("Mining normally at ");
    let summary = s.summary(rendered);
    let (a, p, h, m) = (
        "ASIC is running hot"@,
        "Primary pool unavailable"@,
        "Hashrate"@,
        "Mining normally"@,
    );
    assert(a[0] == 'A' && p[0] == 'P' && h[0] == 'H' && m[0] == 'M');
    assert(a.is_prefix_of(summary) ==> summary.subrange(0, a.len() as int)[0] == 'A');
    assert(p.is_prefix_of(summary) ==> summary.subrange(0, p.len() as int)[0] == 'P');
    assert(h.is_prefix_of(summary) ==> summary.subrange(0, h.len() as int)[0] == 'H');
    assert(m.is_prefix_of(summary) ==> summary.subrange(0, m.len() as int)[0] == 'M');
    if rendered.limits.hot.less(s.temp) {
        assert(summary.subrange(0, a.len() as int) =~= a);
    } else if s.is_using_fallback_stratum {
        assert(summary.subrange(0, p.len() as int) =~= p);
    } else if s.hashrate.less(rendered.limits.slow) {
        assert(summary.subrange(0, h.len() as int) =~= h);
    } else {
        assert(summary.subrange(0, m.len() as int) =~= m);
    }
}

/// The pool is named by its address, every character of it; the fallback is
/// marked as such, and a pool without an address is not available.
pub proof fn pool_is_named_by_its_address(s: BitaxeSnapshot)
    ensures
        s.stratum_url@.len() == 0 ==> s.pool() == "n/a"@,
        s.stratum_url@.len() > 0 && !s.is_using_fallback_stratum ==> s.pool() == s.stratum_url@,
        s.stratum_url@.len() > 0 && s.is_using_fallback_stratum ==> s.pool() == s.stratum_url@
            + " (fallback)"@,
{
}

/// The stale shares are those of the first reason that reads so, in whatever
/// case: what stands before it and reads otherwise does not count, and neither
/// does anything behind. Where no reason reads so, there are none.
pub proof fn stale_shares_are_of_the_first_such_reason(
    before: Seq<RejectedReason>,
    reason: RejectedReason,
    behind: Seq<RejectedReason>,
)
    requires
        forall|i: int|
            0 <= i < before.len() ==> !text::equal_ignoring_case(
                (#[trigger] before[i]).message@,
                "stale"@,
            ),
    ensures
        stale_count(before) == 0,
        text::equal_ignoring_case(reason.message@, "stale"@) ==> stale_count(
            before + seq![reason] + behind,
        ) == reason.count,
    decreases before.len(),
{
    let all = before + seq![reason] + behind;
    if before.len() == 0 {
        assert(all[0] == reason);
    } else {
        let fewer = before.skip(1);
        assert forall|i: int| 0 <= i < fewer.len() implies !text::equal_ignoring_case(
            (#[trigger] fewer[i]).message@,
            "stale"@,
        ) by {
            assert(fewer[i] == before[i + 1]);
        }
        assert(!text::equal_ignoring_case(before[0].message@, "stale"@));
        stale_shares_are_of_the_first_such_reason(fewer, reason, behind);
        assert(all[0] == before[0]);
        assert(all.skip(1) =~= fewer + seq![reason] + behind);
    }
}

/// The snapshot of a device that was never reached shows nothing that could be
/// taken for a measurement, and nothing that is wrong with the device.
pub proof fn placeholder_shows_nothing(s: BitaxeSnapshot)
    requires
        s.is_placeholder(),
    ensures
        s.power.is_halves(0) && s.input_voltage.is_halves(0) && s.current_amps.is_halves(0),
        s.temp.is_halves(0) && s.vr_temp.is_halves(0) && s.hashrate.is_halves(0),
        s.error_percentage.is_halves(0) && s.response_time_ms.is_halves(0),
        s.frequency.is_halves(0) && s.core_voltage_actual.is_halves(0),
        s.fan_percent.is_halves(0) && s.fan_rpm.is_halves(0) && s.free_heap_mb.is_halves(0),
        s.max_power.is_halves(80) && s.temp_target.is_halves(120),
        s.expected_hashrate.is_halves(2) && s.max_frequency.is_halves(2),
        s.best_diff@ == "n/a"@ && s.network_difficulty@ == "n/a"@ && s.stratum_user@ == "n/a"@,
        s.wifi_status@ == "unknown"@ && s.wifi_rssi == 0,
        s.shares_accepted == 0 && s.shares_rejected == 0 && stale_count(s.share_reasons@) == 0,
        s.pool() == "n/a"@ && !s.is_using_fallback_stratum,
{
    reading::half_number_is_encoded(0);
    reading::half_number_is_encoded(2);
    reading::half_number_is_encoded(80);
    reading::half_number_is_encoded(120);
}

/// A device is hot exactly when its temperature is a number above its limit, and
/// slow exactly when its hashrate is one below: at the limit it is neither.
pub proof fn limits_are_not_yet_exceeded(s: BitaxeSnapshot, limits: Limits)
    requires
        !s.temp.is_nan(),
        !s.hashrate.is_nan(),
        !limits.hot.is_nan(),
        !limits.slow.is_nan(),
    ensures
        s.hot(limits) <==> s.temp.scaled() > limits.hot.scaled(),
        s.slow(limits) <==> s.hashrate.scaled() < limits.slow.scaled(),
{
}

} // verus!
