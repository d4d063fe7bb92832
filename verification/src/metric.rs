//! Metrics that the device reports as JSON of any kind: difficulties, which it
//! gives as a number, a text or nothing at all.

use vstd::arithmetic::power2::*;
use vstd::prelude::*;
use vstd::string::*;

use crate::reading;
use crate::reading::WideReading;
use crate::text::same_text;

verus! {

/// What the dashboard reads of a JSON value.
#[derive(Debug)]
pub enum MetricValue {
    /// `null`.
    Null,
    /// A number, by its value in the 64-bit format.
    Number(WideReading),
    /// A string, by its contents.
    Text(String),
    /// Any other value, by its JSON text.
    Json(String),
}

/// The model of a metric value, over texts as sequences of characters.
pub enum MetricModel {
    Null,
    Number(WideReading),
    Text(Seq<char>),
    Json(Seq<char>),
}

impl View for MetricValue {
    type V = MetricModel;

    open spec fn view(&self) -> MetricModel {
        match self {
            MetricValue::Null => MetricModel::Null,
            MetricValue::Number(value) => MetricModel::Number(*value),
            MetricValue::Text(text) => MetricModel::Text(text@),
            MetricValue::Json(text) => MetricModel::Json(text@),
        }
    }
}

/// The model of a text that may be missing.
pub open spec fn text_model(text: Option<String>) -> Option<Seq<char>> {
    match text {
        Some(text) => Some(text@),
        None => None,
    }
}

/// The contents of the JSON string that `raw` is the text of, as `serde_json`
/// reads it; none where `raw` is the text of something else.
pub uninterp spec fn json_string(raw: Seq<char>) -> Option<Seq<char>>;

/// Whether the text is empty, or begins with a character that is neither a
/// quotation mark nor one of JSON's blanks.
pub open spec fn opens_no_string(raw: Seq<char>) -> bool {
    raw.len() == 0 || (raw[0] != '"' && raw[0] != ' ' && raw[0] != '\n' && raw[0] != '\t'
        && raw[0] != '\r')
}

/// Whether the text is a JSON string without escapes: two quotation marks, and
/// between them neither a third nor a backslash nor a control code below the
/// blank.
pub open spec fn quoted_plainly(raw: Seq<char>) -> bool {
    &&& raw.len() >= 2
    &&& raw[0] == '"'
    &&& raw.last() == '"'
    &&& forall|i: int|
        0 < i < raw.len() - 1 ==> #[trigger] raw[i] != '"' && raw[i] != '\\' && raw[i] as u32
            >= 0x20
}

/// What stands between the first and the last character of the text.
pub open spec fn between_quotes(raw: Seq<char>) -> Seq<char> {
    raw.subrange(1, raw.len() - 1)
}

/// `serde_json::from_str` reads `raw` as a JSON string, and fails where it is
/// none. The contract claims that the contents, and whether there are any,
/// depend on the text `raw` alone; that there are none where the text begins
/// with anything but a quotation mark or a blank; and that a string without
/// escapes has what stands between its quotation marks as its contents. How
/// escapes are read is not stated.
#[verifier::external_body]
fn unquote(raw: &str) -> (r: Option<String>)
    ensures
        text_model(r) == json_string(raw@),
        opens_no_string(raw@) ==> r is None,
        quoted_plainly(raw@) ==> text_model(r) == Some(between_quotes(raw@)),
{
    serde_json::from_str::<String>(raw).ok()
}

/// The metric with the JSON text `raw`, where `value` is its value if it is a
/// number, and `contents` are its contents if it is a string.
pub open spec fn metric_of(
    raw: Seq<char>,
    value: Option<WideReading>,
    contents: Option<Seq<char>>,
) -> MetricModel {
    match value {
        Some(value) => MetricModel::Number(value),
        None => if raw == "null"@ {
            MetricModel::Null
        } else {
            match contents {
                Some(text) => MetricModel::Text(text),
                None => MetricModel::Json(raw),
            }
        },
    }
}

/// The metric with the JSON text `raw`, where `value` is its value if it is a
/// number, and `contents` are its contents if it is a string.
pub fn metric_from(raw: &str, value: Option<WideReading>, contents: Option<String>) -> (r:
    MetricValue)
    ensures
        r@ == metric_of(raw@, value, text_model(contents)),
{
    match value {
        Some(value) => MetricValue::Number(value),
        None => if same_text(raw, "null") {
            MetricValue::Null
        } else {
            match contents {
                Some(text) => MetricValue::Text(text),
                None => MetricValue::Json(raw.to_owned()),
            }
        },
    }
}

/// Reads a metric out of its compact JSON text `raw`, where `value` is its value
/// if it is a number.
pub fn read_metric(raw: &str, value: Option<WideReading>) -> (r: MetricValue)
    ensures
        r@ == metric_of(raw@, value, json_string(raw@)),
        opens_no_string(raw@) ==> r@ == metric_of(raw@, value, None),
        quoted_plainly(raw@) ==> r@ == metric_of(raw@, value, Some(between_quotes(raw@))),
{
    metric_from(raw, value, unquote(raw))
}

/// The size of a large number, by which its numeral is shortened.
#[derive(Clone, Copy, Debug, PartialEq, Eq, Structural)]
pub enum Scale {
    Plain,
    Kilo,
    Mega,
    Giga,
    Tera,
    Peta,
    Exa,
}

impl Scale {
    /// The number that the scale counts in.
    pub open spec fn spec_divisor(self) -> u64 {
        match self {
            Scale::Plain => 1,
            Scale::Kilo => 1_000,
            Scale::Mega => 1_000_000,
            Scale::Giga => 1_000_000_000,
            Scale::Tera => 1_000_000_000_000,
            Scale::Peta => 1_000_000_000_000_000,
            Scale::Exa => 1_000_000_000_000_000_000,
        }
    }

    /// The digits behind the point.
    pub open spec fn spec_decimals(self) -> usize {
        match self {
            Scale::Plain => 0,
            Scale::Kilo => 1,
            _ => 2,
        }
    }

    /// The letter that stands behind the numeral.
    pub open spec fn letter(self) -> Seq<char> {
        match self {
            Scale::Plain => Seq::empty(),
            Scale::Kilo => seq!['k'],
            Scale::Mega => seq!['M'],
            Scale::Giga => seq!['G'],
            Scale::Tera => seq!['T'],
            Scale::Peta => seq!['P'],
            Scale::Exa => seq!['E'],
        }
    }

    /// The number that the scale counts in.
    pub fn divisor(self) -> (r: u64)
        ensures
            r == self.spec_divisor(),
    {
        match self {
            Scale::Plain => 1,
            Scale::Kilo => 1_000,
            Scale::Mega => 1_000_000,
            Scale::Giga => 1_000_000_000,
            Scale::Tera => 1_000_000_000_000,
            Scale::Peta => 1_000_000_000_000_000,
            Scale::Exa => 1_000_000_000_000_000_000,
        }
    }

    /// The digits behind the point.
    pub fn decimals(self) -> (r: usize)
        ensures
            r == self.spec_decimals(),
    {
        match self {
            Scale::Plain => 0,
            Scale::Kilo => 1,
            _ => 2,
        }
    }

    /// The letter that stands behind the numeral.
    pub fn suffix(self) -> (r: &'static str)
        ensures
            r@ == self.letter(),
    {
        proof {
            reveal_strlit("");
            reveal_strlit("k");
            reveal_strlit("M");
            reveal_strlit("G");
            reveal_strlit("T");
            reveal_strlit("P");
            reveal_strlit("E");
        }
        match self {
            Scale::Plain => "",
            Scale::Kilo => "k",
            Scale::Mega => "M",
            Scale::Giga => "G",
            Scale::Tera => "T",
            Scale::Peta => "P",
            Scale::Exa => "E",
        }
    }
}

/// The largest scale that `value` reaches; what is below a thousand, negative
/// or no number is plain.
pub open spec fn scale_of(value: WideReading) -> Scale {
    if value.at_least(1_000_000_000_000_000_000) {
        Scale::Exa
    } else if value.at_least(1_000_000_000_000_000) {
        Scale::Peta
    } else if value.at_least(1_000_000_000_000) {
        Scale::Tera
    } else if value.at_least(1_000_000_000) {
        Scale::Giga
    } else if value.at_least(1_000_000) {
        Scale::Mega
    } else if value.at_least(1_000) {
        Scale::Kilo
    } else {
        Scale::Plain
    }
}

/// The scale of a large number.
pub fn large_number_scale(value: WideReading) -> (r: Scale)
    ensures
        r == scale_of(value),
{
    proof {
        lemma2_to64();
    }
    if value.reaches(3_814_697_265_625, 18) {
        Scale::Exa
    } else if value.reaches(30_517_578_125, 15) {
        Scale::Peta
    } else if value.reaches(244_140_625, 12) {
        Scale::Tera
    } else if value.reaches(1_953_125, 9) {
        Scale::Giga
    } else if value.reaches(15_625, 6) {
        Scale::Mega
    } else if value.reaches(125, 3) {
        Scale::Kilo
    } else {
        Scale::Plain
    }
}

/// A numeral to be made of a 64-bit number: of `value / divisor`, with
/// `decimals` digits behind the point.
#[derive(Clone, Copy, Debug, PartialEq, Eq, Structural)]
pub struct WideNumeral {
    pub value: WideReading,
    pub divisor: u64,
    pub decimals: usize,
}

/// The numeral that the text of a large number is made with.
pub open spec fn large_numeral(value: WideReading) -> WideNumeral {
    WideNumeral {
        value,
        divisor: scale_of(value).spec_divisor(),
        decimals: scale_of(value).spec_decimals(),
    }
}

/// The numeral that the text of a metric needs, if it needs one.
pub open spec fn numeral_needed(value: MetricModel) -> Option<WideNumeral> {
    match value {
        MetricModel::Number(number) => Some(large_numeral(number)),
        _ => None,
    }
}

/// The text of a metric, where `numeral` is the numeral that it needs.
pub open spec fn metric_text(value: MetricModel, numeral: Seq<char>) -> Seq<char> {
    match value {
        MetricModel::Null => "n/a"@,
        MetricModel::Number(number) => numeral + scale_of(number).letter(),
        MetricModel::Text(text) => text,
        MetricModel::Json(text) => text,
    }
}

/// The numeral that the text of a metric needs, if it needs one.
pub fn metric_numeral(value: &MetricValue) -> (r: Option<WideNumeral>)
    ensures
        r == numeral_needed(value@),
{
    match value {
        MetricValue::Number(number) => {
            let scale = large_number_scale(*number);
            Some(
                WideNumeral {
                    value: *number,
                    divisor: scale.divisor(),
                    decimals: scale.decimals(),
                },
            )
        },
        _ => None,
    }
}

/// The text of a large number, made of its numeral.
pub fn format_large_number(value: WideReading, numeral: &str) -> (r: String)
    ensures
        r@ == numeral@ + scale_of(value).letter(),
{
    let mut r = numeral.to_owned();
    r.append(large_number_scale(value).suffix());
    r
}

/// The text of a metric, where `numeral` is the numeral that it needs.
pub fn format_metric_value(value: &MetricValue, numeral: &str) -> (r: String)
    ensures
        r@ == metric_text(value@, numeral@),
{
    match value {
        MetricValue::Null => "n/a".to_owned(),
        MetricValue::Number(number) => format_large_number(*number, numeral),
        MetricValue::Text(text) => text.clone(),
        MetricValue::Json(text) => text.clone(),
    }
}

/// A metric that is a JSON string without escapes is shown without its quotation
/// marks, be it `null` that stands between them; `null` without quotation marks
/// is shown as not available.
pub proof fn plain_string_is_shown_unquoted(raw: Seq<char>, numeral: Seq<char>)
    requires
        quoted_plainly(raw),
    ensures
        metric_text(metric_of(raw, None, Some(between_quotes(raw))), numeral) == between_quotes(
            raw,
        ),
        metric_text(metric_of("null"@, None, None), numeral) == "n/a"@,
{
    reveal_strlit("null");
}

/// A number is shown in the largest scale that it reaches: it is at least the
/// number that the scale counts in, and it does not reach the next scale.
pub proof fn scale_is_the_largest_reached(value: WideReading)
    ensures
        scale_of(value) != Scale::Plain ==> value.at_least(scale_of(value).spec_divisor() as nat),
        forall|other: Scale| #[trigger]
            other.spec_divisor() > scale_of(value).spec_divisor() ==> !value.at_least(
                other.spec_divisor() as nat,
            ),
{
}

/// What a metric is: a number wherever it has a value, whatever its text;
/// without one nothing where its text is `null`, its contents where it is a
/// string, and else its text, every character of it.
pub proof fn metric_is_told_by_its_parts(
    raw: Seq<char>,
    number: WideReading,
    contents: Seq<char>,
    string: Option<Seq<char>>,
)
    ensures
        metric_of(raw, Some(number), string) == MetricModel::Number(number),
        metric_of("null"@, None, string) == MetricModel::Null,
        raw != "null"@ ==> metric_of(raw, None, Some(contents)) == MetricModel::Text(contents),
        raw != "null"@ ==> metric_of(raw, None, None) == MetricModel::Json(raw),
{
}

/// A metric that is no number is shown without the help of a numeral: a text as
/// it stands, any other value by its JSON, and a missing one as not available.
pub proof fn texts_are_shown_as_they_stand(text: Seq<char>, numeral: Seq<char>)
    ensures
        metric_text(MetricModel::Text(text), numeral) == text,
        metric_text(MetricModel::Json(text), numeral) == text,
        metric_text(MetricModel::Null, numeral) == "n/a"@,
        numeral_needed(MetricModel::Text(text)) is None,
        numeral_needed(MetricModel::Json(text)) is None,
        numeral_needed(MetricModel::Null) is None,
{
}

/// `value` is shown as a numeral of `value / divisor` with `decimals` digits
/// behind the point, and `suffix` behind it.
pub open spec fn is_shown_in(
    value: WideReading,
    divisor: u64,
    decimals: usize,
    suffix: Seq<char>,
) -> bool {
    &&& numeral_needed(MetricModel::Number(value)) == Some(
        WideNumeral { value, divisor, decimals },
    )
    &&& forall|numeral: Seq<char>| #[trigger]
        metric_text(MetricModel::Number(value), numeral) == numeral + suffix
}

/// A number is shortened by thousands: from a thousand on it is counted in
/// thousands with one digit behind the point, from a million on in millions with
/// two, and so on to the largest of the letters; below a thousand it is shown
/// whole.
pub proof fn numbers_are_shortened_by_thousands(value: WideReading)
    ensures
        !value.at_least(1_000) && !value.at_least(1_000_000) && !value.at_least(1_000_000_000)
            && !value.at_least(1_000_000_000_000) && !value.at_least(1_000_000_000_000_000)
            && !value.at_least(1_000_000_000_000_000_000) ==> is_shown_in(value, 1, 0, seq![]),
        value.at_least(1_000) && !value.at_least(1_000_000) ==> is_shown_in(
            value,
            1_000,
            1,
            seq!['k'],
        ),
        value.at_least(1_000_000) && !value.at_least(1_000_000_000) ==> is_shown_in(
            value,
            1_000_000,
            2,
            seq!['M'],
        ),
        value.at_least(1_000_000_000) && !value.at_least(1_000_000_000_000) ==> is_shown_in(
            value,
            1_000_000_000,
            2,
            seq!['G'],
        ),
        value.at_least(1_000_000_000_000) && !value.at_least(1_000_000_000_000_000)
            ==> is_shown_in(value, 1_000_000_000_000, 2, seq!['T']),
        value.at_least(1_000_000_000_000_000) && !value.at_least(1_000_000_000_000_000_000)
            ==> is_shown_in(value, 1_000_000_000_000_000, 2, seq!['P']),
        value.at_least(1_000_000_000_000_000_000) ==> is_shown_in(
            value,
            1_000_000_000_000_000_000,
            2,
            seq!['E'],
        ),
{
    if value.at_least(1_000_000_000_000_000_000) {
        reading::what_reaches_more_reaches_less(
            value,
            1_000_000_000_000_000,
            1_000_000_000_000_000_000,
        );
    }
    if value.at_least(1_000_000_000_000_000) {
        reading::what_reaches_more_reaches_less(value, 1_000_000_000_000, 1_000_000_000_000_000);
    }
    if value.at_least(1_000_000_000_000) {
        reading::what_reaches_more_reaches_less(value, 1_000_000_000, 1_000_000_000_000);
    }
    if value.at_least(1_000_000_000) {
        reading::what_reaches_more_reaches_less(value, 1_000_000, 1_000_000_000);
    }
    if value.at_least(1_000_000) {
        reading::what_reaches_more_reaches_less(value, 1_000, 1_000_000);
    }
}

} // verus!
