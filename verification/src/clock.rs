//! The local time of day, through the `chrono` crate.

use vstd::prelude::*;

verus! {

/// The pattern of a timestamp in `chrono`'s strftime notation: the date as
/// year, month and day, the time of day, and the milliseconds.
pub const TIMESTAMP_PATTERN: &'static str = "%F %T%.3f";

/// Whether a character is a decimal digit.
pub open spec fn is_digit(c: char) -> bool {
    '0' <= c <= '9'
}

/// Whether a text has the given shape: the two are of one length, and each
/// character of the text is a digit where the shape holds a `d`, and the
/// shape's own character elsewhere.
pub open spec fn has_shape(text: Seq<char>, shape: Seq<char>) -> bool {
    &&& text.len() == shape.len()
    &&& forall|i: int|
        0 <= i < text.len() ==> if shape[i] == 'd' {
            is_digit(#[trigger] text[i])
        } else {
            text[i] == shape[i]
        }
}

/// Whether a text is a year as a timestamp starts with it: four digits, or
/// a sign and at least four digits for a year that four digits cannot hold.
pub open spec fn is_year(text: Seq<char>) -> bool {
    &&& if is_digit(text[0]) {
        text.len() == 4
    } else {
        text.len() >= 5 && (text[0] == '+' || text[0] == '-')
    }
    &&& forall|i: int| 1 <= i < text.len() ==> is_digit(#[trigger] text[i])
}

/// Whether a text is a timestamp: a year, then month, day, hour, minute and
/// second in two digits each and the milliseconds in three, as in
/// `2020-12-31 23:59:59.999`.
pub open spec fn is_timestamp(stamp: Seq<char>) -> bool {
    let year = stamp.len() - 19;
    &&& year >= 4
    &&& is_year(stamp.take(year))
    &&& has_shape(stamp.skip(year), "-dd-dd dd:dd:dd.ddd"@)
}

/// `chrono::offset::Local::now`, formatted by `DateTime::format` and turned
/// into a string through `Display`. The string is the machine's local time
/// as the clock gives it, so which time it shows is not claimed. Its shape
/// is: `chrono` writes `%F` as the year, four digits wide or signed and
/// wider, a hyphen, the month, a hyphen and the day; `%T` as hour, minute
/// and second with colons between them; and `%.3f` as a dot and three
/// digits; month, day, hour, minute and second take two digits each. The
/// only pattern admitted is the one known to parse: on a pattern that
/// `chrono` cannot parse the conversion panics. `chrono` takes the clock to
/// stand at 1970 or later.
#[verifier::external_body]
pub(crate) fn local_time(pattern: &str) -> (stamp: String)
    requires
        pattern@ == TIMESTAMP_PATTERN@,
    ensures
        is_timestamp(stamp@),
{
    chrono::offset::Local::now().format(pattern).to_string()
}

} // verus!
