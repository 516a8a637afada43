//! Creation timestamps in the fixed `YYYY-MM-DD HH:MM:SS` local-time form.
use vstd::prelude::*;

verus! {

/// The character is an ASCII decimal digit.
pub open spec fn is_digit(c: char) -> bool {
    '0' <= c && c <= '9'
}

/// Every character of `s` in `lo..hi` is a decimal digit.
pub open spec fn all_digits(s: Seq<char>, lo: int, hi: int) -> bool {
    forall|i: int| lo <= i < hi ==> #[trigger] is_digit(s[i])
}

/// The value of the two decimal digits at `i` and `i + 1`.
pub open spec fn two_digits(s: Seq<char>, i: int) -> int {
    (s[i] as int - '0' as int) * 10 + (s[i + 1] as int - '0' as int)
}

/// A year as chrono's `%Y` writes it: four digits for years `0..=9999`,
/// else a sign followed by at least four digits.
pub open spec fn is_year_text(y: Seq<char>) -> bool {
    ||| y.len() == 4 && all_digits(y, 0, 4)
    ||| y.len() >= 5 && (y[0] == '+' || y[0] == '-') && all_digits(y, 1, y.len() as int)
}

/// `s` is a timestamp `YEAR-MM-DD HH:MM:SS`: a year, then fixed two-digit
/// fields with the separators in place and each field in its calendar range
/// (a leap second shows as second 60).
pub open spec fn is_timestamp_text(s: Seq<char>) -> bool {
    let y = s.len() - 15;
    &&& s.len() >= 19
    &&& is_year_text(s.subrange(0, y))
    &&& s[y] == '-' && s[y + 3] == '-' && s[y + 6] == ' ' && s[y + 9] == ':' && s[y + 12] == ':'
    &&& all_digits(s, y + 1, y + 3) && all_digits(s, y + 4, y + 6)
    &&& all_digits(s, y + 7, y + 9) && all_digits(s, y + 10, y + 12)
    &&& all_digits(s, y + 13, y + 15)
    &&& 1 <= two_digits(s, y + 1) <= 12
    &&& 1 <= two_digits(s, y + 4) <= 31
    &&& two_digits(s, y + 7) <= 23
    &&& two_digits(s, y + 10) <= 59
    &&& two_digits(s, y + 13) <= 60
}

/// Relies on `std::time::SystemTime::now` and `SystemTime::duration_since`
/// with `UNIX_EPOCH`: whole seconds and the nanoseconds below one second since
/// the epoch, or `None` where the clock reads before 1970 (or past what an
/// `i64` of seconds holds). Which instant is read depends on the clock.
#[verifier::external_body]
fn unix_now() -> (r: Option<(i64, u32)>)
    ensures
        r is Some ==> r->Some_0.0 >= 0 && r->Some_0.1 < 1_000_000_000,
{
    let d = std::time::SystemTime::now().duration_since(std::time::UNIX_EPOCH).ok()?;
    i64::try_from(d.as_secs()).ok().map(|secs| (secs, d.subsec_nanos()))
}

/// Relies on `chrono::DateTime::from_timestamp`, which gives `None` for an
/// instant outside chrono's range (years beyond 262143), then on
/// `DateTime::with_timezone(&Local)` and `format("%Y-%m-%d %H:%M:%S")`:
/// `%Y` gives four digits for years `0..=9999` and a sign with at least four
/// digits otherwise; `%m %d %H %M %S` each give two zero-padded digits of the
/// month, day, hour, minute and second. The local offset comes from the
/// system's time-zone data, which is assumed to hold offsets under a day
/// (chrono stops on any other).
#[verifier::external_body]
fn local_text(secs: i64, nanos: u32) -> (r: Option<String>)
    ensures
        r is Some ==> is_timestamp_text(r->Some_0@),
{
    chrono::DateTime::from_timestamp(secs, nanos)
        .map(|t| t.with_timezone(&chrono::Local).format("%Y-%m-%d %H:%M:%S").to_string())
}

/// The current local time as a timestamp, or `None` where the clock cannot
/// give one.
pub fn current_timestamp() -> (r: Option<String>)
    ensures
        r is Some ==> is_timestamp_text(r->Some_0@),
{
    match unix_now() {
        Some((secs, nanos)) => local_text(secs, nanos),
        None => None,
    }
}

} // verus!
