use hhmmss::Hhmmss;
use vstd::prelude::*;

verus! {

/// The character of a decimal digit.
pub open spec fn digit_char(d: nat) -> char {
    seq!['0', '1', '2', '3', '4', '5', '6', '7', '8', '9'][d as int]
}

/// The decimal digits of `n`, without leading zeros.
pub open spec fn decimal(n: nat) -> Seq<char>
    decreases n,
{
    if n < 10 {
        seq![digit_char(n)]
    } else {
        decimal(n / 10) + seq![digit_char(n % 10)]
    }
}

/// The decimal digits of `n`, padded with a leading zero to at least two.
pub open spec fn two_digits(n: nat) -> Seq<char> {
    if n < 10 {
        seq!['0'] + decimal(n)
    } else {
        decimal(n)
    }
}

/// `secs` seconds as hours, minutes and seconds, each at least two digits,
/// joined by `:`.
pub open spec fn hhmmss_text(secs: nat) -> Seq<char> {
    two_digits(secs / 3600) + seq![':'] + two_digits((secs % 3600) / 60) + seq![':'] + two_digits(
        secs % 60,
    )
}

/// Relies on hhmmss's `Hhmmss::hhmmss` for `std::time::Duration`: it formats
/// the whole seconds as `{:02}:{:02}:{:02}` of hours, minutes and seconds.
/// It first turns the seconds into an `i64`, hence the bound.
#[verifier::external_body]
pub(crate) fn format_hhmmss(secs: u64) -> (r: String)
    requires
        secs <= i64::MAX,
    ensures
        r@ == hhmmss_text(secs as nat),
{
    std::time::Duration::from_secs(secs).hhmmss()
}

/// Relies on `systemstat::saturating_sub_bytes`: the difference of two byte
/// counts, or zero where it would be negative.
#[verifier::external_body]
pub(crate) fn saturating_sub_bytes(l: u64, r: u64) -> (d: u64)
    ensures
        d == if r <= l { (l - r) as u64 } else { 0u64 },
{
    systemstat::saturating_sub_bytes(systemstat::ByteSize::b(l), systemstat::ByteSize::b(r)).as_u64()
}

} // verus!

verus! {

/// Relies on `String::push`: appends one character at the end.
#[verifier::external_body]
pub(crate) fn push_char(s: &mut String, c: char)
    ensures
        final(s)@ == old(s)@.push(c),
{
    s.push(c)
}

} // verus!
