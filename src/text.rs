use vstd::prelude::*;
use vstd::utf8::{decode_utf8, valid_utf8};

verus! {

/// The ASCII digit for a value below ten.
pub open spec fn digit_char(d: nat) -> char {
    ((48 + d) as u8) as char
}

/// Decimal digits of a natural number, most significant first, no leading zeros.
pub open spec fn digits_of(n: nat) -> Seq<char>
    decreases n,
{
    if n < 10 {
        seq![digit_char(n)]
    } else {
        digits_of(n / 10).push(digit_char(n % 10))
    }
}

/// Decimal text of an integer, with a leading '-' when it is negative.
pub open spec fn decimal_text(n: int) -> Seq<char> {
    if n < 0 {
        seq!['-'] + digits_of((-n) as nat)
    } else {
        digits_of(n as nat)
    }
}

/// Relies on String::push: appends one character at the end.
#[verifier::external_body]
pub(crate) fn push_char(s: &mut String, c: char)
    ensures
        final(s)@ == old(s)@.push(c),
{
    s.push(c)
}

/// Relies on String::pop: removes and returns the last character, or gives
/// `None` and leaves the string alone when it is empty.
#[verifier::external_body]
pub(crate) fn pop_char(s: &mut String) -> (r: Option<char>)
    ensures
        match r {
            None => old(s)@.len() == 0 && final(s)@ == old(s)@,
            Some(c) => old(s)@.len() > 0 && c == old(s)@.last() && final(s)@ == old(s)@.drop_last(),
        },
{
    s.pop()
}

/// What lossy UTF-8 decoding makes of a byte sequence that is not valid
/// UTF-8; it depends on the bytes alone.
pub uninterp spec fn lossy_decode_invalid(bytes: Seq<u8>) -> Seq<char>;

/// Text of bytes decoded as UTF-8, invalid sequences replaced.
pub open spec fn lossy_text(bytes: Seq<u8>) -> Seq<char> {
    if valid_utf8(bytes) {
        decode_utf8(bytes)
    } else {
        lossy_decode_invalid(bytes)
    }
}

/// Relies on String::from_utf8_lossy: valid UTF-8 decodes to its characters,
/// anything else to a text that depends on the bytes alone.
#[verifier::external_body]
pub(crate) fn decode_lossy(bytes: &[u8]) -> (r: String)
    ensures
        r@ == (if valid_utf8(bytes@) {
            decode_utf8(bytes@)
        } else {
            lossy_decode_invalid(bytes@)
        }),
{
    String::from_utf8_lossy(bytes).into_owned()
}

/// The text that nix gives for an OS error number ("EIO: I/O error").
pub uninterp spec fn errno_text(code: i32) -> Seq<char>;

/// Relies on nix's Errno::from_raw and its Display impl: the description of
/// an error number, which depends on the number alone.
#[verifier::external_body]
pub(crate) fn describe_errno(code: i32) -> (r: String)
    ensures
        r@ == errno_text(code),
{
    nix::errno::Errno::from_raw(code).to_string()
}

fn digit(d: u32) -> (c: char)
    requires
        d < 10,
    ensures
        c == digit_char(d as nat),
{
    ((48 + d) as u8) as char
}

/// Appends the decimal text of `n` to `out`.
pub fn render_decimal(out: &mut String, n: i32)
    ensures
        final(out)@ == old(out)@ + decimal_text(n as int),
{
    let magnitude: u32 = if n < 0 {
        (-(n as i64)) as u32
    } else {
        n as u32
    };
    let mut acc: Vec<char> = Vec::new();
    let mut m: u32 = magnitude;
    loop
        invariant_except_break
            digits_of(magnitude as nat) == digits_of(m as nat) + acc@,
        ensures
            digits_of(magnitude as nat) == acc@,
        decreases m,
    {
        if m < 10 {
            acc.insert(0, digit(m));
            break;
        }
        let d = digit(m % 10);
        acc.insert(0, d);
        m = m / 10;
    }
    if n < 0 {
        push_char(out, '-');
    }
    let ghost start = out@;
    let mut i: usize = 0;
    while i < acc.len()
        invariant
            i <= acc@.len(),
            out@ == start + acc@.subrange(0, i as int),
        decreases acc@.len() - i,
    {
        push_char(out, acc[i]);
        i = i + 1;
    }
    assert(acc@.subrange(0, acc@.len() as int) =~= acc@);
}

} // verus!
