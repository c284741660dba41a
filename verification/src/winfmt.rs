//! Timestamps and Win32 error texts.

use vstd::prelude::*;
use crate::text::{chars_of, append_chars, push_char, repeat};
use crate::util::{decimal_nat, hex_nat, push_decimal, push_hex, trim, trim_seq};

verus! {

/// `d` left-padded with zeros to at least `w` characters.
pub open spec fn zero_padded(d: Seq<char>, w: nat) -> Seq<char> {
    if d.len() >= w {
        d
    } else {
        repeat('0', (w - d.len()) as nat) + d
    }
}

/// Appends `digits` to `out`, left-padded with zeros to `w` characters.
fn push_padded(out: &mut String, digits: &String, w: usize)
    ensures
        final(out)@ == old(out)@ + zero_padded(digits@, w as nat),
{
    let d = chars_of(digits.as_str());
    let mut k: usize = d.len();
    let ghost start = out@;
    while k < w
        invariant
            d.len() <= k <= w || (k == d.len() && k >= w),
            d@ == digits@,
            out@ == start + repeat('0', (k - d.len()) as nat),
        decreases w - k,
    {
        push_char(out, '0');
        assert(repeat('0', (k + 1 - d.len()) as nat) =~= repeat('0', (k - d.len()) as nat).push(
            '0',
        ));
        k = k + 1;
    }
    append_chars(out, &d);
    if d.len() >= w {
        assert(repeat('0', 0) =~= Seq::<char>::empty());
        assert(out@ =~= start + zero_padded(digits@, w as nat));
    } else {
        assert(out@ =~= start + zero_padded(digits@, w as nat));
    }
}

fn push_padded_decimal(out: &mut String, n: u64, w: usize)
    ensures
        final(out)@ == old(out)@ + zero_padded(decimal_nat(n as nat), w as nat),
{
    let mut d = String::new();
    push_decimal(&mut d, n);
    assert(d@ =~= decimal_nat(n as nat));
    push_padded(out, &d, w);
}

/// `YYYYMMDD-hhmmss` from local-time parts (year, month, day, hour,
/// minute, second), each zero-padded (run ids and log file names).
pub fn now_stamp(parts: (u16, u16, u16, u16, u16, u16)) -> (r: String)
    ensures
        r@ == zero_padded(decimal_nat(parts.0 as nat), 4) + zero_padded(decimal_nat(parts.1 as nat), 2)
            + zero_padded(decimal_nat(parts.2 as nat), 2) + "-"@ + zero_padded(
            decimal_nat(parts.3 as nat),
            2,
        ) + zero_padded(decimal_nat(parts.4 as nat), 2) + zero_padded(decimal_nat(parts.5 as nat), 2),
{
    let (y, mo, d, h, mi, s) = parts;
    let mut out = String::new();
    push_padded_decimal(&mut out, y as u64, 4);
    push_padded_decimal(&mut out, mo as u64, 2);
    push_padded_decimal(&mut out, d as u64, 2);
    push_char(&mut out, '-');
    push_padded_decimal(&mut out, h as u64, 2);
    push_padded_decimal(&mut out, mi as u64, 2);
    push_padded_decimal(&mut out, s as u64, 2);
    proof {
        reveal_strlit("-");
    }
    assert(out@ =~= zero_padded(decimal_nat(y as nat), 4) + zero_padded(decimal_nat(mo as nat), 2)
        + zero_padded(decimal_nat(d as nat), 2) + "-"@ + zero_padded(decimal_nat(h as nat), 2)
        + zero_padded(decimal_nat(mi as nat), 2) + zero_padded(decimal_nat(s as nat), 2));
    out
}

/// `YYYY-MM-DD hh:mm:ss` from local-time parts, each zero-padded (the
/// prefix of every log line).
pub fn log_time_stamp(parts: (u16, u16, u16, u16, u16, u16)) -> (r: String)
    ensures
        r@ == zero_padded(decimal_nat(parts.0 as nat), 4) + "-"@ + zero_padded(
            decimal_nat(parts.1 as nat),
            2,
        ) + "-"@ + zero_padded(decimal_nat(parts.2 as nat), 2) + " "@ + zero_padded(
            decimal_nat(parts.3 as nat),
            2,
        ) + ":"@ + zero_padded(decimal_nat(parts.4 as nat), 2) + ":"@ + zero_padded(
            decimal_nat(parts.5 as nat),
            2,
        ),
{
    let (y, mo, d, h, mi, s) = parts;
    let mut out = String::new();
    push_padded_decimal(&mut out, y as u64, 4);
    push_char(&mut out, '-');
    push_padded_decimal(&mut out, mo as u64, 2);
    push_char(&mut out, '-');
    push_padded_decimal(&mut out, d as u64, 2);
    push_char(&mut out, ' ');
    push_padded_decimal(&mut out, h as u64, 2);
    push_char(&mut out, ':');
    push_padded_decimal(&mut out, mi as u64, 2);
    push_char(&mut out, ':');
    push_padded_decimal(&mut out, s as u64, 2);
    proof {
        reveal_strlit("-");
        reveal_strlit(" ");
        reveal_strlit(":");
    }
    assert(out@ =~= zero_padded(decimal_nat(y as nat), 4) + "-"@ + zero_padded(
        decimal_nat(mo as nat),
        2,
    ) + "-"@ + zero_padded(decimal_nat(d as nat), 2) + " "@ + zero_padded(decimal_nat(h as nat), 2)
        + ":"@ + zero_padded(decimal_nat(mi as nat), 2) + ":"@ + zero_padded(
        decimal_nat(s as nat),
        2,
    ));
    out
}

/// Text of a Win32 error: `0x` and the code as eight uppercase hex digits,
/// then a space and the trimmed system message when there is a nonempty one.
pub open spec fn win_error_text(err: u32, message: Option<Seq<char>>) -> Seq<char> {
    let head = "0x"@ + zero_padded(hex_nat(err as nat), 8);
    match message {
        Some(m) => if trim_seq(m).len() > 0 {
            head + " "@ + trim_seq(m)
        } else {
            head
        },
        None => head,
    }
}

/// Formats a Win32 error code with its system message (looked up by the
/// caller, `None` when the system has none).
pub fn format_win_error(err: u32, message: Option<&str>) -> (r: String)
    ensures
        r@ == win_error_text(err, match message {
            Some(m) => Some(m@),
            None => None,
        }),
{
    let mut out = String::from_str("0x");
    let mut h = String::new();
    push_hex(&mut h, err as u64);
    assert(h@ =~= hex_nat(err as nat));
    push_padded(&mut out, &h, 8);
    proof {
        reveal_strlit("0x");
        reveal_strlit(" ");
    }
    match message {
        Some(m) => {
            let t = trim(m);
            let tc = chars_of(t.as_str());
            if tc.len() > 0 {
                push_char(&mut out, ' ');
                append_chars(&mut out, &tc);
                assert(out@ =~= "0x"@ + zero_padded(hex_nat(err as nat), 8) + " "@ + trim_seq(m@));
            }
        },
        None => {},
    }
    out
}

// ---------------------------------------------------------------------------
// Output of external tools
// ---------------------------------------------------------------------------

/// The text that `std::str::from_utf8` reads from `bytes`, or `None` when
/// they are not valid UTF-8.
pub uninterp spec fn utf8_text(bytes: Seq<u8>) -> Option<Seq<char>>;

/// `std::str::from_utf8`: the text of `bytes` when they are valid UTF-8.
/// Claimed: the result is the one [`utf8_text`] names for these bytes.
#[verifier::external_body]
fn std_from_utf8(bytes: &[u8]) -> (r: Option<String>)
    ensures
        match r {
            Some(s) => utf8_text(bytes@) == Some(s@),
            None => utf8_text(bytes@) is None,
        },
{
    match std::str::from_utf8(bytes) {
        Ok(s) => Some(s.to_string()),
        Err(_) => None,
    }
}

/// Text of a console tool's captured output: empty for no bytes, the
/// UTF-8 text when the bytes are valid UTF-8, and `None` otherwise (the
/// caller then decodes them in the OEM code page, which console tools use).
pub fn decode_process_output(bytes: &[u8]) -> (r: Option<String>)
    ensures
        bytes@.len() == 0 ==> (r matches Some(s) && s@ == Seq::<char>::empty()),
        bytes@.len() > 0 ==> match r {
            Some(s) => utf8_text(bytes@) == Some(s@),
            None => utf8_text(bytes@) is None,
        },
{
    if bytes.len() == 0 {
        return Some(String::new());
    }
    std_from_utf8(bytes)
}

} // verus!
