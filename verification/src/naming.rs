//! Deterministic rendition names: `{base}_{width}x{height}_{dpi}dpi.png`.
//! The decimal rendering of each number is specified mathematically and the
//! executable formatter is proved to produce exactly that text.

use vstd::prelude::*;

verus! {

/// The character for one decimal digit.
pub open spec fn digit_char(d: int) -> char {
    if d == 0 {
        '0'
    } else if d == 1 {
        '1'
    } else if d == 2 {
        '2'
    } else if d == 3 {
        '3'
    } else if d == 4 {
        '4'
    } else if d == 5 {
        '5'
    } else if d == 6 {
        '6'
    } else if d == 7 {
        '7'
    } else if d == 8 {
        '8'
    } else {
        '9'
    }
}

/// The usual decimal rendering of a natural number, most significant digit
/// first, with no leading zeros (and a single `'0'` for zero).
pub open spec fn decimal_seq(n: nat) -> Seq<char>
    decreases n,
{
    if n < 10 {
        seq![digit_char(n as int)]
    } else {
        decimal_seq(n / 10) + seq![digit_char((n % 10) as int)]
    }
}

/// The full output name for one rendition of one source.
pub open spec fn rendition_name_spec(base: Seq<char>, width: u32, height: u32, dpi: u32) -> Seq<
    char,
> {
    base + "_"@ + decimal_seq(width as nat) + "x"@ + decimal_seq(height as nat) + "_"@
        + decimal_seq(dpi as nat) + "dpi.png"@
}

/// Append the character for one decimal digit.
fn push_digit(out: &mut String, d: u32)
    requires
        d < 10,
    ensures
        final(out)@ == old(out)@ + seq![digit_char(d as int)],
{
    let s: &str = if d == 0 {
        "0"
    } else if d == 1 {
        "1"
    } else if d == 2 {
        "2"
    } else if d == 3 {
        "3"
    } else if d == 4 {
        "4"
    } else if d == 5 {
        "5"
    } else if d == 6 {
        "6"
    } else if d == 7 {
        "7"
    } else if d == 8 {
        "8"
    } else {
        "9"
    };
    proof {
        reveal_strlit("0");
        reveal_strlit("1");
        reveal_strlit("2");
        reveal_strlit("3");
        reveal_strlit("4");
        reveal_strlit("5");
        reveal_strlit("6");
        reveal_strlit("7");
        reveal_strlit("8");
        reveal_strlit("9");
        assert(s@ =~= seq![digit_char(d as int)]);
    }
    out.append(s);
}

/// Append the decimal rendering of `n`.
pub fn push_decimal(out: &mut String, n: u32)
    ensures
        final(out)@ == old(out)@ + decimal_seq(n as nat),
    decreases n,
{
    if n >= 10 {
        push_decimal(out, n / 10);
    }
    push_digit(out, n % 10);
    proof {
        if n < 10 {
            assert(final(out)@ =~= old(out)@ + decimal_seq(n as nat));
        } else {
            assert(final(out)@ =~= old(out)@ + decimal_seq(n as nat));
        }
    }
}

/// Whether an extension names a watched source file: exactly the letters
/// `tif`, each in either case.
pub open spec fn is_tif_ext_spec(s: Seq<char>) -> bool {
    &&& s.len() == 3
    &&& (s[0] == 't' || s[0] == 'T')
    &&& (s[1] == 'i' || s[1] == 'I')
    &&& (s[2] == 'f' || s[2] == 'F')
}

/// Case-insensitive match of a file extension against `tif`.
pub fn is_tif_extension(s: &str) -> (r: bool)
    ensures
        r == is_tif_ext_spec(s@),
{
    if s.unicode_len() != 3 {
        return false;
    }
    let c0 = s.get_char(0);
    let c1 = s.get_char(1);
    let c2 = s.get_char(2);
    (c0 == 't' || c0 == 'T') && (c1 == 'i' || c1 == 'I') && (c2 == 'f' || c2 == 'F')
}

/// Build the deterministic output name for one rendition.
pub fn rendition_name(base: &str, width: u32, height: u32, dpi: u32) -> (r: String)
    ensures
        r@ == rendition_name_spec(base@, width, height, dpi),
{
    let mut out = String::from_str(base);
    out.append("_");
    push_decimal(&mut out, width);
    out.append("x");
    push_decimal(&mut out, height);
    out.append("_");
    push_decimal(&mut out, dpi);
    out.append("dpi.png");
    proof {
        assert(out@ =~= rendition_name_spec(base@, width, height, dpi));
    }
    out
}

} // verus!
