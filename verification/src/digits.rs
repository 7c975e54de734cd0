//! Decimal rendering of the integers that appear in log lines: plain,
//! zero-padded, and signed, together with the character-level specifications
//! the formatter contracts are stated over.

use vstd::prelude::*;

verus! {

/// The decimal digit character for `d`.
pub open spec fn spec_digit(d: int) -> char {
    if d == 0 {
        '0'
    } else if d == 1 {
        '1'
    } else if d == 2 {
        '2'
    } else if d == 3 {
        '3'
    } else if d == 4 {
        '4'
    } else if d == 5 {
        '5'
    } else if d == 6 {
        '6'
    } else if d == 7 {
        '7'
    } else if d == 8 {
        '8'
    } else {
        '9'
    }
}

/// The shortest decimal rendering of `n`, most significant digit first.
pub open spec fn spec_dec(n: nat) -> Seq<char>
    decreases n,
{
    if n < 10 {
        seq![spec_digit(n as int)]
    } else {
        spec_dec(n / 10).push(spec_digit((n % 10) as int))
    }
}

/// The last `width` decimal digits of `n`, zero-padded on the left; for
/// `n < 10^width` this is the usual fixed-width rendering of `n`.
pub open spec fn spec_dec_pad(n: nat, width: nat) -> Seq<char>
    decreases width,
{
    if width == 0 {
        Seq::empty()
    } else {
        spec_dec_pad(n / 10, (width - 1) as nat).push(spec_digit((n % 10) as int))
    }
}

/// The decimal rendering of a possibly negative number: a minus sign in
/// front of the magnitude when `v` is negative.
pub open spec fn spec_dec_signed(v: int) -> Seq<char> {
    if v < 0 {
        seq!['-'] + spec_dec((-v) as nat)
    } else {
        spec_dec(v as nat)
    }
}

/// The digit character for `d`.
pub fn digit_char(d: u64) -> (c: char)
    requires
        d < 10,
    ensures
        c == spec_digit(d as int),
{
    match d {
        0 => '0',
        1 => '1',
        2 => '2',
        3 => '3',
        4 => '4',
        5 => '5',
        6 => '6',
        7 => '7',
        8 => '8',
        _ => '9',
    }
}

/// Appends one character to a `String`.
///
/// Relies on `String::push` from std: it appends exactly the given character.
#[verifier::external_body]
pub fn push_char(dest: &mut String, c: char)
    ensures
        final(dest)@ == old(dest)@.push(c),
{
    dest.push(c);
}

/// Asks the buffer to grow its capacity by at least `additional` bytes, so
/// that the appends that follow do not reallocate. A reservation is a hint:
/// the text is unchanged, and a refused reservation is ignored.
///
/// Relies on `String::try_reserve` from std: it only affects capacity, and
/// on failure the string is unchanged.
#[verifier::external_body]
pub fn reserve(dest: &mut String, additional: usize)
    ensures
        final(dest)@ == old(dest)@,
{
    let _ = dest.try_reserve(additional);
}

/// Appends the shortest decimal rendering of `n`.
pub fn push_dec_u64(dest: &mut String, n: u64)
    ensures
        final(dest)@ == old(dest)@ + spec_dec(n as nat),
    decreases n,
{
    if n >= 10 {
        push_dec_u64(dest, n / 10);
    }
    let c = digit_char(n % 10);
    push_char(dest, c);
    proof {
        assert(dest@ =~= old(dest)@ + spec_dec(n as nat));
    }
}

/// Appends the `width` last decimal digits of `n`, zero-padded.
pub fn push_dec_pad(dest: &mut String, n: u64, width: usize)
    ensures
        final(dest)@ == old(dest)@ + spec_dec_pad(n as nat, width as nat),
    decreases width,
{
    if width > 0 {
        push_dec_pad(dest, n / 10, width - 1);
        let c = digit_char(n % 10);
        push_char(dest, c);
    }
    proof {
        assert(dest@ =~= old(dest)@ + spec_dec_pad(n as nat, width as nat));
    }
}

/// Appends the decimal rendering of `v`, with a minus sign when negative.
pub fn push_dec_i64(dest: &mut String, v: i64)
    ensures
        final(dest)@ == old(dest)@ + spec_dec_signed(v as int),
{
    if v >= 0 {
        push_dec_u64(dest, v as u64);
    } else {
        push_char(dest, '-');
        let m: u64 = ((-(v + 1)) as u64) + 1;
        assert(m as nat == (-(v as int)) as nat);
        push_dec_u64(dest, m);
        assert(dest@ =~= old(dest)@ + spec_dec_signed(v as int));
    }
}

} // verus!
