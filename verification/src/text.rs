//! Fixed-point decimal text. A value is a signed count of tenths. It is
//! written as a minus sign where it is negative, the whole part, and a
//! point with one digit where that digit is not zero. It is read from a
//! sign, a whole part and a point with at most one digit, of which the sign,
//! the point and either side of the point may be missing.

use vstd::prelude::*;
use vstd::string::StringSliceAdditionalSpecFns;

verus! {

/// Largest whole part that a field may carry.
pub const MAX_WHOLE: u32 = 9_999_999;

pub open spec fn is_digit(b: u8) -> bool {
    48 <= b && b <= 57
}

pub open spec fn all_digits(s: Seq<u8>) -> bool {
    forall|i: int| 0 <= i < s.len() ==> is_digit(#[trigger] s[i])
}

/// The number that a run of decimal digits writes.
pub open spec fn digits_value(s: Seq<u8>) -> nat
    decreases s.len(),
{
    if s.len() == 0 {
        0
    } else {
        digits_value(s.drop_last()) * 10 + (s.last() - 48) as nat
    }
}

/// A whole part: one digit or more, worth at most `MAX_WHOLE`.
pub open spec fn whole_value(s: Seq<u8>) -> Option<nat> {
    if s.len() >= 1 && all_digits(s) && digits_value(s) <= MAX_WHOLE {
        Some(digits_value(s))
    } else {
        None
    }
}

/// Tenths written without a sign: a whole part, which a point may
/// follow; or a point and one digit, which a whole part may precede.
pub open spec fn magnitude(s: Seq<u8>) -> Option<nat> {
    if s.len() >= 2 && s[s.len() - 2] == 46 {
        if !is_digit(s.last()) {
            None
        } else if s.len() == 2 {
            Some((s.last() - 48) as nat)
        } else {
            match whole_value(s.take(s.len() - 2)) {
                Some(w) => Some(w * 10 + (s.last() - 48) as nat),
                None => None,
            }
        }
    } else if s.len() >= 2 && s.last() == 46 {
        match whole_value(s.drop_last()) {
            Some(w) => Some(w * 10),
            None => None,
        }
    } else {
        match whole_value(s) {
            Some(w) => Some(w * 10),
            None => None,
        }
    }
}

/// Tenths written as a decimal field: `-` or `+` may stand in front.
pub open spec fn deci_value(s: Seq<u8>) -> Option<int> {
    if s.len() >= 1 && s[0] == 45 {
        match magnitude(s.drop_first()) {
            Some(m) => Some(-(m as int)),
            None => None,
        }
    } else if s.len() >= 1 && s[0] == 43 {
        match magnitude(s.drop_first()) {
            Some(m) => Some(m as int),
            None => None,
        }
    } else {
        match magnitude(s) {
            Some(m) => Some(m as int),
            None => None,
        }
    }
}

/// The decimal digits of `n`, most significant first, without leading
/// zeros.
pub open spec fn digit_text(n: nat) -> Seq<u8>
    decreases n,
{
    if n < 10 {
        seq![(48 + n) as u8]
    } else {
        digit_text(n / 10).push((48 + n % 10) as u8)
    }
}

/// The point and the fractional digit of `m` tenths; nothing where that
/// digit is zero.
pub open spec fn fraction_text(m: nat) -> Seq<u8> {
    if m % 10 == 0 {
        Seq::<u8>::empty()
    } else {
        seq![46u8, (48 + m % 10) as u8]
    }
}

/// The text of `m` tenths, which has no sign.
pub open spec fn magnitude_text(m: nat) -> Seq<u8> {
    digit_text(m / 10) + fraction_text(m)
}

/// The text of `v` tenths: `255` reads `25.5`, `250` reads `25`, `-5` reads
/// `-0.5`.
pub open spec fn deci_text(v: int) -> Seq<u8> {
    if v < 0 {
        seq![45u8] + magnitude_text((-v) as nat)
    } else {
        magnitude_text(v as nat)
    }
}

/// The first `width` bytes of `s`, or all of it where it is shorter.
pub open spec fn clipped(s: Seq<u8>, width: nat) -> Seq<u8> {
    if s.len() <= width {
        s
    } else {
        s.take(width as int)
    }
}

/// A prefix of a digit run is worth no more than the run.
pub proof fn prefix_value_bound(s: Seq<u8>, i: int)
    requires
        0 <= i <= s.len(),
    ensures
        digits_value(s.take(i)) <= digits_value(s),
    decreases s.len() - i,
{
    if i < s.len() {
        prefix_value_bound(s, i + 1);
        assert(s.take(i + 1).drop_last() =~= s.take(i));
    } else {
        assert(s.take(i) =~= s);
    }
}

/// The digits written for a number are digits, at least one, and are worth
/// that number.
pub proof fn digit_text_is_read_back(n: nat)
    ensures
        digit_text(n).len() >= 1,
        all_digits(digit_text(n)),
        digits_value(digit_text(n)) == n,
    decreases n,
{
    let s = digit_text(n);
    if n < 10 {
        assert(s.drop_last() =~= Seq::<u8>::empty());
        assert(digits_value(s.drop_last()) == 0);
    } else {
        digit_text_is_read_back(n / 10);
        let front = digit_text(n / 10);
        assert(s.drop_last() =~= front);
        assert forall|i: int| 0 <= i < s.len() implies is_digit(#[trigger] s[i]) by {
            if i < front.len() {
                assert(s[i] == front[i]);
            }
        }
    }
}

/// Tenths written without a sign are read back as they were.
pub proof fn magnitude_text_is_read_back(m: nat)
    requires
        m <= MAX_WHOLE * 10 + 9,
    ensures
        magnitude(magnitude_text(m)) == Some(m),
        magnitude_text(m).len() >= 1,
        is_digit(magnitude_text(m)[0]),
{
    let whole = digit_text(m / 10);
    let s = magnitude_text(m);
    digit_text_is_read_back(m / 10);
    assert(s[0] == whole[0]);
    if m % 10 == 0 {
        assert(s =~= whole);
    } else {
        assert(s[s.len() - 2] == 46);
        assert(s.take(s.len() - 2) =~= whole);
    }
}

/// A value written as text is read back as the same value, whatever
/// its sign, as far as its whole part is one that a field may carry.
pub proof fn written_text_is_read_back(v: int)
    requires
        -(MAX_WHOLE * 10 + 9) <= v <= MAX_WHOLE * 10 + 9,
    ensures
        deci_value(deci_text(v)) == Some(v),
{
    if v < 0 {
        let m = (-v) as nat;
        magnitude_text_is_read_back(m);
        assert(deci_text(v).drop_first() =~= magnitude_text(m));
    } else {
        magnitude_text_is_read_back(v as nat);
    }
}

/// Appends `bytes` to `out`.
pub fn append_bytes(out: &mut Vec<u8>, bytes: &[u8])
    ensures
        final(out)@ == old(out)@ + bytes@,
{
    let mut i: usize = 0;
    while i < bytes.len()
        invariant
            i <= bytes.len(),
            out@ =~= old(out)@ + bytes@.take(i as int),
        decreases bytes.len() - i,
    {
        out.push(bytes[i]);
        i += 1;
    }
    assert(bytes@.take(i as int) =~= bytes@);
}

/// Appends the UTF-8 bytes of `text` to `out`.
pub fn append_str(out: &mut Vec<u8>, text: &str)
    ensures
        final(out)@ == old(out)@ + text.spec_bytes(),
{
    append_bytes(out, text.as_bytes());
}

fn emit_digits(out: &mut Vec<u8>, n: u32)
    ensures
        final(out)@ == old(out)@ + digit_text(n as nat),
    decreases n,
{
    if n >= 10 {
        emit_digits(out, n / 10);
    }
    out.push((48 + n % 10) as u8);
    assert(out@ =~= old(out)@ + digit_text(n as nat));
}

/// Appends the text of `v` tenths to `out`.
pub fn append_deci(out: &mut Vec<u8>, v: i32)
    ensures
        final(out)@ == old(out)@ + deci_text(v as int),
{
    let wide: i64 = v as i64;
    let m: u32 = if wide < 0 {
        (-wide) as u32
    } else {
        wide as u32
    };
    if v < 0 {
        out.push(45u8);
    }
    emit_digits(out, m / 10);
    if m % 10 != 0 {
        out.push(46u8);
        out.push((48 + m % 10) as u8);
    }
    assert(out@ =~= old(out)@ + deci_text(v as int));
}

/// The text of `v` tenths.
pub fn format_deci(v: i32) -> (r: Vec<u8>)
    ensures
        r@ == deci_text(v as int),
{
    let mut out: Vec<u8> = Vec::new();
    append_deci(&mut out, v);
    assert(out@ =~= deci_text(v as int));
    out
}

fn parse_whole(bytes: &[u8], from: usize, to: usize) -> (r: Option<u32>)
    requires
        from <= to <= bytes.len(),
    ensures
        match r {
            Some(w) => whole_value(bytes@.subrange(from as int, to as int)) == Some(w as nat),
            None => whole_value(bytes@.subrange(from as int, to as int)).is_none(),
        },
{
    let ghost s = bytes@.subrange(from as int, to as int);
    if from == to {
        return None;
    }
    let mut acc: u32 = 0;
    let mut i: usize = from;
    assert(s.take(0) =~= Seq::<u8>::empty());
    while i < to
        invariant
            from <= i <= to <= bytes.len(),
            s == bytes@.subrange(from as int, to as int),
            all_digits(s.take(i - from)),
            acc == digits_value(s.take(i - from)),
            acc <= MAX_WHOLE,
        decreases to - i,
    {
        let b = bytes[i];
        if b < 48 || b > 57 {
            assert(s[i - from] == b);
            return None;
        }
        let next: u32 = acc * 10 + (b - 48) as u32;
        proof {
            let grown = s.take(i - from + 1);
            assert(grown.drop_last() =~= s.take(i - from));
            assert(grown.last() == b);
            assert(next == digits_value(grown));
            assert forall|k: int| 0 <= k < grown.len() implies is_digit(#[trigger] grown[k]) by {
                if k < i - from {
                    assert(grown[k] == s.take(i - from)[k]);
                }
            }
        }
        if next > MAX_WHOLE {
            proof {
                prefix_value_bound(s, i - from + 1);
            }
            return None;
        }
        acc = next;
        i += 1;
    }
    assert(s.take(i - from) =~= s);
    Some(acc)
}

fn parse_magnitude(bytes: &[u8], from: usize, to: usize) -> (r: Option<u32>)
    requires
        from <= to <= bytes.len(),
    ensures
        match r {
            Some(m) => magnitude(bytes@.subrange(from as int, to as int)) == Some(m as nat),
            None => magnitude(bytes@.subrange(from as int, to as int)).is_none(),
        },
{
    let ghost s = bytes@.subrange(from as int, to as int);
    if to - from >= 2 {
        assert(s[s.len() - 2] == bytes@[to - 2]);
        assert(s.last() == bytes@[to - 1]);
    }
    if to - from >= 2 && bytes[to - 2] == 46 {
        let last = bytes[to - 1];
        if last < 48 || last > 57 {
            None
        } else if to - from == 2 {
            Some((last - 48) as u32)
        } else {
            assert(s.take(s.len() - 2) =~= bytes@.subrange(from as int, to - 2));
            match parse_whole(bytes, from, to - 2) {
                Some(w) => Some(w * 10 + (last - 48) as u32),
                None => None,
            }
        }
    } else if to - from >= 2 && bytes[to - 1] == 46 {
        assert(s.drop_last() =~= bytes@.subrange(from as int, to - 1));
        match parse_whole(bytes, from, to - 1) {
            Some(w) => Some(w * 10),
            None => None,
        }
    } else {
        match parse_whole(bytes, from, to) {
            Some(w) => Some(w * 10),
            None => None,
        }
    }
}

/// Reads the decimal field `bytes[from..to]` as tenths.
pub fn parse_deci(bytes: &[u8], from: usize, to: usize) -> (r: Option<i32>)
    requires
        from <= to <= bytes.len(),
    ensures
        match r {
            Some(v) => deci_value(bytes@.subrange(from as int, to as int)) == Some(v as int),
            None => deci_value(bytes@.subrange(from as int, to as int)).is_none(),
        },
{
    let ghost s = bytes@.subrange(from as int, to as int);
    if from < to && (bytes[from] == 45 || bytes[from] == 43) {
        assert(s[0] == bytes@[from as int]);
        assert(s.drop_first() =~= bytes@.subrange(from + 1, to as int));
        let negative = bytes[from] == 45;
        match parse_magnitude(bytes, from + 1, to) {
            Some(m) => {
                if negative {
                    Some(-(m as i32))
                } else {
                    Some(m as i32)
                }
            },
            None => None,
        }
    } else {
        assert(from < to ==> s[0] == bytes@[from as int]);
        match parse_magnitude(bytes, from, to) {
            Some(m) => Some(m as i32),
            None => None,
        }
    }
}

} // verus!
