//! Verified text primitives for the line-oriented protocol: numeric parsing
//! in decimal and hexadecimal, rendering of integers as digit strings,
//! splitting on a separator character, and string comparison.

use vstd::prelude::*;

verus! {

// ------------------------------------------------------------------
// Digits
// ------------------------------------------------------------------

/// Whether `c` is a digit of the given radix (10 or 16); hexadecimal
/// accepts both lower- and upper-case letters.
pub open spec fn is_digit(c: char, radix: u32) -> bool {
    let v = c as u32;
    (48 <= v <= 57) || (radix == 16 && (97 <= v <= 102 || 65 <= v <= 70))
}

/// The numeric value of a digit character (0 when `c` is no digit).
pub open spec fn digit_value(c: char, radix: u32) -> u32 {
    let v = c as u32;
    if 48 <= v <= 57 {
        (v - 48) as u32
    } else if radix == 16 && 97 <= v <= 102 {
        (v - 87) as u32
    } else if radix == 16 && 65 <= v <= 70 {
        (v - 55) as u32
    } else {
        0
    }
}

/// Whether every character of `s` is a digit of the given radix.
pub open spec fn is_digit_seq(s: Seq<char>, radix: u32) -> bool {
    forall|i: int| 0 <= i < s.len() ==> is_digit(s[i], radix)
}

/// The numeric value of a digit string, most significant digit first.
/// Non-digit characters count as zero; callers pair this with
/// `is_digit_seq`.
pub open spec fn seq_value(s: Seq<char>, radix: u32) -> nat
    decreases s.len(),
{
    if s.len() == 0 {
        0
    } else {
        seq_value(s.drop_last(), radix) * (radix as nat) + (digit_value(s.last(), radix) as nat)
    }
}

/// A longer digit-string prefix never has a smaller value.
proof fn lemma_seq_value_prefix_le(s: Seq<char>, radix: u32, j: int)
    requires
        1 <= radix,
        0 <= j <= s.len(),
    ensures
        seq_value(s.take(j), radix) <= seq_value(s, radix),
    decreases s.len() - j,
{
    if j == s.len() {
        assert(s.take(j) =~= s);
    } else {
        lemma_seq_value_prefix_le(s, radix, j + 1);
        let t = s.take(j + 1);
        assert(t.drop_last() =~= s.take(j));
        let x = seq_value(s.take(j), radix);
        assert(x * (radix as nat) >= x) by (nonlinear_arith)
            requires
                radix >= 1,
        ;
    }
}

// ------------------------------------------------------------------
// Parsing
// ------------------------------------------------------------------

/// The digit part of an unsigned integer literal: at most one leading
/// `+` sign is stripped.
pub open spec fn unsigned_digits(s: Seq<char>) -> Seq<char> {
    if s.len() > 0 && s[0] == '+' {
        s.drop_first()
    } else {
        s
    }
}

/// The digit part of a signed integer literal: at most one leading
/// `+` or `-` sign is stripped.
pub open spec fn signed_digits(s: Seq<char>) -> Seq<char> {
    if s.len() > 0 && (s[0] == '+' || s[0] == '-') {
        s.drop_first()
    } else {
        s
    }
}

/// Whether a signed integer literal carries a minus sign.
pub open spec fn has_minus_sign(s: Seq<char>) -> bool {
    s.len() > 0 && s[0] == '-'
}

/// What parsing an unsigned 32-bit integer from `s` in the given radix
/// yields: the value of the digits after an optional `+` sign, or
/// nothing when a character is no digit, no digit is present, or the
/// value exceeds `u32::MAX`.
pub open spec fn spec_parse_u32(s: Seq<char>, radix: u32) -> Option<u32> {
    let t = unsigned_digits(s);
    if t.len() > 0 && is_digit_seq(t, radix) && seq_value(t, radix) <= u32::MAX {
        Some(seq_value(t, radix) as u32)
    } else {
        None
    }
}

/// What parsing a signed 32-bit integer from `s` in the given radix
/// yields: the digits after an optional sign give the magnitude, which
/// must fit the asymmetric range of `i32`.
pub open spec fn spec_parse_i32(s: Seq<char>, radix: u32) -> Option<i32> {
    let t = signed_digits(s);
    if t.len() > 0 && is_digit_seq(t, radix) {
        let v = seq_value(t, radix);
        if has_minus_sign(s) {
            if v <= 0x8000_0000 {
                Some((-(v as int)) as i32)
            } else {
                None
            }
        } else {
            if v <= 0x7fff_ffff {
                Some(v as i32)
            } else {
                None
            }
        }
    } else {
        None
    }
}

/// Parses the digit run `s[from..]` as an unsigned 32-bit value.
fn parse_digits(s: &str, from: usize, radix: u32) -> (r: Option<u32>)
    requires
        radix == 10 || radix == 16,
        from <= s@.len(),
    ensures
        ({
            let t = s@.skip(from as int);
            &&& r is Some <==> t.len() > 0 && is_digit_seq(t, radix) && seq_value(t, radix)
                <= u32::MAX
            &&& (r matches Some(v) ==> v == seq_value(t, radix))
        }),
{
    let ghost t = s@.skip(from as int);
    let n = s.unicode_len();
    if from >= n {
        return None;
    }
    let mut i: usize = from;
    let mut acc: u32 = 0;
    while i < n
        invariant
            from <= i <= n == s@.len(),
            radix == 10 || radix == 16,
            t == s@.skip(from as int),
            is_digit_seq(t.take(i - from), radix),
            acc == seq_value(t.take(i - from), radix),
        decreases n - i,
    {
        let c = s.get_char(i);
        let v = c as u32;
        let d: u32 = if 48 <= v && v <= 57 {
            v - 48
        } else if radix == 16 && 97 <= v && v <= 102 {
            v - 87
        } else if radix == 16 && 65 <= v && v <= 70 {
            v - 55
        } else {
            proof {
                assert(t[i - from] == s@[i as int]);
                assert(!is_digit(t[i - from], radix));
            }
            return None;
        };
        proof {
            assert(t[i - from] == s@[i as int]);
            assert(is_digit(t[i - from], radix));
            assert(d == digit_value(t[i - from], radix));
        }
        let ghost k = i - from;
        if acc > (u32::MAX - d) / radix {
            proof {
                assert(t.take(k + 1).drop_last() =~= t.take(k));
                assert(t.take(k + 1).last() == t[k]);
                assert(seq_value(t.take(k + 1), radix) == acc * radix + d);
                assert(acc * radix + d > u32::MAX) by (nonlinear_arith)
                    requires
                        acc as int > (u32::MAX - d) as int / (radix as int),
                        radix == 10 || radix == 16,
                        d < radix,
                        acc <= u32::MAX,
                ;
                lemma_seq_value_prefix_le(t, radix, k + 1);
            }
            return None;
        }
        proof {
            assert(acc * radix + d <= u32::MAX) by (nonlinear_arith)
                requires
                    acc as int <= (u32::MAX - d) as int / (radix as int),
                    radix == 10 || radix == 16,
                    d < radix,
            ;
            assert(t.take(k + 1).drop_last() =~= t.take(k));
            assert(t.take(k + 1).last() == t[k]);
        }
        acc = acc * radix + d;
        i = i + 1;
    }
    proof {
        assert(t.take(n - from) =~= t);
    }
    Some(acc)
}

/// Parses an unsigned 32-bit integer, mirroring the standard library's
/// radix parsing: an optional leading `+`, then at least one digit of
/// the radix, rejecting values above `u32::MAX`.
pub fn parse_u32_radix(s: &str, radix: u32) -> (r: Option<u32>)
    requires
        radix == 10 || radix == 16,
    ensures
        r == spec_parse_u32(s@, radix),
{
    let n = s.unicode_len();
    let from: usize = if n > 0 && s.get_char(0) == '+' {
        1
    } else {
        0
    };
    proof {
        if from == 1 {
            assert(s@.skip(1) =~= s@.drop_first());
        } else {
            assert(s@.skip(0) =~= s@);
        }
    }
    parse_digits(s, from, radix)
}

/// Parses a signed 32-bit integer, mirroring the standard library's
/// radix parsing: an optional leading sign, then at least one digit;
/// the magnitude must fit the asymmetric range of `i32`.
pub fn parse_i32_radix(s: &str, radix: u32) -> (r: Option<i32>)
    requires
        radix == 10 || radix == 16,
    ensures
        r == spec_parse_i32(s@, radix),
{
    let n = s.unicode_len();
    let mut negative = false;
    let mut from: usize = 0;
    if n > 0 {
        let c = s.get_char(0);
        if c == '-' {
            negative = true;
            from = 1;
        } else if c == '+' {
            from = 1;
        }
    }
    proof {
        if from == 1 {
            assert(s@.skip(1) =~= s@.drop_first());
        } else {
            assert(s@.skip(0) =~= s@);
        }
    }
    let mag = parse_digits(s, from, radix);
    let ghost t = signed_digits(s@);
    let ghost v = seq_value(t, radix);
    match mag {
        None => {
            proof {
                if t.len() > 0 && is_digit_seq(t, radix) {
                    assert(v > u32::MAX);
                }
            }
            None
        },
        Some(m) => {
            if negative {
                if m > 0x8000_0000 {
                    None
                } else if m == 0x8000_0000 {
                    Some(i32::MIN)
                } else {
                    Some(-(m as i32))
                }
            } else {
                if m > 0x7fff_ffff {
                    None
                } else {
                    Some(m as i32)
                }
            }
        },
    }
}

// ------------------------------------------------------------------
// Rendering
// ------------------------------------------------------------------

/// The character for one digit value (lower-case letters above 9).
pub open spec fn spec_digit_char(d: u32) -> char {
    if d == 0 {
        '0'
    } else if d == 1 {
        '1'
    } else if d == 2 {
        '2'
    } else if d == 3 {
        '3'
    } else if d == 4 {
        '4'
    } else if d == 5 {
        '5'
    } else if d == 6 {
        '6'
    } else if d == 7 {
        '7'
    } else if d == 8 {
        '8'
    } else if d == 9 {
        '9'
    } else if d == 10 {
        'a'
    } else if d == 11 {
        'b'
    } else if d == 12 {
        'c'
    } else if d == 13 {
        'd'
    } else if d == 14 {
        'e'
    } else {
        'f'
    }
}

/// The decimal rendering of a number, most significant digit first,
/// without sign or leading zeros (zero renders as one `0`).
pub open spec fn dec_digits(n: nat) -> Seq<char>
    decreases n,
{
    if n < 10 {
        seq![spec_digit_char(n as u32)]
    } else {
        dec_digits(n / 10) + seq![spec_digit_char((n % 10) as u32)]
    }
}

/// The hexadecimal rendering of a number, lower-case, most significant
/// digit first, without prefix or leading zeros.
pub open spec fn hex_digits(n: nat) -> Seq<char>
    decreases n,
{
    if n < 16 {
        seq![spec_digit_char(n as u32)]
    } else {
        hex_digits(n / 16) + seq![spec_digit_char((n % 16) as u32)]
    }
}

/// Appends the character for one digit value.
fn push_digit(s: &mut String, d: u32)
    requires
        d < 16,
    ensures
        final(s)@ == old(s)@.push(spec_digit_char(d)),
{
    proof {
        reveal_strlit("0");
        reveal_strlit("1");
        reveal_strlit("2");
        reveal_strlit("3");
        reveal_strlit("4");
        reveal_strlit("5");
        reveal_strlit("6");
        reveal_strlit("7");
        reveal_strlit("8");
        reveal_strlit("9");
        reveal_strlit("a");
        reveal_strlit("b");
        reveal_strlit("c");
        reveal_strlit("d");
        reveal_strlit("e");
        reveal_strlit("f");
    }
    let piece: &str = if d == 0 {
        "0"
    } else if d == 1 {
        "1"
    } else if d == 2 {
        "2"
    } else if d == 3 {
        "3"
    } else if d == 4 {
        "4"
    } else if d == 5 {
        "5"
    } else if d == 6 {
        "6"
    } else if d == 7 {
        "7"
    } else if d == 8 {
        "8"
    } else if d == 9 {
        "9"
    } else if d == 10 {
        "a"
    } else if d == 11 {
        "b"
    } else if d == 12 {
        "c"
    } else if d == 13 {
        "d"
    } else if d == 14 {
        "e"
    } else {
        "f"
    };
    s.append(piece);
    proof {
        assert(final(s)@ =~= old(s)@.push(spec_digit_char(d)));
    }
}

/// Appends the decimal rendering of `n`.
pub fn push_dec_u32(s: &mut String, n: u32)
    ensures
        final(s)@ == old(s)@ + dec_digits(n as nat),
    decreases n,
{
    if n >= 10 {
        push_dec_u32(s, n / 10);
    }
    push_digit(s, n % 10);
    proof {
        assert(final(s)@ =~= old(s)@ + dec_digits(n as nat));
    }
}

/// Renders a number in decimal, as the standard formatter would.
pub fn u32_to_dec(n: u32) -> (s: String)
    ensures
        s@ == dec_digits(n as nat),
{
    let mut s = String::new();
    push_dec_u32(&mut s, n);
    proof {
        assert(s@ =~= dec_digits(n as nat));
    }
    s
}

/// Appends the hexadecimal rendering of `n`.
fn push_hex_u64(s: &mut String, n: u64)
    ensures
        final(s)@ == old(s)@ + hex_digits(n as nat),
    decreases n,
{
    if n >= 16 {
        push_hex_u64(s, n / 16);
    }
    push_digit(s, (n % 16) as u32);
    proof {
        assert(final(s)@ =~= old(s)@ + hex_digits(n as nat));
    }
}

/// Renders a number in lower-case hexadecimal with a `0x` prefix.
pub fn u64_to_hex_prefixed(n: u64) -> (s: String)
    ensures
        s@ == "0x"@ + hex_digits(n as nat),
{
    let mut s = String::new();
    s.append("0x");
    push_hex_u64(&mut s, n);
    proof {
        assert(s@ =~= "0x"@ + hex_digits(n as nat));
    }
    s
}

// ------------------------------------------------------------------
// Comparison and splitting
// ------------------------------------------------------------------

/// Character-wise string equality.
pub fn str_eq(a: &str, b: &str) -> (r: bool)
    ensures
        r <==> a@ == b@,
{
    let n = a.unicode_len();
    if n != b.unicode_len() {
        return false;
    }
    let mut i: usize = 0;
    while i < n
        invariant
            0 <= i <= n == a@.len() == b@.len(),
            forall|j: int| 0 <= j < i ==> a@[j] == b@[j],
        decreases n - i,
    {
        if a.get_char(i) != b.get_char(i) {
            return false;
        }
        i = i + 1;
    }
    proof {
        assert(a@ =~= b@);
    }
    true
}

/// The views of a sequence of owned strings.
pub open spec fn strings_view(v: Seq<String>) -> Seq<Seq<char>> {
    Seq::new(v.len(), |i: int| v[i]@)
}

/// What splitting on a separator yields: the (possibly empty) runs of
/// characters between separator occurrences, in order.  An empty input
/// yields one empty piece, and `n` separators yield `n + 1` pieces.
pub open spec fn spec_split(s: Seq<char>, sep: char) -> Seq<Seq<char>>
    decreases s.len(),
{
    if s.len() == 0 {
        seq![Seq::<char>::empty()]
    } else if s[0] == sep {
        seq![Seq::<char>::empty()] + spec_split(s.drop_first(), sep)
    } else {
        let rest = spec_split(s.drop_first(), sep);
        rest.update(0, seq![s[0]] + rest[0])
    }
}

/// Splitting yields at least one piece.
pub proof fn lemma_split_len(s: Seq<char>, sep: char)
    ensures
        spec_split(s, sep).len() >= 1,
    decreases s.len(),
{
    if s.len() > 0 {
        lemma_split_len(s.drop_first(), sep);
    }
}

/// A separator-free string splits into itself alone.
pub proof fn lemma_split_no_sep(s: Seq<char>, sep: char)
    requires
        forall|i: int| 0 <= i < s.len() ==> s[i] != sep,
    ensures
        spec_split(s, sep) == seq![s],
    decreases s.len(),
{
    if s.len() == 0 {
        assert(spec_split(s, sep) =~~= seq![s]);
    } else {
        lemma_split_no_sep(s.drop_first(), sep);
        let rest = spec_split(s.drop_first(), sep);
        assert(rest == seq![s.drop_first()]);
        assert(seq![s[0]] + s.drop_first() =~= s);
        assert(rest.update(0, seq![s[0]] + rest[0]) =~~= seq![s]);
    }
}

/// Splitting at the first separator occurrence: the piece before it,
/// then the split of everything after it.
pub proof fn lemma_split_at_sep(s: Seq<char>, sep: char, k: int)
    requires
        0 <= k < s.len(),
        s[k] == sep,
        forall|i: int| 0 <= i < k ==> s[i] != sep,
    ensures
        spec_split(s, sep) == seq![s.take(k)] + spec_split(s.skip(k + 1), sep),
    decreases k,
{
    if k == 0 {
        assert(s.take(0) =~= Seq::<char>::empty());
        assert(s.skip(1) =~= s.drop_first());
        assert(spec_split(s, sep) =~~= seq![s.take(0)] + spec_split(s.skip(1), sep));
    } else {
        let d = s.drop_first();
        assert(d[k - 1] == sep);
        assert(forall|i: int| 0 <= i < k - 1 ==> d[i] != sep);
        lemma_split_at_sep(d, sep, k - 1);
        lemma_split_len(d.skip(k), sep);
        assert(d.take(k - 1) =~= s.take(k).drop_first());
        assert(d.skip(k) =~= s.skip(k + 1));
        let rest = spec_split(d, sep);
        assert(rest[0] == s.take(k).drop_first());
        assert(seq![s[0]] + rest[0] =~= s.take(k));
        assert(rest.update(0, seq![s[0]] + rest[0]) =~~= seq![s.take(k)] + spec_split(
            s.skip(k + 1),
            sep,
        ));
    }
}

/// Splits a string on a separator character, keeping empty pieces.
pub fn split_str(s: &str, sep: char) -> (r: Vec<String>)
    ensures
        strings_view(r@) == spec_split(s@, sep),
{
    let n = s.unicode_len();
    let mut out: Vec<String> = Vec::new();
    let mut start: usize = 0;
    let mut i: usize = 0;
    proof {
        assert(s@.skip(0) =~= s@);
        assert(strings_view(out@) + spec_split(s@, sep) =~= spec_split(s@, sep));
    }
    while i < n
        invariant
            0 <= start <= i <= n == s@.len(),
            forall|j: int| start <= j < i ==> s@[j] != sep,
            spec_split(s@, sep) == strings_view(out@) + spec_split(s@.skip(start as int), sep),
        decreases n - i,
    {
        if s.get_char(i) == sep {
            let piece = s.substring_char(start, i);
            let owned = piece.to_owned();
            proof {
                let tail = s@.skip(start as int);
                assert(tail[i - start] == s@[i as int]);
                assert(forall|j: int| 0 <= j < i - start ==> tail[j] == s@[j + start]);
                lemma_split_at_sep(tail, sep, i - start);
                assert(tail.take(i - start) =~= s@.subrange(start as int, i as int));
                assert(tail.skip(i - start + 1) =~= s@.skip(i + 1));
            }
            let ghost old_out = out@;
            out.push(owned);
            proof {
                assert(strings_view(out@) =~= strings_view(old_out) + seq![
                    s@.subrange(start as int, i as int),
                ]);
                assert(strings_view(old_out) + seq![s@.subrange(start as int, i as int)]
                    + spec_split(s@.skip(i + 1), sep) =~= strings_view(out@) + spec_split(
                    s@.skip(i + 1),
                    sep,
                ));
            }
            start = i + 1;
        }
        i = i + 1;
    }
    let piece = s.substring_char(start, n);
    let owned = piece.to_owned();
    proof {
        let tail = s@.skip(start as int);
        assert(forall|j: int| 0 <= j < tail.len() ==> tail[j] == s@[j + start]);
        lemma_split_no_sep(tail, sep);
        assert(tail =~= s@.subrange(start as int, n as int));
    }
    let ghost old_out = out@;
    out.push(owned);
    proof {
        assert(strings_view(out@) =~= strings_view(old_out) + seq![
            s@.subrange(start as int, n as int),
        ]);
        assert(spec_split(s@, sep) =~= strings_view(out@));
    }
    out
}

} // verus!
