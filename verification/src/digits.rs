//! Hexadecimal and decimal digit arithmetic shared by the address parser,
//! the `pci.ids` parser, the search query parser and the code emitter.

use vstd::prelude::*;

verus! {

/// Value of a hexadecimal digit character; 16 for anything that is not one.
pub open spec fn hex_digit_val(c: char) -> int {
    if '0' as int <= c as int && c as int <= '9' as int {
        c as int - '0' as int
    } else if 'a' as int <= c as int && c as int <= 'f' as int {
        10 + c as int - 'a' as int
    } else if 'A' as int <= c as int && c as int <= 'F' as int {
        10 + c as int - 'A' as int
    } else {
        16
    }
}

pub open spec fn is_hex_digit_char(c: char) -> bool {
    hex_digit_val(c) < 16
}

pub open spec fn all_hex(s: Seq<char>) -> bool {
    forall|i: int| 0 <= i < s.len() ==> is_hex_digit_char(#[trigger] s[i])
}

/// Numeric value of a sequence of hexadecimal digits, most significant first.
pub open spec fn hex_seq_val(s: Seq<char>) -> int
    decreases s.len(),
{
    if s.len() == 0 {
        0
    } else {
        hex_seq_val(s.drop_last()) * 16 + hex_digit_val(s.last())
    }
}

/// 16 to the n-th power.
pub open spec fn pow16(n: int) -> int
    decreases n,
{
    if n <= 0 {
        1
    } else {
        16 * pow16(n - 1)
    }
}

pub proof fn lemma_hex_seq_val_bound(s: Seq<char>)
    requires
        all_hex(s),
    ensures
        0 <= hex_seq_val(s) < pow16(s.len() as int),
    decreases s.len(),
{
    if s.len() > 0 {
        assert(all_hex(s.drop_last())) by {
            assert(forall|i: int| 0 <= i < s.len() - 1 ==> s.drop_last()[i] == s[i]);
        }
        lemma_hex_seq_val_bound(s.drop_last());
        assert(is_hex_digit_char(s.last()));
    }
}

pub proof fn lemma_hex_seq_val_singleton(c: char)
    ensures
        hex_seq_val(seq![c]) == hex_digit_val(c),
{
    assert(seq![c].drop_last() =~= Seq::<char>::empty());
    assert(seq![c].last() == c);
    assert(hex_seq_val(Seq::<char>::empty()) == 0);
}

pub proof fn lemma_hex_seq_val_pair(c1: char, c2: char)
    ensures
        hex_seq_val(seq![c1, c2]) == hex_digit_val(c1) * 16 + hex_digit_val(c2),
{
    assert(seq![c1, c2].drop_last() =~= seq![c1]);
    assert(seq![c1, c2].last() == c2);
    lemma_hex_seq_val_singleton(c1);
}

pub proof fn lemma_hex_seq_val_triple(c1: char, c2: char, c3: char)
    ensures
        hex_seq_val(seq![c1, c2, c3]) == (hex_digit_val(c1) * 16 + hex_digit_val(c2)) * 16
            + hex_digit_val(c3),
{
    assert(seq![c1, c2, c3].drop_last() =~= seq![c1, c2]);
    assert(seq![c1, c2, c3].last() == c3);
    lemma_hex_seq_val_pair(c1, c2);
}

pub proof fn lemma_hex_seq_val_quad(c1: char, c2: char, c3: char, c4: char)
    ensures
        hex_seq_val(seq![c1, c2, c3, c4]) == ((hex_digit_val(c1) * 16 + hex_digit_val(c2)) * 16
            + hex_digit_val(c3)) * 16 + hex_digit_val(c4),
{
    assert(seq![c1, c2, c3, c4].drop_last() =~= seq![c1, c2, c3]);
    assert(seq![c1, c2, c3, c4].last() == c4);
    lemma_hex_seq_val_triple(c1, c2, c3);
}

/// Lowercase hexadecimal digit character for a value below 16.
pub open spec fn hex_digit_char(v: int) -> char {
    if v == 0 { '0' } else if v == 1 { '1' } else if v == 2 { '2' } else if v == 3 { '3' }
    else if v == 4 { '4' } else if v == 5 { '5' } else if v == 6 { '6' } else if v == 7 { '7' }
    else if v == 8 { '8' } else if v == 9 { '9' } else if v == 10 { 'a' } else if v == 11 { 'b' }
    else if v == 12 { 'c' } else if v == 13 { 'd' } else if v == 14 { 'e' } else { 'f' }
}

/// Uppercase hexadecimal digit character for a value below 16.
pub open spec fn hex_digit_char_upper(v: int) -> char {
    if v == 0 { '0' } else if v == 1 { '1' } else if v == 2 { '2' } else if v == 3 { '3' }
    else if v == 4 { '4' } else if v == 5 { '5' } else if v == 6 { '6' } else if v == 7 { '7' }
    else if v == 8 { '8' } else if v == 9 { '9' } else if v == 10 { 'A' } else if v == 11 { 'B' }
    else if v == 12 { 'C' } else if v == 13 { 'D' } else if v == 14 { 'E' } else { 'F' }
}

pub proof fn lemma_hex_digit_char_val(v: int)
    requires
        0 <= v < 16,
    ensures
        hex_digit_val(hex_digit_char(v)) == v,
        is_hex_digit_char(hex_digit_char(v)),
{
}

pub fn hex_digit_value(c: char) -> (r: Option<u8>)
    ensures
        match r {
            Some(v) => is_hex_digit_char(c) && v as int == hex_digit_val(c),
            None => !is_hex_digit_char(c),
        },
{
    let u = c as u32;
    if u >= '0' as u32 && u <= '9' as u32 {
        Some((u - '0' as u32) as u8)
    } else if u >= 'a' as u32 && u <= 'f' as u32 {
        Some((u - 'a' as u32 + 10) as u8)
    } else if u >= 'A' as u32 && u <= 'F' as u32 {
        Some((u - 'A' as u32 + 10) as u8)
    } else {
        None
    }
}

pub fn hex_digit_to_char(v: u8) -> (c: char)
    requires
        v < 16,
    ensures
        c == hex_digit_char(v as int),
{
    match v {
        0 => '0', 1 => '1', 2 => '2', 3 => '3', 4 => '4', 5 => '5', 6 => '6', 7 => '7',
        8 => '8', 9 => '9', 10 => 'a', 11 => 'b', 12 => 'c', 13 => 'd', 14 => 'e', _ => 'f',
    }
}

pub fn hex_digit_to_char_upper(v: u8) -> (c: char)
    requires
        v < 16,
    ensures
        c == hex_digit_char_upper(v as int),
{
    match v {
        0 => '0', 1 => '1', 2 => '2', 3 => '3', 4 => '4', 5 => '5', 6 => '6', 7 => '7',
        8 => '8', 9 => '9', 10 => 'A', 11 => 'B', 12 => 'C', 13 => 'D', 14 => 'E', _ => 'F',
    }
}

/// Value of a decimal digit character; 10 for anything that is not one.
pub open spec fn dec_digit_val(c: char) -> int {
    if '0' as int <= c as int && c as int <= '9' as int {
        c as int - '0' as int
    } else {
        10
    }
}

pub open spec fn is_dec_digit_char(c: char) -> bool {
    dec_digit_val(c) < 10
}

pub open spec fn all_dec(s: Seq<char>) -> bool {
    forall|i: int| 0 <= i < s.len() ==> is_dec_digit_char(#[trigger] s[i])
}

/// Numeric value of a sequence of decimal digits, most significant first.
pub open spec fn dec_seq_val(s: Seq<char>) -> int
    decreases s.len(),
{
    if s.len() == 0 {
        0
    } else {
        dec_seq_val(s.drop_last()) * 10 + dec_digit_val(s.last())
    }
}

pub proof fn lemma_dec_seq_val_nonneg(s: Seq<char>)
    requires
        all_dec(s),
    ensures
        0 <= dec_seq_val(s),
    decreases s.len(),
{
    if s.len() > 0 {
        assert(all_dec(s.drop_last())) by {
            assert(forall|i: int| 0 <= i < s.len() - 1 ==> s.drop_last()[i] == s[i]);
        }
        lemma_dec_seq_val_nonneg(s.drop_last());
    }
}

/// A prefix of a decimal digit string never exceeds the whole string's value.
pub proof fn lemma_dec_seq_val_prefix(s: Seq<char>, n: int)
    requires
        all_dec(s),
        0 <= n <= s.len(),
    ensures
        dec_seq_val(s.take(n)) <= dec_seq_val(s),
    decreases s.len() - n,
{
    if n < s.len() {
        lemma_dec_seq_val_prefix(s, n + 1);
        assert(s.take(n + 1).drop_last() =~= s.take(n));
        assert(s.take(n + 1).last() == s[n]);
        assert(all_dec(s.take(n))) by {
            assert(forall|i: int| 0 <= i < n ==> s.take(n)[i] == s[i]);
        }
        lemma_dec_seq_val_nonneg(s.take(n));
        assert(is_dec_digit_char(s[n]));
    } else {
        assert(s.take(n) =~= s);
    }
}

/// Grammar of the decimal integer tokens accepted by `str::parse` on an
/// unsigned type: an optional leading `+`, then one or more digits.
pub open spec fn dec_token_digits(s: Seq<char>) -> Seq<char> {
    if s.len() > 0 && s[0] == '+' {
        s.skip(1)
    } else {
        s
    }
}

pub open spec fn is_dec_token(s: Seq<char>) -> bool {
    dec_token_digits(s).len() > 0 && all_dec(dec_token_digits(s))
}

/// Decimal parse in the shape of `str::parse::<u32>`: an optional `+` sign,
/// one or more digits, and a value that fits the target width.
pub fn parse_dec_u32(s: &str) -> (r: Option<u32>)
    ensures
        match r {
            Some(v) => is_dec_token(s@) && v as int == dec_seq_val(dec_token_digits(s@)),
            None => !(is_dec_token(s@) && dec_seq_val(dec_token_digits(s@)) <= u32::MAX),
        },
{
    let n = s.unicode_len();
    let mut i: usize = 0;
    if n > 0 && s.get_char(0) == '+' {
        i = 1;
    }
    let ghost digits = dec_token_digits(s@);
    assert(digits =~= s@.skip(i as int));
    if i >= n {
        return None;
    }
    let start = i;
    let mut v: u64 = 0;
    while i < n
        invariant
            start <= i <= n,
            n == s@.len(),
            start <= 1,
            digits == s@.skip(start as int),
            digits == dec_token_digits(s@),
            all_dec(s@.subrange(start as int, i as int)),
            v as int == dec_seq_val(s@.subrange(start as int, i as int)),
            v <= u32::MAX,
        decreases n - i,
    {
        let c = s.get_char(i);
        let d = match hex_digit_value(c) {
            Some(d) if d < 10 => d,
            _ => {
                assert(!is_dec_digit_char(s@[i as int]));
                assert(!all_dec(digits)) by {
                    assert(digits[i - start] == s@[i as int]);
                }
                return None;
            },
        };
        assert(is_dec_digit_char(s@[i as int]) && d as int == dec_digit_val(s@[i as int]));
        v = v * 10 + d as u64;
        assert(s@.subrange(start as int, i + 1).drop_last() =~= s@.subrange(
            start as int,
            i as int,
        ));
        assert(s@.subrange(start as int, i + 1).last() == s@[i as int]);
        i = i + 1;
        if v > u32::MAX as u64 {
            assert(s@.subrange(start as int, i as int) =~= digits.take(i - start));
            proof {
                if all_dec(digits) {
                    lemma_dec_seq_val_prefix(digits, i - start);
                }
            }
            return None;
        }
    }
    assert(s@.subrange(start as int, n as int) =~= digits);
    Some(v as u32)
}


/// A prefix of a hexadecimal digit string never exceeds the whole string's
/// value.
pub proof fn lemma_hex_seq_val_prefix(s: Seq<char>, n: int)
    requires
        all_hex(s),
        0 <= n <= s.len(),
    ensures
        0 <= hex_seq_val(s.take(n)) <= hex_seq_val(s),
    decreases s.len() - n,
{
    assert(all_hex(s.take(n))) by {
        assert(forall|i: int| 0 <= i < n ==> s.take(n)[i] == s[i]);
    }
    lemma_hex_seq_val_bound(s.take(n));
    if n < s.len() {
        lemma_hex_seq_val_prefix(s, n + 1);
        assert(s.take(n + 1).drop_last() =~= s.take(n));
        assert(s.take(n + 1).last() == s[n]);
        assert(is_hex_digit_char(s[n]));
    } else {
        assert(s.take(n) =~= s);
    }
}

/// Grammar of the tokens accepted by `from_str_radix` on an unsigned type
/// with radix 16: an optional leading `+`, then one or more hexadecimal
/// digits.
pub open spec fn hex_token_digits(s: Seq<char>) -> Seq<char> {
    if s.len() > 0 && s[0] == '+' {
        s.skip(1)
    } else {
        s
    }
}

pub open spec fn is_hex_radix_token(s: Seq<char>) -> bool {
    hex_token_digits(s).len() > 0 && all_hex(hex_token_digits(s))
}

/// Hexadecimal parse in the shape of `u16::from_str_radix(s, 16)`: an
/// optional `+` sign, one or more hexadecimal digits, and a value that
/// fits the target width.
pub fn parse_hex_radix_u16(s: &str) -> (r: Option<u16>)
    ensures
        match r {
            Some(v) => is_hex_radix_token(s@) && v as int == hex_seq_val(hex_token_digits(s@)),
            None => !(is_hex_radix_token(s@) && hex_seq_val(hex_token_digits(s@)) <= u16::MAX),
        },
{
    let n = s.unicode_len();
    let mut i: usize = 0;
    if n > 0 && s.get_char(0) == '+' {
        i = 1;
    }
    let ghost digits = hex_token_digits(s@);
    assert(digits =~= s@.skip(i as int));
    if i >= n {
        return None;
    }
    let start = i;
    let mut v: u32 = 0;
    while i < n
        invariant
            start <= i <= n,
            n == s@.len(),
            start <= 1,
            digits == s@.skip(start as int),
            digits == hex_token_digits(s@),
            all_hex(s@.subrange(start as int, i as int)),
            v as int == hex_seq_val(s@.subrange(start as int, i as int)),
            v <= u16::MAX,
        decreases n - i,
    {
        let c = s.get_char(i);
        let d = match hex_digit_value(c) {
            Some(d) => d,
            None => {
                assert(!is_hex_digit_char(s@[i as int]));
                assert(!all_hex(digits)) by {
                    assert(digits[i - start] == s@[i as int]);
                }
                return None;
            },
        };
        v = v * 16 + d as u32;
        assert(s@.subrange(start as int, i + 1).drop_last() =~= s@.subrange(
            start as int,
            i as int,
        ));
        assert(s@.subrange(start as int, i + 1).last() == s@[i as int]);
        i = i + 1;
        if v > u16::MAX as u32 {
            assert(s@.subrange(start as int, i as int) =~= digits.take(i - start));
            proof {
                if all_hex(digits) {
                    lemma_hex_seq_val_prefix(digits, i - start);
                }
            }
            return None;
        }
    }
    assert(s@.subrange(start as int, n as int) =~= digits);
    Some(v as u16)
}


} // verus!
