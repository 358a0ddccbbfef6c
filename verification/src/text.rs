//! Decimal and hexadecimal renderings of numbers and bytes.
use vstd::prelude::*;

verus! {

/// The ASCII character of the decimal digit `d` (for `0 <= d < 10`).
pub open spec fn digit_char(d: int) -> char {
    if d == 0 {
        '0'
    } else if d == 1 {
        '1'
    } else if d == 2 {
        '2'
    } else if d == 3 {
        '3'
    } else if d == 4 {
        '4'
    } else if d == 5 {
        '5'
    } else if d == 6 {
        '6'
    } else if d == 7 {
        '7'
    } else if d == 8 {
        '8'
    } else {
        '9'
    }
}

/// The lowercase hexadecimal character of the nibble `d` (for `0 <= d < 16`).
pub open spec fn hex_char(d: int) -> char {
    if d < 10 {
        digit_char(d)
    } else if d == 10 {
        'a'
    } else if d == 11 {
        'b'
    } else if d == 12 {
        'c'
    } else if d == 13 {
        'd'
    } else if d == 14 {
        'e'
    } else {
        'f'
    }
}

/// The decimal digits of `n`, without leading zeros (`"0"` for zero).
pub open spec fn decimal(n: nat) -> Seq<char>
    decreases n,
{
    if n < 10 {
        seq![digit_char(n as int)]
    } else {
        decimal(n / 10).push(digit_char((n % 10) as int))
    }
}

/// The decimal rendering of a signed number: a minus sign before the digits
/// of its magnitude when it is negative.
pub open spec fn signed_decimal(v: int) -> Seq<char> {
    if v < 0 {
        seq!['-'] + decimal((-v) as nat)
    } else {
        decimal(v as nat)
    }
}

/// Two lowercase hexadecimal characters per byte, high nibble first.
pub open spec fn hex_lower(bytes: Seq<u8>) -> Seq<char>
    decreases bytes.len(),
{
    if bytes.len() == 0 {
        Seq::empty()
    } else {
        hex_lower(bytes.drop_last()) + seq![
            hex_char(bytes.last() as int / 16),
            hex_char(bytes.last() as int % 16),
        ]
    }
}

/// The characters of each string.
pub open spec fn strings_view(v: Seq<String>) -> Seq<Seq<char>> {
    v.map_values(|s: String| s@)
}

/// Appends the decimal rendering of a signed number to `out`.
pub fn push_signed_decimal(out: &mut String, v: i64)
    ensures
        final(out)@ == old(out)@ + signed_decimal(v as int),
{
    if v < 0 {
        out.append("-");
        proof { reveal_strlit("-"); }
        let ghost mid = out@;
        push_decimal(out, (0i128 - v as i128) as u128);
        assert(old(out)@ + signed_decimal(v as int) =~= mid + decimal((-v) as nat));
    } else {
        push_decimal(out, v as u128);
    }
}

/// The one-character string of the decimal digit `d`.
fn digit_str(d: u128) -> (s: &'static str)
    requires
        d < 10,
    ensures
        s@ == seq![digit_char(d as int)],
{
    if d == 0 {
        proof { reveal_strlit("0"); }
        "0"
    } else if d == 1 {
        proof { reveal_strlit("1"); }
        "1"
    } else if d == 2 {
        proof { reveal_strlit("2"); }
        "2"
    } else if d == 3 {
        proof { reveal_strlit("3"); }
        "3"
    } else if d == 4 {
        proof { reveal_strlit("4"); }
        "4"
    } else if d == 5 {
        proof { reveal_strlit("5"); }
        "5"
    } else if d == 6 {
        proof { reveal_strlit("6"); }
        "6"
    } else if d == 7 {
        proof { reveal_strlit("7"); }
        "7"
    } else if d == 8 {
        proof { reveal_strlit("8"); }
        "8"
    } else {
        proof { reveal_strlit("9"); }
        "9"
    }
}

/// Appends the decimal digits of `n` to `out`.
pub fn push_decimal(out: &mut String, n: u128)
    ensures
        final(out)@ == old(out)@ + decimal(n as nat),
    decreases n,
{
    if n < 10 {
        out.append(digit_str(n));
    } else {
        push_decimal(out, n / 10);
        out.append(digit_str(n % 10));
        assert(decimal(n as nat) == decimal((n / 10) as nat).push(digit_char((n % 10) as int)));
        assert(old(out)@ + decimal(n as nat) =~= old(out)@ + decimal((n / 10) as nat) + seq![
            digit_char((n % 10) as int),
        ]);
    }
}

/// The decimal rendering of an unsigned number.
pub fn decimal_string(n: u64) -> (s: String)
    ensures
        s@ == decimal(n as nat),
{
    let mut s = String::new();
    push_decimal(&mut s, n as u128);
    assert(Seq::<char>::empty() + decimal(n as nat) =~= decimal(n as nat));
    s
}

/// The decimal rendering of a signed number, with a leading `-` when negative.
pub fn signed_decimal_string(v: i64) -> (s: String)
    ensures
        s@ == signed_decimal(v as int),
{
    if v < 0 {
        let magnitude: u128 = (0i128 - v as i128) as u128;
        let mut s = String::from_str("-");
        proof { reveal_strlit("-"); }
        push_decimal(&mut s, magnitude);
        s
    } else {
        decimal_string(v as u64)
    }
}

/// The number written by a string of decimal digits.
pub open spec fn digits_value(s: Seq<char>) -> int
    decreases s.len(),
{
    if s.len() == 0 {
        0
    } else {
        digits_value(s.drop_last()) * 10 + (s.last() as int - 48)
    }
}

/// The digit characters are the characters of `0123456789`, in order.
pub proof fn lemma_digit_chars()
    ensures
        forall|d: int| 0 <= d < 10 ==> #[trigger] digit_char(d) == "0123456789"@[d],
        forall|d: int| 0 <= d < 10 ==> #[trigger] digit_char(d) as int == 48 + d,
{
    reveal_strlit("0123456789");
    assert forall|d: int| 0 <= d < 10 implies #[trigger] digit_char(d) as int == 48 + d by {
        if d == 0 { assert('0' as int == 48); }
        else if d == 1 { assert('1' as int == 49); }
        else if d == 2 { assert('2' as int == 50); }
        else if d == 3 { assert('3' as int == 51); }
        else if d == 4 { assert('4' as int == 52); }
        else if d == 5 { assert('5' as int == 53); }
        else if d == 6 { assert('6' as int == 54); }
        else if d == 7 { assert('7' as int == 55); }
        else if d == 8 { assert('8' as int == 56); }
        else { assert('9' as int == 57); }
    }
}

/// The hexadecimal digit characters are those of `0123456789abcdef`, in order.
pub proof fn lemma_hex_chars()
    ensures
        forall|d: int| 0 <= d < 16 ==> #[trigger] hex_char(d) == "0123456789abcdef"@[d],
{
    reveal_strlit("0123456789abcdef");
}

/// The decimal rendering of `n` is a non-empty string of digits, without a
/// leading zero unless it is `0`, that reads back as `n`.
pub proof fn lemma_decimal_reads_back(n: nat)
    ensures
        decimal(n).len() >= 1,
        n >= 10 ==> decimal(n).len() >= 2,
        forall|i: int| 0 <= i < decimal(n).len() ==> 48 <= #[trigger] decimal(n)[i] as int <= 57,
        decimal(n).len() > 1 ==> decimal(n)[0] != '0',
        digits_value(decimal(n)) == n,
    decreases n,
{
    lemma_digit_chars();
    if n >= 10 {
        lemma_decimal_reads_back(n / 10);
        let prev = decimal(n / 10);
        assert(decimal(n).drop_last() =~= prev);
        assert forall|i: int| 0 <= i < decimal(n).len() implies 48 <= #[trigger] decimal(n)[i] as int <= 57 by {
            if i < prev.len() {
                assert(decimal(n)[i] == prev[i]);
            }
        }
        assert(decimal(n)[0] == prev[0]);
        if n / 10 < 10 {
            assert(prev == seq![digit_char((n / 10) as int)]);
            assert(digit_char((n / 10) as int) as int == 48 + n / 10);
        }
        assert(decimal(n).last() == digit_char((n % 10) as int));
        assert(digit_char((n % 10) as int) as int == 48 + n % 10);
        assert(digits_value(decimal(n)) == digits_value(prev) * 10 + n % 10);
        assert((n / 10) * 10 + n % 10 == n);
    } else {
        let one = decimal(n);
        assert(one.drop_last() =~= Seq::<char>::empty());
        assert(digits_value(one.drop_last()) == 0);
        assert(digit_char(n as int) as int == 48 + n);
        assert(digits_value(one) == 0 * 10 + (one.last() as int - 48));
    }
}

/// Each byte is rendered as two lowercase hexadecimal digits, the high
/// nibble first: byte `i` gives characters `2i` and `2i + 1`.
pub proof fn lemma_hex_lower_layout(bytes: Seq<u8>)
    ensures
        hex_lower(bytes).len() == 2 * bytes.len(),
        forall|i: int| 0 <= i < bytes.len() ==> {
            &&& #[trigger] hex_lower(bytes)[2 * i] == "0123456789abcdef"@[(bytes[i] / 16) as int]
            &&& hex_lower(bytes)[2 * i + 1] == "0123456789abcdef"@[(bytes[i] % 16) as int]
        },
    decreases bytes.len(),
{
    lemma_hex_chars();
    if bytes.len() > 0 {
        let prev = bytes.drop_last();
        lemma_hex_lower_layout(prev);
        assert forall|i: int| 0 <= i < bytes.len() implies {
            &&& #[trigger] hex_lower(bytes)[2 * i] == "0123456789abcdef"@[(bytes[i] / 16) as int]
            &&& hex_lower(bytes)[2 * i + 1] == "0123456789abcdef"@[(bytes[i] % 16) as int]
        } by {
            if i < prev.len() {
                assert(bytes[i] == prev[i]);
                assert(hex_lower(bytes)[2 * i] == hex_lower(prev)[2 * i]);
                assert(hex_lower(bytes)[2 * i + 1] == hex_lower(prev)[2 * i + 1]);
            }
        }
    }
}

} // verus!
