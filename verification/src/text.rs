use vstd::prelude::*;
use vstd::utf8::{decode_utf8, valid_utf8};

verus! {

/// Decodes `bytes` as UTF-8 text with `String::from_utf8` (std).
/// Trusted: the std documentation says that the call fails exactly when the
/// bytes are not valid UTF-8, and otherwise yields the text those bytes encode.
#[verifier::external_body]
pub(crate) fn utf8_text(bytes: Vec<u8>) -> (r: Option<String>)
    ensures
        r is Some <==> valid_utf8(bytes@),
        r matches Some(s) ==> s@ == decode_utf8(bytes@),
{
    String::from_utf8(bytes).ok()
}

} // verus!


verus! {

/// The digit character of `d` in base 16 (lower case), which for `d < 10`
/// is its decimal digit.
pub open spec fn digit_char(d: int) -> char {
    if d == 0 {
        '0'
    } else if d == 1 {
        '1'
    } else if d == 2 {
        '2'
    } else if d == 3 {
        '3'
    } else if d == 4 {
        '4'
    } else if d == 5 {
        '5'
    } else if d == 6 {
        '6'
    } else if d == 7 {
        '7'
    } else if d == 8 {
        '8'
    } else if d == 9 {
        '9'
    } else if d == 10 {
        'a'
    } else if d == 11 {
        'b'
    } else if d == 12 {
        'c'
    } else if d == 13 {
        'd'
    } else if d == 14 {
        'e'
    } else {
        'f'
    }
}

/// `n` written in decimal, without leading zeros.
pub open spec fn decimal_text(n: nat) -> Seq<char>
    decreases n,
{
    if n < 10 {
        seq![digit_char(n as int)]
    } else {
        decimal_text(n / 10) + seq![digit_char((n % 10) as int)]
    }
}

/// `n` written in lower-case hexadecimal, without leading zeros.
pub open spec fn hex_text(n: nat) -> Seq<char>
    decreases n,
{
    if n < 16 {
        seq![digit_char(n as int)]
    } else {
        hex_text(n / 16) + seq![digit_char((n % 16) as int)]
    }
}

/// The one-character text of a digit below 16.
fn digit_str(d: u64) -> (s: &'static str)
    requires
        d < 16,
    ensures
        s@ == seq![digit_char(d as int)],
{
    match d {
        0 => {
            proof { reveal_strlit("0"); }
            "0"
        },
        1 => {
            proof { reveal_strlit("1"); }
            "1"
        },
        2 => {
            proof { reveal_strlit("2"); }
            "2"
        },
        3 => {
            proof { reveal_strlit("3"); }
            "3"
        },
        4 => {
            proof { reveal_strlit("4"); }
            "4"
        },
        5 => {
            proof { reveal_strlit("5"); }
            "5"
        },
        6 => {
            proof { reveal_strlit("6"); }
            "6"
        },
        7 => {
            proof { reveal_strlit("7"); }
            "7"
        },
        8 => {
            proof { reveal_strlit("8"); }
            "8"
        },
        9 => {
            proof { reveal_strlit("9"); }
            "9"
        },
        10 => {
            proof { reveal_strlit("a"); }
            "a"
        },
        11 => {
            proof { reveal_strlit("b"); }
            "b"
        },
        12 => {
            proof { reveal_strlit("c"); }
            "c"
        },
        13 => {
            proof { reveal_strlit("d"); }
            "d"
        },
        14 => {
            proof { reveal_strlit("e"); }
            "e"
        },
        _ => {
            proof { reveal_strlit("f"); }
            "f"
        },
    }
}

/// Appends `n` in decimal to `s`.
pub fn push_decimal(s: &mut String, n: u64)
    ensures
        final(s)@ == old(s)@ + decimal_text(n as nat),
    decreases n,
{
    if n >= 10 {
        push_decimal(s, n / 10);
    }
    s.append(digit_str(n % 10));
    assert(s@ =~= old(s)@ + decimal_text(n as nat));
}

/// Appends `n` in lower-case hexadecimal to `s`.
pub fn push_hex(s: &mut String, n: u64)
    ensures
        final(s)@ == old(s)@ + hex_text(n as nat),
    decreases n,
{
    if n >= 16 {
        push_hex(s, n / 16);
    }
    s.append(digit_str(n % 16));
    assert(s@ =~= old(s)@ + hex_text(n as nat));
}

/// The number a digit character stands for: 0 to 9 for `'0'` to `'9'`,
/// 10 to 15 for `'a'` to `'f'`, and -1 for any other character.
pub open spec fn digit_value(c: char) -> int {
    let v = c as int;
    if 48 <= v <= 57 {
        v - 48
    } else if 97 <= v <= 102 {
        v - 87
    } else {
        -1
    }
}

/// The number the digits `s` stand for in base `base`, most significant
/// digit first.
pub open spec fn numeral_value(s: Seq<char>, base: int) -> int
    decreases s.len(),
{
    if s.len() == 0 {
        0
    } else {
        numeral_value(s.drop_last(), base) * base + digit_value(s.last())
    }
}

proof fn digit_char_stands_for_its_value(d: int)
    requires
        0 <= d < 16,
    ensures
        digit_value(digit_char(d)) == d,
{
}

/// The decimal text of `n` is a nonempty string of decimal digits, without a
/// leading zero unless `n` is 0, that stands for `n`.
pub proof fn decimal_text_denotes(n: nat)
    ensures
        decimal_text(n).len() > 0,
        numeral_value(decimal_text(n), 10) == n,
        forall|i: int|
            0 <= i < decimal_text(n).len() ==> 0 <= #[trigger] digit_value(decimal_text(n)[i])
                < 10,
        n > 0 ==> decimal_text(n)[0] != '0',
    decreases n,
{
    if n < 10 {
        digit_char_stands_for_its_value(n as int);
        let t = decimal_text(n);
        assert(t.drop_last() =~= Seq::<char>::empty());
        assert(numeral_value(t.drop_last(), 10) == 0);
        assert(numeral_value(t, 10) == numeral_value(t.drop_last(), 10) * 10 + digit_value(
            t.last(),
        ));
        if n > 0 {
            assert(digit_value(t[0]) == n);
        }
    } else {
        decimal_text_denotes(n / 10);
        digit_char_stands_for_its_value((n % 10) as int);
        let t = decimal_text(n);
        let h = decimal_text(n / 10);
        assert(t.drop_last() =~= h);
        assert(t.last() == digit_char((n % 10) as int));
        assert(numeral_value(t, 10) == numeral_value(h, 10) * 10 + digit_value(t.last()));
        assert((n / 10) * 10 + n % 10 == n);
        assert(t[0] == h[0]);
        assert forall|i: int| 0 <= i < t.len() implies 0 <= #[trigger] digit_value(t[i]) < 10 by {
            if i < h.len() {
                assert(t[i] == h[i]);
            }
        }
    }
}

/// The hexadecimal text of `n` is a nonempty string of lower-case hex
/// digits, without a leading zero unless `n` is 0, that stands for `n`.
pub proof fn hex_text_denotes(n: nat)
    ensures
        hex_text(n).len() > 0,
        numeral_value(hex_text(n), 16) == n,
        forall|i: int|
            0 <= i < hex_text(n).len() ==> 0 <= #[trigger] digit_value(hex_text(n)[i]) < 16,
        n > 0 ==> hex_text(n)[0] != '0',
    decreases n,
{
    if n < 16 {
        digit_char_stands_for_its_value(n as int);
        let t = hex_text(n);
        assert(t.drop_last() =~= Seq::<char>::empty());
        assert(numeral_value(t.drop_last(), 16) == 0);
        assert(numeral_value(t, 16) == numeral_value(t.drop_last(), 16) * 16 + digit_value(
            t.last(),
        ));
        if n > 0 {
            assert(digit_value(t[0]) == n);
        }
    } else {
        hex_text_denotes(n / 16);
        digit_char_stands_for_its_value((n % 16) as int);
        let t = hex_text(n);
        let h = hex_text(n / 16);
        assert(t.drop_last() =~= h);
        assert(t.last() == digit_char((n % 16) as int));
        assert(numeral_value(t, 16) == numeral_value(h, 16) * 16 + digit_value(t.last()));
        assert((n / 16) * 16 + n % 16 == n);
        assert(t[0] == h[0]);
        assert forall|i: int| 0 <= i < t.len() implies 0 <= #[trigger] digit_value(t[i]) < 16 by {
            if i < h.len() {
                assert(t[i] == h[i]);
            }
        }
    }
}

} // verus!
