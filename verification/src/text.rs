use vstd::prelude::*;
use vstd::string::StringSliceAdditionalSpecFns;

verus! {

/// The character of the decimal digit `d`.
pub open spec fn digit_char(d: nat) -> char {
    if d == 0 {
        '0'
    } else if d == 1 {
        '1'
    } else if d == 2 {
        '2'
    } else if d == 3 {
        '3'
    } else if d == 4 {
        '4'
    } else if d == 5 {
        '5'
    } else if d == 6 {
        '6'
    } else if d == 7 {
        '7'
    } else if d == 8 {
        '8'
    } else {
        '9'
    }
}

/// The decimal numeral of `n`: its digits, most significant first, with no
/// leading zeros.
pub open spec fn decimal(n: nat) -> Seq<char>
    decreases n,
{
    if n < 10 {
        seq![digit_char(n)]
    } else {
        decimal(n / 10).push(digit_char(n % 10))
    }
}

fn digit_text(d: u32) -> (r: &'static str)
    requires
        d < 10,
    ensures
        r@ == seq![digit_char(d as nat)],
{
    proof {
        reveal_strlit("0");
        reveal_strlit("1");
        reveal_strlit("2");
        reveal_strlit("3");
        reveal_strlit("4");
        reveal_strlit("5");
        reveal_strlit("6");
        reveal_strlit("7");
        reveal_strlit("8");
        reveal_strlit("9");
    }
    let r = match d {
        0 => "0",
        1 => "1",
        2 => "2",
        3 => "3",
        4 => "4",
        5 => "5",
        6 => "6",
        7 => "7",
        8 => "8",
        _ => "9",
    };
    assert(r@ =~= seq![digit_char(d as nat)]);
    r
}

/// The decimal numeral of `n`, as `n.to_string()` writes it.
pub fn decimal_text(n: u32) -> (r: String)
    ensures
        r@ == decimal(n as nat),
    decreases n,
{
    if n < 10 {
        String::from_str(digit_text(n))
    } else {
        let mut s = decimal_text(n / 10);
        s.append(digit_text(n % 10));
        assert(s@ =~= decimal(n as nat));
        s
    }
}


/// The byte is an ASCII decimal digit.
pub open spec fn is_digit_byte(b: u8) -> bool {
    48 <= b <= 57
}

/// Every byte of `s` is an ASCII decimal digit.
pub open spec fn all_digit_bytes(s: Seq<u8>) -> bool {
    forall|i: int| 0 <= i < s.len() ==> is_digit_byte(#[trigger] s[i])
}

/// The number that the ASCII decimal digits `s` write, most significant
/// first.
pub open spec fn digits_value(s: Seq<u8>) -> int
    decreases s.len(),
{
    if s.len() == 0 {
        0
    } else {
        digits_value(s.drop_last()) * 10 + (s.last() - 48)
    }
}

/// The digits of an unsigned numeral: the text without one leading `+`.
pub open spec fn unsigned_digits(s: Seq<u8>) -> Seq<u8> {
    if s.len() > 0 && s[0] == 43 {
        s.subrange(1, s.len() as int)
    } else {
        s
    }
}

/// The `u32` that the text `s` (as UTF-8 bytes) writes in decimal, as
/// `str::parse::<u32>` reads it: an optional `+`, then one or more digits
/// whose value fits in a `u32`; `None` for any other text.
pub open spec fn parsed_u32(s: Seq<u8>) -> Option<u32> {
    let d = unsigned_digits(s);
    if d.len() > 0 && all_digit_bytes(d) && digits_value(d) <= u32::MAX {
        Some(digits_value(d) as u32)
    } else {
        None
    }
}

/// A numeral's value is at least that of any of its prefixes, and never
/// negative.
proof fn lemma_digits_value_grows(s: Seq<u8>, k: int)
    requires
        0 <= k <= s.len(),
        all_digit_bytes(s),
    ensures
        0 <= digits_value(s.subrange(0, k)) <= digits_value(s),
    decreases s.len(),
{
    if k < s.len() {
        let t = s.drop_last();
        assert(all_digit_bytes(t)) by {
            assert forall|i: int| 0 <= i < t.len() implies is_digit_byte(#[trigger] t[i]) by {
                assert(t[i] == s[i]);
            }
        }
        lemma_digits_value_grows(t, k);
        assert(t.subrange(0, k) =~= s.subrange(0, k));
        assert(is_digit_byte(s[s.len() - 1]));
    } else {
        assert(s.subrange(0, k) =~= s);
        if s.len() > 0 {
            let t = s.drop_last();
            assert(all_digit_bytes(t)) by {
                assert forall|i: int| 0 <= i < t.len() implies is_digit_byte(#[trigger] t[i]) by {
                    assert(t[i] == s[i]);
                }
            }
            lemma_digits_value_grows(t, t.len() as int);
            assert(t.subrange(0, t.len() as int) =~= t);
            assert(is_digit_byte(s[s.len() - 1]));
        }
    }
}

/// Reads a decimal `u32` as `str::parse::<u32>` does.
pub fn parse_u32(text: &str) -> (r: Option<u32>)
    ensures
        r == parsed_u32(text.spec_bytes()),
{
    let bytes = text.as_bytes();
    let n = bytes.len();
    let ghost s = bytes@;
    let start: usize = if n > 0 && bytes[0] == 43 { 1 } else { 0 };
    let ghost d = s.subrange(start as int, n as int);
    assert(unsigned_digits(s) =~= d);
    if start >= n {
        return None;
    }
    let mut acc: u64 = 0;
    let mut i: usize = start;
    while i < n
        invariant
            bytes@ == s,
            s == text.spec_bytes(),
            n == s.len(),
            start <= i <= n,
            d == s.subrange(start as int, n as int),
            unsigned_digits(s) == d,
            acc == digits_value(d.subrange(0, i - start)),
            acc <= u32::MAX,
            forall|j: int| 0 <= j < i - start ==> is_digit_byte(#[trigger] d[j]),
        decreases n - i,
    {
        let b = bytes[i];
        assert(b == d[i - start]);
        if b < 48 || b > 57 {
            assert(!all_digit_bytes(d));
            return None;
        }
        assert(d.subrange(0, i + 1 - start).drop_last() =~= d.subrange(0, i - start));
        acc = acc * 10 + (b - 48) as u64;
        if acc > u32::MAX as u64 {
            proof {
                if all_digit_bytes(d) {
                    lemma_digits_value_grows(d, i + 1 - start);
                }
            }
            return None;
        }
        i = i + 1;
    }
    assert(d.subrange(0, n - start) =~= d);
    Some(acc as u32)
}

} // verus!
