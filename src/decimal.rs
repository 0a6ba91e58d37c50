use vstd::prelude::*;

verus! {

/// Whether `c` is one of the ASCII digits `0` to `9`.
pub open spec fn is_digit(c: char) -> bool {
    48 <= (c as u32) <= 57
}

/// The value of an ASCII digit.
pub open spec fn digit_value(c: char) -> nat {
    ((c as u32) - 48) as nat
}

/// The ASCII digit for a value below ten.
pub open spec fn digit_char(d: nat) -> char {
    ((d + 48) as u32) as char
}

pub open spec fn all_digits(s: Seq<char>) -> bool {
    forall|i: int| 0 <= i < s.len() ==> is_digit(#[trigger] s[i])
}

/// The number that a string of decimal digits denotes, most significant first.
pub open spec fn digits_value(s: Seq<char>) -> nat
    decreases s.len(),
{
    if s.len() == 0 {
        0
    } else {
        digits_value(s.drop_last()) * 10 + digit_value(s.last())
    }
}

/// The shortest decimal rendering of `n`.
pub open spec fn decimal_of(n: nat) -> Seq<char>
    decreases n,
{
    if n < 10 {
        seq![digit_char(n)]
    } else {
        decimal_of(n / 10).push(digit_char(n % 10))
    }
}

/// The text after an optional leading `+`.
pub open spec fn unsigned_digits(s: Seq<char>) -> Seq<char> {
    if s.len() > 0 && s[0] == '+' {
        s.drop_first()
    } else {
        s
    }
}

/// What `u32::from_str` accepts: an optional `+`, then one or more ASCII
/// digits whose value fits in 32 bits.
pub open spec fn parse_u32_spec(s: Seq<char>) -> Option<u32> {
    let body = unsigned_digits(s);
    if body.len() > 0 && all_digits(body) && digits_value(body) <= u32::MAX {
        Some(digits_value(body) as u32)
    } else {
        None
    }
}

pub proof fn lemma_digit_char(d: nat)
    requires
        d < 10,
    ensures
        is_digit(digit_char(d)),
        digit_value(digit_char(d)) == d,
        digit_char(d) != '+',
        digit_char(d) != ':',
{
    assert(((d + 48) as u32) as char as u32 == (d + 48) as u32);
}

/// Digits render and read back: `decimal_of(n)` is a non-empty string of
/// digits whose value is `n`.
pub proof fn lemma_decimal_of(n: nat)
    ensures
        decimal_of(n).len() > 0,
        all_digits(decimal_of(n)),
        digits_value(decimal_of(n)) == n,
    decreases n,
{
    if n < 10 {
        lemma_digit_char(n);
        assert(decimal_of(n).drop_last() =~= Seq::<char>::empty());
        assert(digits_value(Seq::<char>::empty()) == 0);
        assert(decimal_of(n).last() == digit_char(n));
    } else {
        lemma_decimal_of(n / 10);
        lemma_digit_char(n % 10);
        assert(decimal_of(n).drop_last() =~= decimal_of(n / 10));
        assert(decimal_of(n).last() == digit_char(n % 10));
        assert(digits_value(decimal_of(n)) == digits_value(decimal_of(n / 10)) * 10 + digit_value(
            digit_char(n % 10),
        ));
        assert((n / 10) * 10 + n % 10 == n);
    }
}

/// Parsing the decimal rendering of a 32-bit value gives the value back.
pub proof fn lemma_parse_decimal(n: u32)
    ensures
        parse_u32_spec(decimal_of(n as nat)) == Some(n),
{
    lemma_decimal_of(n as nat);
    assert(is_digit(decimal_of(n as nat)[0]));
}

/// A prefix of a digit string never denotes more than the whole string.
proof fn lemma_prefix_value_le(s: Seq<char>, k: int)
    requires
        0 <= k <= s.len(),
    ensures
        digits_value(s.subrange(0, k)) <= digits_value(s),
    decreases s.len(),
{
    if k < s.len() {
        lemma_prefix_value_le(s.drop_last(), k);
        assert(s.drop_last().subrange(0, k) =~= s.subrange(0, k));
    } else {
        assert(s.subrange(0, k) =~= s);
    }
}

/// The one-character string of a digit below ten.
fn digit_str(d: u32) -> (r: &'static str)
    requires
        d < 10,
    ensures
        r@ == seq![digit_char(d as nat)],
{
    match d {
        0 => {
            proof {
                reveal_strlit("0");
            }
            "0"
        },
        1 => {
            proof {
                reveal_strlit("1");
            }
            "1"
        },
        2 => {
            proof {
                reveal_strlit("2");
            }
            "2"
        },
        3 => {
            proof {
                reveal_strlit("3");
            }
            "3"
        },
        4 => {
            proof {
                reveal_strlit("4");
            }
            "4"
        },
        5 => {
            proof {
                reveal_strlit("5");
            }
            "5"
        },
        6 => {
            proof {
                reveal_strlit("6");
            }
            "6"
        },
        7 => {
            proof {
                reveal_strlit("7");
            }
            "7"
        },
        8 => {
            proof {
                reveal_strlit("8");
            }
            "8"
        },
        _ => {
            proof {
                reveal_strlit("9");
            }
            "9"
        },
    }
}

/// Renders `n` in decimal, without sign or leading zeros.
pub fn decimal_string(n: u32) -> (r: String)
    ensures
        r@ == decimal_of(n as nat),
    decreases n,
{
    if n < 10 {
        String::from_str(digit_str(n))
    } else {
        let mut s = decimal_string(n / 10);
        s.append(digit_str(n % 10));
        s
    }
}

/// Reads a 32-bit unsigned integer as `u32::from_str` does.
pub fn parse_u32(s: &str) -> (r: Option<u32>)
    ensures
        r == parse_u32_spec(s@),
{
    let n = s.unicode_len();
    let start: usize = if n > 0 && s.get_char(0) == '+' {
        1
    } else {
        0
    };
    let ghost body = unsigned_digits(s@);
    proof {
        assert(body =~= s@.subrange(start as int, n as int));
    }
    if start == n {
        return None;
    }
    let mut acc: u64 = 0;
    let mut i: usize = start;
    while i < n
        invariant
            start <= i <= n,
            n == s@.len(),
            body == s@.subrange(start as int, n as int),
            body == unsigned_digits(s@),
            acc == digits_value(body.subrange(0, i - start)),
            acc <= u32::MAX,
            all_digits(body.subrange(0, i - start)),
        decreases n - i,
    {
        let c = s.get_char(i);
        let cv = c as u32;
        let ghost k: int = i - start;
        assert(body[k] == s@[i as int]);
        if cv < 48 || cv > 57 {
            assert(!is_digit(body[k]));
            return None;
        }
        acc = acc * 10 + (cv - 48) as u64;
        proof {
            assert(body.subrange(0, k + 1).drop_last() =~= body.subrange(0, k));
            assert(body.subrange(0, k + 1).last() == c);
            assert(all_digits(body.subrange(0, k + 1)));
        }
        if acc > u32::MAX as u64 {
            proof {
                lemma_prefix_value_le(body, k + 1);
            }
            return None;
        }
        i += 1;
    }
    proof {
        assert(body.subrange(0, n - start) =~= body);
    }
    Some(acc as u32)
}

} // verus!
