use vstd::prelude::*;
use vstd::std_specs::iter::IteratorSpec;

verus! {

pub open spec fn is_digit(c: char) -> bool {
    '0' <= c <= '9'
}

pub open spec fn all_digits(s: Seq<char>) -> bool {
    forall|i: int| 0 <= i < s.len() ==> is_digit(#[trigger] s[i])
}

/// Value of a string of decimal digits.
pub open spec fn digits_value(s: Seq<char>) -> int
    decreases s.len(),
{
    if s.len() == 0 {
        0
    } else {
        digits_value(s.drop_last()) * 10 + (s.last() as int - '0' as int)
    }
}

/// `str::parse::<i32>`: an optional `+` or `-`, then one or more decimal
/// digits, with a value in range; anything else is rejected.
pub open spec fn spec_parse_i32(s: Seq<char>) -> Option<i32> {
    if s.len() == 0 {
        None
    } else {
        let neg = s[0] == '-';
        let digits = if s[0] == '-' || s[0] == '+' {
            s.drop_first()
        } else {
            s
        };
        let v = if neg {
            -digits_value(digits)
        } else {
            digits_value(digits)
        };
        if digits.len() == 0 || !all_digits(digits) || v < i32::MIN || v > i32::MAX {
            None
        } else {
            Some(v as i32)
        }
    }
}

/// A longer string of digits is worth at least as much as its prefix.
pub proof fn lemma_digits_value_prefix(s: Seq<char>, k: int)
    requires
        all_digits(s),
        0 <= k <= s.len(),
    ensures
        digits_value(s) >= digits_value(s.take(k)) >= 0,
    decreases s.len(),
{
    if k == s.len() {
        assert(s.take(k) =~= s);
        lemma_digits_value_nonneg(s);
    } else {
        assert(s.drop_last().take(k) =~= s.take(k));
        lemma_digits_value_prefix(s.drop_last(), k);
    }
}

pub proof fn lemma_digits_value_nonneg(s: Seq<char>)
    requires
        all_digits(s),
    ensures
        digits_value(s) >= 0,
    decreases s.len(),
{
    if s.len() > 0 {
        lemma_digits_value_nonneg(s.drop_last());
    }
}

/// Any string of decimal digits whose value fits in an `i32` parses to that
/// value; with a leading `-` it parses to the negated value, and a leading
/// `+` changes nothing.
pub proof fn lemma_parse_i32_digits(d: Seq<char>)
    requires
        d.len() > 0,
        all_digits(d),
        digits_value(d) <= i32::MAX,
    ensures
        spec_parse_i32(d) == Some(digits_value(d) as i32),
        spec_parse_i32(seq!['+'] + d) == Some(digits_value(d) as i32),
        spec_parse_i32(seq!['-'] + d) == Some((-digits_value(d)) as i32),
{
    lemma_digits_value_nonneg(d);
    assert(is_digit(d[0]));
    assert((seq!['+'] + d).drop_first() =~= d);
    assert((seq!['-'] + d).drop_first() =~= d);
}

/// A string holding anything but a sign in front and decimal digits, or
/// nothing after the sign, does not parse; a digit string worth more than
/// `i32::MAX` parses only with a `-`, and then only to `i32::MIN`.
pub proof fn lemma_parse_i32_rejects(s: Seq<char>)
    ensures
        s.len() == 0 ==> spec_parse_i32(s) is None,
        (s =~= seq!['+'] || s =~= seq!['-']) ==> spec_parse_i32(s) is None,
        (exists|i: int| 1 <= i < s.len() && !is_digit(#[trigger] s[i])) ==> spec_parse_i32(s) is None,
        (s.len() > 0 && !is_digit(s[0]) && s[0] != '+' && s[0] != '-') ==> spec_parse_i32(s) is None,
        (s.len() > 0 && all_digits(s) && digits_value(s) > i32::MAX) ==> spec_parse_i32(s) is None,
{
    if s.len() > 0 {
        if exists|i: int| 1 <= i < s.len() && !is_digit(#[trigger] s[i]) {
            let i = choose|i: int| 1 <= i < s.len() && !is_digit(#[trigger] s[i]);
            if s[0] == '-' || s[0] == '+' {
                assert(s.drop_first()[i - 1] == s[i]);
            }
        }
        if all_digits(s) {
            lemma_digits_value_nonneg(s);
        }
    }
}

/// Parses a decimal `i32` as `str::parse` does.
pub fn parse_i32(s: &str) -> (r: Option<i32>)
    ensures
        r == spec_parse_i32(s@),
{
    let ghost ss = s@;
    let mut chars = s.chars();
    proof {
        broadcast use vstd::string::axiom_spec_iter;
    }
    let first = match chars.next() {
        Some(c) => c,
        None => {
            return None;
        },
    };
    proof {
        assert(ss.skip(0) =~= ss);
        assert(ss.skip(1) =~= ss.drop_first());
    }
    let neg = first == '-';
    let signed = first == '-' || first == '+';
    let ghost digits = if signed {
        ss.drop_first()
    } else {
        ss
    };
    // `acc` is the value of the digits read so far, `k` how many there are.
    let mut acc: u64 = 0;
    let mut seen = false;
    let ghost mut k: int = 0;
    if !signed {
        if !('0' <= first && first <= '9') {
            return None;
        }
        acc = (first as u32 - 48u32) as u64;
        seen = true;
        proof {
            assert(first == ss[0]);
            assert(digits.take(1).last() == first);
            k = 1;
            assert(digits.take(1).drop_last() =~= digits.take(0));
            assert(digits.take(0) =~= Seq::<char>::empty());
            assert(digits_value(Seq::<char>::empty()) == 0);
            assert(digits_value(digits.take(1)) == first as int - 48);
        }
    }
    proof {
        assert(digits.take(0) =~= Seq::<char>::empty());
        assert(digits_value(Seq::<char>::empty()) == 0);
        assert(digits.skip(k) =~= ss.skip(1));
    }
    loop
        invariant
            ss == s@,
            ss.len() >= 1,
            digits == (if signed {
                ss.drop_first()
            } else {
                ss
            }),
            neg == (ss[0] == '-'),
            signed == (ss[0] == '-' || ss[0] == '+'),
            0 <= k <= digits.len(),
            chars.remaining() == digits.skip(k),
            all_digits(digits.take(k)),
            acc == digits_value(digits.take(k)),
            acc <= 0x8000_0000,
            seen == (k > 0),
        ensures
            k == digits.len(),
            all_digits(digits),
            acc == digits_value(digits),
            acc <= 0x8000_0000,
            seen == (k > 0),
        decreases digits.len() - k,
    {
        match chars.next() {
            Some(c) => {
                proof {
                    assert(digits.skip(k)[0] == digits[k]);
                    assert(digits.skip(k).drop_first() =~= digits.skip(k + 1));
                }
                if !('0' <= c && c <= '9') {
                    proof {
                        assert(!is_digit(digits[k]));
                    }
                    return None;
                }
                let d = (c as u32 - 48u32) as u64;
                proof {
                    assert(digits.take(k + 1).drop_last() =~= digits.take(k));
                    assert(digits.take(k + 1).last() == c);
                    assert(all_digits(digits.take(k + 1)));
                    k = k + 1;
                }
                acc = acc * 10 + d;
                seen = true;
                if acc > 0x8000_0000 {
                    proof {
                        if all_digits(digits) {
                            lemma_digits_value_prefix(digits, k);
                        }
                    }
                    return None;
                }
            },
            None => {
                proof {
                    assert(digits.skip(k).len() == 0);
                    assert(digits.take(k) =~= digits);
                }
                break;
            },
        }
    }
    if !seen {
        return None;
    }
    if neg {
        let v: i64 = -(acc as i64);
        Some(v as i32)
    } else {
        if acc > 0x7FFF_FFFF {
            None
        } else {
            Some(acc as i32)
        }
    }
}

} // verus!
