//! Decimal notation of integers: how an integer is written, how a text is read
//! back, and that reading undoes writing.

use vstd::prelude::*;
use vstd::string::*;
use vstd::std_specs::iter::IteratorSpec;

verus! {

/// The character that writes the digit `d`.
pub open spec fn digit_char(d: int) -> char {
    if d == 0 {
        '0'
    } else if d == 1 {
        '1'
    } else if d == 2 {
        '2'
    } else if d == 3 {
        '3'
    } else if d == 4 {
        '4'
    } else if d == 5 {
        '5'
    } else if d == 6 {
        '6'
    } else if d == 7 {
        '7'
    } else if d == 8 {
        '8'
    } else {
        '9'
    }
}

/// The digit that `c` writes, or -1 where `c` is no decimal digit.
pub open spec fn digit_value(c: char) -> int {
    if c == '0' {
        0
    } else if c == '1' {
        1
    } else if c == '2' {
        2
    } else if c == '3' {
        3
    } else if c == '4' {
        4
    } else if c == '5' {
        5
    } else if c == '6' {
        6
    } else if c == '7' {
        7
    } else if c == '8' {
        8
    } else if c == '9' {
        9
    } else {
        -1
    }
}

/// The decimal notation of a natural number, without leading zeros.
pub open spec fn decimal(n: nat) -> Seq<char>
    decreases n,
{
    if n < 10 {
        seq![digit_char(n as int)]
    } else {
        decimal(n / 10).push(digit_char((n % 10) as int))
    }
}

/// The decimal notation of an integer: a `-` in front of a negative one.
pub open spec fn signed_decimal(v: int) -> Seq<char> {
    if v < 0 {
        seq!['-'] + decimal((-v) as nat)
    } else {
        decimal(v as nat)
    }
}

/// Whether every character of `s` is a decimal digit.
pub open spec fn all_digits(s: Seq<char>) -> bool {
    forall|i: int| 0 <= i < s.len() ==> digit_value(#[trigger] s[i]) >= 0
}

/// The number that a run of digits writes, leading zeros allowed.
pub open spec fn digits_value(s: Seq<char>) -> int
    decreases s.len(),
{
    if s.len() == 0 {
        0
    } else {
        digits_value(s.drop_last()) * 10 + digit_value(s.last())
    }
}

/// The digits of a signed decimal text: what follows one leading `+` or `-`.
pub open spec fn unsigned_part(s: Seq<char>) -> Seq<char> {
    if s.len() > 0 && (s[0] == '-' || s[0] == '+') {
        s.skip(1)
    } else {
        s
    }
}

/// The integer that a text denotes: an optional sign, then one digit or more
/// and nothing else. `None` for every other text.
pub open spec fn integer_of(s: Seq<char>) -> Option<int> {
    let body = unsigned_part(s);
    if body.len() == 0 || !all_digits(body) {
        None
    } else if s[0] == '-' {
        Some(-digits_value(body))
    } else {
        Some(digits_value(body))
    }
}

/// What a text denotes as a 64-bit signed integer: `None` where it denotes no
/// integer, or one outside that range.
pub open spec fn i64_of(s: Seq<char>) -> Option<i64> {
    match integer_of(s) {
        Some(v) => if i64::MIN <= v <= i64::MAX {
            Some(v as i64)
        } else {
            None
        },
        None => None,
    }
}

/// A run of digits is worth at least as much as each of its beginnings.
pub proof fn digits_value_grows(s: Seq<char>, k: int)
    requires
        all_digits(s),
        0 <= k <= s.len(),
    ensures
        0 <= digits_value(s.subrange(0, k)) <= digits_value(s),
    decreases s.len() - k,
{
    if k == s.len() {
        assert(s.subrange(0, k) =~= s);
        digits_value_nonnegative(s);
    } else {
        digits_value_grows(s, k + 1);
        let longer = s.subrange(0, k + 1);
        assert(longer.drop_last() =~= s.subrange(0, k));
        assert(longer.last() == s[k]);
        assert(digit_value(s[k]) >= 0);
        assert(all_digits(s.subrange(0, k))) by {
            assert forall|i: int| 0 <= i < k implies digit_value(
                #[trigger] s.subrange(0, k)[i],
            ) >= 0 by {
                assert(s.subrange(0, k)[i] == s[i]);
            }
        }
        digits_value_nonnegative(s.subrange(0, k));
    }
}

/// A run of digits writes no negative number.
pub proof fn digits_value_nonnegative(s: Seq<char>)
    requires
        all_digits(s),
    ensures
        digits_value(s) >= 0,
    decreases s.len(),
{
    if s.len() > 0 {
        let shorter = s.drop_last();
        assert forall|i: int| 0 <= i < shorter.len() implies digit_value(#[trigger] shorter[i])
            >= 0 by {
            assert(shorter[i] == s[i]);
        }
        digits_value_nonnegative(shorter);
        assert(digit_value(s[s.len() - 1]) >= 0);
    }
}

/// The notation of a natural number is a run of digits worth that number.
pub proof fn decimal_reads_back(n: nat)
    ensures
        decimal(n).len() > 0,
        all_digits(decimal(n)),
        digits_value(decimal(n)) == n,
    decreases n,
{
    if n < 10 {
        let s = decimal(n);
        assert(s.drop_last() =~= Seq::<char>::empty());
        assert(digits_value(s.drop_last()) == 0);
        assert(digit_value(digit_char(n as int)) == n);
    } else {
        decimal_reads_back(n / 10);
        let s = decimal(n);
        let d = (n % 10) as int;
        assert(s.drop_last() =~= decimal(n / 10));
        assert(s.last() == digit_char(d));
        assert(digit_value(digit_char(d)) == d);
        assert forall|i: int| 0 <= i < s.len() implies digit_value(#[trigger] s[i]) >= 0 by {
            if i < s.len() - 1 {
                assert(s[i] == decimal(n / 10)[i]);
            }
        }
    }
}

/// Reading undoes writing: the notation of a 64-bit integer denotes that
/// integer again.
pub proof fn integer_round_trip(v: i64)
    ensures
        integer_of(signed_decimal(v as int)) == Some(v as int),
        i64_of(signed_decimal(v as int)) == Some(v),
{
    let s = signed_decimal(v as int);
    if v < 0 {
        let m = (-(v as int)) as nat;
        decimal_reads_back(m);
        assert(s[0] == '-');
        assert(unsigned_part(s) =~= decimal(m));
    } else {
        let m = v as nat;
        decimal_reads_back(m);
        assert(digit_value(s[0]) >= 0);
        assert(unsigned_part(s) == s);
    }
}

fn digit_text(d: u64) -> (text: &'static str)
    requires
        d < 10,
    ensures
        text@ == seq![digit_char(d as int)],
{
    proof {
        reveal_strlit("0");
        reveal_strlit("1");
        reveal_strlit("2");
        reveal_strlit("3");
        reveal_strlit("4");
        reveal_strlit("5");
        reveal_strlit("6");
        reveal_strlit("7");
        reveal_strlit("8");
        reveal_strlit("9");
    }
    let text = if d == 0 {
        "0"
    } else if d == 1 {
        "1"
    } else if d == 2 {
        "2"
    } else if d == 3 {
        "3"
    } else if d == 4 {
        "4"
    } else if d == 5 {
        "5"
    } else if d == 6 {
        "6"
    } else if d == 7 {
        "7"
    } else if d == 8 {
        "8"
    } else {
        "9"
    };
    assert(text@ =~= seq![digit_char(d as int)]);
    text
}

/// Appends the decimal notation of `n` to `out`.
pub fn push_decimal(out: &mut String, n: u64)
    ensures
        final(out)@ == old(out)@ + decimal(n as nat),
    decreases n,
{
    if n >= 10 {
        push_decimal(out, n / 10);
    }
    out.append(digit_text(n % 10));
    proof {
        if n >= 10 {
            assert(final(out)@ =~= old(out)@ + decimal(n as nat));
        } else {
            assert(final(out)@ =~= old(out)@ + decimal(n as nat));
        }
    }
}

/// The decimal notation of an unsigned integer.
pub fn u64_to_decimal(n: u64) -> (text: String)
    ensures
        text@ == decimal(n as nat),
{
    let mut text = String::new();
    push_decimal(&mut text, n);
    assert(text@ =~= decimal(n as nat));
    text
}

/// The decimal notation of a signed integer.
pub fn i64_to_decimal(v: i64) -> (text: String)
    ensures
        text@ == signed_decimal(v as int),
{
    if v < 0 {
        let magnitude: u64 = if v == i64::MIN {
            9223372036854775808u64
        } else {
            (-v) as u64
        };
        proof {
            reveal_strlit("-");
        }
        let mut text = String::from_str("-");
        push_decimal(&mut text, magnitude);
        assert(text@ =~= signed_decimal(v as int));
        text
    } else {
        u64_to_decimal(v as u64)
    }
}

fn digit_of(c: char) -> (d: Option<u64>)
    ensures
        match d {
            Some(x) => x == digit_value(c) && x < 10,
            None => digit_value(c) < 0,
        },
{
    if c == '0' {
        Some(0)
    } else if c == '1' {
        Some(1)
    } else if c == '2' {
        Some(2)
    } else if c == '3' {
        Some(3)
    } else if c == '4' {
        Some(4)
    } else if c == '5' {
        Some(5)
    } else if c == '6' {
        Some(6)
    } else if c == '7' {
        Some(7)
    } else if c == '8' {
        Some(8)
    } else if c == '9' {
        Some(9)
    } else {
        None
    }
}

/// Reads a signed decimal text as a 64-bit integer.
pub fn parse_i64(text: &str) -> (value: Option<i64>)
    ensures
        value == i64_of(text@),
{
    let ghost s = text@;
    let mut it = text.chars();
    let first = match it.next() {
        None => {
            return None;
        },
        Some(c) => c,
    };
    let negative = first == '-';
    let signed = negative || first == '+';
    let limit: u64 = if negative {
        9223372036854775808u64
    } else {
        9223372036854775807u64
    };
    let ghost body = unsigned_part(s);
    let ghost lead: int = if signed { 1 } else { 0 };
    let ghost mut k: int = 0;
    let mut acc: u64 = 0;
    let mut any = false;
    if !signed {
        match digit_of(first) {
            None => {
                assert(digit_value(body[0]) < 0);
                return None;
            },
            Some(d) => {
                acc = d;
                any = true;
                proof {
                    k = 1;
                    assert(body.subrange(0, 1).drop_last() =~= Seq::<char>::empty());
                    assert(digits_value(body.subrange(0, 1).drop_last()) == 0);
                    assert(body.subrange(0, 1).last() == first);
                }
            },
        }
    }
    assert(body.len() == s.len() - lead);
    assert(s.subrange(1, s.len() as int) =~= body.subrange(1 - lead, body.len() as int));
    loop
        invariant
            s == text@,
            body == unsigned_part(s),
            body.len() == s.len() - lead,
            lead == (if signed { 1int } else { 0int }),
            signed == (s[0] == '-' || s[0] == '+'),
            negative == (s[0] == '-'),
            s.len() > 0,
            0 <= k <= body.len(),
            any == (k > 0),
            it.remaining() == body.subrange(k, body.len() as int),
            it.obeys_prophetic_iter_laws(),
            all_digits(body.subrange(0, k)),
            acc == digits_value(body.subrange(0, k)),
            acc <= limit,
            limit == (if negative { 9223372036854775808u64 } else { 9223372036854775807u64 }),
        ensures
            k == body.len(),
        decreases body.len() - k,
    {
        match it.next() {
            None => {
                break;
            },
            Some(c) => {
                let ghost longer = body.subrange(0, k + 1);
                proof {
                    assert(longer.drop_last() =~= body.subrange(0, k));
                    assert(longer.last() == c);
                    assert(body[k] == c);
                }
                match digit_of(c) {
                    None => {
                        assert(!all_digits(body));
                        return None;
                    },
                    Some(d) => {
                        proof {
                            assert forall|i: int| 0 <= i < longer.len() implies digit_value(
                                #[trigger] longer[i],
                            ) >= 0 by {
                                if i < k {
                                    assert(longer[i] == body.subrange(0, k)[i]);
                                }
                            }
                        }
                        if acc > (limit - d) / 10 {
                            proof {
                                assert(acc * 10 + d > limit);
                                if all_digits(body) {
                                    digits_value_grows(body, k + 1);
                                }
                            }
                            return None;
                        }
                        acc = acc * 10 + d;
                        any = true;
                        proof {
                            k = k + 1;
                        }
                    },
                }
            },
        }
    }
    proof {
        assert(body.subrange(0, k) =~= body);
    }
    if !any {
        return None;
    }
    if negative {
        if acc == 9223372036854775808u64 {
            Some(i64::MIN)
        } else {
            Some(-(acc as i64))
        }
    } else {
        Some(acc as i64)
    }
}

} // verus!
