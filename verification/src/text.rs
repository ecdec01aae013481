//! Text helpers shared by the other modules: comparison, segments of a path,
//! and decimal notation of integers.

use vstd::prelude::*;
use vstd::string::*;
use vstd::std_specs::iter::IteratorSpec;

verus! {

/// Whether two string slices hold the same characters.
pub fn str_eq(a: &str, b: &str) -> (same: bool)
    ensures
        same == (a@ == b@),
{
    let mut ia = a.chars();
    let mut ib = b.chars();
    let ghost mut n: int = 0;
    loop
        invariant
            0 <= n <= a@.len(),
            n <= b@.len(),
            ia.remaining() == a@.subrange(n, a@.len() as int),
            ib.remaining() == b@.subrange(n, b@.len() as int),
            a@.subrange(0, n) == b@.subrange(0, n),
            ia.obeys_prophetic_iter_laws(),
            ib.obeys_prophetic_iter_laws(),
        decreases a@.len() - n,
    {
        let ca = ia.next();
        let cb = ib.next();
        match (ca, cb) {
            (None, None) => {
                assert(a@ =~= a@.subrange(0, n));
                assert(b@ =~= b@.subrange(0, n));
                return true;
            },
            (Some(x), Some(y)) => {
                if x != y {
                    assert(a@[n] != b@[n]);
                    return false;
                }
                proof {
                    assert(a@.subrange(0, n + 1) =~= a@.subrange(0, n).push(x));
                    assert(b@.subrange(0, n + 1) =~= b@.subrange(0, n).push(y));
                    n = n + 1;
                }
            },
            _ => {
                return false;
            },
        }
    }
}

/// Position of the last `/` in `s`, or -1 where `s` holds none.
pub open spec fn last_slash(s: Seq<char>) -> int
    decreases s.len(),
{
    if s.len() == 0 {
        -1
    } else if s.last() == '/' {
        s.len() - 1
    } else {
        last_slash(s.drop_last())
    }
}

/// What follows the last `/` of `s`: all of `s` where it holds no `/`.
pub open spec fn last_segment(s: Seq<char>) -> Seq<char> {
    s.subrange(last_slash(s) + 1, s.len() as int)
}

/// Whether `s` holds the character `c`.
pub open spec fn has_char(s: Seq<char>, c: char) -> bool {
    exists|i: int| 0 <= i < s.len() && s[i] == c
}

/// `last_slash` names a `/`, and none stands behind it.
pub proof fn last_slash_is_last(s: Seq<char>)
    ensures
        -1 <= last_slash(s) < s.len(),
        last_slash(s) >= 0 ==> s[last_slash(s)] == '/',
        forall|i: int| last_slash(s) < i < s.len() ==> s[i] != '/',
    decreases s.len(),
{
    if s.len() > 0 && s.last() != '/' {
        let shorter = s.drop_last();
        last_slash_is_last(shorter);
        assert forall|i: int| last_slash(s) < i < s.len() implies s[i] != '/' by {
            if i < shorter.len() {
                assert(shorter[i] == s[i]);
            }
        }
    }
}

/// A segment appended behind a `/` is found again as the last segment,
/// provided it holds no `/` itself.
pub proof fn last_segment_of_joined(prefix: Seq<char>, segment: Seq<char>)
    requires
        !has_char(segment, '/'),
    ensures
        last_segment(prefix + seq!['/'] + segment) == segment,
    decreases segment.len(),
{
    let whole = prefix + seq!['/'] + segment;
    if segment.len() == 0 {
        assert(whole.last() == '/');
        assert(last_segment(whole) =~= segment);
    } else {
        let shorter = segment.drop_last();
        assert(!has_char(shorter, '/')) by {
            if has_char(shorter, '/') {
                let i = choose|i: int| 0 <= i < shorter.len() && shorter[i] == '/';
                assert(segment[i] == '/');
            }
        }
        last_segment_of_joined(prefix, shorter);
        assert(whole.drop_last() =~= prefix + seq!['/'] + shorter);
        last_slash_is_last(whole.drop_last());
        assert(segment[segment.len() - 1] != '/');
        assert(whole.last() == segment.last());
        assert(last_slash(whole) == last_slash(whole.drop_last()));
        assert(last_segment(whole) =~= last_segment(whole.drop_last()).push(segment.last()));
        assert(segment =~= shorter.push(segment.last()));
    }
}

/// The part of `name` behind its last `/`, as a new string.
pub fn last_segment_of(name: &str) -> (segment: String)
    ensures
        segment@ == last_segment(name@),
{
    let total = name.unicode_len();
    let mut it = name.chars();
    let mut seen: usize = 0;
    let mut start: usize = 0;
    loop
        invariant
            total == name@.len(),
            0 <= seen <= total,
            it.remaining() == name@.subrange(seen as int, total as int),
            it.obeys_prophetic_iter_laws(),
            start == last_slash(name@.subrange(0, seen as int)) + 1,
        ensures
            seen == total,
        decreases total - seen,
    {
        match it.next() {
            None => {
                break;
            },
            Some(c) => {
                proof {
                    let before = name@.subrange(0, seen as int);
                    let now = name@.subrange(0, seen + 1);
                    assert(now.drop_last() =~= before);
                    assert(now.last() == c);
                }
                seen = seen + 1;
                if c == '/' {
                    start = seen;
                }
            },
        }
    }
    proof {
        assert(name@.subrange(0, seen as int) =~= name@);
        last_slash_is_last(name@);
    }
    String::from_str(name.substring_char(start, total))
}

/// `s` without the `/` characters at its end.
pub open spec fn without_trailing_slashes(s: Seq<char>) -> Seq<char>
    decreases s.len(),
{
    if s.len() > 0 && s.last() == '/' {
        without_trailing_slashes(s.drop_last())
    } else {
        s
    }
}

/// What is left without its trailing `/` characters is a beginning of the
/// text.
pub proof fn trimmed_is_a_beginning(s: Seq<char>)
    ensures
        without_trailing_slashes(s).len() <= s.len(),
        without_trailing_slashes(s) == s.subrange(0, without_trailing_slashes(s).len() as int),
    decreases s.len(),
{
    if s.len() > 0 && s.last() == '/' {
        trimmed_is_a_beginning(s.drop_last());
        let kept = without_trailing_slashes(s.drop_last());
        assert(s.drop_last().subrange(0, kept.len() as int) =~= s.subrange(0, kept.len() as int));
    } else {
        assert(s.subrange(0, s.len() as int) =~= s);
    }
}

/// `text` without the `/` characters at its end, as a new string.
pub fn trim_trailing_slashes(text: &str) -> (trimmed: String)
    ensures
        trimmed@ == without_trailing_slashes(text@),
{
    let total = text.unicode_len();
    let mut it = text.chars();
    let mut seen: usize = 0;
    let mut keep: usize = 0;
    loop
        invariant
            total == text@.len(),
            0 <= keep <= seen <= total,
            it.remaining() == text@.subrange(seen as int, total as int),
            it.obeys_prophetic_iter_laws(),
            keep == without_trailing_slashes(text@.subrange(0, seen as int)).len(),
        ensures
            seen == total,
        decreases total - seen,
    {
        match it.next() {
            None => {
                break;
            },
            Some(c) => {
                proof {
                    let before = text@.subrange(0, seen as int);
                    let now = text@.subrange(0, seen + 1);
                    assert(now.drop_last() =~= before);
                    assert(now.last() == c);
                }
                seen = seen + 1;
                if c != '/' {
                    keep = seen;
                }
            },
        }
    }
    proof {
        assert(text@.subrange(0, seen as int) =~= text@);
        trimmed_is_a_beginning(text@);
    }
    String::from_str(text.substring_char(0, keep))
}

} // verus!
