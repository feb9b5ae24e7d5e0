//! Peer admission: credential-based authorization against the on-disk
//! allowlist. Root and the service's own user are always admitted; any
//! other peer is admitted exactly when some line of the allowlist names
//! its uid — a line being optional whitespace, the uid's decimal digits,
//! optional whitespace, then end of line or a `#` comment. An unreadable
//! allowlist admits no additional uid: the check fails closed.
use vstd::prelude::*;
use crate::text::{is_digit, is_space, dec_val, parse_u64_digits};

verus! {

/// `[i, j)` is one line of `s`: it abuts the ends of `s` or newlines, and
/// holds none itself.
pub open spec fn line_span(s: Seq<char>, i: int, j: int) -> bool {
    0 <= i <= j <= s.len()
    && (i == 0 || s[i - 1] == '\n')
    && (j == s.len() || s[j] == '\n')
    && (forall|k: int| i <= k < j ==> s[k] != '\n')
}

/// `(a, b, c)` splits line `l` into leading whitespace, the non-empty
/// digits of `uid`, trailing whitespace, and then either the line's end
/// or its first `#`.
pub open spec fn admit_split(l: Seq<char>, a: int, b: int, c: int, uid: u32) -> bool {
    0 <= a < b <= c <= l.len()
    && (forall|k: int| 0 <= k < a ==> is_space(l[k]))
    && (forall|k: int| a <= k < b ==> is_digit(l[k]))
    && (forall|k: int| b <= k < c ==> is_space(l[k]))
    && (c == l.len() || l[c] == '#')
    && (forall|k: int| 0 <= k < c ==> l[k] != '#')
    && dec_val(l.subrange(a, b)) == uid as nat
}

/// Line `l` names `uid`.
pub open spec fn line_admits(l: Seq<char>, uid: u32) -> bool {
    exists|a: int, b: int, c: int| admit_split(l, a, b, c, uid)
}

/// Some line of allowlist content `s` names `uid`.
pub open spec fn allowlist_admits(s: Seq<char>, uid: u32) -> bool {
    exists|i: int, j: int| line_span(s, i, j) && #[trigger] line_admits(s.subrange(i, j), uid)
}

/// A peer is authorized iff it is root, the service's own user, or named
/// by the allowlist; no readable allowlist means no additional names.
pub open spec fn spec_authorized(uid: u32, own_uid: u32, allowlist: Option<Seq<char>>) -> bool {
    uid == 0 || uid == own_uid || (match allowlist {
        Some(content) => allowlist_admits(content, uid),
        None => false,
    })
}

/// Horizontal whitespace.
fn is_space_char(c: char) -> (r: bool)
    ensures
        r == is_space(c),
{
    c == ' ' || c == '\t' || c == '\r'
}

/// A decimal digit.
fn is_digit_char(c: char) -> (r: bool)
    ensures
        r == is_digit(c),
{
    '0' <= c && c <= '9'
}

/// Decides whether one allowlist line names `uid`.
fn check_line(l: &str, uid: u32) -> (r: bool)
    ensures
        r == line_admits(l@, uid),
{
    let n = l.unicode_len();
    let mut a: usize = 0;
    while a < n && is_space_char(l.get_char(a))
        invariant
            0 <= a <= n,
            n == l@.len(),
            forall|k: int| 0 <= k < a ==> is_space(l@[k]),
        decreases n - a,
    {
        a += 1;
    }
    let mut b: usize = a;
    while b < n && is_digit_char(l.get_char(b))
        invariant
            a <= b <= n,
            n == l@.len(),
            forall|k: int| a <= k < b ==> is_digit(l@[k]),
        decreases n - b,
    {
        b += 1;
    }
    let mut t: usize = b;
    while t < n && is_space_char(l.get_char(t))
        invariant
            b <= t <= n,
            n == l@.len(),
            forall|k: int| b <= k < t ==> is_space(l@[k]),
        decreases n - t,
    {
        t += 1;
    }
    let boundary_ok: bool = t == n || l.get_char(t) == '#';
    let mut named: bool = false;
    if a < b && boundary_ok {
        let digits = l.substring_char(a, b);
        proof {
            assert(digits@ =~= l@.subrange(a as int, b as int));
        }
        if let Some(v) = parse_u64_digits(digits) {
            if v <= u32::MAX as u64 && v as u32 == uid {
                named = true;
            }
        }
    }
    proof {
        if named {
            assert(admit_split(l@, a as int, b as int, t as int, uid));
        } else {
            assert forall|a2: int, b2: int, c2: int| !admit_split(l@, a2, b2, c2, uid) by {
                if admit_split(l@, a2, b2, c2, uid) {
                    assert(a2 == a) by {
                        if a2 < a {
                            assert(is_space(l@[a2]));
                            assert(is_digit(l@[a2]));
                        }
                        if a2 > a {
                            assert(a < n);
                            assert(is_space(l@[a as int]));
                        }
                    };
                    assert(b2 == b) by {
                        if b2 > b {
                            assert(b < n);
                            assert(is_digit(l@[b as int]));
                        }
                        if b2 < b {
                            assert(is_digit(l@[b2]));
                            if b2 < c2 {
                                assert(is_space(l@[b2]));
                            } else {
                                assert(c2 == b2);
                                assert(c2 < l@.len());
                                assert(l@[c2] == '#');
                            }
                        }
                    };
                    assert(c2 == t) by {
                        if c2 > t {
                            assert(t < n);
                            assert(is_space(l@[t as int]));
                        }
                        if c2 < t {
                            assert(is_space(l@[c2]));
                            assert(c2 < l@.len());
                            assert(l@[c2] == '#');
                        }
                    };
                    assert(a < b && boundary_ok);
                    let digits_view = l@.subrange(a as int, b as int);
                    assert(dec_val(digits_view) == uid as nat);
                    assert(false);
                }
            }
        }
    }
    named
}

/// Decides admission for a peer: root and the service's own uid always
/// pass; otherwise the given allowlist content (absent when the file
/// could not be read) must name the peer's uid.
pub fn authorize(uid: u32, own_uid: u32, allowlist: Option<&String>) -> (r: bool)
    ensures
        r == spec_authorized(uid, own_uid, match allowlist {
            Some(s) => Some(s@),
            None => None,
        }),
{
    if uid == 0 {
        return true;
    }
    if uid == own_uid {
        return true;
    }
    let content = match allowlist {
        Some(s) => s,
        None => {
            return false;
        },
    };
    let s = content.as_str();
    let n = s.unicode_len();
    let mut start: usize = 0;
    let mut more: bool = true;
    while more
        invariant
            0 <= start <= n + 1,
            more ==> start <= n,
            n == s@.len(),
            s@ == content@,
            (match allowlist {
                Some(al) => al@ == s@,
                None => false,
            }),
            !more ==> (forall|i: int, j: int| line_span(s@, i, j) ==> !#[trigger] line_admits(
                s@.subrange(i, j), uid)),
            start >= 1 ==> start - 1 <= n && (start - 1 == n || s@[start - 1] == '\n'),
            forall|i: int, j: int| line_span(s@, i, j) && i < start ==> !#[trigger] line_admits(
                s@.subrange(i, j), uid),
        decreases (if more { n + 2 - start } else { 0int }),
    {
        let mut end: usize = start;
        while end < n && s.get_char(end) != '\n'
            invariant
                start <= end <= n,
                n == s@.len(),
                forall|k: int| start <= k < end ==> s@[k] != '\n',
            decreases n - end,
        {
            end += 1;
        }
        let line = s.substring_char(start, end);
        proof {
            assert(line@ =~= s@.subrange(start as int, end as int));
            assert(line_span(s@, start as int, end as int));
        }
        if check_line(line, uid) {
            proof {
                assert(line_admits(s@.subrange(start as int, end as int), uid));
                assert(allowlist_admits(s@, uid));
                assert(allowlist_admits(content@, uid));
                assert(spec_authorized(uid, own_uid, Some(content@)));
            }
            return true;
        }
        proof {
            assert forall|i: int, j: int| line_span(s@, i, j) && i < end + 1 implies !line_admits(
                s@.subrange(i, j), uid) by {
                if i >= start {
                    assert(i == start) by {
                        if i > start {
                            assert(s@[i - 1] == '\n');
                        }
                    };
                    assert(j == end) by {
                        if j < end {
                            assert(s@[j] == '\n');
                        }
                        if j > end {
                            assert(end < n);
                            assert(s@[end as int] == '\n');
                        }
                    };
                }
            }
        }
        if end >= n {
            proof {
                assert forall|i: int, j: int| line_span(s@, i, j) implies !line_admits(
                    s@.subrange(i, j), uid) by {
                    assert(i < end + 1);
                }
            }
            more = false;
        } else {
            start = end + 1;
        }
    }
    false
}

} // verus!
