//! Version-string parsing and the minimum-version policy for the Node.js
//! runtime.
//!
//! A version string is expected in the shape `vMAJOR.MINOR.PATCH`.  The
//! major version is the value of the digits between the leading `v` and the
//! first `.`; any malformed string (no leading `v`, an empty or non-numeric
//! major component, a value that does not fit in `u32`) parses to major
//! version `0`, which never meets the requirement.

use vstd::prelude::*;

verus! {

/// The minimum major version of the runtime that the orchestrator accepts.
pub const MIN_NODE_MAJOR: u32 = 22;

/// Whether `c` is a decimal digit.
pub open spec fn is_digit(c: char) -> bool {
    c == '0' || c == '1' || c == '2' || c == '3' || c == '4' || c == '5' || c == '6' || c == '7'
        || c == '8' || c == '9'
}

/// The value of a decimal digit (zero on any other character).
pub open spec fn digit_val(c: char) -> nat {
    if c == '1' {
        1
    } else if c == '2' {
        2
    } else if c == '3' {
        3
    } else if c == '4' {
        4
    } else if c == '5' {
        5
    } else if c == '6' {
        6
    } else if c == '7' {
        7
    } else if c == '8' {
        8
    } else if c == '9' {
        9
    } else {
        0
    }
}

/// Whether every character of `s` is a decimal digit.
pub open spec fn all_digits(s: Seq<char>) -> bool {
    forall|i: int| 0 <= i < s.len() ==> is_digit(s[i])
}

/// The numeric value of a digit string, most significant digit first.
pub open spec fn digits_value(s: Seq<char>) -> nat
    decreases s.len(),
{
    if s.len() == 0 {
        0
    } else {
        digits_value(s.drop_last()) * 10 + digit_val(s.last())
    }
}

/// The index of the first `.` in `s`, or `s.len()` if there is none.
pub open spec fn component_end(s: Seq<char>) -> int
    decreases s.len(),
{
    if s.len() == 0 {
        0
    } else if s[0] == '.' {
        0
    } else {
        1 + component_end(s.drop_first())
    }
}

/// The major version parsed from a version string: the value of the digits
/// between the leading `v` and the first `.`, or `0` when the string is
/// malformed.
pub open spec fn major_of(s: Seq<char>) -> nat {
    if s.len() == 0 || s[0] != 'v' {
        0
    } else {
        let rest = s.drop_first();
        let comp = rest.subrange(0, component_end(rest));
        if comp.len() > 0 && all_digits(comp) && digits_value(comp) <= u32::MAX {
            digits_value(comp)
        } else {
            0
        }
    }
}

/// Whether a probed version string meets the minimum-major-version policy.
/// An absent version never does.
pub open spec fn version_requirement_met(version: Option<Seq<char>>) -> bool {
    match version {
        Some(v) => major_of(v) >= MIN_NODE_MAJOR,
        None => false,
    }
}

proof fn lemma_component_end_at(s: Seq<char>, k: int)
    requires
        0 <= k <= s.len(),
        forall|j: int| 0 <= j < k ==> s[j] != '.',
        k == s.len() || s[k] == '.',
    ensures
        component_end(s) == k,
    decreases k,
{
    if k == 0 {
    } else {
        lemma_component_end_at(s.drop_first(), k - 1);
    }
}

proof fn lemma_digits_value_prefix(s: Seq<char>, j: int)
    requires
        0 <= j <= s.len(),
    ensures
        digits_value(s.subrange(0, j)) <= digits_value(s),
    decreases s.len(),
{
    if j == s.len() {
        assert(s.subrange(0, j) =~= s);
    } else {
        lemma_digits_value_prefix(s.drop_last(), j);
        assert(s.drop_last().subrange(0, j) =~= s.subrange(0, j));
    }
}

/// A well-formed version string parses to exactly the value of its major
/// digits: for `v` + digits + (`.` + anything, or nothing), the parsed
/// major version is the digits' value.
pub proof fn lemma_major_of_well_formed(digits: Seq<char>, rest: Seq<char>)
    requires
        digits.len() > 0,
        all_digits(digits),
        digits_value(digits) <= u32::MAX,
        rest.len() == 0 || rest[0] == '.',
    ensures
        major_of(seq!['v'] + digits + rest) == digits_value(digits),
{
    let s = seq!['v'] + digits + rest;
    assert(s[0] == 'v');
    let tail = s.drop_first();
    assert(tail =~= digits + rest);
    assert forall|j: int| 0 <= j < digits.len() implies tail[j] != '.' by {
        assert(tail[j] == digits[j]);
        assert(is_digit(digits[j]));
    }
    if rest.len() > 0 {
        assert(tail[digits.len() as int] == rest[0]);
    }
    lemma_component_end_at(tail, digits.len() as int);
    assert(tail.subrange(0, digits.len() as int) =~= digits);
}

/// A string without the leading `v` prefix parses to major version `0`.
pub proof fn lemma_major_of_unprefixed(s: Seq<char>)
    requires
        s.len() == 0 || s[0] != 'v',
    ensures
        major_of(s) == 0,
{
}

fn char_digit(c: char) -> (d: Option<u32>)
    ensures
        d is Some <==> is_digit(c),
        d matches Some(v) ==> v as nat == digit_val(c) && v < 10,
{
    if c == '0' {
        Some(0)
    } else if c == '1' {
        Some(1)
    } else if c == '2' {
        Some(2)
    } else if c == '3' {
        Some(3)
    } else if c == '4' {
        Some(4)
    } else if c == '5' {
        Some(5)
    } else if c == '6' {
        Some(6)
    } else if c == '7' {
        Some(7)
    } else if c == '8' {
        Some(8)
    } else if c == '9' {
        Some(9)
    } else {
        None
    }
}

/// Parses the major version out of a version string, `0` on any malformed
/// input.
pub fn parse_major_version(v: &str) -> (m: u32)
    ensures
        m as nat == major_of(v@),
{
    let len = v.unicode_len();
    if len == 0 || v.get_char(0) != 'v' {
        return 0;
    }
    let ghost tail = v@.drop_first();
    let mut end: usize = 1;
    while end < len && v.get_char(end) != '.'
        invariant
            1 <= end <= len,
            len == v@.len(),
            forall|j: int| 1 <= j < end ==> v@[j] != '.',
        decreases len - end,
    {
        end += 1;
    }
    proof {
        assert forall|j: int| 0 <= j < end - 1 implies tail[j] != '.' by {
            assert(tail[j] == v@[j + 1]);
        }
        if end < len {
            assert(tail[end - 1] == v@[end as int]);
        }
        lemma_component_end_at(tail, end - 1);
    }
    let ghost comp = tail.subrange(0, end - 1);
    if end == 1 {
        proof {
            assert(comp.len() == 0);
        }
        return 0;
    }
    let mut value: u64 = 0;
    let mut i: usize = 1;
    while i < end
        invariant
            1 <= i <= end <= len,
            len == v@.len(),
            v@[0] == 'v',
            comp == tail.subrange(0, end - 1),
            tail == v@.drop_first(),
            component_end(tail) == end - 1,
            comp.len() == end - 1,
            forall|j: int| 0 <= j < comp.len() ==> comp[j] == v@[j + 1],
            all_digits(comp.subrange(0, i - 1)),
            value as nat == digits_value(comp.subrange(0, i - 1)),
            value <= u32::MAX,
        decreases end - i,
    {
        let c = v.get_char(i);
        proof {
            assert(comp[i - 1] == v@[i as int]);
        }
        match char_digit(c) {
            None => {
                proof {
                    assert(!is_digit(comp[i - 1]));
                    assert(!all_digits(comp));
                }
                return 0;
            },
            Some(d) => {
                let next: u64 = value * 10 + d as u64;
                proof {
                    let prefix = comp.subrange(0, i - 1);
                    let extended = comp.subrange(0, i as int);
                    assert(extended.drop_last() =~= prefix);
                    assert(extended.last() == comp[i - 1]);
                }
                if next > u32::MAX as u64 {
                    proof {
                        if all_digits(comp) {
                            lemma_digits_value_prefix(comp, i as int);
                        }
                    }
                    return 0;
                }
                value = next;
                i += 1;
            },
        }
    }
    proof {
        assert(comp.subrange(0, i - 1) =~= comp);
    }
    value as u32
}

/// Whether the probed runtime version string, if any, meets the
/// minimum-major-version policy.
pub fn check_node_version_requirement(version: &Option<String>) -> (ok: bool)
    ensures
        ok == version_requirement_met(version.deep_view()),
{
    match version {
        Some(v) => parse_major_version(v.as_str()) >= MIN_NODE_MAJOR,
        None => false,
    }
}

} // verus!
