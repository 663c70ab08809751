//! Reading a port-owner listing. To terminate whatever holds the target
//! port, the caller runs the platform's listing tool and hands its output
//! in line by line; these functions decide which lines name a listener on
//! the port and extract the process id at the end of the line.

use vstd::prelude::*;
use crate::text::{chars_of, contains_chars, contains_seq, spec_digits, u32_to_string};

verus! {

/// Whitespace as the listings use it.
pub open spec fn is_space(c: char) -> bool {
    c == ' ' || c == '\t' || c == '\r'
}

/// The numeric value of one decimal digit character, -1 for any other.
pub open spec fn digit_value(c: char) -> int {
    if c == '0' {
        0
    } else if c == '1' {
        1
    } else if c == '2' {
        2
    } else if c == '3' {
        3
    } else if c == '4' {
        4
    } else if c == '5' {
        5
    } else if c == '6' {
        6
    } else if c == '7' {
        7
    } else if c == '8' {
        8
    } else if c == '9' {
        9
    } else {
        -1
    }
}

pub open spec fn is_digit(c: char) -> bool {
    digit_value(c) >= 0
}

pub open spec fn all_digits(s: Seq<char>) -> bool {
    forall|i: int| 0 <= i < s.len() ==> is_digit(s[i])
}

/// The number a digit string denotes, most significant digit first.
pub open spec fn spec_num(s: Seq<char>) -> int
    decreases s.len(),
{
    if s.len() == 0 {
        0
    } else {
        spec_num(s.drop_last()) * 10 + digit_value(s.last())
    }
}

/// What parsing a string as a decimal 32-bit number yields: a value for a
/// nonempty all-digit string that fits, nothing otherwise.
pub open spec fn spec_parse_u32(s: Seq<char>) -> Option<u32> {
    if s.len() > 0 && all_digits(s) && spec_num(s) <= u32::MAX {
        Some(spec_num(s) as u32)
    } else {
        None
    }
}

proof fn lemma_num_nonneg(s: Seq<char>)
    requires
        all_digits(s),
    ensures
        spec_num(s) >= 0,
    decreases s.len(),
{
    if s.len() > 0 {
        assert(all_digits(s.drop_last()));
        lemma_num_nonneg(s.drop_last());
    }
}

/// A digit string denotes at least what any of its prefixes denotes.
proof fn lemma_num_prefix(s: Seq<char>, k: int)
    requires
        all_digits(s),
        0 <= k <= s.len(),
    ensures
        spec_num(s.take(k)) <= spec_num(s),
    decreases s.len(),
{
    if k == s.len() {
        assert(s.take(k) =~= s);
    } else {
        let t = s.drop_last();
        assert(all_digits(t));
        assert(s.take(k) =~= t.take(k));
        lemma_num_prefix(t, k);
        lemma_num_nonneg(t);
    }
}

/// The numeric value of one decimal digit character.
fn digit_of(c: char) -> (r: Option<u32>)
    ensures
        (match r {
            Some(d) => d as int == digit_value(c) && digit_value(c) >= 0,
            None => digit_value(c) < 0,
        }),
{
    match c {
        '0' => Some(0),
        '1' => Some(1),
        '2' => Some(2),
        '3' => Some(3),
        '4' => Some(4),
        '5' => Some(5),
        '6' => Some(6),
        '7' => Some(7),
        '8' => Some(8),
        '9' => Some(9),
        _ => None,
    }
}

/// Whether `c` counts as whitespace in a listing.
fn space(c: char) -> (r: bool)
    ensures
        r == is_space(c),
{
    c == ' ' || c == '\t' || c == '\r'
}

/// Parses `chars[start..end]` as a decimal 32-bit number.
fn parse_u32_range(chars: &Vec<char>, start: usize, end: usize) -> (r: Option<u32>)
    requires
        start <= end <= chars@.len(),
    ensures
        r == spec_parse_u32(chars@.subrange(start as int, end as int)),
{
    let ghost sub = chars@.subrange(start as int, end as int);
    if start == end {
        return None;
    }
    let mut acc: u64 = 0;
    let mut k: usize = start;
    while k < end
        invariant
            start <= k <= end <= chars@.len(),
            sub == chars@.subrange(start as int, end as int),
            acc <= u32::MAX,
            acc as int == spec_num(sub.take(k - start)),
            all_digits(sub.take(k - start)),
        decreases end - k,
    {
        let ghost j = k - start;
        let d = match digit_of(chars[k]) {
            Some(d) => d,
            None => {
                proof {
                    assert(sub[j as int] == chars@[k as int]);
                    assert(!is_digit(sub[j as int]));
                    assert(!all_digits(sub));
                }
                return None;
            },
        };
        proof {
            assert(sub.take(j + 1).drop_last() =~= sub.take(j as int));
            assert(sub.take(j + 1).last() == chars@[k as int]);
            assert(forall|i: int|
                0 <= i < j + 1 ==> #[trigger] sub.take(j + 1)[i] == sub.take(j + 1)[i]);
            assert(all_digits(sub.take(j + 1))) by {
                assert(forall|i: int| 0 <= i < j ==> sub.take(j + 1)[i] == sub.take(j as int)[i]);
            }
        }
        acc = acc * 10 + (d as u64);
        assert(acc as int == spec_num(sub.take(j + 1)));
        if acc > 0xffff_ffff {
            proof {
                if all_digits(sub) {
                    lemma_num_prefix(sub, j + 1);
                }
            }
            return None;
        }
        k = k + 1;
    }
    proof {
        assert(sub.take(end - start) =~= sub);
    }
    Some(acc as u32)
}

/// The characters left when trailing whitespace goes.
pub open spec fn strip_trailing(s: Seq<char>) -> Seq<char>
    decreases s.len(),
{
    if s.len() > 0 && is_space(s.last()) {
        strip_trailing(s.drop_last())
    } else {
        s
    }
}

/// The characters left when leading whitespace goes.
pub open spec fn strip_leading(s: Seq<char>) -> Seq<char>
    decreases s.len(),
{
    if s.len() > 0 && is_space(s[0]) {
        strip_leading(s.drop_first())
    } else {
        s
    }
}

/// The maximal run of non-whitespace characters at the end.
pub open spec fn last_run(s: Seq<char>) -> Seq<char>
    decreases s.len(),
{
    if s.len() == 0 || is_space(s.last()) {
        Seq::empty()
    } else {
        last_run(s.drop_last()) + seq![s.last()]
    }
}

/// The last whitespace-separated token of a line, empty if the line has
/// none.
pub open spec fn spec_last_token(s: Seq<char>) -> Seq<char> {
    last_run(strip_trailing(s))
}

/// The line with leading and trailing whitespace removed.
pub open spec fn spec_trimmed(s: Seq<char>) -> Seq<char> {
    strip_trailing(strip_leading(s))
}

/// Finds the last token of `chars` as a range `[start, end)`.
fn last_token_range(chars: &Vec<char>) -> (r: (usize, usize))
    ensures
        r.0 <= r.1 <= chars@.len(),
        chars@.subrange(r.0 as int, r.1 as int) == spec_last_token(chars@),
{
    let n = chars.len();
    let mut j: usize = n;
    proof {
        assert(chars@.take(n as int) =~= chars@);
    }
    while j > 0 && space(chars[j - 1])
        invariant
            j <= n,
            n == chars@.len(),
            strip_trailing(chars@) == strip_trailing(chars@.take(j as int)),
        decreases j,
    {
        proof {
            assert(chars@.take(j as int).drop_last() =~= chars@.take(j - 1));
        }
        j = j - 1;
    }
    let end = j;
    proof {
        assert(strip_trailing(chars@.take(end as int)) == chars@.take(end as int));
        assert(strip_trailing(chars@) == chars@.take(end as int));
    }
    while j > 0 && !space(chars[j - 1])
        invariant
            j <= end <= n,
            n == chars@.len(),
            strip_trailing(chars@) == chars@.take(end as int),
            last_run(chars@.take(end as int)) == last_run(chars@.take(j as int)) + chars@.subrange(
                j as int,
                end as int,
            ),
        decreases j,
    {
        proof {
            assert(chars@.take(j as int).drop_last() =~= chars@.take(j - 1));
            assert(seq![chars@.take(j as int).last()] + chars@.subrange(j as int, end as int)
                =~= chars@.subrange(j - 1, end as int));
        }
        j = j - 1;
    }
    proof {
        if j == 0 {
            assert(last_run(chars@.take(0)) =~= Seq::<char>::empty());
            assert(Seq::<char>::empty() + chars@.subrange(0, end as int) =~= chars@.subrange(
                0,
                end as int,
            ));
        } else {
            assert(last_run(chars@.take(j as int)) =~= Seq::<char>::empty());
            assert(Seq::<char>::empty() + chars@.subrange(j as int, end as int) =~= chars@.subrange(
                j as int,
                end as int,
            ));
        }
    }
    (j, end)
}

/// What one netstat line yields: the process id at its end, where the line
/// shows a listener on the port — it carries both `:` followed by the
/// port's digits and the word LISTENING — and that trailing token is a
/// number; nothing otherwise.
pub open spec fn spec_listening_pid(line: Seq<char>, port: nat) -> Option<u32> {
    if contains_seq(line, seq![':'] + spec_digits(port)) && contains_seq(line, "LISTENING"@) {
        spec_parse_u32(spec_last_token(line))
    } else {
        None
    }
}

/// Reads one line of a netstat-style listing: the process id of a listener
/// on `port`, if this line shows one.
pub fn pid_of_listening_line(line: &str, port: u16) -> (r: Option<u32>)
    ensures
        r == spec_listening_pid(line@, port as nat),
{
    proof {
        reveal_strlit(":");
    }
    let lc = chars_of(line);
    let pattern = String::from_str(":").concat(u32_to_string(port as u32).as_str());
    let pc = chars_of(pattern.as_str());
    proof {
        assert(pc@ =~= seq![':'] + spec_digits(port as nat));
    }
    if !contains_chars(&lc, &pc) {
        return None;
    }
    if !contains_chars(&lc, &chars_of("LISTENING")) {
        return None;
    }
    let (start, end) = last_token_range(&lc);
    parse_u32_range(&lc, start, end)
}

/// Finds the trimmed line as a range `[start, end)`.
fn trimmed_range(chars: &Vec<char>) -> (r: (usize, usize))
    ensures
        r.0 <= r.1 <= chars@.len(),
        chars@.subrange(r.0 as int, r.1 as int) == spec_trimmed(chars@),
{
    let n = chars.len();
    let mut i: usize = 0;
    proof {
        assert(chars@.skip(0) =~= chars@);
    }
    while i < n && space(chars[i])
        invariant
            i <= n,
            n == chars@.len(),
            strip_leading(chars@) == strip_leading(chars@.skip(i as int)),
        decreases n - i,
    {
        proof {
            assert(chars@.skip(i as int).drop_first() =~= chars@.skip(i + 1));
        }
        i = i + 1;
    }
    proof {
        assert(strip_leading(chars@.skip(i as int)) == chars@.skip(i as int));
        assert(strip_leading(chars@) == chars@.skip(i as int));
    }
    let mut j: usize = n;
    while j > i && space(chars[j - 1])
        invariant
            i <= j <= n,
            n == chars@.len(),
            strip_leading(chars@) == chars@.skip(i as int),
            strip_trailing(chars@.skip(i as int)) == strip_trailing(
                chars@.subrange(i as int, j as int),
            ),
        decreases j,
    {
        proof {
            assert(chars@.subrange(i as int, j as int).drop_last() =~= chars@.subrange(
                i as int,
                j - 1,
            ));
        }
        j = j - 1;
    }
    proof {
        assert(chars@.skip(i as int) =~= chars@.subrange(i as int, n as int));
        assert(strip_trailing(chars@.subrange(i as int, j as int)) == chars@.subrange(
            i as int,
            j as int,
        ));
    }
    (i, j)
}

/// Reads one line of an lsof-style listing, which carries one process id
/// per line: that id, if the trimmed line is a number.
pub fn pid_of_lsof_line(line: &str) -> (r: Option<u32>)
    ensures
        r == spec_parse_u32(spec_trimmed(line@)),
{
    let lc = chars_of(line);
    let (start, end) = trimmed_range(&lc);
    parse_u32_range(&lc, start, end)
}

} // verus!
