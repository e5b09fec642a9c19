//! Validation helpers for configuration values: decimal numbers, port
//! numbers and IPv4 literals, plus the two file-system probes.

use vstd::prelude::*;

verus! {

/// Whether `c` is a decimal digit.
pub open spec fn is_digit_char(c: char) -> bool {
    48 <= c as int <= 57
}

/// The numeric value of the digit `c`.
pub open spec fn digit_val(c: char) -> int {
    c as int - 48
}

/// Whether every character of `s` is a decimal digit.
pub open spec fn all_digits(s: Seq<char>) -> bool {
    forall|i: int| 0 <= i < s.len() ==> is_digit_char(#[trigger] s[i])
}

/// The value of `s` read as a decimal numeral (most significant digit
/// first). Unconstrained characters contribute their offset from '0'.
pub open spec fn dec_value(s: Seq<char>) -> int
    decreases s.len(),
{
    if s.len() == 0 {
        0
    } else {
        dec_value(s.drop_last()) * 10 + digit_val(s.last())
    }
}

/// The digits of an integer literal: `s` with one leading '+' removed.
pub open spec fn u64_body(s: Seq<char>) -> Seq<char> {
    if s.len() > 0 && s[0] == '+' {
        s.skip(1)
    } else {
        s
    }
}

/// Whether `s` is accepted by `u64`'s decimal parser: an optional leading
/// '+', then one or more digits, with a value that fits in 64 bits.
pub open spec fn u64_parses(s: Seq<char>) -> bool {
    &&& u64_body(s).len() > 0
    &&& all_digits(u64_body(s))
    &&& dec_value(u64_body(s)) <= u64::MAX
}

/// A digit string's value is never negative.
proof fn lemma_dec_value_nonneg(s: Seq<char>)
    requires
        all_digits(s),
    ensures
        dec_value(s) >= 0,
    decreases s.len(),
{
    if s.len() > 0 {
        assert(all_digits(s.drop_last()));
        lemma_dec_value_nonneg(s.drop_last());
    }
}

/// Extending a digit string with further digits never lowers its value.
proof fn lemma_dec_value_prefix(s: Seq<char>, k: int)
    requires
        all_digits(s),
        0 <= k <= s.len(),
    ensures
        dec_value(s.take(k)) <= dec_value(s),
    decreases s.len() - k,
{
    if k == s.len() {
        assert(s.take(k) =~= s);
    } else {
        assert(s.take(k + 1).drop_last() =~= s.take(k));
        assert(all_digits(s.take(k)));
        lemma_dec_value_nonneg(s.take(k));
        assert(dec_value(s.take(k + 1)) == dec_value(s.take(k)) * 10 + digit_val(s.take(k + 1).last()));
        lemma_dec_value_prefix(s, k + 1);
    }
}

/// Parses `s` as `str::parse::<u64>` does: an optional leading '+', then
/// one or more decimal digits whose value fits in a `u64`.
pub fn parse_u64_str(s: &str) -> (r: Option<u64>)
    ensures
        r is Some <==> u64_parses(s@),
        r matches Some(v) ==> v == dec_value(u64_body(s@)),
{
    let n = s.unicode_len();
    let start: usize = if n > 0 && s.get_char(0) == '+' {
        1
    } else {
        0
    };
    assert(u64_body(s@) =~= s@.skip(start as int));
    if n == start {
        return None;
    }
    let ghost body = s@.skip(start as int);
    let mut acc: u64 = 0;
    let mut i: usize = start;
    while i < n
        invariant
            start <= i <= n,
            n == s@.len(),
            body == s@.skip(start as int),
            u64_body(s@) == body,
            body.len() == n - start,
            all_digits(body.take(i - start)),
            acc == dec_value(body.take(i - start)),
        decreases n - i,
    {
        let c = s.get_char(i);
        let u = c as u32;
        if !(48 <= u && u <= 57) {
            proof {
                assert(body[i - start] == c);
                assert(!is_digit_char(body[i - start]));
            }
            return None;
        }
        let d = (u - 48) as u64;
        assert(d <= 9);
        if acc > (u64::MAX - d) / 10 {
            proof {
                let k = i - start + 1;
                assert(body.take(k).drop_last() =~= body.take(k - 1));
                assert(body.take(k).last() == c);
                assert(dec_value(body.take(k)) == acc * 10 + d);
                vstd::arithmetic::div_mod::lemma_fundamental_div_mod((u64::MAX - d) as int, 10);
                assert(acc * 10 + d > u64::MAX);
                if u64_parses(s@) {
                    assert(all_digits(body.take(k)));
                    lemma_dec_value_prefix(body, k);
                }
            }
            return None;
        }
        proof {
            vstd::arithmetic::div_mod::lemma_fundamental_div_mod((u64::MAX - d) as int, 10);
            assert(acc * 10 <= 10 * ((u64::MAX - d) / 10));
            assert(acc * 10 + d <= u64::MAX);
            let k = i - start + 1;
            assert(body.take(k).drop_last() =~= body.take(k - 1));
            assert(body.take(k).last() == c);
            assert(is_digit_char(c));
            assert(all_digits(body.take(k)));
        }
        acc = acc * 10 + d;
        i = i + 1;
    }
    proof {
        assert(body.take(n - start) =~= body);
    }
    Some(acc)
}

/// Whether `s` names a usable port: a decimal numeral whose value lies
/// strictly between 0 and 65535.
pub open spec fn spec_valid_port(s: Seq<char>) -> bool {
    u64_parses(s) && 0 < dec_value(u64_body(s)) < 65535
}

/// Accepts exactly the port strings whose numeric value lies in 1..=65534.
pub fn check_valid_port(port: &String) -> (r: bool)
    ensures
        r == spec_valid_port(port@),
{
    match parse_u64_str(port.as_str()) {
        Some(p) => p > 0 && p < 65535,
        None => false,
    }
}

/// The index of the first occurrence of `c` in `s`, or `s.len()` when
/// there is none.
pub open spec fn first_index_of(s: Seq<char>, c: char) -> int
    decreases s.len(),
{
    if s.len() == 0 {
        0
    } else if s[0] == c {
        0
    } else {
        1 + first_index_of(s.skip(1), c)
    }
}

/// A scan that saw no `c` before position `m`, and one (or the end) at `m`,
/// has found the first occurrence.
proof fn lemma_first_index_at(s: Seq<char>, c: char, m: int)
    requires
        0 <= m <= s.len(),
        forall|j: int| 0 <= j < m ==> s[j] != c,
        m < s.len() ==> s[m] == c,
    ensures
        first_index_of(s, c) == m,
    decreases m,
{
    if m == 0 {
        if s.len() > 0 && s[0] != c {
            assert(m < s.len());
        }
    } else {
        assert(s[0] != c);
        assert forall|j: int| 0 <= j < m - 1 implies s.skip(1)[j] != c by {
            assert(s.skip(1)[j] == s[j + 1]);
        }
        assert(m - 1 < s.skip(1).len() ==> s.skip(1)[m - 1] == c);
        lemma_first_index_at(s.skip(1), c, m - 1);
    }
}

/// Returns the position of the first `c` in `s` at or after `from`, or
/// `s.len()` when there is none.
pub fn find_char_from(s: &str, from: usize, c: char) -> (r: usize)
    requires
        from <= s@.len(),
    ensures
        from <= r <= s@.len(),
        r - from == first_index_of(s@.skip(from as int), c),
        r < s@.len() ==> s@[r as int] == c,
        forall|j: int| from <= j < r ==> s@[j] != c,
{
    let n = s.unicode_len();
    let mut end = from;
    while end < n && s.get_char(end) != c
        invariant
            from <= end <= n,
            n == s@.len(),
            forall|j: int| from <= j < end ==> s@[j] != c,
        decreases n - end,
    {
        end = end + 1;
    }
    proof {
        let rest = s@.skip(from as int);
        assert forall|j: int| 0 <= j < end - from implies rest[j] != c by {
            assert(rest[j] == s@[j + from]);
        }
        lemma_first_index_at(rest, c, end - from);
    }
    end
}

/// Whether `s` is one valid dotted-quad component: one to three digits, no
/// leading zero unless the component is exactly "0", and a value at most 255.
pub open spec fn valid_octet(s: Seq<char>) -> bool {
    &&& 1 <= s.len() <= 3
    &&& all_digits(s)
    &&& (s.len() == 1 || s[0] != '0')
    &&& dec_value(s) <= 255
}

/// Whether `s` splits at its first dots into `parts` valid octets.
pub open spec fn valid_ipv4_parts(s: Seq<char>, parts: int) -> bool
    decreases parts,
{
    if parts <= 1 {
        valid_octet(s)
    } else {
        let i = first_index_of(s, '.');
        &&& i < s.len()
        &&& valid_octet(s.take(i))
        &&& valid_ipv4_parts(s.skip(i + 1), parts - 1)
    }
}

/// Whether `s` is an IPv4 literal as `core::net::Ipv4Addr`'s parser accepts
/// it: four valid octets separated by single dots, nothing else.
pub open spec fn spec_valid_ipv4(s: Seq<char>) -> bool {
    valid_ipv4_parts(s, 4)
}

/// A digit string of at most three digits is worth at most 999.
proof fn lemma_dec_value_small(s: Seq<char>)
    requires
        all_digits(s),
        s.len() <= 3,
    ensures
        dec_value(s) <= if s.len() == 0 {
            0int
        } else if s.len() == 1 {
            9int
        } else if s.len() == 2 {
            99int
        } else {
            999int
        },
    decreases s.len(),
{
    if s.len() > 0 {
        assert(all_digits(s.drop_last()));
        lemma_dec_value_small(s.drop_last());
    }
}

/// Decides whether `s[from..to]` is one valid dotted-quad component.
fn check_octet(s: &str, from: usize, to: usize) -> (r: bool)
    requires
        from <= to <= s@.len(),
    ensures
        r == valid_octet(s@.subrange(from as int, to as int)),
{
    let ghost seg = s@.subrange(from as int, to as int);
    let len = to - from;
    if len < 1 || len > 3 {
        return false;
    }
    if len > 1 && s.get_char(from) == '0' {
        return false;
    }
    let mut v: u32 = 0;
    let mut i = from;
    while i < to
        invariant
            from <= i <= to <= s@.len(),
            to - from <= 3,
            seg == s@.subrange(from as int, to as int),
            all_digits(seg.take(i - from)),
            v == dec_value(seg.take(i - from)),
        decreases to - i,
    {
        let c = s.get_char(i);
        let u = c as u32;
        if !(48 <= u && u <= 57) {
            proof {
                assert(seg[i - from] == c);
            }
            return false;
        }
        proof {
            let k = i - from + 1;
            assert(seg.take(k).drop_last() =~= seg.take(k - 1));
            assert(seg.take(k).last() == c);
            lemma_dec_value_small(seg.take(k - 1));
        }
        v = v * 10 + (u - 48);
        i = i + 1;
    }
    proof {
        assert(seg.take(to - from) =~= seg);
    }
    v <= 255
}

/// Accepts exactly the IPv4 literals that `core::net::Ipv4Addr` parses:
/// four octets of one to three digits each, values at most 255, no leading
/// zeros, separated by single dots.
pub fn check_valid_ipv4(ip: &String) -> (r: bool)
    ensures
        r == spec_valid_ipv4(ip@),
{
    let s = ip.as_str();
    let n = s.unicode_len();
    let mut pos: usize = 0;
    let mut part: usize = 0;
    proof {
        assert(s@.skip(0) =~= s@);
    }
    loop
        invariant
            s@ == ip@,
            part <= 3,
            pos <= n,
            n == s@.len(),
            spec_valid_ipv4(s@) == valid_ipv4_parts(s@.skip(pos as int), 4 - part),
        decreases 3 - part,
    {
        let ghost rest = s@.skip(pos as int);
        let end = find_char_from(s, pos, '.');
        if part == 3 {
            if end < n {
                proof {
                    assert(rest[end - pos] == s@[end as int]);
                    assert(!is_digit_char(rest[end - pos]));
                }
                return false;
            }
            proof {
                assert(s@.subrange(pos as int, n as int) =~= rest);
            }
            return check_octet(s, pos, n);
        }
        if end == n {
            return false;
        }
        if !check_octet(s, pos, end) {
            proof {
                assert(s@.subrange(pos as int, end as int) =~= rest.take(end - pos));
            }
            return false;
        }
        proof {
            assert(s@.subrange(pos as int, end as int) =~= rest.take(end - pos));
            assert(s@.skip(end + 1) =~= rest.skip(end - pos + 1));
        }
        pos = end + 1;
        part = part + 1;
    }
}

/// Relies on `std::path::Path::is_dir`: the answer comes from the file
/// system, so nothing is promised of the result.
#[verifier::external_body]
pub fn path_exists(p: &String) -> bool {
    std::path::Path::new(&p).is_dir()
}

/// Relies on `std::path::Path::is_file`: the answer comes from the file
/// system, so nothing is promised of the result.
#[verifier::external_body]
pub fn file_exists(p: &String) -> bool {
    std::path::Path::new(&p).is_file()
}

} // verus!
