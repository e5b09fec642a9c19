//! Release version numbers: the `major.minor.patch` triple carried in a
//! release tag such as `0.3.3-beta-linux`.

use vstd::prelude::*;

use crate::vorutils::dec_value;
use crate::vorutils::find_char_from;
use crate::vorutils::first_index_of;
use crate::vorutils::parse_u64_str;
use crate::vorutils::u64_body;
use crate::vorutils::u64_parses;

verus! {

/// A parsed release version: the numeric triple and the exact text it was
/// read from (the release tag up to its first '-').
pub struct VORVersion {
    pub version_str: String,
    pub major: u64,
    pub minor: u64,
    pub patch: u64,
}

/// The value a version component contributes: its decimal value when it
/// parses as a `u64`, and zero otherwise.
pub open spec fn parsed_or_zero(s: Seq<char>) -> int {
    if u64_parses(s) {
        dec_value(u64_body(s))
    } else {
        0
    }
}

/// The part of a release tag before its first '-'.
pub open spec fn version_core(s: Seq<char>) -> Seq<char> {
    s.take(first_index_of(s, '-'))
}

/// Whether `core` has the shape `X.Y.Z`: exactly two dots.
pub open spec fn version_has_three_parts(core: Seq<char>) -> bool {
    let i = first_index_of(core, '.');
    &&& i < core.len()
    &&& {
        let rest = core.skip(i + 1);
        let j = first_index_of(rest, '.');
        &&& j < rest.len()
        &&& first_index_of(rest.skip(j + 1), '.') == rest.skip(j + 1).len()
    }
}

/// The first component of `core`.
pub open spec fn version_part_major(core: Seq<char>) -> Seq<char> {
    core.take(first_index_of(core, '.'))
}

/// The second component of `core`.
pub open spec fn version_part_minor(core: Seq<char>) -> Seq<char> {
    let rest = core.skip(first_index_of(core, '.') + 1);
    rest.take(first_index_of(rest, '.'))
}

/// The third component of `core`.
pub open spec fn version_part_patch(core: Seq<char>) -> Seq<char> {
    let rest = core.skip(first_index_of(core, '.') + 1);
    rest.skip(first_index_of(rest, '.') + 1)
}

/// Whether `s` yields a version: its core has three components and they do
/// not all read as zero.
pub open spec fn spec_version_parses(s: Seq<char>) -> bool {
    let core = version_core(s);
    &&& version_has_three_parts(core)
    &&& !(parsed_or_zero(version_part_major(core)) == 0
        && parsed_or_zero(version_part_minor(core)) == 0
        && parsed_or_zero(version_part_patch(core)) == 0)
}

/// Reads a release tag: the text before the first '-' must split at dots
/// into exactly three components, each contributing its decimal value (or
/// zero when unreadable), and at least one component must be non-zero.
pub fn parse_vor_version_from_str(version: &str) -> (r: Option<VORVersion>)
    ensures
        r is Some <==> spec_version_parses(version@),
        r matches Some(v) ==> {
            let core = version_core(version@);
            &&& v.version_str@ == core
            &&& v.major == parsed_or_zero(version_part_major(core))
            &&& v.minor == parsed_or_zero(version_part_minor(core))
            &&& v.patch == parsed_or_zero(version_part_patch(core))
        },
{
    let dash = find_char_from(version, 0, '-');
    proof {
        assert(version@.skip(0) =~= version@);
    }
    let seg = version.substring_char(0, dash);
    let ghost core = version_core(version@);
    proof {
        assert(seg@ =~= core);
    }
    let seg_len = seg.unicode_len();
    let i = find_char_from(seg, 0, '.');
    proof {
        assert(seg@.skip(0) =~= seg@);
    }
    if i == seg_len {
        return None;
    }
    let ghost rest = core.skip(i + 1);
    let j = find_char_from(seg, i + 1, '.');
    proof {
        assert(seg@.skip(i + 1) =~= rest);
    }
    if j == seg_len {
        return None;
    }
    let k = find_char_from(seg, j + 1, '.');
    proof {
        assert(rest.skip(j - i) =~= seg@.skip(j + 1));
    }
    if k < seg_len {
        proof {
            assert(seg@[k as int] == rest.skip(j - i)[k - j - 1]);
        }
        return None;
    }
    proof {
        assert(first_index_of(rest.skip(j - i), '.') == rest.skip(j - i).len());
    }
    let p_major = seg.substring_char(0, i);
    let p_minor = seg.substring_char(i + 1, j);
    let p_patch = seg.substring_char(j + 1, seg_len);
    proof {
        assert(p_major@ =~= version_part_major(core));
        assert(p_minor@ =~= rest.take(j - (i + 1)));
        assert(version_part_minor(core) == rest.take(first_index_of(rest, '.')));
        assert(first_index_of(rest, '.') == j - (i + 1));
        assert(p_patch@ =~= version_part_patch(core));
    }
    let major = match parse_u64_str(p_major) {
        Some(v) => v,
        None => 0,
    };
    let minor = match parse_u64_str(p_minor) {
        Some(v) => v,
        None => 0,
    };
    let patch = match parse_u64_str(p_patch) {
        Some(v) => v,
        None => 0,
    };
    if major == 0 && minor == 0 && patch == 0 {
        return None;
    }
    Some(VORVersion { version_str: seg.to_owned(), major, minor, patch })
}

} // verus!
