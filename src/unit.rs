use vstd::prelude::*;
use vstd::string::*;

verus! {

/// `suffix` is a tail of `s`.
pub open spec fn has_suffix(s: Seq<char>, suffix: Seq<char>) -> bool {
    suffix.len() <= s.len() && s.subrange(s.len() - suffix.len(), s.len() as int) == suffix
}

/// Whether `s` ends with `suffix`, compared character by character.
pub fn ends_with(s: &str, suffix: &str) -> (r: bool)
    ensures
        r == has_suffix(s@, suffix@),
{
    let n = s.unicode_len();
    let m = suffix.unicode_len();
    if m > n {
        return false;
    }
    let off = n - m;
    let mut i: usize = 0;
    while i < m
        invariant
            n == s@.len(),
            m == suffix@.len(),
            off == n - m,
            i <= m,
            forall|j: int| 0 <= j < i ==> s@[off + j] == suffix@[j],
        decreases m - i,
    {
        if s.get_char(off + i) != suffix.get_char(i) {
            assert(s@.subrange(off as int, n as int)[i as int] != suffix@[i as int]);
            return false;
        }
        i += 1;
    }
    assert(s@.subrange(off as int, n as int) =~= suffix@);
    true
}

/// Suffix of a service unit name.
pub const SERVICE_SUFFIX: &'static str = ".service";

/// Suffix of a socket unit name.
pub const SOCKET_SUFFIX: &'static str = ".socket";

/// Suffix of a device unit name.
pub const DEVICE_SUFFIX: &'static str = ".device";

/// A unit name is acceptable when it ends in one of the recognized type suffixes.
pub open spec fn valid_unit(unit: Seq<char>) -> bool {
    has_suffix(unit, SERVICE_SUFFIX@) || has_suffix(unit, SOCKET_SUFFIX@) || has_suffix(
        unit,
        DEVICE_SUFFIX@,
    )
}

/// Whether `unit` names a service, a socket or a device.
pub fn is_valid_unit(unit: &str) -> (r: bool)
    ensures
        r == valid_unit(unit@),
{
    ends_with(unit, SERVICE_SUFFIX) || ends_with(unit, SOCKET_SUFFIX) || ends_with(
        unit,
        DEVICE_SUFFIX,
    )
}

/// Whether `a` and `b` hold the same characters.
pub fn same_text(a: &str, b: &str) -> (r: bool)
    ensures
        r == (a@ == b@),
{
    if a.unicode_len() != b.unicode_len() {
        return false;
    }
    let r = ends_with(a, b);
    assert(a@.subrange(0, a@.len() as int) =~= a@);
    r
}

} // verus!
