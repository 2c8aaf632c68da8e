//! The known configuration schema versions, their order and their aliases.
use vstd::prelude::*;

verus! {

/// One generation of the configuration file's shape, location and format.
#[derive(Debug, Clone, Copy, PartialEq, Eq, Hash, Structural)]
pub enum Version {
    V01X,
    V02X,
    V03X,
}

/// The versions in upgrade order, oldest first.
pub open spec fn versions_spec() -> Seq<Version> {
    seq![Version::V01X, Version::V02X, Version::V03X]
}

/// The position of a version in the upgrade order.
pub open spec fn version_index(v: Version) -> nat {
    match v {
        Version::V01X => 0,
        Version::V02X => 1,
        Version::V03X => 2,
    }
}

/// The newest known version, which unknown aliases resolve to.
pub open spec fn newest_version() -> Version {
    Version::V03X
}

/// The canonical alias of each version.
pub open spec fn alias_of(v: Version) -> Seq<char> {
    match v {
        Version::V01X => "0.1.x"@,
        Version::V02X => "0.2.x"@,
        Version::V03X => "0.3.x"@,
    }
}

/// The version that an external string names: the version whose alias it is,
/// or the newest version when it is no alias at all.
pub open spec fn resolve_spec(s: Seq<char>) -> Version {
    if s == alias_of(Version::V01X) {
        Version::V01X
    } else if s == alias_of(Version::V02X) {
        Version::V02X
    } else {
        newest_version()
    }
}

/// Character-wise equality of two strings.
fn str_equals(a: &str, b: &str) -> (r: bool)
    ensures
        r == (a@ == b@),
{
    let n = a.unicode_len();
    if n != b.unicode_len() {
        return false;
    }
    let mut i: usize = 0;
    while i < n
        invariant
            n == a@.len(),
            n == b@.len(),
            i <= n,
            a@.subrange(0, i as int) == b@.subrange(0, i as int),
        decreases n - i,
    {
        if a.get_char(i) != b.get_char(i) {
            assert(a@[i as int] != b@[i as int]);
            return false;
        }
        assert(a@.subrange(0, i + 1) == a@.subrange(0, i as int).push(a@[i as int]));
        assert(b@.subrange(0, i + 1) == b@.subrange(0, i as int).push(b@[i as int]));
        i = i + 1;
    }
    assert(a@ == a@.subrange(0, n as int));
    assert(b@ == b@.subrange(0, n as int));
    true
}

/// Returns the versions used while upgrading the configuration, oldest first.
pub fn get_versions() -> (r: Vec<Version>)
    ensures
        r@ == versions_spec(),
{
    let r = vec![Version::V01X, Version::V02X, Version::V03X];
    assert(r@ == versions_spec());
    r
}

/// Returns the version that `version_to_convert` names; a string that is no
/// known alias names the newest version.
pub fn get_version_as_enum_variant(version_to_convert: &str) -> (r: Version)
    ensures
        r == resolve_spec(version_to_convert@),
{
    if str_equals(version_to_convert, "0.1.x") {
        Version::V01X
    } else if str_equals(version_to_convert, "0.2.x") {
        Version::V02X
    } else {
        Version::V03X
    }
}

/// Returns the canonical alias of a version.
pub fn version_alias(v: Version) -> (r: &'static str)
    ensures
        r@ == alias_of(v),
{
    match v {
        Version::V01X => "0.1.x",
        Version::V02X => "0.2.x",
        Version::V03X => "0.3.x",
    }
}

/// Indicates whether a version is one of the versions that can be upgraded to.
pub fn is_version_in_accepted_versions(version: &Version) -> (r: bool)
    ensures
        r == versions_spec().contains(*version),
{
    let accepted_versions = get_versions();
    let mut i: usize = 0;
    while i < accepted_versions.len()
        invariant
            accepted_versions@ == versions_spec(),
            i <= accepted_versions@.len(),
            forall|j: int| 0 <= j < i ==> accepted_versions@[j] != *version,
        decreases accepted_versions@.len() - i,
    {
        if accepted_versions[i] == *version {
            assert(versions_spec()[i as int] == *version);
            return true;
        }
        i = i + 1;
    }
    false
}

/// Returns the position of a version in the upgrade order.
pub fn index_of_version(v: Version) -> (r: usize)
    ensures
        r as nat == version_index(v),
        versions_spec()[r as int] == v,
{
    match v {
        Version::V01X => 0,
        Version::V02X => 1,
        Version::V03X => 2,
    }
}

/// Every version has a distinct position in the upgrade order, and the order
/// holds each version exactly at its position.
pub proof fn lemma_versions_ordered()
    ensures
        versions_spec().len() == 3,
        forall|v: Version| versions_spec()[version_index(v) as int] == v,
        forall|v: Version| #[trigger] versions_spec().contains(v),
        forall|i: int| 0 <= i < 3 ==> version_index(#[trigger] versions_spec()[i]) == i,
{
    assert forall|v: Version| #[trigger] versions_spec().contains(v) by {
        assert(versions_spec()[version_index(v) as int] == v);
    }
}

/// Resolving the canonical alias of any version gives that version back.
pub proof fn lemma_alias_round_trip(v: Version)
    ensures
        resolve_spec(alias_of(v)) == v,
{
    reveal_strlit("0.1.x");
    reveal_strlit("0.2.x");
    reveal_strlit("0.3.x");
    assert(alias_of(Version::V01X)[2] != alias_of(Version::V02X)[2]);
    assert(alias_of(Version::V01X)[2] != alias_of(Version::V03X)[2]);
    assert(alias_of(Version::V02X)[2] != alias_of(Version::V03X)[2]);
}

/// A string that is the alias of no version resolves to the newest version.
pub proof fn lemma_unknown_alias_resolves_to_newest(s: Seq<char>)
    requires
        forall|v: Version| alias_of(v) != s,
    ensures
        resolve_spec(s) == newest_version(),
{
    assert(alias_of(Version::V01X) != s);
    assert(alias_of(Version::V02X) != s);
}

} // verus!
