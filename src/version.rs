use vstd::prelude::*;

verus! {

/// A server release as `major.minor.patch`.
#[derive(Clone, Copy, Debug, PartialEq, Eq, Structural)]
pub struct ServerVersion {
    pub major: u64,
    pub minor: u64,
    pub patch: u64,
}

/// Why a version string could not be read.
#[derive(Clone, Copy, Debug, PartialEq, Eq, Structural)]
pub enum VersionError {
    Malformed,
}

/// semver's parse error, mapped to `VersionError` by `parse_server_version`.
#[verifier::external_type_specification]
#[verifier::external_body]
pub struct ExSemverError(semver::Error);

pub open spec fn digit_char(d: nat) -> char {
    seq!['0', '1', '2', '3', '4', '5', '6', '7', '8', '9'][d as int]
}

/// Canonical decimal text of `n`: no sign, no leading zero.
pub open spec fn decimal(n: nat) -> Seq<char>
    decreases n,
{
    if n < 10 {
        seq![digit_char(n)]
    } else {
        decimal(n / 10).push(digit_char(n % 10))
    }
}

/// The text `major.minor.patch` of `v`.
pub open spec fn version_text(v: ServerVersion) -> Seq<char> {
    decimal(v.major as nat) + seq!['.'] + decimal(v.minor as nat) + seq!['.'] + decimal(
        v.patch as nat,
    )
}

/// `t` begins with the text of `v`, followed by nothing, a pre-release or build part.
pub open spec fn begins_with_version(t: Seq<char>, v: ServerVersion) -> bool {
    let n = version_text(v).len();
    n <= t.len() && t.take(n as int) == version_text(v) && (n == t.len() || t[n as int] == '-'
        || t[n as int] == '+')
}

/// The part of `s` before its first `-`.
pub open spec fn before_dash(s: Seq<char>) -> Seq<char>
    decreases s.len(),
{
    if s.len() == 0 {
        s
    } else if s[0] == '-' {
        Seq::empty()
    } else {
        seq![s[0]] + before_dash(s.drop_first())
    }
}

/// Relies on semver::Version::parse: the text `major.minor.patch` in canonical
/// decimal parses to those numbers, a parsed version's numbers begin the text,
/// and an empty text is refused.
#[verifier::external_body]
fn semver_parse(text: &str) -> (r: Result<ServerVersion, semver::Error>)
    ensures
        forall|v: ServerVersion| #[trigger] version_text(v) == text@ ==> (r is Ok && r->Ok_0 == v),
        r matches Ok(v) ==> begins_with_version(text@, v),
        text@.len() == 0 ==> r is Err,
{
    match semver::Version::parse(text) {
        Ok(v) => Ok(ServerVersion { major: v.major, minor: v.minor, patch: v.patch }),
        Err(e) => Err(e),
    }
}

/// `(a, b, c) >= (x, y, z)` in lexicographic order.
pub open spec fn triple_ge(v: ServerVersion, major: u64, minor: u64, patch: u64) -> bool {
    v.major > major || (v.major == major && (v.minor > minor || (v.minor == minor && v.patch
        >= patch)))
}

/// Relies on semver::Comparator::matches with the `>=` operator and no
/// pre-release: a version without pre-release matches when it is at least the
/// comparator's numbers, an absent patch standing for any patch.
#[verifier::external_body]
pub(crate) fn semver_at_least(v: &ServerVersion, major: u64, minor: u64, patch: Option<u64>) -> (r:
    bool)
    ensures
        r == triple_ge(
            *v,
            major,
            minor,
            match patch {
                Some(p) => p,
                None => 0,
            },
        ),
{
    let cmp = semver::Comparator {
        op: semver::Op::GreaterEq,
        major,
        minor: Some(minor),
        patch,
        pre: semver::Prerelease::EMPTY,
    };
    cmp.matches(&semver::Version::new(v.major, v.minor, v.patch))
}

/// Index of the first `-` of `s`, or its length.
fn dash_index(s: &str) -> (r: usize)
    ensures
        r <= s@.len(),
        before_dash(s@) == s@.take(r as int),
{
    let n = s.unicode_len();
    let mut i: usize = 0;
    while i < n
        invariant
            n == s@.len(),
            i <= n,
            forall|j: int| 0 <= j < i ==> s@[j] != '-',
        ensures
            i <= n,
            forall|j: int| 0 <= j < i ==> s@[j] != '-',
            i == n || s@[i as int] == '-',
        decreases n - i,
    {
        if s.get_char(i) == '-' {
            break;
        }
        i = i + 1;
    }
    proof {
        lemma_before_dash(s@, i as int);
    }
    i
}

proof fn lemma_before_dash(s: Seq<char>, i: int)
    requires
        0 <= i <= s.len(),
        forall|j: int| 0 <= j < i ==> s[j] != '-',
        i == s.len() || s[i] == '-',
    ensures
        before_dash(s) == s.take(i),
    decreases i,
{
    if i == 0 {
        assert(s.take(0) =~= Seq::<char>::empty());
    } else {
        lemma_before_dash(s.drop_first(), i - 1);
        assert(s.take(i) =~= seq![s[0]] + s.drop_first().take(i - 1));
    }
}

/// Reads a server's reported version: the part before the first `-` is
/// parsed as `major.minor.patch`.
pub fn parse_server_version(text: &str) -> (r: Result<ServerVersion, VersionError>)
    ensures
        forall|v: ServerVersion| #[trigger] version_text(v) == before_dash(text@) ==> (r is Ok
            && r->Ok_0 == v),
        r matches Ok(v) ==> begins_with_version(before_dash(text@), v),
        before_dash(text@).len() == 0 ==> r is Err,
        r is Err ==> r->Err_0 == VersionError::Malformed,
{
    let k = dash_index(text);
    let core = text.substring_char(0, k);
    match semver_parse(core) {
        Ok(v) => Ok(v),
        Err(_) => Err(VersionError::Malformed),
    }
}

} // verus!
