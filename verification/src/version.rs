//! Version tokens: stability by the parity of the minor version, the
//! normal form of catalog tags, and the resolution of symbolic names.

use vstd::prelude::*;
use crate::releases::{catalog, Release, ReleaseView};
use crate::text::{
    all_digits, chars_of, digits_value, equal, is_digit, is_numeric, lemma_no_match_without_char,
    lemma_split_from_step, lemma_without_absent, numeric, parse_i32, parsed_i32, remove_char,
    slice_of, split, split_by, split_from, starts_with, starts_with_in, string_of, string_views,
    views, without,
};

verus! {

/// Whether a version is a stable release or a development release.
#[derive(Clone, Copy, Debug, PartialEq, Eq, Structural)]
pub enum VersionStability {
    Stable,
    Unstable,
}

/// Why a version token could not be classified or resolved.
#[derive(Clone, Copy, Debug, PartialEq, Eq, Structural)]
pub enum VersionError {
    /// A token without numerals that is not a known symbolic name.
    InvalidSpecifier,
    /// A token with numerals whose second dot-separated part is missing or
    /// is not a 32-bit integer.
    UnparsableMinor,
    /// No release of the catalog has the stability asked for.
    NoMatchingRelease,
}

impl VersionStability {
    /// The stability in lower case, as it is printed.
    pub fn to_string(&self) -> (s: String)
        ensures
            s@ == (match *self {
                VersionStability::Stable => "stable"@,
                VersionStability::Unstable => "unstable"@,
            }),
    {
        match self {
            VersionStability::Stable => "stable".to_owned(),
            VersionStability::Unstable => "unstable".to_owned(),
        }
    }
}

impl VersionError {
    /// The message that is shown for this error.
    pub fn message(&self) -> (s: String)
        ensures
            s@ == (match *self {
                VersionError::InvalidSpecifier => "invalid version specifier"@,
                VersionError::UnparsableMinor => "Failed to parse lilypond minor version."@,
                VersionError::NoMatchingRelease => "Failed to get latest version."@,
            }),
    {
        match self {
            VersionError::InvalidSpecifier => "invalid version specifier".to_owned(),
            VersionError::UnparsableMinor => "Failed to parse lilypond minor version.".to_owned(),
            VersionError::NoMatchingRelease => "Failed to get latest version.".to_owned(),
        }
    }
}

/// The symbolic name of the newest stable release.
pub open spec fn latest_stable() -> Seq<char> {
    "latest-stable"@
}

/// The symbolic name of the newest development release.
pub open spec fn latest_unstable() -> Seq<char> {
    "latest-unstable"@
}

/// The symbolic name of the globally selected version.
pub open spec fn global_name() -> Seq<char> {
    "global"@
}

/// A token without any numeral: it can only be a symbolic name.
pub open spec fn is_alias(token: Seq<char>) -> bool {
    forall|i: int| 0 <= i < token.len() ==> !numeric(#[trigger] token[i])
}

/// The second of the parts of `version` that dots separate, if there is one.
pub open spec fn minor_component(version: Seq<char>) -> Option<Seq<char>> {
    let parts = split(version, seq!['.']);
    if parts.len() > 1 {
        Some(parts[1])
    } else {
        None
    }
}

/// The stability of a token: fixed for the two symbolic names of a latest
/// release, an error for any other token without numerals, and otherwise
/// stable exactly when the minor version is even.
pub open spec fn stability_of(token: Seq<char>) -> Result<VersionStability, VersionError> {
    if token == latest_stable() {
        Ok(VersionStability::Stable)
    } else if token == latest_unstable() {
        Ok(VersionStability::Unstable)
    } else if is_alias(token) {
        Err(VersionError::InvalidSpecifier)
    } else {
        match minor_component(token) {
            None => Err(VersionError::UnparsableMinor),
            Some(minor) => match parsed_i32(minor) {
                None => Err(VersionError::UnparsableMinor),
                Some(n) => Ok(
                    if n % 2 == 0 {
                        VersionStability::Stable
                    } else {
                        VersionStability::Unstable
                    },
                ),
            },
        }
    }
}

/// Whether `version` holds no numeral, as only a symbolic name does.
pub fn is_latest_version(version: &str) -> (b: bool)
    ensures
        b == is_alias(version@),
{
    let v = chars_of(version);
    let mut i: usize = 0;
    while i < v.len()
        invariant
            i <= v.len(),
            v@ == version@,
            forall|j: int| 0 <= j < i ==> !numeric(#[trigger] v@[j]),
        decreases v.len() - i,
    {
        if is_numeric(v[i]) {
            return false;
        }
        i += 1;
    }
    true
}

/// Classifies `version` as stable or unstable.
pub fn get_version_stability(version: &str) -> (r: Result<VersionStability, VersionError>)
    ensures
        r == stability_of(version@),
{
    let v = chars_of(version);
    if equal(&v, &chars_of("latest-stable")) {
        return Ok(VersionStability::Stable);
    }
    if equal(&v, &chars_of("latest-unstable")) {
        return Ok(VersionStability::Unstable);
    }
    if is_latest_version(version) {
        return Err(VersionError::InvalidSpecifier);
    }
    let mut dot: Vec<char> = Vec::new();
    dot.push('.');
    assert(dot@ =~= seq!['.']);
    let parts = split_by(&v, &dot);
    assert(views(parts@).len() == parts@.len());
    if parts.len() < 2 {
        return Err(VersionError::UnparsableMinor);
    }
    assert(views(parts@)[1] == parts@[1]@);
    match parse_i32(&parts[1]) {
        None => Err(VersionError::UnparsableMinor),
        Some(n) => {
            let shifted: i64 = (n as i64) + 0x8000_0000;
            if shifted % 2 == 0 {
                Ok(VersionStability::Stable)
            } else {
                Ok(VersionStability::Unstable)
            }
        },
    }
}

/// The prefix that some catalog tags carry before the version.
pub open spec fn release_prefix() -> Seq<char> {
    "release/"@
}

/// The version that a catalog tag stands for: the tag without its quote
/// characters, then without one leading `v`, then without a leading
/// `release/`.
pub open spec fn normalized(tag: Seq<char>) -> Seq<char> {
    let unquoted = without(tag, '"');
    let bare = if unquoted.len() > 0 && unquoted[0] == 'v' {
        unquoted.skip(1)
    } else {
        unquoted
    };
    if starts_with(bare, release_prefix()) {
        bare.skip(release_prefix().len() as int)
    } else {
        bare
    }
}

/// The version that the catalog tag `tag` stands for.
pub fn normalize_tag(tag: &str) -> (version: String)
    ensures
        version@ == normalized(tag@),
{
    let unquoted = remove_char(&chars_of(tag), '"');
    let start: usize = if unquoted.len() > 0 && unquoted[0] == 'v' {
        1
    } else {
        0
    };
    let bare = slice_of(&unquoted, start, unquoted.len());
    assert(bare@ =~= unquoted@.skip(start as int));
    assert(unquoted@.skip(0) =~= unquoted@);
    let prefix = chars_of("release/");
    if starts_with_in(&bare, &prefix) {
        let rest = slice_of(&bare, prefix.len(), bare.len());
        assert(rest@ =~= bare@.skip(prefix@.len() as int));
        string_of(&rest)
    } else {
        string_of(&bare)
    }
}

/// The tags of the releases that have at least one file, in catalog order.
pub open spec fn tag_names(cat: Seq<ReleaseView>) -> Seq<Seq<char>>
    decreases cat.len(),
{
    if cat.len() == 0 {
        Seq::empty()
    } else if cat.last().links.len() > 0 {
        tag_names(cat.drop_last()).push(cat.last().tag_name)
    } else {
        tag_names(cat.drop_last())
    }
}

/// The versions that a catalog offers: the normal forms of the tags of its
/// releases that have files, in catalog order.
pub open spec fn versions_of(cat: Seq<ReleaseView>) -> Seq<Seq<char>> {
    tag_names(cat).map_values(|tag: Seq<char>| normalized(tag))
}

/// The tags of the releases of `releases` that can be installed.
pub fn get_tag_names(releases: &Vec<Release>) -> (tags: Vec<String>)
    ensures
        string_views(tags@) == tag_names(catalog(releases@)),
{
    let mut tags: Vec<String> = Vec::new();
    let mut i: usize = 0;
    assert(string_views(tags@) =~= tag_names(catalog(releases@).take(0)));
    while i < releases.len()
        invariant
            i <= releases.len(),
            string_views(tags@) == tag_names(catalog(releases@).take(i as int)),
        decreases releases.len() - i,
    {
        let ghost before = string_views(tags@);
        assert(catalog(releases@).take(i + 1).drop_last() =~= catalog(releases@).take(i as int));
        assert(catalog(releases@).take(i + 1).last() == releases@[i as int]@);
        if !releases[i].assets.links.is_empty() {
            tags.push(releases[i].tag_name.clone());
            assert(string_views(tags@) =~= before.push(releases@[i as int]@.tag_name));
        }
        i += 1;
    }
    assert(catalog(releases@).take(releases@.len() as int) =~= catalog(releases@));
    tags
}

/// The versions that `releases` offers.
pub fn get_versions(releases: &Vec<Release>) -> (versions: Vec<String>)
    ensures
        string_views(versions@) == versions_of(catalog(releases@)),
{
    let tags = get_tag_names(releases);
    let mut versions: Vec<String> = Vec::new();
    let mut i: usize = 0;
    while i < tags.len()
        invariant
            i <= tags.len(),
            versions@.len() == i,
            forall|j: int| 0 <= j < i ==> (#[trigger] versions@[j])@ == normalized(tags@[j]@),
        decreases tags.len() - i,
    {
        versions.push(normalize_tag(tags[i].as_str()));
        i += 1;
    }
    assert(string_views(versions@) =~= string_views(tags@).map_values(
        |tag: Seq<char>| normalized(tag),
    ));
    versions
}

/// A token that may be installed or selected: the symbolic name of a latest
/// release, or a version that the catalog offers.
pub open spec fn valid_version(token: Seq<char>, versions: Seq<Seq<char>>) -> bool {
    token == latest_stable() || token == latest_unstable() || versions.contains(token)
}

/// Whether `version` may be installed or selected, given the catalog.
pub fn is_valid_version(version: &String, releases: &Vec<Release>) -> (b: bool)
    ensures
        b == valid_version(version@, versions_of(catalog(releases@))),
{
    let v = chars_of(version.as_str());
    if equal(&v, &chars_of("latest-stable")) || equal(&v, &chars_of("latest-unstable")) {
        return true;
    }
    let versions = get_versions(releases);
    let mut i: usize = 0;
    while i < versions.len()
        invariant
            i <= versions.len(),
            v@ == version@,
            v@ != latest_stable() && v@ != latest_unstable(),
            string_views(versions@) == versions_of(catalog(releases@)),
            forall|j: int| 0 <= j < i ==> string_views(versions@)[j] != version@,
        decreases versions.len() - i,
    {
        assert(string_views(versions@)[i as int] == versions@[i as int]@);
        if equal(&chars_of(versions[i].as_str()), &v) {
            assert(string_views(versions@).contains(version@));
            return true;
        }
        i += 1;
    }
    false
}

/// The error of the first of `versions` that cannot be classified.
pub open spec fn first_failure(versions: Seq<Seq<char>>) -> Option<VersionError>
    decreases versions.len(),
{
    if versions.len() == 0 {
        None
    } else {
        match first_failure(versions.drop_last()) {
            Some(e) => Some(e),
            None => match stability_of(versions.last()) {
                Err(e) => Some(e),
                Ok(_) => None,
            },
        }
    }
}

/// Those of `versions` whose stability is `stability`, in order.
pub open spec fn with_stability(versions: Seq<Seq<char>>, stability: VersionStability) -> Seq<
    Seq<char>,
>
    decreases versions.len(),
{
    if versions.len() == 0 {
        versions
    } else if stability_of(versions.last()) == Ok::<VersionStability, VersionError>(stability) {
        with_stability(versions.drop_last(), stability).push(versions.last())
    } else {
        with_stability(versions.drop_last(), stability)
    }
}

/// The character sequences that a list of borrowed strings holds.
pub open spec fn borrowed_views(items: Seq<&String>) -> Seq<Seq<char>> {
    Seq::new(items.len(), |i: int| items[i]@)
}

/// Those of `versions` that have the stability `stability`, in order; the
/// error of the first version that cannot be classified, if there is one.
pub fn filter_versions<'a>(versions: &'a Vec<String>, stability: &VersionStability) -> (r: Result<
    Vec<&'a String>,
    VersionError,
>)
    ensures
        match first_failure(string_views(versions@)) {
            Some(e) => r == Err::<Vec<&'a String>, VersionError>(e),
            None => r is Ok && borrowed_views(r->Ok_0@) == with_stability(
                string_views(versions@),
                *stability,
            ),
        },
{
    let mut found: Vec<&'a String> = Vec::new();
    let mut i: usize = 0;
    let ghost all = string_views(versions@);
    assert(all.take(0) =~= Seq::<Seq<char>>::empty());
    assert(borrowed_views(found@) =~= with_stability(all.take(0), *stability));
    while i < versions.len()
        invariant
            i <= versions.len(),
            all == string_views(versions@),
            first_failure(all.take(i as int)) is None,
            borrowed_views(found@) == with_stability(all.take(i as int), *stability),
        decreases versions.len() - i,
    {
        let ghost before = borrowed_views(found@);
        assert(all.take(i + 1).drop_last() =~= all.take(i as int));
        assert(all.take(i + 1).last() == versions@[i as int]@);
        match get_version_stability(versions[i].as_str()) {
            Err(e) => {
                proof {
                    lemma_first_failure_stays(all, i + 1);
                }
                return Err(e);
            },
            Ok(found_stability) => {
                if found_stability == *stability {
                    found.push(&versions[i]);
                    assert(borrowed_views(found@) =~= before.push(versions@[i as int]@));
                }
            },
        }
        i += 1;
    }
    assert(all.take(versions@.len() as int) =~= all);
    Ok(found)
}

/// A failure among the first `k` versions is the failure of the whole list.
pub proof fn lemma_first_failure_stays(versions: Seq<Seq<char>>, k: int)
    requires
        0 <= k <= versions.len(),
        first_failure(versions.take(k)) is Some,
    ensures
        first_failure(versions) == first_failure(versions.take(k)),
    decreases versions.len(),
{
    if k < versions.len() {
        assert(versions.drop_last().take(k) =~= versions.take(k));
        lemma_first_failure_stays(versions.drop_last(), k);
    } else {
        assert(versions.take(k) =~= versions);
    }
}

/// The first of `versions` with the stability `stability`.
pub open spec fn latest_of(versions: Seq<Seq<char>>, stability: VersionStability) -> Result<
    Seq<char>,
    VersionError,
> {
    match first_failure(versions) {
        Some(e) => Err(e),
        None => {
            let found = with_stability(versions, stability);
            if found.len() > 0 {
                Ok(found[0])
            } else {
                Err(VersionError::NoMatchingRelease)
            }
        },
    }
}

/// The newest version of the catalog with the stability `stability`: the
/// first one in catalog order.
pub fn get_latest_version_by_stability(stability: &VersionStability, releases: &Vec<Release>) -> (r:
    Result<String, VersionError>)
    ensures
        match latest_of(versions_of(catalog(releases@)), *stability) {
            Ok(v) => r is Ok && r->Ok_0@ == v,
            Err(e) => r == Err::<String, VersionError>(e),
        },
{
    let versions = get_versions(releases);
    match filter_versions(&versions, stability) {
        Err(e) => Err(e),
        Ok(found) => {
            assert(borrowed_views(found@).len() == found@.len());
            if found.len() > 0 {
                assert(borrowed_views(found@)[0] == found@[0]@);
                Ok(found[0].clone())
            } else {
                Err(VersionError::NoMatchingRelease)
            }
        },
    }
}

/// What a symbolic name stands for: the newest release of its stability, or
/// the globally selected version. `None` for any other token.
pub open spec fn dynamic_version(
    token: Seq<char>,
    versions: Seq<Seq<char>>,
    global_version: Seq<char>,
) -> Result<Option<Seq<char>>, VersionError> {
    if token == latest_stable() {
        match latest_of(versions, VersionStability::Stable) {
            Ok(v) => Ok(Some(v)),
            Err(e) => Err(e),
        }
    } else if token == latest_unstable() {
        match latest_of(versions, VersionStability::Unstable) {
            Ok(v) => Ok(Some(v)),
            Err(e) => Err(e),
        }
    } else if token == global_name() {
        Ok(Some(global_version))
    } else {
        Ok(None)
    }
}

/// The concrete version that a token stands for: what its symbolic name
/// resolves to, or the token itself.
pub open spec fn resolved(token: Seq<char>, versions: Seq<Seq<char>>, global_version: Seq<char>)
    -> Result<Seq<char>, VersionError> {
    match dynamic_version(token, versions, global_version) {
        Ok(Some(v)) => Ok(v),
        Ok(None) => Ok(token),
        Err(e) => Err(e),
    }
}

/// Resolves a symbolic name against the catalog and the globally selected
/// version; `None` where `version` is no symbolic name.
pub fn get_dynamic_version(version: &str, releases: &Vec<Release>, global_version: &str) -> (r:
    Result<Option<String>, VersionError>)
    ensures
        match dynamic_version(version@, versions_of(catalog(releases@)), global_version@) {
            Ok(Some(v)) => r is Ok && r->Ok_0 is Some && r->Ok_0->Some_0@ == v,
            Ok(None) => r is Ok && r->Ok_0 is None,
            Err(e) => r == Err::<Option<String>, VersionError>(e),
        },
{
    let v = chars_of(version);
    if equal(&v, &chars_of("latest-stable")) {
        match get_latest_version_by_stability(&VersionStability::Stable, releases) {
            Ok(found) => Ok(Some(found)),
            Err(e) => Err(e),
        }
    } else if equal(&v, &chars_of("latest-unstable")) {
        match get_latest_version_by_stability(&VersionStability::Unstable, releases) {
            Ok(found) => Ok(Some(found)),
            Err(e) => Err(e),
        }
    } else if equal(&v, &chars_of("global")) {
        Ok(Some(global_version.to_owned()))
    } else {
        Ok(None)
    }
}

/// The concrete version that `version` stands for.
pub fn parse_version(version: &str, releases: &Vec<Release>, global_version: &str) -> (r: Result<
    String,
    VersionError,
>)
    ensures
        match resolved(version@, versions_of(catalog(releases@)), global_version@) {
            Ok(v) => r is Ok && r->Ok_0@ == v,
            Err(e) => r == Err::<String, VersionError>(e),
        },
{
    match get_dynamic_version(version, releases, global_version) {
        Ok(Some(found)) => Ok(found),
        Ok(None) => Ok(version.to_owned()),
        Err(e) => Err(e),
    }
}

/// The version that writes `major`, `minor` and `rest` with dots between.
pub open spec fn dotted(major: Seq<char>, minor: Seq<char>, rest: Seq<char>) -> Seq<char> {
    major + seq!['.'] + minor + seq!['.'] + rest
}

/// The second dot-separated part of `major.minor.rest` is `minor`, where
/// `major` and `minor` are digits.
pub proof fn lemma_minor_of_dotted(major: Seq<char>, minor: Seq<char>, rest: Seq<char>)
    requires
        all_digits(major),
        all_digits(minor),
    ensures
        minor_component(dotted(major, minor, rest)) == Some(minor),
{
    let s = dotted(major, minor, rest);
    let dot = seq!['.'];
    let a = major.len() as int;
    let b = a + 1 + minor.len();
    assert forall|j: int| 0 <= j < a implies s[j] != '.' by {
        assert(s[j] == major[j]);
        assert(is_digit(major[j]));
    }
    assert forall|j: int| a + 1 <= j < b implies s[j] != '.' by {
        assert(s[j] == minor[j - a - 1]);
        assert(is_digit(minor[j - a - 1]));
    }
    lemma_no_match_without_char(s, '.', 0, a);
    lemma_no_match_without_char(s, '.', a + 1, b);
    assert(s.subrange(a, a + 1) =~= dot);
    assert(s.subrange(b, b + 1) =~= dot);
    lemma_split_from_step(s, dot, 0, a);
    lemma_split_from_step(s, dot, a + 1, b);
    assert(s.subrange(a + 1, b) =~= minor);
    let tail = split_from(s, dot, b + 1);
    assert(split(s, dot) == seq![s.subrange(0, a)] + (seq![minor] + tail));
    assert(split(s, dot)[1] == minor);
}

/// A version `major.minor.rest` whose `major` and `minor` are digits, the
/// minor version within 32 bits, is stable exactly when the minor version is
/// even, and unstable otherwise.
pub proof fn dotted_version_is_stable_iff_minor_even(
    major: Seq<char>,
    minor: Seq<char>,
    rest: Seq<char>,
)
    requires
        major.len() > 0,
        minor.len() > 0,
        all_digits(major),
        all_digits(minor),
        digits_value(minor) <= 0x7fff_ffff,
    ensures
        stability_of(dotted(major, minor, rest)) == Ok::<VersionStability, VersionError>(
            if digits_value(minor) % 2 == 0 {
                VersionStability::Stable
            } else {
                VersionStability::Unstable
            },
        ),
{
    let s = dotted(major, minor, rest);
    lemma_minor_of_dotted(major, minor, rest);
    lemma_dotted_is_no_name(major, minor, rest);
    assert(is_digit(minor[0]));
}

/// A version that begins with a digit is none of the symbolic names, and
/// holds a numeral.
pub proof fn lemma_dotted_is_no_name(major: Seq<char>, minor: Seq<char>, rest: Seq<char>)
    requires
        major.len() > 0,
        all_digits(major),
    ensures
        dotted(major, minor, rest) != latest_stable(),
        dotted(major, minor, rest) != latest_unstable(),
        dotted(major, minor, rest) != global_name(),
        !is_alias(dotted(major, minor, rest)),
{
    let s = dotted(major, minor, rest);
    reveal_strlit("latest-stable");
    reveal_strlit("latest-unstable");
    reveal_strlit("global");
    assert(s[0] == major[0]);
    assert(is_digit(major[0]));
    assert(numeric(s[0]));
}

/// The two symbolic names of a latest release have a fixed stability.
pub proof fn latest_names_have_fixed_stability()
    ensures
        stability_of(latest_stable()) == Ok::<VersionStability, VersionError>(
            VersionStability::Stable,
        ),
        stability_of(latest_unstable()) == Ok::<VersionStability, VersionError>(
            VersionStability::Unstable,
        ),
{
    reveal_strlit("latest-stable");
    reveal_strlit("latest-unstable");
    assert("latest-stable"@.len() != "latest-unstable"@.len());
}

/// A token without numerals that is neither name of a latest release is
/// rejected as an invalid specifier.
pub proof fn other_names_are_invalid(token: Seq<char>)
    requires
        is_alias(token),
        token != latest_stable(),
        token != latest_unstable(),
    ensures
        stability_of(token) == Err::<VersionStability, VersionError>(
            VersionError::InvalidSpecifier,
        ),
{
}

/// A release with files has the normal form of its tag among the versions
/// that the catalog offers.
pub proof fn lemma_tag_is_offered(cat: Seq<ReleaseView>, i: int)
    requires
        0 <= i < cat.len(),
        cat[i].links.len() > 0,
    ensures
        tag_names(cat).contains(cat[i].tag_name),
        versions_of(cat).contains(normalized(cat[i].tag_name)),
    decreases cat.len(),
{
    if i < cat.len() - 1 {
        lemma_tag_is_offered(cat.drop_last(), i);
        let k = choose|k: int|
            0 <= k < tag_names(cat.drop_last()).len() && tag_names(cat.drop_last())[k]
                == cat[i].tag_name;
        assert(tag_names(cat)[k] == cat[i].tag_name);
    } else {
        let k = tag_names(cat.drop_last()).len() as int;
        assert(tag_names(cat)[k] == cat[i].tag_name);
    }
    let k = choose|k: int| 0 <= k < tag_names(cat).len() && tag_names(cat)[k] == cat[i].tag_name;
    assert(versions_of(cat)[k] == normalized(cat[i].tag_name));
}

/// A tag made of `v` and a version `major.minor.patch` of digits stands for
/// that version; where a release with files carries the tag, the version is
/// valid and resolves to itself.
pub proof fn versioned_tag_round_trip(
    major: Seq<char>,
    minor: Seq<char>,
    patch: Seq<char>,
    cat: Seq<ReleaseView>,
    i: int,
    global_version: Seq<char>,
)
    requires
        major.len() > 0,
        all_digits(major),
        all_digits(minor),
        all_digits(patch),
        0 <= i < cat.len(),
        cat[i].links.len() > 0,
        cat[i].tag_name == seq!['v'] + dotted(major, minor, patch),
    ensures
        normalized(cat[i].tag_name) == dotted(major, minor, patch),
        valid_version(dotted(major, minor, patch), versions_of(cat)),
        resolved(dotted(major, minor, patch), versions_of(cat), global_version) == Ok::<
            Seq<char>,
            VersionError,
        >(dotted(major, minor, patch)),
{
    let version = dotted(major, minor, patch);
    let tag = seq!['v'] + version;
    reveal_strlit("release/");
    assert forall|j: int| 0 <= j < version.len() implies !(version[j] == '"') && (is_digit(
        version[j],
    ) || version[j] == '.') by {
        let a = major.len() as int;
        let b = a + 1 + minor.len();
        if j < a {
            assert(version[j] == major[j]);
            assert(is_digit(major[j]));
        } else if j == a {
        } else if j < b {
            assert(version[j] == minor[j - a - 1]);
            assert(is_digit(minor[j - a - 1]));
        } else if j == b {
        } else {
            assert(version[j] == patch[j - b - 1]);
            assert(is_digit(patch[j - b - 1]));
        }
    }
    assert forall|j: int| 0 <= j < tag.len() implies tag[j] != '"' by {
        if j > 0 {
            assert(tag[j] == version[j - 1]);
        }
    }
    lemma_without_absent(tag, '"');
    assert(tag.skip(1) =~= version);
    assert(!starts_with(version, release_prefix())) by {
        if starts_with(version, release_prefix()) {
            assert(version.subrange(0, 8)[0] == release_prefix()[0]);
            assert(version[0] == major[0]);
            assert(is_digit(major[0]));
        }
    }
    lemma_dotted_is_no_name(major, minor, patch);
    lemma_tag_is_offered(cat, i);
}

/// A tag made of `release/` and a version stands for that version, where
/// the version holds no quote character; where a release with files carries
/// the tag and the version is no symbolic name, the version is valid and
/// resolves to itself.
pub proof fn release_tag_round_trip(
    version: Seq<char>,
    cat: Seq<ReleaseView>,
    i: int,
    global_version: Seq<char>,
)
    requires
        forall|j: int| 0 <= j < version.len() ==> version[j] != '"',
        version != latest_stable(),
        version != latest_unstable(),
        version != global_name(),
        0 <= i < cat.len(),
        cat[i].links.len() > 0,
        cat[i].tag_name == release_prefix() + version,
    ensures
        normalized(cat[i].tag_name) == version,
        valid_version(version, versions_of(cat)),
        resolved(version, versions_of(cat), global_version) == Ok::<Seq<char>, VersionError>(
            version,
        ),
{
    let tag = release_prefix() + version;
    reveal_strlit("release/");
    assert forall|j: int| 0 <= j < tag.len() implies tag[j] != '"' by {
        if j >= 8 {
            assert(tag[j] == version[j - 8]);
        }
    }
    lemma_without_absent(tag, '"');
    assert(tag[0] == 'r');
    assert(tag.subrange(0, 8) =~= release_prefix());
    assert(tag.skip(8) =~= version);
    lemma_tag_is_offered(cat, i);
}

/// What `with_stability` keeps is among the versions and has the stability
/// asked for.
pub proof fn lemma_with_stability_members(
    versions: Seq<Seq<char>>,
    stability: VersionStability,
    k: int,
)
    requires
        0 <= k < with_stability(versions, stability).len(),
    ensures
        versions.contains(with_stability(versions, stability)[k]),
        stability_of(with_stability(versions, stability)[k]) == Ok::<
            VersionStability,
            VersionError,
        >(stability),
    decreases versions.len(),
{
    let kept = with_stability(versions, stability);
    if versions.len() > 0 {
        let init = with_stability(versions.drop_last(), stability);
        if k < init.len() {
            lemma_with_stability_members(versions.drop_last(), stability, k);
            let j = choose|j: int|
                0 <= j < versions.drop_last().len() && versions.drop_last()[j] == init[k];
            assert(versions[j] == kept[k]);
        } else {
            assert(versions[versions.len() - 1] == kept[k]);
        }
    }
}

/// Resolution is total. The name of a latest release resolves to a version
/// that the catalog offers and that has the stability named, or fails with
/// an explicit error; `global` resolves to the globally selected version;
/// every other token resolves to itself.
pub proof fn resolution_is_total(
    token: Seq<char>,
    versions: Seq<Seq<char>>,
    global_version: Seq<char>,
)
    ensures
        token == latest_stable() ==> (match resolved(token, versions, global_version) {
            Ok(v) => versions.contains(v) && stability_of(v) == Ok::<
                VersionStability,
                VersionError,
            >(VersionStability::Stable),
            Err(e) => first_failure(versions) == Some(e) || (first_failure(versions) is None
                && e == VersionError::NoMatchingRelease),
        }),
        token == latest_unstable() ==> (match resolved(token, versions, global_version) {
            Ok(v) => versions.contains(v) && stability_of(v) == Ok::<
                VersionStability,
                VersionError,
            >(VersionStability::Unstable),
            Err(e) => first_failure(versions) == Some(e) || (first_failure(versions) is None
                && e == VersionError::NoMatchingRelease),
        }),
        token == global_name() ==> resolved(token, versions, global_version) == Ok::<
            Seq<char>,
            VersionError,
        >(global_version),
        token != latest_stable() && token != latest_unstable() && token != global_name()
            ==> resolved(token, versions, global_version) == Ok::<Seq<char>, VersionError>(
            token,
        ),
{
    reveal_strlit("latest-stable");
    reveal_strlit("latest-unstable");
    reveal_strlit("global");
    assert("latest-stable"@.len() != "latest-unstable"@.len());
    assert("global"@.len() != "latest-unstable"@.len());
    assert("global"@.len() != "latest-stable"@.len());
    if with_stability(versions, VersionStability::Stable).len() > 0 {
        lemma_with_stability_members(versions, VersionStability::Stable, 0);
    }
    if with_stability(versions, VersionStability::Unstable).len() > 0 {
        lemma_with_stability_members(versions, VersionStability::Unstable, 0);
    }
}

} // verus!
