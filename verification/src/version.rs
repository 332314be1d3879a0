//! Version numbers of the product: their text form, the nightly naming
//! convention and the choice of the next version to build.

use crate::lists::keep_marked;
use crate::release::Release;
use crate::text::concat2;
use crate::text::concat3;
use crate::text::contains;
use crate::text::decimal;
use crate::text::decimal_text;
use crate::text::holds_text;
use crate::text::is_infix_of;
use crate::text::is_prefix_of;
use crate::text::list_contains;
use crate::text::split;
use crate::text::split_on;
use crate::text::starts_with;
use crate::text::strip_prefix;
use vstd::prelude::*;
use vstd::string::*;

verus! {

/// Prerelease marker of versions built on a developer's machine.
pub const LOCAL_BUILD_PREFIX: &'static str = "dev";

/// Prerelease marker of nightly versions.
pub const NIGHTLY_BUILD_PREFIX: &'static str = "nightly";

/// Error type of the `semver` crate.
#[verifier::external_type_specification]
#[verifier::external_body]
pub struct ExSemverError(semver::Error);

/// What `semver::Version::parse` makes of a text: the major, minor and patch
/// numbers, the prerelease text and the build metadata text, or `None` where
/// it rejects the text.
pub uninterp spec fn semver_version(text: Seq<char>) -> Option<(u64, u64, u64, Seq<char>, Seq<char>)>;

/// Whether `semver::Prerelease::new` accepts a text.
pub uninterp spec fn semver_prerelease(text: Seq<char>) -> bool;

/// A semantic version, with its prerelease and build metadata as texts
/// (empty when absent).
#[derive(Debug)]
pub struct Version {
    pub major: u64,
    pub minor: u64,
    pub patch: u64,
    pub pre: String,
    pub build: String,
}

/// Why a version could not be produced.
#[derive(Debug, Clone, Copy, PartialEq, Eq, Structural)]
pub enum VersionError {
    /// The text is not a semantic version.
    InvalidVersion,
    /// The text is not a valid prerelease identifier.
    InvalidPrerelease,
    /// Every index that a same-day build can carry is already taken.
    NoFreeIndex,
    /// The variable that carries the version is not set.
    NotSet,
    /// Neither of the two leading release headers names a version.
    NoVersionInHeaders,
    /// A nightly build needs a repository to look for earlier nightlies in.
    MissingRepository,
    /// The version to follow has the largest minor number there is.
    NoSuccessor,
    /// The text is not a requirement on versions.
    InvalidRequirement,
}

/// Calls `semver::Version::parse` and copies the fields of the parsed version
/// out. The result is whatever that parser makes of the text.
#[verifier::external_body]
fn semver_parse(text: &str) -> (parsed: Result<Version, semver::Error>)
    ensures
        match parsed {
            Ok(version) => semver_version(text@) == Some(version.parts()),
            Err(_) => semver_version(text@).is_none(),
        },
{
    match semver::Version::parse(text) {
        Ok(v) => Ok(
            Version {
                major: v.major,
                minor: v.minor,
                patch: v.patch,
                pre: v.pre.as_str().to_string(),
                build: v.build.as_str().to_string(),
            },
        ),
        Err(e) => Err(e),
    }
}

/// Calls `semver::Prerelease::new`, which accepts a text as a whole or
/// rejects it; an accepted prerelease reads back as the text it was made of.
#[verifier::external_body]
fn semver_check_prerelease(text: &str) -> (checked: Result<String, semver::Error>)
    ensures
        checked.is_ok() == semver_prerelease(text@),
        checked matches Ok(pre) ==> pre@ == text@,
{
    match semver::Prerelease::new(text) {
        Ok(pre) => Ok(pre.as_str().to_string()),
        Err(e) => Err(e),
    }
}

/// Whether `semver::VersionReq::parse` accepts a text.
pub uninterp spec fn semver_requirement(text: Seq<char>) -> bool;

/// What `semver::VersionReq::matches` says of a requirement, given by its
/// text, and a version, given by its parts: `None` where the requirement,
/// the prerelease or the build metadata is not accepted by `semver`.
pub uninterp spec fn semver_matches(
    requirement: Seq<char>,
    version: (u64, u64, u64, Seq<char>, Seq<char>),
) -> Option<bool>;

/// Calls `semver::VersionReq::parse`, which accepts a text as a whole or
/// rejects it.
#[verifier::external_body]
fn semver_check_requirement(text: &str) -> (checked: Result<(), semver::Error>)
    ensures
        checked.is_ok() == semver_requirement(text@),
{
    match semver::VersionReq::parse(text) {
        Ok(_) => Ok(()),
        Err(e) => Err(e),
    }
}

/// Calls `semver::VersionReq::matches` with the requirement that the text
/// reads as and the version with the given parts; there is no answer
/// where `semver` does not accept one of the texts.
#[verifier::external_body]
fn semver_requirement_matches(requirement: &str, version: &Version) -> (matches: Option<bool>)
    ensures
        matches == semver_matches(requirement@, version.parts()),
        matches is Some ==> semver_requirement(requirement@),
{
    let requirement = semver::VersionReq::parse(requirement).ok()?;
    let pre = semver::Prerelease::new(&version.pre).ok()?;
    let build = semver::BuildMetadata::new(&version.build).ok()?;
    let version =
        semver::Version { major: version.major, minor: version.minor, patch: version.patch, pre, build };
    Some(requirement.matches(&version))
}

/// A requirement on versions, kept as the text that states it.
#[derive(Debug)]
pub struct VersionReq {
    text: String,
}

impl View for VersionReq {
    type V = Seq<char>;

    closed spec fn view(&self) -> Seq<char> {
        self.text@
    }
}

impl Clone for VersionReq {
    fn clone(&self) -> (copy: Self)
        ensures
            copy@ == self@,
    {
        VersionReq { text: self.text.clone() }
    }
}

impl VersionReq {
    /// Reads a requirement.
    pub fn parse(text: &str) -> (parsed: Result<Self, VersionError>)
        ensures
            match parsed {
                Ok(requirement) => semver_requirement(text@) && requirement@ == text@,
                Err(e) => !semver_requirement(text@) && e == VersionError::InvalidRequirement,
            },
    {
        match semver_check_requirement(text) {
            Ok(_) => Ok(VersionReq { text: String::from_str(text) }),
            Err(_) => Err(VersionError::InvalidRequirement),
        }
    }

    /// The text that states the requirement.
    pub fn to_string(&self) -> (text: String)
        ensures
            text@ == self@,
    {
        self.text.clone()
    }

    /// Whether a version meets the requirement. A version whose
    /// prerelease or build metadata is no valid text of its kind meets
    /// none.
    pub fn matches(&self, version: &Version) -> (matches: bool)
        ensures
            matches == (semver_matches(self@, version.parts()) == Some(true)),
    {
        match semver_requirement_matches(self.text.as_str(), version) {
            Some(matches) => matches,
            None => false,
        }
    }
}

impl Version {
    /// The five parts of the version as plain values.
    pub open spec fn parts(&self) -> (u64, u64, u64, Seq<char>, Seq<char>) {
        (self.major, self.minor, self.patch, self.pre@, self.build@)
    }

    /// The text form: `major.minor.patch`, then `-` and the prerelease if
    /// there is one, then `+` and the build metadata if there is any.
    pub open spec fn text(&self) -> Seq<char> {
        decimal(self.major as nat) + seq!['.'] + decimal(self.minor as nat) + seq!['.'] + decimal(
            self.patch as nat,
        ) + (if self.pre@.len() == 0 {
            Seq::<char>::empty()
        } else {
            seq!['-'] + self.pre@
        }) + (if self.build@.len() == 0 {
            Seq::<char>::empty()
        } else {
            seq!['+'] + self.build@
        })
    }

    /// A release version: no prerelease, no build metadata.
    pub fn new(major: u64, minor: u64, patch: u64) -> (version: Version)
        ensures
            version.parts() == (major, minor, patch, Seq::<char>::empty(), Seq::<char>::empty()),
    {
        Version { major, minor, patch, pre: String::new(), build: String::new() }
    }

    /// Reads a version from its text form.
    pub fn parse(text: &str) -> (parsed: Result<Version, VersionError>)
        ensures
            match parsed {
                Ok(version) => semver_version(text@) == Some(version.parts()),
                Err(e) => semver_version(text@).is_none() && e == VersionError::InvalidVersion,
            },
    {
        match semver_parse(text) {
            Ok(version) => Ok(version),
            Err(_) => Err(VersionError::InvalidVersion),
        }
    }

    /// Writes the version in its text form.
    pub fn to_string(&self) -> (text: String)
        ensures
            text@ == self.text(),
    {
        proof {
            reveal_strlit(".");
            reveal_strlit("-");
            reveal_strlit("+");
        }
        let mut text = decimal_text(self.major);
        text.append(".");
        text.append(decimal_text(self.minor).as_str());
        text.append(".");
        text.append(decimal_text(self.patch).as_str());
        assert("."@ =~= seq!['.']);
        if self.pre.as_str().unicode_len() != 0 {
            text.append("-");
            text.append(self.pre.as_str());
            assert("-"@ =~= seq!['-']);
        }
        if self.build.as_str().unicode_len() != 0 {
            text.append("+");
            text.append(self.build.as_str());
            assert("+"@ =~= seq!['+']);
        }
        assert(text@ =~= self.text());
        text
    }
}

impl Clone for Version {
    fn clone(&self) -> (copy: Self)
        ensures
            copy == *self,
    {
        Version {
            major: self.major,
            minor: self.minor,
            patch: self.patch,
            pre: self.pre.clone(),
            build: self.build.clone(),
        }
    }
}

/// The version of a local build that knows nothing better: `0.0.0-dev`.
pub fn default_dev_version() -> (version: Version)
    ensures
        version.parts() == (0u64, 0u64, 0u64, LOCAL_BUILD_PREFIX@, Seq::<char>::empty()),
{
    Version { major: 0, minor: 0, patch: 0, pre: String::from_str(LOCAL_BUILD_PREFIX), build: String::new() }
}

/// Whether the version's prerelease begins with the nightly marker.
pub fn is_nightly(version: &Version) -> (nightly: bool)
    ensures
        nightly == is_prefix_of(NIGHTLY_BUILD_PREFIX@, version.pre@),
{
    starts_with(version.pre.as_str(), NIGHTLY_BUILD_PREFIX)
}

/// A published release whose tag carries the nightly marker.
pub open spec fn nightly_release(release: Release) -> bool {
    !release.draft && is_infix_of(NIGHTLY_BUILD_PREFIX@, release.tag_name@)
}

/// Whether a release is a published nightly release.
pub fn is_nightly_release(release: &Release) -> (nightly: bool)
    ensures
        nightly == nightly_release(*release),
{
    !release.draft && contains(release.tag_name.as_str(), NIGHTLY_BUILD_PREFIX)
}

/// Keeps the published nightly releases of a list, in the list's order.
pub fn nightly_releases(releases: Vec<Release>) -> (nightlies: Vec<Release>)
    ensures
        nightlies@ == releases@.filter(|r: Release| nightly_release(r)),
{
    let mut marks: Vec<bool> = Vec::new();
    let mut i: usize = 0;
    while i < releases.len()
        invariant
            i <= releases.len(),
            marks@.len() == i,
            forall|j: int| 0 <= j < i ==> marks@[j] == nightly_release(#[trigger] releases@[j]),
        decreases releases.len() - i,
    {
        marks.push(is_nightly_release(&releases[i]));
        i += 1;
    }
    keep_marked(releases, &marks, Ghost(|r: Release| nightly_release(r)))
}

/// The most recent published nightly release of a list that is ordered most
/// recent first.
pub fn latest_nightly_release(releases: &Vec<Release>) -> (latest: Option<usize>)
    ensures
        match latest {
            Some(i) => i < releases@.len() && nightly_release(releases@[i as int]) && forall|
                j: int,
            |
                0 <= j < i ==> !nightly_release(#[trigger] releases@[j]),
            None => forall|j: int|
                0 <= j < releases@.len() ==> !nightly_release(#[trigger] releases@[j]),
        },
{
    let mut i: usize = 0;
    while i < releases.len()
        invariant
            i <= releases.len(),
            forall|j: int| 0 <= j < i ==> !nightly_release(#[trigger] releases@[j]),
        decreases releases.len() - i,
    {
        if is_nightly_release(&releases[i]) {
            return Some(i);
        }
        i += 1;
    }
    None
}

/// The text of the candidate with a given index: `base` itself for index 0,
/// else `base`, a dot and the index in decimal.
pub open spec fn indexed(base: Seq<char>, index: nat) -> Seq<char> {
    if index == 0 {
        base
    } else {
        base + seq!['.'] + decimal(index)
    }
}

/// Writes the candidate with a given index.
pub fn indexed_text(base: &str, index: u32) -> (text: String)
    ensures
        text@ == indexed(base@, index as nat),
{
    if index == 0 {
        String::from_str(base)
    } else {
        proof {
            reveal_strlit(".");
        }
        let number = decimal_text(index as u64);
        let text = concat3(base, ".", number.as_str());
        assert("."@ =~= seq!['.']);
        text
    }
}

/// Every candidate below `index` is a valid prerelease that is already taken.
pub open spec fn all_taken_below(base: Seq<char>, taken: Seq<String>, index: nat) -> bool {
    forall|j: nat|
        j < index ==> semver_prerelease(#[trigger] indexed(base, j)) && holds_text(
            taken,
            indexed(base, j),
        )
}

/// What the search for a free prerelease returns on given inputs.
pub open spec fn free_prerelease_outcome(
    base: Seq<char>,
    taken: Seq<String>,
    found: Result<(u32, String), VersionError>,
) -> bool {
    match found {
        Ok((index, pre)) => {
            &&& pre@ == indexed(base, index as nat)
            &&& semver_prerelease(pre@)
            &&& !holds_text(taken, pre@)
            &&& all_taken_below(base, taken, index as nat)
        },
        Err(VersionError::InvalidPrerelease) => exists|index: nat|
            index <= u32::MAX && !semver_prerelease(#[trigger] indexed(base, index))
                && all_taken_below(base, taken, index),
        Err(VersionError::NoFreeIndex) => all_taken_below(base, taken, u32::MAX as nat + 1),
        Err(_) => false,
    }
}

/// Finds the first candidate built on `base` that is not taken yet: `base`,
/// `base.1`, `base.2` and so on. A candidate that is no valid prerelease ends
/// the search with an error.
pub fn free_prerelease(base: &str, taken: &Vec<String>) -> (found: Result<
    (u32, String),
    VersionError,
>)
    ensures
        free_prerelease_outcome(base@, taken@, found),
{
    let mut index: u32 = 0;
    loop
        invariant
            all_taken_below(base@, taken@, index as nat),
        decreases u32::MAX - index,
    {
        let candidate = indexed_text(base, index);
        match semver_check_prerelease(candidate.as_str()) {
            Err(_) => {
                return Err(VersionError::InvalidPrerelease);
            },
            Ok(pre) => {
                if !list_contains(taken, pre.as_str()) {
                    return Ok((index, pre));
                }
            },
        }
        if index == u32::MAX {
            return Err(VersionError::NoFreeIndex);
        }
        index += 1;
    }
}

/// The marker that the nightly builds of one day carry in their tags.
pub open spec fn nightly_marker(date: Seq<char>) -> Seq<char> {
    NIGHTLY_BUILD_PREFIX@ + "."@ + date
}

/// A release claims a prerelease text for a day when it is a published
/// nightly release whose tag holds the day's marker and reads as a version
/// with that prerelease.
pub open spec fn claims(release: Release, marker: Seq<char>, pre: Seq<char>) -> bool {
    &&& nightly_release(release)
    &&& is_infix_of(marker, release.tag_name@)
    &&& semver_version(release.tag_name@) matches Some(parts)
    &&& parts.3 == pre
}

/// Some release among the first `upto` claims the prerelease text.
pub open spec fn claimed(
    releases: Seq<Release>,
    upto: int,
    marker: Seq<char>,
    pre: Seq<char>,
) -> bool {
    exists|k: int| 0 <= k < upto && k < releases.len() && claims(#[trigger] releases[k], marker, pre)
}

/// Collects the prerelease texts that the releases of one day claim.
pub fn claimed_prereleases(releases: &Vec<Release>, marker: &str) -> (taken: Vec<String>)
    ensures
        forall|pre: Seq<char>|
            holds_text(taken@, pre) <==> #[trigger] claimed(
                releases@,
                releases@.len() as int,
                marker@,
                pre,
            ),
{
    let mut taken: Vec<String> = Vec::new();
    let mut i: usize = 0;
    while i < releases.len()
        invariant
            i <= releases.len(),
            forall|pre: Seq<char>|
                holds_text(taken@, pre) <==> #[trigger] claimed(releases@, i as int, marker@, pre),
        decreases releases.len() - i,
    {
        let release = &releases[i];
        let ghost before = taken@;
        let ghost mut added: Option<Seq<char>> = None;
        if is_nightly_release(release) && contains(release.tag_name.as_str(), marker) {
            match semver_parse(release.tag_name.as_str()) {
                Ok(version) => {
                    proof {
                        added = Some(version.pre@);
                    }
                    taken.push(version.pre);
                },
                Err(_) => {},
            }
        }
        proof {
            assert forall|pre: Seq<char>|
                holds_text(taken@, pre) <==> #[trigger] claimed(
                    releases@,
                    i + 1,
                    marker@,
                    pre,
                ) by {
                if holds_text(taken@, pre) {
                    let w = choose|w: int| 0 <= w < taken@.len() && #[trigger] taken@[w]@ == pre;
                    if w < before.len() {
                        assert(before[w]@ == pre);
                        assert(holds_text(before, pre));
                        assert(claimed(releases@, i as int, marker@, pre));
                        let k = choose|k: int|
                            0 <= k < i && k < releases@.len() && claims(
                                #[trigger] releases@[k],
                                marker@,
                                pre,
                            );
                        assert(claims(releases@[k], marker@, pre));
                    } else {
                        assert(added == Some(pre));
                        assert(claims(releases@[i as int], marker@, pre));
                    }
                }
                if claimed(releases@, i + 1, marker@, pre) {
                    let k = choose|k: int|
                        0 <= k < i + 1 && k < releases@.len() && claims(
                            #[trigger] releases@[k],
                            marker@,
                            pre,
                        );
                    if k < i {
                        assert(claimed(releases@, i as int, marker@, pre));
                        assert(holds_text(before, pre));
                        let w = choose|w: int| 0 <= w < before.len() && #[trigger] before[w]@ == pre;
                        assert(taken@[w]@ == pre);
                    } else {
                        assert(added == Some(pre));
                        assert(taken@[taken@.len() - 1]@ == pre);
                    }
                }
            }
        }
        i += 1;
    }
    taken
}

/// What kind of build a version is made for.
#[derive(Debug, Clone, Copy, PartialEq, Eq, Structural)]
pub enum BuildKind {
    /// A build on a developer's machine.
    Dev,
    /// A nightly build for publication.
    Nightly,
}

/// The version to build together with what follows from its text.
#[derive(Debug)]
pub struct Versions {
    /// The version that is being built.
    pub version: Version,
    /// Whether the build counts as a release: its version is neither a local
    /// one nor a snapshot.
    pub release_mode: bool,
}

/// Release mode follows from the prerelease text.
pub open spec fn release_mode_of(pre: Seq<char>) -> bool {
    !is_infix_of(LOCAL_BUILD_PREFIX@, pre) && !is_infix_of("SNAPSHOT"@, pre)
}

impl Default for Versions {
    fn default() -> (versions: Self)
        ensures
            versions.version.parts() == (0u64, 0u64, 0u64, LOCAL_BUILD_PREFIX@, Seq::<char>::empty()),
            !versions.release_mode,
    {
        Versions { version: default_dev_version(), release_mode: false }
    }
}

impl Clone for Versions {
    fn clone(&self) -> (copy: Self)
        ensures
            copy == *self,
    {
        Versions { version: self.version.clone(), release_mode: self.release_mode }
    }
}

/// Calls `chrono::Utc::now` and formats the date with `%F`
/// (year-month-day). The text depends on the clock, so nothing is claimed
/// of it.
#[verifier::external_body]
fn utc_today() -> (date: String) {
    chrono::Utc::now().format("%F").to_string()
}

/// The current year in UTC, from `chrono::Utc::now`. It depends on the
/// clock, so nothing is claimed of it.
#[verifier::external_body]
pub fn current_year() -> (year: u64) {
    chrono::Datelike::year(&chrono::Utc::now()) as u64
}

impl Versions {
    /// Wraps a version and derives the release mode from its prerelease.
    pub fn new(version: Version) -> (versions: Self)
        ensures
            versions.version == version,
            versions.release_mode == release_mode_of(version.pre@),
    {
        let release_mode = !contains(version.pre.as_str(), LOCAL_BUILD_PREFIX) && !contains(
            version.pre.as_str(),
            "SNAPSHOT",
        );
        Versions { version, release_mode }
    }

    /// Name of the edition that belongs to the version.
    pub fn edition_name(&self) -> (name: String)
        ensures
            name@ == self.version.text(),
    {
        self.version.to_string()
    }

    /// Name of the product with its version, for display.
    pub fn pretty_name(&self) -> (name: String)
        ensures
            name@ == "Enso "@ + self.version.text(),
    {
        concat2("Enso ", self.version.to_string().as_str())
    }

    /// The prerelease text of local builds.
    pub fn local_prerelease() -> (pre: Result<String, VersionError>)
        ensures
            match pre {
                Ok(pre) => semver_prerelease(LOCAL_BUILD_PREFIX@) && pre@ == LOCAL_BUILD_PREFIX@,
                Err(e) => !semver_prerelease(LOCAL_BUILD_PREFIX@) && e == VersionError::InvalidPrerelease,
            },
    {
        match semver_check_prerelease(LOCAL_BUILD_PREFIX) {
            Ok(pre) => Ok(pre),
            Err(_) => Err(VersionError::InvalidPrerelease),
        }
    }

    /// What `nightly_prerelease_on` returns for a day and the releases known
    /// so far: the first of `nightly.<date>`, `nightly.<date>.1`,
    /// `nightly.<date>.2`, ... that no release of that day claims.
    pub open spec fn nightly_prerelease_outcome(
        date: Seq<char>,
        releases: Seq<Release>,
        found: Result<String, VersionError>,
    ) -> bool {
        let marker = nightly_marker(date);
        let all = releases.len() as int;
        match found {
            Ok(pre) => exists|index: nat|
                {
                    &&& index <= u32::MAX
                    &&& pre@ == #[trigger] indexed(marker, index)
                    &&& semver_prerelease(pre@)
                    &&& !claimed(releases, all, marker, pre@)
                    &&& forall|j: nat|
                        j < index ==> semver_prerelease(#[trigger] indexed(marker, j)) && claimed(
                            releases,
                            all,
                            marker,
                            indexed(marker, j),
                        )
                },
            Err(VersionError::InvalidPrerelease) => exists|index: nat|
                {
                    &&& index <= u32::MAX
                    &&& !semver_prerelease(#[trigger] indexed(marker, index))
                    &&& forall|j: nat|
                        j < index ==> semver_prerelease(#[trigger] indexed(marker, j)) && claimed(
                            releases,
                            all,
                            marker,
                            indexed(marker, j),
                        )
                },
            Err(VersionError::NoFreeIndex) => forall|j: nat|
                j <= u32::MAX ==> semver_prerelease(#[trigger] indexed(marker, j)) && claimed(
                    releases,
                    all,
                    marker,
                    indexed(marker, j),
                ),
            Err(_) => false,
        }
    }

    /// Picks the prerelease text for a nightly build on the day `date`
    /// (written year-month-day), given the releases of the repository.
    pub fn nightly_prerelease_on(date: &str, releases: &Vec<Release>) -> (found: Result<
        String,
        VersionError,
    >)
        ensures
            Self::nightly_prerelease_outcome(date@, releases@, found),
    {
        let marker = concat3(NIGHTLY_BUILD_PREFIX, ".", date);
        let taken = claimed_prereleases(releases, marker.as_str());
        let found = free_prerelease(marker.as_str(), &taken);
        proof {
            let m = nightly_marker(date@);
            let all = releases@.len() as int;
            assert forall|j: nat| #![trigger indexed(m, j)]
                holds_text(taken@, indexed(m, j)) == claimed(releases@, all, m, indexed(m, j)) by {}
        }
        match found {
            Ok((index, pre)) => {
                assert(pre@ == indexed(nightly_marker(date@), index as nat));
                Ok(pre)
            },
            Err(VersionError::InvalidPrerelease) => {
                let ghost index = choose|index: nat|
                    index <= u32::MAX && !semver_prerelease(
                        #[trigger] indexed(nightly_marker(date@), index),
                    ) && all_taken_below(nightly_marker(date@), taken@, index);
                assert(!semver_prerelease(indexed(nightly_marker(date@), index)));
                Err(VersionError::InvalidPrerelease)
            },
            Err(e) => Err(e),
        }
    }

    /// Picks the prerelease text for a nightly build made today (UTC), given
    /// the releases of the repository.
    pub fn nightly_prerelease(releases: &Vec<Release>) -> (found: Result<String, VersionError>)
        ensures
            exists|date: Seq<char>| Self::nightly_prerelease_outcome(date, releases@, found),
    {
        let date = utc_today();
        let found = Self::nightly_prerelease_on(date.as_str(), releases);
        assert(Self::nightly_prerelease_outcome(date@, releases@, found));
        found
    }

    /// The tag under which the version is released.
    pub fn tag(&self) -> (tag: String)
        ensures
            tag@ == self.version.text(),
    {
        self.version.to_string()
    }

    /// The variables through which later steps of a workflow learn of the
    /// versions, each with its value, in the order in which they are to be
    /// emitted.
    pub fn publish(&self) -> (variables: Vec<(String, String)>)
        ensures
            variables@.len() == 3,
            variables@[0].0@ == "ENSO_VERSION"@,
            variables@[0].1@ == self.version.text(),
            variables@[1].0@ == "ENSO_EDITION"@,
            variables@[1].1@ == self.version.text(),
            variables@[2].0@ == "ENSO_RELEASE_MODE"@,
            variables@[2].1@ == if self.release_mode {
                "true"@
            } else {
                "false"@
            },
    {
        let mut variables: Vec<(String, String)> = Vec::new();
        variables.push((String::from_str("ENSO_VERSION"), self.version.to_string()));
        variables.push((String::from_str("ENSO_EDITION"), self.edition_name()));
        let mode = if self.release_mode {
            "true"
        } else {
            "false"
        };
        variables.push((String::from_str("ENSO_RELEASE_MODE"), String::from_str(mode)));
        variables
    }

    /// Whether the version is a nightly one.
    pub fn is_nightly(&self) -> (nightly: bool)
        ensures
            nightly == is_prefix_of(NIGHTLY_BUILD_PREFIX@, self.version.pre@),
    {
        is_nightly(&self.version)
    }
}

/// Reads the version from the value of the variable that carries it, if the
/// variable is set.
pub fn version_from_env(value: Option<&str>) -> (version: Result<Version, VersionError>)
    ensures
        match value {
            None => version == Err::<Version, VersionError>(VersionError::NotSet),
            Some(text) => match version {
                Ok(v) => semver_version(text@) == Some(v.parts()),
                Err(e) => semver_version(text@).is_none() && e == VersionError::InvalidVersion,
            },
        },
{
    match value {
        None => Err(VersionError::NotSet),
        Some(text) => Version::parse(text),
    }
}

/// The first version of a year: `year.1.1`.
pub open spec fn initial_version_parts(year: u64) -> (u64, u64, u64, Seq<char>, Seq<char>) {
    (year, 1u64, 1u64, Seq::<char>::empty(), Seq::<char>::empty())
}

/// The version that follows `previous` in the year `year`: the next minor
/// version if `previous` is of that year, else the year's first version.
pub open spec fn next_version_parts(previous: Version, year: u64) -> (
    u64,
    u64,
    u64,
    Seq<char>,
    Seq<char>,
) {
    if previous.major == year {
        (year, (previous.minor + 1) as u64, 1u64, Seq::<char>::empty(), Seq::<char>::empty())
    } else {
        initial_version_parts(year)
    }
}

/// The first version of the year `year`.
pub fn initial_version_in(year: u64) -> (version: Version)
    ensures
        version.parts() == initial_version_parts(year),
{
    Version::new(year, 1, 1)
}

/// The version that follows `previous` in the year `year`.
pub fn next_version_in(previous: &Version, year: u64) -> (version: Version)
    requires
        previous.minor < u64::MAX,
    ensures
        version.parts() == next_version_parts(*previous, year),
{
    if previous.major == year {
        Version::new(year, previous.minor + 1, 1)
    } else {
        initial_version_in(year)
    }
}

/// The first version of the current year.
pub fn generate_initial_version() -> (version: Version)
    ensures
        exists|year: u64| version.parts() == initial_version_parts(year),
{
    let year = current_year();
    let version = initial_version_in(year);
    assert(version.parts() == initial_version_parts(year));
    version
}

/// The version that follows `previous`, as of the current year.
pub fn suggest_next_version(previous: &Version) -> (version: Version)
    requires
        previous.minor < u64::MAX,
    ensures
        exists|year: u64| version.parts() == next_version_parts(*previous, year),
{
    let year = current_year();
    let version = next_version_in(previous, year);
    assert(version.parts() == next_version_parts(*previous, year));
    version
}

/// The stretch of `text` from `from` up to `to` is a word: a longest run of
/// characters other than the space.
pub open spec fn is_word(text: Seq<char>, from: int, to: int) -> bool {
    &&& 0 <= from < to <= text.len()
    &&& (from == 0 || text[from - 1] == ' ')
    &&& (to == text.len() || text[to] == ' ')
    &&& forall|k: int| from <= k < to ==> text[k] != ' '
}

/// No word of `text` that starts before `limit` reads as a version.
pub open spec fn no_version_before(text: Seq<char>, limit: int) -> bool {
    forall|from: int, to: int|
        #![trigger text.subrange(from, to)]
        is_word(text, from, to) && from < limit ==> semver_version(text.subrange(from, to)).is_none()
}

/// Finds the first word of a text that reads as a version.
pub fn find_in_text(text: &str) -> (found: Result<Version, VersionError>)
    ensures
        found_in_text(text@, found),
{
    let n = text.unicode_len();
    let mut start: usize = 0;
    while start < n
        invariant
            n == text@.len(),
            start <= n,
            start == n || start == 0 || text@[start - 1] == ' ' || text@[start as int] == ' ',
            no_version_before(text@, start as int),
        decreases n - start,
    {
        if text.get_char(start) == ' ' {
            assert forall|from: int, to: int|
                #![trigger text@.subrange(from, to)]
                is_word(text@, from, to) && from < start + 1 implies semver_version(
                text@.subrange(from, to),
            ).is_none() by {
                if from == start {
                    assert(text@[from] != ' ');
                }
            }
            start += 1;
        } else {
            let mut end: usize = start + 1;
            while end < n && text.get_char(end) != ' '
                invariant
                    n == text@.len(),
                    start < end <= n,
                    forall|k: int| start <= k < end ==> text@[k] != ' ',
                decreases n - end,
            {
                end += 1;
            }
            let word = text.substring_char(start, end);
            match semver_parse(word) {
                Ok(version) => {
                    assert(is_word(text@, start as int, end as int));
                    assert(semver_version(text@.subrange(start as int, end as int)) == Some(
                        version.parts(),
                    ));
                    return Ok(version);
                },
                Err(_) => {},
            }
            assert forall|from: int, to: int|
                #![trigger text@.subrange(from, to)]
                is_word(text@, from, to) && from < end implies semver_version(
                text@.subrange(from, to),
            ).is_none() by {
                if from >= start {
                    if from > start {
                        assert(text@[from - 1] != ' ');
                    }
                    if to < end {
                        assert(text@[to] != ' ');
                    }
                    if to > end {
                        assert(text@[end as int] != ' ');
                    }
                    assert(from == start && to == end);
                }
            }
            start = end;
        }
    }
    Err(VersionError::InvalidVersion)
}

/// The release headers among the lines of a changelog, in order: of each
/// line that starts with a hash and a space, what follows them.
pub open spec fn headers_among(lines: Seq<Seq<char>>) -> Seq<Seq<char>>
    decreases lines.len(),
{
    if lines.len() == 0 {
        Seq::empty()
    } else if is_prefix_of("# "@, lines.last()) {
        headers_among(lines.drop_last()).push(
            lines.last().subrange("# "@.len() as int, lines.last().len() as int),
        )
    } else {
        headers_among(lines.drop_last())
    }
}

/// Reads the release headers of a changelog, from the top.
pub fn changelog_headers(changelog: &str) -> (headers: Vec<String>)
    ensures
        headers@.len() == headers_among(split_on(changelog@, '\n')).len(),
        forall|i: int|
            0 <= i < headers@.len() ==> (#[trigger] headers@[i])@ == headers_among(
                split_on(changelog@, '\n'),
            )[i],
{
    let lines = split(changelog, '\n');
    let ghost all = split_on(changelog@, '\n');
    let mut headers: Vec<String> = Vec::new();
    let mut i: usize = 0;
    while i < lines.len()
        invariant
            i <= lines@.len(),
            lines@.len() == all.len(),
            forall|k: int| 0 <= k < lines@.len() ==> (#[trigger] lines@[k])@ == all[k],
            headers@.len() == headers_among(all.subrange(0, i as int)).len(),
            forall|k: int|
                0 <= k < headers@.len() ==> (#[trigger] headers@[k])@ == headers_among(
                    all.subrange(0, i as int),
                )[k],
        decreases lines.len() - i,
    {
        proof {
            assert(all.subrange(0, i + 1).drop_last() =~= all.subrange(0, i as int));
            assert(all.subrange(0, i + 1).last() == all[i as int]);
        }
        match strip_prefix(lines[i].as_str(), "# ") {
            Some(header) => {
                headers.push(String::from_str(header));
            },
            None => {},
        }
        i += 1;
    }
    assert(all.subrange(0, all.len() as int) =~= all);
    headers
}

/// The version that a build starts from, given the version that the
/// environment prescribes (if it does), the release headers of the changelog
/// from the top, and the year.
///
/// The environment's version wins. Else the topmost header decides: without
/// any header it is the year's first version; a header that names a version
/// gives that version. Under a topmost header without a version, the next
/// header's version is followed by its successor, which there is none of
/// where that version has the largest minor number there is; without a
/// second header it is again the year's first version, and a second header
/// without a version is an error.
pub open spec fn base_version_outcome(
    from_env: Option<Version>,
    headers: Seq<Result<Version, VersionError>>,
    year: u64,
    found: Result<Version, VersionError>,
) -> bool {
    if let Some(version) = from_env {
        found == Ok::<Version, VersionError>(version)
    } else if headers.len() == 0 {
        found is Ok && found->Ok_0.parts() == initial_version_parts(year)
    } else if let Ok(top) = headers[0] {
        found == Ok::<Version, VersionError>(top)
    } else if headers.len() == 1 {
        found is Ok && found->Ok_0.parts() == initial_version_parts(year)
    } else if let Ok(second) = headers[1] {
        if second.major == year && second.minor == u64::MAX {
            found == Err::<Version, VersionError>(VersionError::NoSuccessor)
        } else {
            found is Ok && found->Ok_0.parts() == next_version_parts(second, year)
        }
    } else {
        found == Err::<Version, VersionError>(VersionError::NoVersionInHeaders)
    }
}

/// Chooses the version that a build starts from, as of the year `year`;
/// `headers` holds what was found in each release header of the changelog.
pub fn base_version_in(
    from_env: Option<Version>,
    headers: Vec<Result<Version, VersionError>>,
    year: u64,
) -> (found: Result<Version, VersionError>)
    ensures
        base_version_outcome(from_env, headers@, year, found),
{
    if let Some(version) = from_env {
        return Ok(version);
    }
    let ghost all = headers@;
    let mut looked_up = headers;
    if looked_up.len() == 0 {
        return Ok(initial_version_in(year));
    }
    let second = if looked_up.len() >= 2 {
        Some(looked_up.swap_remove(1))
    } else {
        None
    };
    let top = looked_up.swap_remove(0);
    assert(top == all[0]);
    match top {
        Ok(version) => Ok(version),
        Err(_) => match second {
            None => Ok(initial_version_in(year)),
            Some(Ok(version)) => if version.major == year && version.minor == u64::MAX {
                Err(VersionError::NoSuccessor)
            } else if version.major == year {
                Ok(next_version_in(&version, year))
            } else {
                Ok(initial_version_in(year))
            },
            Some(Err(_)) => Err(VersionError::NoVersionInHeaders),
        },
    }
}

/// What `find_in_text` may return for a text.
pub open spec fn found_in_text(text: Seq<char>, found: Result<Version, VersionError>) -> bool {
    match found {
        Ok(version) => exists|from: int, to: int|
            #![trigger text.subrange(from, to)]
            is_word(text, from, to) && semver_version(text.subrange(from, to)) == Some(
                version.parts(),
            ) && no_version_before(text, from),
        Err(e) => e == VersionError::InvalidVersion && no_version_before(text, text.len() as int),
    }
}

/// What `base_version` returns when the year is `year` and the lookups in
/// the two topmost headers gave `looked_up`.
pub open spec fn base_version_from(
    from_env: Option<Version>,
    headers: Seq<String>,
    year: u64,
    looked_up: Seq<Result<Version, VersionError>>,
    found: Result<Version, VersionError>,
) -> bool {
    &&& looked_up.len() == if from_env is Some {
        0
    } else if headers.len() >= 2 {
        2
    } else {
        headers.len()
    }
    &&& forall|i: int|
        0 <= i < looked_up.len() ==> found_in_text(headers[i]@, #[trigger] looked_up[i])
    &&& base_version_outcome(from_env, looked_up, year, found)
}

/// Chooses the version that a build starts from, as of the current year,
/// from the texts of the changelog's release headers.
pub fn base_version(from_env: Option<Version>, headers: &Vec<String>) -> (found: Result<
    Version,
    VersionError,
>)
    ensures
        exists|year: u64, looked_up: Seq<Result<Version, VersionError>>| #[trigger]
            base_version_from(from_env, headers@, year, looked_up, found),
{
    let mut looked_up: Vec<Result<Version, VersionError>> = Vec::new();
    if from_env.is_none() {
        if headers.len() >= 1 {
            looked_up.push(find_in_text(headers[0].as_str()));
        }
        if headers.len() >= 2 {
            looked_up.push(find_in_text(headers[1].as_str()));
        }
    }
    let ghost seen = looked_up@;
    let year = current_year();
    let found = base_version_in(from_env, looked_up, year);
    assert(base_version_from(from_env, headers@, year, seen, found));
    found
}

/// The prerelease that a kind of build gets: `dev` for a local build; for a
/// nightly build the first free nightly prerelease of the day, which needs
/// the repository's releases.
pub open spec fn prerelease_for(
    build_kind: BuildKind,
    date: Seq<char>,
    releases: Option<Seq<Release>>,
    pre: Result<String, VersionError>,
) -> bool {
    match build_kind {
        BuildKind::Dev => match pre {
            Ok(pre) => semver_prerelease(LOCAL_BUILD_PREFIX@) && pre@ == LOCAL_BUILD_PREFIX@,
            Err(e) => !semver_prerelease(LOCAL_BUILD_PREFIX@) && e == VersionError::InvalidPrerelease,
        },
        BuildKind::Nightly => match releases {
            None => pre == Err::<String, VersionError>(VersionError::MissingRepository),
            Some(releases) => Versions::nightly_prerelease_outcome(date, releases, pre),
        },
    }
}

/// The releases of a repository as a sequence, where they are known.
pub open spec fn listed(releases: Option<&Vec<Release>>) -> Option<Seq<Release>> {
    match releases {
        Some(releases) => Some(releases@),
        None => None,
    }
}

/// What `deduce_versions_on` returns: the base version with the prerelease
/// of the build kind, wrapped with its release mode. The prerelease is
/// settled first, so its error comes before that of the base version.
pub open spec fn deduced(
    build_kind: BuildKind,
    date: Seq<char>,
    releases: Option<Seq<Release>>,
    base: Result<Version, VersionError>,
    found: Result<Versions, VersionError>,
) -> bool {
    exists|pre: Result<String, VersionError>|
        #![trigger prerelease_for(build_kind, date, releases, pre)]
        prerelease_for(build_kind, date, releases, pre) && match pre {
            Err(e) => found is Err && found->Err_0 == e,
            Ok(pre) => match base {
                Err(e) => found is Err && found->Err_0 == e,
                Ok(base) => {
                    &&& found is Ok
                    &&& found->Ok_0.version.parts() == (
                        base.major,
                        base.minor,
                        base.patch,
                        pre@,
                        base.build@,
                    )
                    &&& found->Ok_0.release_mode == release_mode_of(pre@)
                },
            },
        }
}

/// Settles the versions of a build made on the day `date`, from the kind of
/// build, the releases of the target repository (where it is known) and the
/// base version.
pub fn deduce_versions_on(
    build_kind: BuildKind,
    date: &str,
    releases: Option<&Vec<Release>>,
    base: Result<Version, VersionError>,
) -> (found: Result<Versions, VersionError>)
    ensures
        deduced(
            build_kind,
            date@,
            listed(releases),
            base,
            found,
        ),
{
    let pre = match build_kind {
        BuildKind::Dev => Versions::local_prerelease(),
        BuildKind::Nightly => match releases {
            None => Err(VersionError::MissingRepository),
            Some(releases) => Versions::nightly_prerelease_on(date, releases),
        },
    };
    assert(prerelease_for(build_kind, date@, listed(releases), pre));
    let pre = match pre {
        Ok(pre) => pre,
        Err(e) => {
            return Err(e);
        },
    };
    let base = match base {
        Ok(base) => base,
        Err(e) => {
            return Err(e);
        },
    };
    let version = Version {
        major: base.major,
        minor: base.minor,
        patch: base.patch,
        pre,
        build: base.build,
    };
    Ok(Versions::new(version))
}

/// Settles the versions of a build made today (UTC).
pub fn deduce_versions(
    build_kind: BuildKind,
    releases: Option<&Vec<Release>>,
    base: Result<Version, VersionError>,
) -> (found: Result<Versions, VersionError>)
    ensures
        exists|date: Seq<char>|
            #[trigger] deduced(
                build_kind,
                date,
                listed(releases),
                base,
                found,
            ),
{
    let date = utc_today();
    let found = deduce_versions_on(build_kind, date.as_str(), releases, base);
    assert(deduced(
        build_kind,
        date@,
        listed(releases),
        base,
        found,
    ));
    found
}

} // verus!
