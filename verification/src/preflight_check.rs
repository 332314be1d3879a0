//! The check before a nightly build: whether anything has changed since the
//! last one, and what the new build is to be called.

use crate::lists::keep_marked;
use crate::release::Release;
use crate::text::concat2;
use crate::text::concat3;
use crate::text::contains;
use crate::text::holds_text;
use crate::text::is_infix_of;
use crate::text::is_prefix_of;
use crate::text::same_text;
use crate::text::strip_prefix;
use crate::version::free_prerelease;
use crate::version::indexed;
use crate::version::indexed_text;
use crate::version::semver_version;
use crate::version::Version;
use crate::version::VersionError;
use vstd::prelude::*;
use vstd::string::*;

verus! {

/// The part of a release's title that tells a nightly release.
pub const NIGHTLY_RELEASE_TITLE_INFIX: &'static str = "Nightly";

/// What the check comes to.
#[derive(Debug)]
pub struct PreflightCheckOutput {
    /// Whether the nightly build is to go ahead.
    pub proceed: bool,
    pub enso_version: Version,
    pub edition_version: Version,
}

/// A published release whose title tells that it is a nightly one.
pub open spec fn nightly_titled(release: Release) -> bool {
    !release.draft && (release.name matches Some(name) && is_infix_of(NIGHTLY_RELEASE_TITLE_INFIX@, name@))
}

/// Whether a release is a published nightly release, going by its title.
pub fn is_nightly(release: &Release) -> (nightly: bool)
    ensures
        nightly == nightly_titled(*release),
{
    !release.draft && match &release.name {
        Some(name) => contains(name.as_str(), NIGHTLY_RELEASE_TITLE_INFIX),
        None => false,
    }
}

/// Keeps the published nightly releases of a list, in the list's order.
pub fn nightly_releases(releases: Vec<Release>) -> (nightlies: Vec<Release>)
    ensures
        nightlies@ == releases@.filter(|r: Release| nightly_titled(r)),
{
    let mut marks: Vec<bool> = Vec::new();
    let mut i: usize = 0;
    while i < releases.len()
        invariant
            i <= releases.len(),
            marks@.len() == i,
            forall|j: int| 0 <= j < i ==> marks@[j] == nightly_titled(#[trigger] releases@[j]),
        decreases releases.len() - i,
    {
        marks.push(is_nightly(&releases[i]));
        i += 1;
    }
    keep_marked(releases, &marks, Ghost(|r: Release| nightly_titled(r)))
}

/// Whether a new nightly build is due: it is, unless the most recent
/// nightly release was made of the very commit that is current.
pub open spec fn proceeds(current_head_sha: Seq<char>, nightlies: Seq<Release>) -> bool {
    nightlies.len() == 0 || nightlies[0].target_commitish@ != current_head_sha
}

/// Checks if there are any new changes to see if the nightly build should
/// proceed. The nightlies are ordered most recent first.
pub fn check_proceed(current_head_sha: &str, nightlies: &Vec<Release>) -> (proceed: bool)
    ensures
        proceed == proceeds(current_head_sha@, nightlies@),
{
    if nightlies.len() > 0 {
        !same_text(nightlies[0].target_commitish.as_str(), current_head_sha)
    } else {
        true
    }
}

/// What `check_proceed` has to say about its answer.
pub open spec fn proceed_note(current_head_sha: Seq<char>, nightlies: Seq<Release>) -> Seq<char> {
    if nightlies.len() == 0 {
        "No prior nightly releases found. Proceeding with the first release."@
    } else if nightlies[0].target_commitish@ == current_head_sha {
        "Current commit ("@ + current_head_sha
            + ") is the same as for the most recent nightly build. A new build is not needed."@
    } else {
        "Current commit ("@ + current_head_sha
            + ") is different from the most recent nightly build ("@
            + nightlies[0].target_commitish@ + "). Proceeding with a new nightly build."@
    }
}

/// Writes the note that goes with the answer of `check_proceed`.
pub fn explain_proceed(current_head_sha: &str, nightlies: &Vec<Release>) -> (note: String)
    ensures
        note@ == proceed_note(current_head_sha@, nightlies@),
{
    if nightlies.len() == 0 {
        String::from_str("No prior nightly releases found. Proceeding with the first release.")
    } else if same_text(nightlies[0].target_commitish.as_str(), current_head_sha) {
        concat3(
            "Current commit (",
            current_head_sha,
            ") is the same as for the most recent nightly build. A new build is not needed.",
        )
    } else {
        let mut note = concat3(
            "Current commit (",
            current_head_sha,
            ") is different from the most recent nightly build (",
        );
        note.append(nightlies[0].target_commitish.as_str());
        note.append("). Proceeding with a new nightly build.");
        note
    }
}

/// The version of the engine and the name of the edition of a nightly
/// build.
#[derive(Debug)]
pub struct Versions {
    pub engine: Version,
    pub edition: String,
}

impl Clone for Versions {
    fn clone(&self) -> (copy: Self)
        ensures
            copy == *self,
    {
        Versions { engine: self.engine.clone(), edition: self.edition.clone() }
    }
}

/// The text of a release's tag that is read as a version: the tag without
/// a leading `enso-`.
pub open spec fn version_text_of(tag: Seq<char>) -> Seq<char> {
    if is_prefix_of("enso-"@, tag) {
        tag.subrange("enso-"@.len() as int, tag.len() as int)
    } else {
        tag
    }
}

/// A release claims a prerelease text for a day when its tag holds the
/// day's date and reads as a version with that prerelease.
pub open spec fn claims(release: Release, date: Seq<char>, pre: Seq<char>) -> bool {
    &&& is_infix_of(date, release.tag_name@)
    &&& semver_version(version_text_of(release.tag_name@)) matches Some(parts)
    &&& parts.3 == pre
}

/// Some release among the first `upto` claims the prerelease text.
pub open spec fn claimed(
    releases: Seq<Release>,
    upto: int,
    date: Seq<char>,
    pre: Seq<char>,
) -> bool {
    exists|k: int| 0 <= k < upto && k < releases.len() && claims(#[trigger] releases[k], date, pre)
}

/// Collects the prerelease texts that the releases of one day claim.
pub fn claimed_prereleases(releases: &Vec<Release>, date: &str) -> (taken: Vec<String>)
    ensures
        forall|pre: Seq<char>|
            holds_text(taken@, pre) <==> #[trigger] claimed(
                releases@,
                releases@.len() as int,
                date@,
                pre,
            ),
{
    let mut taken: Vec<String> = Vec::new();
    let mut i: usize = 0;
    while i < releases.len()
        invariant
            i <= releases.len(),
            forall|pre: Seq<char>|
                holds_text(taken@, pre) <==> #[trigger] claimed(releases@, i as int, date@, pre),
        decreases releases.len() - i,
    {
        let release = &releases[i];
        let ghost before = taken@;
        let ghost mut added: Option<Seq<char>> = None;
        if contains(release.tag_name.as_str(), date) {
            let text = match strip_prefix(release.tag_name.as_str(), "enso-") {
                Some(rest) => rest,
                None => release.tag_name.as_str(),
            };
            match Version::parse(text) {
                Ok(version) => {
                    proof {
                        added = Some(version.pre@);
                    }
                    taken.push(version.pre);
                },
                Err(_) => {},
            }
        }
        proof {
            assert forall|pre: Seq<char>|
                holds_text(taken@, pre) <==> #[trigger] claimed(releases@, i + 1, date@, pre) by {
                if holds_text(taken@, pre) {
                    let w = choose|w: int| 0 <= w < taken@.len() && #[trigger] taken@[w]@ == pre;
                    if w < before.len() {
                        assert(before[w]@ == pre);
                        assert(holds_text(before, pre));
                        assert(claimed(releases@, i as int, date@, pre));
                        let k = choose|k: int|
                            0 <= k < i && k < releases@.len() && claims(
                                #[trigger] releases@[k],
                                date@,
                                pre,
                            );
                        assert(claims(releases@[k], date@, pre));
                    } else {
                        assert(added == Some(pre));
                        assert(claims(releases@[i as int], date@, pre));
                    }
                }
                if claimed(releases@, i + 1, date@, pre) {
                    let k = choose|k: int|
                        0 <= k < i + 1 && k < releases@.len() && claims(
                            #[trigger] releases@[k],
                            date@,
                            pre,
                        );
                    if k < i {
                        assert(claimed(releases@, i as int, date@, pre));
                        assert(holds_text(before, pre));
                        let w = choose|w: int| 0 <= w < before.len() && #[trigger] before[w]@ == pre;
                        assert(taken@[w]@ == pre);
                    } else {
                        assert(added == Some(pre));
                        assert(taken@[taken@.len() - 1]@ == pre);
                    }
                }
            }
        }
        i += 1;
    }
    taken
}

/// What `prepare_version` returns for a day, the version found in the
/// sources and the nightly releases so far.
///
/// The candidates for the prerelease are `SNAPSHOT.<date>`,
/// `SNAPSHOT.<date>.1`, `SNAPSHOT.<date>.2` and so on; the first that no
/// release of the day claims is taken. The engine's version is the found
/// version with that prerelease, and the edition is named `nightly-`
/// followed by the date and, from the second build of a day on, a dot and
/// the index.
pub open spec fn prepared(
    date: Seq<char>,
    found_version: Version,
    nightlies: Seq<Release>,
    versions: Result<Versions, VersionError>,
) -> bool {
    let base = "SNAPSHOT."@ + date;
    let all = nightlies.len() as int;
    match versions {
        Ok(versions) => exists|index: nat|
            {
                &&& index <= u32::MAX
                &&& versions.engine.pre@ == #[trigger] indexed(base, index)
                &&& crate::version::semver_prerelease(indexed(base, index))
                &&& !claimed(nightlies, all, date, indexed(base, index))
                &&& forall|j: nat|
                    j < index ==> crate::version::semver_prerelease(#[trigger] indexed(base, j))
                        && claimed(nightlies, all, date, indexed(base, j))
                &&& versions.engine.major == found_version.major
                &&& versions.engine.minor == found_version.minor
                &&& versions.engine.patch == found_version.patch
                &&& versions.engine.build == found_version.build
                &&& versions.edition@ == "nightly-"@ + indexed(date, index)
            },
        Err(VersionError::InvalidPrerelease) => exists|index: nat|
            {
                &&& index <= u32::MAX
                &&& !crate::version::semver_prerelease(#[trigger] indexed(base, index))
                &&& forall|j: nat|
                    j < index ==> crate::version::semver_prerelease(#[trigger] indexed(base, j))
                        && claimed(nightlies, all, date, indexed(base, j))
            },
        Err(VersionError::NoFreeIndex) => forall|j: nat|
            j <= u32::MAX ==> crate::version::semver_prerelease(#[trigger] indexed(base, j))
                && claimed(nightlies, all, date, indexed(base, j)),
        Err(_) => false,
    }
}

/// Prepares a version string and edition name for the nightly build.
///
/// The prerelease of the version found in the sources is replaced by
/// `SNAPSHOT`, a dot and the date (written year-month-day). If this is not
/// the first nightly build on that date, an increasing numeric suffix is
/// added.
pub fn prepare_version(date: &str, found_version: Version, nightlies: &Vec<Release>) -> (versions:
    Result<Versions, VersionError>)
    ensures
        prepared(date@, found_version, nightlies@, versions),
{
    let taken = claimed_prereleases(nightlies, date);
    let base = concat2("SNAPSHOT.", date);
    let found = free_prerelease(base.as_str(), &taken);
    proof {
        let b = "SNAPSHOT."@ + date@;
        let all = nightlies@.len() as int;
        assert forall|j: nat| #![trigger indexed(b, j)]
            holds_text(taken@, indexed(b, j)) == claimed(nightlies@, all, date@, indexed(b, j)) by {}
    }
    match found {
        Ok((index, pre)) => {
            let nightly = indexed_text(date, index);
            let edition = concat2("nightly-", nightly.as_str());
            let engine = Version {
                major: found_version.major,
                minor: found_version.minor,
                patch: found_version.patch,
                pre,
                build: found_version.build,
            };
            assert(engine.pre@ == indexed("SNAPSHOT."@ + date@, index as nat));
            Ok(Versions { engine, edition })
        },
        Err(VersionError::InvalidPrerelease) => {
            let ghost index = choose|index: nat|
                index <= u32::MAX && !crate::version::semver_prerelease(
                    #[trigger] indexed("SNAPSHOT."@ + date@, index),
                ) && crate::version::all_taken_below("SNAPSHOT."@ + date@, taken@, index);
            assert(!crate::version::semver_prerelease(indexed("SNAPSHOT."@ + date@, index)));
            Err(VersionError::InvalidPrerelease)
        },
        Err(e) => Err(e),
    }
}

/// Puts the answer of the check together: whether to proceed, and under
/// which versions.
pub fn preflight_check(
    current_head_sha: &str,
    date: &str,
    found_version: Version,
    nightlies: &Vec<Release>,
) -> (output: Result<Option<Versions>, VersionError>)
    ensures
        match output {
            Ok(None) => !proceeds(current_head_sha@, nightlies@),
            Ok(Some(versions)) => proceeds(current_head_sha@, nightlies@) && prepared(
                date@,
                found_version,
                nightlies@,
                Ok(versions),
            ),
            Err(e) => proceeds(current_head_sha@, nightlies@) && prepared(
                date@,
                found_version,
                nightlies@,
                Err(e),
            ),
        },
{
    if check_proceed(current_head_sha, nightlies) {
        match prepare_version(date, found_version, nightlies) {
            Ok(versions) => Ok(Some(versions)),
            Err(e) => Err(e),
        }
    } else {
        Ok(None)
    }
}

} // verus!
