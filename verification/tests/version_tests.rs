use enso_build::actions::workflow::is_in_env;
use enso_build::release::Asset;
use enso_build::release::Release;
use enso_build::source::MalformedRepository;
use enso_build::source::RepoContext;
use enso_build::version::base_version;
use enso_build::version::base_version_in;
use enso_build::version::BuildKind;
use enso_build::version::changelog_headers;
use enso_build::version::current_year;
use enso_build::version::deduce_versions;
use enso_build::version::deduce_versions_on;
use enso_build::version::default_dev_version;
use enso_build::version::find_in_text;
use enso_build::version::free_prerelease;
use enso_build::version::generate_initial_version;
use enso_build::version::indexed_text;
use enso_build::version::initial_version_in;
use enso_build::version::is_nightly;
use enso_build::version::is_nightly_release;
use enso_build::version::latest_nightly_release;
use enso_build::version::LOCAL_BUILD_PREFIX;
use enso_build::version::next_version_in;
use enso_build::version::NIGHTLY_BUILD_PREFIX;
use enso_build::version::nightly_releases;
use enso_build::version::suggest_next_version;
use enso_build::version::Version;
use enso_build::version::version_from_env;
use enso_build::version::VersionError;
use enso_build::version::VersionReq;
use enso_build::version::Versions;

/// Writes the version that a text of the form `major.minor.patch-pre` stands
/// for, reading each number leniently.
fn version_of(text: &str) -> Version {
    let (core, pre) = match text.split_once('-') {
        Some((core, pre)) => (core, pre),
        None => (text, ""),
    };
    let numbers: Vec<u64> = core.split('.').map(|n| n.parse().unwrap()).collect();
    assert_eq!(numbers.len(), 3);
    Version {
        major: numbers[0],
        minor: numbers[1],
        patch: numbers[2],
        pre: pre.to_string(),
        build: String::new(),
    }
}

#[test]
fn is_nightly_test() {
    let is_nightly = |text: &str| is_nightly(&version_of(text));

    assert!(is_nightly("2022.01.01-nightly.2022.01.01"));
    assert!(is_nightly("2022.01.01-nightly"));
    assert!(is_nightly("2022.01.01-nightly.2022.01.01"));
    assert!(is_nightly("2022.01.01-nightly.2022.01.01"));
}

#[test]
fn version_text_has_all_parts() {
    let mut version = Version::new(2022, 1, 10);
    assert_eq!(version.to_string(), "2022.1.10");
    version.pre = "nightly.2022-01-01".to_string();
    assert_eq!(version.to_string(), "2022.1.10-nightly.2022-01-01");
    version.build = "b5".to_string();
    assert_eq!(version.to_string(), "2022.1.10-nightly.2022-01-01+b5");
}

#[test]
fn parse_reads_the_five_parts() {
    let version = Version::parse("1.20.3-alpha.1+build.7").unwrap();
    assert_eq!(version.major, 1);
    assert_eq!(version.minor, 20);
    assert_eq!(version.patch, 3);
    assert_eq!(version.pre, "alpha.1");
    assert_eq!(version.build, "build.7");
    assert!(Version::parse("1.0").is_err());
    assert!(Version::parse("2022.01.01-nightly").is_err());
}


fn release(tag: &str, draft: bool) -> Release {
    Release {
        tag_name: tag.to_string(),
        name: None,
        draft,
        target_commitish: "main".to_string(),
        assets: Vec::<Asset>::new(),
    }
}

fn parts(version: &Version) -> (u64, u64, u64, &str, &str) {
    (version.major, version.minor, version.patch, version.pre.as_str(), version.build.as_str())
}

#[test]
fn build_prefixes() {
    assert_eq!(LOCAL_BUILD_PREFIX, "dev");
    assert_eq!(NIGHTLY_BUILD_PREFIX, "nightly");
}

#[test]
fn dev_version_is_zero_with_dev_prerelease() {
    let version = default_dev_version();
    assert_eq!(parts(&version), (0, 0, 0, "dev", ""));
    assert_eq!(version.to_string(), "0.0.0-dev");
    assert!(!is_nightly(&version));
}

#[test]
fn nightly_needs_the_marker_in_front() {
    let mut version = Version::new(1, 0, 0);
    version.pre = "rc.nightly".to_string();
    assert!(!is_nightly(&version));
    version.pre = "nightly".to_string();
    assert!(is_nightly(&version));
    assert!(!is_nightly(&Version::new(1, 0, 0)));
}

#[test]
fn versions_derive_release_mode() {
    let mut local = Version::new(2022, 1, 1);
    local.pre = "dev".to_string();
    assert!(!Versions::new(local).release_mode);
    let mut snapshot = Version::new(2022, 1, 1);
    snapshot.pre = "SNAPSHOT.2022-01-01".to_string();
    assert!(!Versions::new(snapshot).release_mode);
    let mut nightly = Version::new(2022, 1, 1);
    nightly.pre = "nightly.2022-01-01".to_string();
    let versions = Versions::new(nightly);
    assert!(versions.release_mode);
    assert!(versions.is_nightly());
    assert!(Versions::new(Version::new(2022, 1, 1)).release_mode);
    let default = Versions::default();
    assert!(!default.release_mode);
    assert_eq!(default.version.to_string(), "0.0.0-dev");
}

#[test]
fn versions_names_and_variables() {
    let mut version = Version::new(2022, 1, 2);
    version.pre = "nightly.2022-03-04".to_string();
    let versions = Versions::new(version);
    assert_eq!(versions.edition_name(), "2022.1.2-nightly.2022-03-04");
    assert_eq!(versions.pretty_name(), "Enso 2022.1.2-nightly.2022-03-04");
    assert_eq!(versions.tag(), "2022.1.2-nightly.2022-03-04");
    let variables = versions.publish();
    assert_eq!(
        variables,
        vec![
            ("ENSO_VERSION".to_string(), "2022.1.2-nightly.2022-03-04".to_string()),
            ("ENSO_EDITION".to_string(), "2022.1.2-nightly.2022-03-04".to_string()),
            ("ENSO_RELEASE_MODE".to_string(), "true".to_string()),
        ]
    );
    let local = Versions::default().publish();
    assert_eq!(local[2], ("ENSO_RELEASE_MODE".to_string(), "false".to_string()));
}

#[test]
fn local_prerelease_is_dev() {
    assert_eq!(Versions::local_prerelease().unwrap(), "dev");
}

#[test]
fn nightly_release_is_published_and_tagged_nightly() {
    assert!(is_nightly_release(&release("2022.1.1-nightly.2022-01-01", false)));
    assert!(!is_nightly_release(&release("2022.1.1-nightly.2022-01-01", true)));
    assert!(!is_nightly_release(&release("2022.1.1", false)));
}

#[test]
fn nightly_releases_keep_their_order() {
    let all = vec![
        release("a-nightly.1", false),
        release("b", false),
        release("c-nightly.2", true),
        release("d-nightly.3", false),
    ];
    let kept: Vec<String> = nightly_releases(all).into_iter().map(|r| r.tag_name).collect();
    assert_eq!(kept, vec!["a-nightly.1".to_string(), "d-nightly.3".to_string()]);
    assert!(nightly_releases(Vec::new()).is_empty());
}

#[test]
fn latest_nightly_is_the_first_nightly() {
    let all = vec![release("v1.0", false), release("x-nightly", true), release("y-nightly", false)];
    assert_eq!(latest_nightly_release(&all), Some(2));
    assert_eq!(latest_nightly_release(&vec![release("v1.0", false)]), None);
}

#[test]
fn indexed_candidates() {
    assert_eq!(indexed_text("nightly.2022-01-01", 0), "nightly.2022-01-01");
    assert_eq!(indexed_text("nightly.2022-01-01", 1), "nightly.2022-01-01.1");
    assert_eq!(indexed_text("nightly.2022-01-01", 120), "nightly.2022-01-01.120");
    assert_eq!(indexed_text("x", u32::MAX), "x.4294967295");
}

#[test]
fn free_prerelease_skips_what_is_taken() {
    let taken = vec!["nightly.2022-01-01".to_string(), "nightly.2022-01-01.1".to_string()];
    assert_eq!(
        free_prerelease("nightly.2022-01-01", &taken),
        Ok((2, "nightly.2022-01-01.2".to_string()))
    );
    assert_eq!(
        free_prerelease("nightly.2022-01-02", &taken),
        Ok((0, "nightly.2022-01-02".to_string()))
    );
    assert_eq!(free_prerelease("not valid", &taken), Err(VersionError::InvalidPrerelease));
    // A numeric identifier must not start with a zero.
    assert_eq!(free_prerelease("nightly.01", &taken), Err(VersionError::InvalidPrerelease));
}

#[test]
fn nightly_prerelease_counts_the_builds_of_the_day() {
    let releases = vec![
        release("2022.1.1-nightly.2022-05-06.1", false),
        release("2022.1.1-nightly.2022-05-06", false),
        release("2022.1.1-nightly.2022-05-05", false),
    ];
    assert_eq!(
        Versions::nightly_prerelease_on("2022-05-06", &releases),
        Ok("nightly.2022-05-06.2".to_string())
    );
    assert_eq!(
        Versions::nightly_prerelease_on("2022-05-05", &releases),
        Ok("nightly.2022-05-05.1".to_string())
    );
    assert_eq!(
        Versions::nightly_prerelease_on("2022-05-07", &releases),
        Ok("nightly.2022-05-07".to_string())
    );
}

#[test]
fn nightly_prerelease_ignores_drafts_and_unreadable_tags() {
    let releases = vec![
        release("2022.1.1-nightly.2022-05-06", true),
        release("enso-2022.1.1-nightly.2022-05-06", false),
        release("2022.01.01-nightly.2022-05-06", false),
    ];
    assert_eq!(
        Versions::nightly_prerelease_on("2022-05-06", &releases),
        Ok("nightly.2022-05-06".to_string())
    );
    assert_eq!(
        Versions::nightly_prerelease_on("2022/05/06", &releases),
        Err(VersionError::InvalidPrerelease)
    );
}

#[test]
fn nightly_prerelease_of_today_has_the_date() {
    let pre = Versions::nightly_prerelease(&Vec::new()).unwrap();
    assert!(pre.starts_with("nightly."));
    let date = &pre["nightly.".len()..];
    assert_eq!(date.len(), 10);
    assert_eq!(date.matches('-').count(), 2);
    assert!(date.starts_with(&current_year().to_string()));
}

#[test]
fn version_from_env_needs_a_value() {
    assert_eq!(version_from_env(None).unwrap_err(), VersionError::NotSet);
    assert_eq!(version_from_env(Some("nonsense")).unwrap_err(), VersionError::InvalidVersion);
    assert_eq!(version_from_env(Some("1.2.3")).unwrap().to_string(), "1.2.3");
}

#[test]
fn initial_and_next_versions() {
    assert_eq!(parts(&initial_version_in(2022)), (2022, 1, 1, "", ""));
    assert_eq!(parts(&next_version_in(&Version::new(2022, 4, 7), 2022)), (2022, 5, 1, "", ""));
    assert_eq!(parts(&next_version_in(&Version::new(2021, 4, 7), 2022)), (2022, 1, 1, "", ""));
    let year = current_year();
    assert!(year >= 2024);
    assert_eq!(parts(&generate_initial_version()), (year, 1, 1, "", ""));
    assert_eq!(parts(&suggest_next_version(&Version::new(year, 2, 3))), (year, 3, 1, "", ""));
    assert_eq!(parts(&suggest_next_version(&Version::new(1999, 2, 3))), (year, 1, 1, "", ""));
}

#[test]
fn find_in_text_takes_the_first_version() {
    assert_eq!(find_in_text("Enso 2.0.0-alpha.18 (2021-10-12)").unwrap().to_string(), "2.0.0-alpha.18");
    assert_eq!(find_in_text("node v16.15.0").unwrap_err(), VersionError::InvalidVersion);
    assert_eq!(find_in_text("cargo 1.62.0 then 1.63.0").unwrap().to_string(), "1.62.0");
    assert_eq!(find_in_text("Next Release").unwrap_err(), VersionError::InvalidVersion);
    assert_eq!(find_in_text("").unwrap_err(), VersionError::InvalidVersion);
    assert_eq!(find_in_text("  1.2.3  ").unwrap().to_string(), "1.2.3");
}

#[test]
fn base_version_follows_the_changelog() {
    let year = 2022;
    let none: Vec<Result<Version, VersionError>> = Vec::new();
    assert_eq!(parts(&base_version_in(None, none, year).unwrap()), (2022, 1, 1, "", ""));
    let from_env = Version::new(9, 9, 9);
    assert_eq!(
        parts(&base_version_in(Some(from_env), vec![Ok(Version::new(1, 2, 3))], year).unwrap()),
        (9, 9, 9, "", "")
    );
    assert_eq!(
        parts(&base_version_in(None, vec![Ok(Version::new(1, 2, 3))], year).unwrap()),
        (1, 2, 3, "", "")
    );
    assert_eq!(
        parts(&base_version_in(None, vec![Err(VersionError::InvalidVersion)], year).unwrap()),
        (2022, 1, 1, "", "")
    );
    assert_eq!(
        parts(
            &base_version_in(
                None,
                vec![Err(VersionError::InvalidVersion), Ok(Version::new(2022, 3, 1))],
                year
            )
            .unwrap()
        ),
        (2022, 4, 1, "", "")
    );
    assert_eq!(
        base_version_in(
            None,
            vec![Err(VersionError::InvalidVersion), Err(VersionError::InvalidVersion)],
            year
        )
        .unwrap_err(),
        VersionError::NoVersionInHeaders
    );
}

#[test]
fn base_version_reads_the_headers() {
    let year = current_year();
    let headers = vec!["Next Release".to_string(), format!("Enso {}.2.1 (date)", year)];
    assert_eq!(parts(&base_version(None, &headers).unwrap()), (year, 3, 1, "", ""));
    let headers = vec!["Enso 3.0.0-alpha.1".to_string()];
    assert_eq!(base_version(None, &headers).unwrap().to_string(), "3.0.0-alpha.1");
    let headers = vec!["Next Release".to_string(), "Older Release".to_string()];
    assert_eq!(base_version(None, &headers).unwrap_err(), VersionError::NoVersionInHeaders);
    let headers = vec!["Next".to_string(), format!("{}.{}.0", year, u64::MAX)];
    assert_eq!(base_version(None, &headers).unwrap_err(), VersionError::NoSuccessor);
    let headers = vec!["Next".to_string(), format!("1.{}.0", u64::MAX)];
    assert_eq!(parts(&base_version(None, &headers).unwrap()), (year, 1, 1, "", ""));
    assert_eq!(parts(&base_version(None, &Vec::new()).unwrap()), (year, 1, 1, "", ""));
}

#[test]
fn deduce_versions_sets_the_prerelease() {
    let base = || {
        let mut base = Version::new(2022, 1, 1);
        base.pre = "rc.1".to_string();
        base.build = "b1".to_string();
        Ok(base)
    };
    let local = deduce_versions_on(BuildKind::Dev, "2022-05-06", None, base()).unwrap();
    assert_eq!(local.version.to_string(), "2022.1.1-dev+b1");
    assert!(!local.release_mode);
    let releases = vec![release("2022.1.1-nightly.2022-05-06", false)];
    let nightly =
        deduce_versions_on(BuildKind::Nightly, "2022-05-06", Some(&releases), base()).unwrap();
    assert_eq!(nightly.version.to_string(), "2022.1.1-nightly.2022-05-06.1+b1");
    assert!(nightly.release_mode);
    assert_eq!(
        deduce_versions_on(BuildKind::Nightly, "2022-05-06", None, base()).unwrap_err(),
        VersionError::MissingRepository
    );
    assert_eq!(
        deduce_versions_on(BuildKind::Dev, "2022-05-06", None, Err(VersionError::NotSet))
            .unwrap_err(),
        VersionError::NotSet
    );
    // The prerelease is settled first.
    assert_eq!(
        deduce_versions_on(BuildKind::Nightly, "2022-05-06", None, Err(VersionError::NotSet))
            .unwrap_err(),
        VersionError::MissingRepository
    );
    let today = deduce_versions(BuildKind::Dev, None, base()).unwrap();
    assert_eq!(today.version.pre, "dev");
}

#[test]
fn requirements_match_versions() {
    let requirement = VersionReq::parse("^0.10.2").unwrap();
    assert_eq!(requirement.to_string(), "^0.10.2");
    assert!(requirement.matches(&Version::new(0, 10, 3)));
    assert!(!requirement.matches(&Version::new(0, 11, 0)));
    assert!(VersionReq::parse("=16.15.0").unwrap().matches(&Version::new(16, 15, 0)));
    assert!(!VersionReq::parse("=16.15.0").unwrap().matches(&Version::new(16, 15, 1)));
    assert_eq!(VersionReq::parse("not a requirement").unwrap_err(), VersionError::InvalidRequirement);
    let mut odd = Version::new(0, 10, 3);
    odd.pre = "not valid".to_string();
    assert!(!VersionReq::parse("*").unwrap().matches(&odd));
}

#[test]
fn changelog_headers_are_the_lines_with_one_hash() {
    let changelog = "# Next Release\n\n## Visual Environment\n\n- Something\n\n# Enso 2.0.0-alpha.18 (2021-10-12)\n#not\n# ";
    assert_eq!(
        changelog_headers(changelog),
        vec!["Next Release".to_string(), "Enso 2.0.0-alpha.18 (2021-10-12)".to_string(), "".to_string()]
    );
    assert!(changelog_headers("").is_empty());
    assert!(changelog_headers("no headers\nat all").is_empty());
    let headers = changelog_headers("# Next\n# Enso 2022.3.1 (x)\n");
    let year = 2022;
    let looked_up = headers.iter().map(|header| find_in_text(header)).collect();
    assert_eq!(base_version_in(None, looked_up, year).unwrap().to_string(), "2022.4.1");
}

#[test]
fn repositories_are_named_by_owner_and_name() {
    let repository = RepoContext::from_str("enso-org/enso").unwrap();
    assert_eq!(repository.owner, "enso-org");
    assert_eq!(repository.name, "enso");
    assert_eq!(repository.to_string(), "enso-org/enso");
    for text in ["enso", "", "/", "enso-org/", "/enso", "a/b/c"] {
        assert_eq!(RepoContext::from_str(text).unwrap_err(), MalformedRepository);
    }
}

#[test]
fn ci_environment_probe() {
    assert!(is_in_env(Some("true")));
    assert!(!is_in_env(Some("false")));
    assert!(!is_in_env(Some("")));
    assert!(!is_in_env(None));
}
