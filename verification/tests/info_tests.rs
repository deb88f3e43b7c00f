use info::{
    capture_build_constants, revision_or_unknown, Info, MissingBuildValue, OsDescriptor, RawInfo,
    RenderCache, Version, VersionField,
};

fn raw(pkg: &str, rev: &str, rustc: &str, target: &str, profile: &str) -> RawInfo {
    RawInfo::new(
        pkg.to_string(),
        rev.to_string(),
        rustc.to_string(),
        target.to_string(),
        profile.to_string(),
    )
}

fn version(major: u64, minor: u64, patch: u64, pre: &str, build: &str) -> Version {
    Version {
        major,
        minor,
        patch,
        pre: pre.to_string(),
        build: build.to_string(),
    }
}

fn sample_info() -> Info {
    Info {
        package_version: version(1, 2, 3, "", ""),
        revision: "abcd123".to_string(),
        compiler_version: version(1, 80, 0, "", ""),
        target: "x86_64-pc-linux".to_string(),
        profile: "release".to_string(),
        os: OsDescriptor::new(
            "Linux".to_string(),
            "6.1".to_string(),
            "64-bit".to_string(),
        ),
    }
}

#[test]
fn valid_versions_validate() {
    let info = Info::try_new(raw("1.2.3", "abcd123", "1.80.0", "x86_64-pc-linux", "release"))
        .expect("both versions are valid semver");
    assert_eq!(info.package_version, version(1, 2, 3, "", ""));
    assert_eq!(info.compiler_version, version(1, 80, 0, "", ""));
    assert_eq!(info.revision, "abcd123");
    assert_eq!(info.target, "x86_64-pc-linux");
    assert_eq!(info.profile, "release");
}

#[test]
fn pre_release_and_build_metadata_parse() {
    let info = Info::try_new(raw("1.2.3-alpha.1+build5", "r", "1.80.0", "t", "p"))
        .expect("pre-release and build metadata are valid semver");
    assert_eq!(info.package_version, version(1, 2, 3, "alpha.1", "build5"));
}

#[test]
fn arbitrary_opaque_text_accepted() {
    let info = Info::try_new(raw("0.1.0", "", "1.0.0-nightly", "", ""))
        .expect("opaque fields accept any text, including empty");
    assert_eq!(info.revision, "");
    assert_eq!(info.target, "");
    assert_eq!(info.profile, "");
    assert_eq!(info.compiler_version, version(1, 0, 0, "nightly", ""));
}

#[test]
fn largest_numeric_components_validate() {
    let info = Info::try_new(raw(
        "18446744073709551615.0.0",
        "r",
        "1.80.0",
        "t",
        "p",
    ))
    .expect("u64-sized components are valid semver");
    assert_eq!(
        info.package_version,
        version(18446744073709551615, 0, 0, "", "")
    );
    assert_eq!(
        info.package_version.render(),
        "18446744073709551615.0.0"
    );
}

#[test]
fn malformed_package_version_rejected() {
    let err = Info::try_new(raw("abc", "r", "1.80.0", "t", "p"))
        .expect_err("a word is not a semver");
    assert_eq!(err.field, VersionField::PackageVersion);
    assert_eq!(err.text, "abc");
}

#[test]
fn empty_package_version_rejected() {
    let err = Info::try_new(raw("", "r", "1.80.0", "t", "p"))
        .expect_err("the empty string is not a semver");
    assert_eq!(err.field, VersionField::PackageVersion);
    assert_eq!(err.text, "");
}

#[test]
fn two_component_version_rejected() {
    let err = Info::try_new(raw("1.2", "r", "1.80.0", "t", "p"))
        .expect_err("a semver has exactly three numeric components");
    assert_eq!(err.field, VersionField::PackageVersion);
    assert_eq!(err.text, "1.2");
}

#[test]
fn malformed_compiler_version_rejected() {
    let err = Info::try_new(raw("1.2.3", "r", "nope", "t", "p"))
        .expect_err("the compiler version must also be a semver");
    assert_eq!(err.field, VersionField::CompilerVersion);
    assert_eq!(err.text, "nope");
}

#[test]
fn version_rendering_exact() {
    assert_eq!(version(1, 2, 3, "", "").render(), "1.2.3");
    assert_eq!(version(0, 0, 0, "", "").render(), "0.0.0");
    assert_eq!(
        version(1, 2, 3, "alpha.1", "build5").render(),
        "1.2.3-alpha.1+build5"
    );
    assert_eq!(version(10, 200, 3000, "", "x").render(), "10.200.3000+x");
}

#[test]
fn os_rendering_exact() {
    let os = OsDescriptor::new(
        "Ubuntu".to_string(),
        "22.04".to_string(),
        "64-bit".to_string(),
    );
    assert_eq!(os.render(), "Ubuntu 22.04 (64-bit)");
}

#[test]
fn info_rendering_exact() {
    let info = sample_info();
    assert_eq!(
        info.render(),
        "1.2.3 abcd123 x86_64-pc-linux release rustc-1.80.0 Linux 6.1 (64-bit)"
    );
}

#[test]
fn rendering_deterministic() {
    let a = sample_info();
    let b = sample_info();
    assert_eq!(a, b);
    assert_eq!(a.render(), b.render());
    assert_eq!(a.render(), a.render());
}

#[test]
fn validated_snapshot_renders_expected_prefix() {
    let info = Info::try_new(raw(
        "1.2.3",
        "abcd123",
        "1.80.0",
        "x86_64-pc-linux",
        "release",
    ))
    .expect("the snapshot is valid");
    let line = info.render();
    assert!(
        line.starts_with("1.2.3 abcd123 x86_64-pc-linux release rustc-1.80.0 "),
        "unexpected rendering: {line}"
    );
}

#[test]
fn cached_rendering_computed_once() {
    let info = sample_info();
    let mut cache = RenderCache::new();
    assert!(cache.cached.is_none());
    let first = cache.get_or_render(&info);
    assert_eq!(cache.cached.as_deref(), Some(first.as_str()));
    let second = cache.get_or_render(&info);
    assert_eq!(first, second);
    let third = cache.get_or_render(&info);
    assert_eq!(first, third);
    assert_eq!(first, info.render());
}

#[test]
fn cached_rendering_keeps_first_text() {
    let mut cache = RenderCache::new();
    let first = cache.get_or_render(&sample_info());
    let mut other = sample_info();
    other.revision = "other".to_string();
    let second = cache.get_or_render(&other);
    assert_eq!(first, second, "a populated cell is handed back unchanged");
}

#[test]
fn record_round_trip() {
    let info = Info::try_new(raw(
        "1.2.3-alpha+b7",
        "abcd123",
        "1.80.0",
        "x86_64-pc-linux",
        "release",
    ))
    .expect("the snapshot is valid");
    let rec = info.to_record();
    let back = Info::from_record(&rec);
    assert_eq!(back, info);
}

#[test]
fn record_round_trip_reverse() {
    let rec = sample_info().to_record();
    assert_eq!(rec.package_major, 1);
    assert_eq!(rec.os_bitness, "64-bit");
    let back = Info::from_record(&rec).to_record();
    assert_eq!(back, rec);
}

#[test]
fn fallback_revision_is_unknown() {
    assert_eq!(revision_or_unknown(None), "unknown");
    assert_eq!(revision_or_unknown(Some("abcd123".to_string())), "abcd123");
}

#[test]
fn rendering_includes_fallback_revision() {
    let info = Info::try_new(raw(
        "1.2.3",
        &revision_or_unknown(None),
        "1.80.0",
        "x86_64-pc-linux",
        "release",
    ))
    .expect("the snapshot is valid");
    let line = info.render();
    assert!(line.contains(" unknown "), "unexpected rendering: {line}");
}

#[test]
fn capture_succeeds_when_all_present() {
    let constants = capture_build_constants(
        Some("x86_64-pc-linux".to_string()),
        Some("release".to_string()),
        Some("1.80.0".to_string()),
    )
    .expect("every build value is present");
    assert_eq!(constants.target, "x86_64-pc-linux");
    assert_eq!(constants.profile, "release");
    assert_eq!(constants.compiler_version, "1.80.0");
}

#[test]
fn capture_names_missing_target() {
    let err = capture_build_constants(
        None,
        Some("release".to_string()),
        Some("1.80.0".to_string()),
    )
    .expect_err("the target is missing");
    assert_eq!(err, MissingBuildValue::Target);
}

#[test]
fn capture_names_missing_profile() {
    let err = capture_build_constants(
        Some("x86_64-pc-linux".to_string()),
        None,
        Some("1.80.0".to_string()),
    )
    .expect_err("the profile is missing");
    assert_eq!(err, MissingBuildValue::Profile);
}

#[test]
fn capture_names_missing_compiler_version() {
    let err = capture_build_constants(
        Some("x86_64-pc-linux".to_string()),
        Some("release".to_string()),
        None,
    )
    .expect_err("the compiler version is missing");
    assert_eq!(err, MissingBuildValue::CompilerVersion);
}
