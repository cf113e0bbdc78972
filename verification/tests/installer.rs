use mcmeta::errors::{classify, stops_dispatch, ErrorClass, FailureCause};
use mcmeta::models::forge::{ForgeEntry, ForgeFile, ForgeLegacyInfo, ForgeProcessedVersion};
use mcmeta::models::Timestamp;
use mcmeta::storage::forge_index::{add_version, empty_index};
use mcmeta::storage::forge_installer::{
    builds_to_process, collect_legacy_info, index_entry, installer_info, latest_timestamp,
    legacy_info, missing_profile_verdict, plan_installer, profile_verdict, recognize_profile,
    schema_order, InstallerPlan, ProfileParse, ProfileVerdict, SchemaVariant, Stored,
};
use mcmeta::strmap::StrMap;
use mcmeta::utils::{hash, hex_upper, should_regenerate, HashAlgo};

fn entry(mc: &str, version: &str, files: &[(&str, &str)]) -> ForgeEntry {
    let mut map = StrMap::new();
    for (c, e) in files {
        map.insert(
            c.to_string(),
            ForgeFile { classifier: c.to_string(), hash: "h".to_string(), extension: e.to_string() },
        );
    }
    ForgeEntry {
        long_version: format!("{}-{}", mc, version),
        mc_version: mc.to_string(),
        version: version.to_string(),
        build: 1,
        branch: None,
        latest: None,
        recommended: None,
        files: Some(map),
    }
}

fn version(mc: &str, v: &str, files: &[(&str, &str)]) -> ForgeProcessedVersion {
    ForgeProcessedVersion::new(&entry(mc, v, files))
}

fn stored(profile: bool, installer_info: bool, archive: bool) -> Stored {
    Stored { profile, installer_info, archive }
}

const NOTHING: InstallerPlan = InstallerPlan {
    download: false,
    read_profile: false,
    hash_installer: false,
    gather_legacy_info: false,
};

#[test]
fn plan_for_a_build_with_installer() {
    let v = version("1.20.1", "47.2.0", &[("installer", "jar")]);
    assert_eq!(
        plan_installer(&v, stored(false, false, false), true),
        InstallerPlan { download: true, read_profile: true, hash_installer: true, gather_legacy_info: false }
    );
    assert_eq!(
        plan_installer(&v, stored(false, false, true), false),
        InstallerPlan { download: false, read_profile: true, hash_installer: true, gather_legacy_info: false }
    );
    assert_eq!(
        plan_installer(&v, stored(true, false, false), false),
        InstallerPlan { download: true, read_profile: false, hash_installer: true, gather_legacy_info: false }
    );
    assert_eq!(
        plan_installer(&v, stored(false, true, false), false),
        InstallerPlan { download: true, read_profile: true, hash_installer: false, gather_legacy_info: false }
    );
    assert_eq!(plan_installer(&v, stored(true, true, false), true), NOTHING);
    assert_eq!(plan_installer(&v, stored(true, true, true), true), NOTHING);
}

#[test]
fn plan_for_a_build_without_installer() {
    let v = version("1.4.7", "6.6.2.534", &[("universal", "zip")]);
    assert_eq!(
        plan_installer(&v, stored(false, false, false), true),
        InstallerPlan { download: true, read_profile: false, hash_installer: false, gather_legacy_info: true }
    );
    assert_eq!(
        plan_installer(&v, stored(false, false, true), true),
        InstallerPlan { download: false, read_profile: false, hash_installer: false, gather_legacy_info: true }
    );
    // Gathered before: nothing to do.
    assert_eq!(plan_installer(&v, stored(false, false, false), false), NOTHING);
    // The game version 1.6.1 is passed over.
    let v = version("1.6.1", "8.9.0.749", &[("universal", "zip")]);
    assert_eq!(plan_installer(&v, stored(false, false, false), true), NOTHING);
    // 1.5.2 ships a bare archive even where an installer was published.
    let v = version("1.5.2", "7.8.1.738", &[("installer", "jar"), ("universal", "zip")]);
    assert_eq!(
        plan_installer(&v, stored(false, false, false), true),
        InstallerPlan { download: true, read_profile: false, hash_installer: false, gather_legacy_info: true }
    );
}

#[test]
fn schemas_are_tried_in_a_fixed_order() {
    assert_eq!(schema_order(), vec![SchemaVariant::V1, SchemaVariant::V2, SchemaVariant::Legacy]);
    assert_eq!(recognize_profile(&vec![true, true, true]), ProfileParse::V1Profile);
    assert_eq!(recognize_profile(&vec![true, false, false]), ProfileParse::V1Profile);
    assert_eq!(recognize_profile(&vec![false, true, true]), ProfileParse::V2Profile);
    assert_eq!(recognize_profile(&vec![false, true, false]), ProfileParse::V2Profile);
    assert_eq!(recognize_profile(&vec![false, false, false]), ProfileParse::Unrecognized);
    assert_eq!(recognize_profile(&vec![]), ProfileParse::Unrecognized);
    assert_eq!(recognize_profile(&vec![false, false, false, true]), ProfileParse::Unrecognized);
}

#[test]
fn oldest_schema_is_reached_by_fallback() {
    // A payload that lacks what the newer schemas want parses against the
    // oldest one alone.
    assert_eq!(recognize_profile(&vec![false, false, true]), ProfileParse::LegacyProfile);
    let supported = version("1.12.2", "14.23.5.2859", &[("installer", "jar")]);
    assert!(supported.is_supported());
    assert_eq!(
        profile_verdict(&supported, recognize_profile(&vec![false, false, true])),
        ProfileVerdict::Store(ProfileParse::LegacyProfile)
    );
}

#[test]
fn payload_of_no_schema_fails_only_a_supported_build() {
    let supported = version("1.12.2", "14.23.5.2859", &[("installer", "jar")]);
    let unsupported = version("1.20.1", "47.2.0", &[("installer", "jar")]);
    assert!(supported.is_supported());
    assert!(!unsupported.is_supported());
    let none = recognize_profile(&vec![false, false, false]);
    assert_eq!(profile_verdict(&supported, none), ProfileVerdict::Fail(FailureCause::Validation));
    assert_eq!(classify(FailureCause::Validation), ErrorClass::DataError);
    assert_eq!(profile_verdict(&unsupported, none), ProfileVerdict::Skip);
    assert_eq!(
        profile_verdict(&unsupported, ProfileParse::V2Profile),
        ProfileVerdict::Store(ProfileParse::V2Profile)
    );
    assert_eq!(
        missing_profile_verdict(&supported),
        ProfileVerdict::Fail(FailureCause::MissingEntry)
    );
    assert_eq!(classify(FailureCause::MissingEntry), ErrorClass::DataError);
    assert_eq!(missing_profile_verdict(&unsupported), ProfileVerdict::Skip);
}

#[test]
fn causes_and_their_classes() {
    for (cause, class, stops) in [
        (FailureCause::Network, ErrorClass::Transient, false),
        (FailureCause::ServerError, ErrorClass::Transient, false),
        (FailureCause::Timeout, ErrorClass::Transient, false),
        (FailureCause::Validation, ErrorClass::DataError, false),
        (FailureCause::PatternMismatch, ErrorClass::DataError, false),
        (FailureCause::MissingEntry, ErrorClass::DataError, false),
        (FailureCause::Storage, ErrorClass::Fatal, true),
        (FailureCause::TaskFault, ErrorClass::Fatal, false),
    ] {
        assert_eq!(classify(cause), class);
        assert_eq!(stops_dispatch(cause), stops);
    }
}

fn at(nanos: i128) -> Timestamp {
    Timestamp { unix_nanos: nanos, offset_seconds: 0 }
}

#[test]
fn latest_modification_time() {
    assert_eq!(latest_timestamp(&vec![]), at(0));
    assert_eq!(latest_timestamp(&vec![at(5), at(9), at(7)]), at(9));
    assert_eq!(latest_timestamp(&vec![at(-5)]), at(0));
    let early = Timestamp { unix_nanos: 9, offset_seconds: 3600 };
    assert_eq!(latest_timestamp(&vec![at(1), early, at(9)]), early);
}

#[test]
fn what_is_kept_of_an_archive() {
    let info = legacy_info(&vec![at(3), at(8)], "S1".to_string(), "S256".to_string(), 42);
    assert_eq!(
        info,
        ForgeLegacyInfo {
            release_time: Some(at(8)),
            size: Some(42),
            sha256: Some("S256".to_string()),
            sha1: Some("S1".to_string()),
        }
    );
    let i = installer_info("a".to_string(), "b".to_string(), 7);
    assert_eq!(i.sha1hash, Some("a".to_string()));
    assert_eq!(i.sha256hash, Some("b".to_string()));
    assert_eq!(i.size, Some(7));
    let list = collect_legacy_info(vec![
        None,
        Some(("1.4.7-6.6.2.534".to_string(), info.clone())),
        None,
        Some(("1.3.2-4.3.5.318".to_string(), ForgeLegacyInfo::default())),
    ]);
    assert_eq!(list.number.len(), 2);
    assert_eq!(list.number.get("1.4.7-6.6.2.534"), Some(&info));
    assert_eq!(list.number.get("1.3.2-4.3.5.318"), Some(&ForgeLegacyInfo::default()));
    assert_eq!(collect_legacy_info(vec![None, None]).number.len(), 0);
}

#[test]
fn builds_that_are_looked_at() {
    let mut index = empty_index();
    add_version(&mut index, entry("1.20.1", "47.2.0", &[("installer", "jar")]));
    add_version(&mut index, entry("1.4.7", "6.6.2.534", &[("universal", "zip")]));
    add_version(&mut index, entry("1.1", "1.3.4.29", &[("src", "zip")]));
    add_version(&mut index, entry("1.12.2", "14.23.5.2851", &[("installer", "jar")]));
    add_version(&mut index, entry("1.12.2", "14.23.5.2852", &[("installer", "jar")]));
    let builds = builds_to_process(&index);
    let names: Vec<&str> = builds.iter().map(|b| b.long_version.as_str()).collect();
    assert_eq!(names, vec!["1.12.2-14.23.5.2852", "1.20.1-47.2.0", "1.4.7-6.6.2.534"]);
    assert_eq!(builds_to_process(&empty_index()).len(), 0);
}

#[test]
fn digests_of_known_inputs() {
    assert_eq!(hash(b"", HashAlgo::Sha1), "DA39A3EE5E6B4B0D3255BFEF95601890AFD80709");
    assert_eq!(hash(b"abc", HashAlgo::Sha1), "A9993E364706816ABA3E25717850C26C9CD0D89D");
    assert_eq!(
        hash(b"", HashAlgo::Sha256),
        "E3B0C44298FC1C149AFBF4C8996FB92427AE41E4649B934CA495991B7852B855"
    );
    assert_eq!(
        hash(b"abc", HashAlgo::Sha256),
        "BA7816BF8F01CFEA414140DE5DAE2223B00361A396177A9CB410FF61F20015AD"
    );
}

#[test]
fn bytes_in_upper_case_hexadecimal() {
    assert_eq!(hex_upper(&vec![]), "");
    assert_eq!(hex_upper(&vec![0x00, 0x0f, 0xa0, 0xff, 0x5c]), "000FA0FF5C");
}

#[test]
fn unchanged_input_is_worked_on_once() {
    let index = b"{\"versions\":{}}";
    let first = hash(index, HashAlgo::Sha256);
    // First run: nothing stored.
    assert!(should_regenerate(&first, None));
    let record = index_entry(first.clone(), at(1_700_000_000_000_000_000));
    assert_eq!(record.hash, first);
    assert_eq!(record.path, "");
    assert_eq!(record.update_time, at(1_700_000_000_000_000_000));
    // Second run on the same bytes: skipped.
    let second = hash(index, HashAlgo::Sha256);
    assert!(!should_regenerate(&second, Some(&record.hash)));
    // Changed bytes: worked on again.
    let third = hash(b"{\"versions\":{\"a\":1}}", HashAlgo::Sha256);
    assert!(should_regenerate(&third, Some(&record.hash)));
    assert!(should_regenerate("", Some("x")));
    assert!(!should_regenerate("", Some("")));
}
