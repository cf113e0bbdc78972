use mcmeta::models::forge::{
    DerivedForgeIndex, ForgeEntry, ForgeFile, ForgeMavenMetadata, ForgeMavenPromotions,
};
use mcmeta::storage::forge::{recommended_versions, VersionError};
use mcmeta::storage::forge_index::{
    add_version, add_versions, derive_index, empty_index, finish_forge_update, is_promoted,
    plan_forge_update, process_forge_version, refresh_recommendations, resolve_latest, IndexError,
};
use mcmeta::strmap::StrMap;

fn promotions(pairs: &[(&str, &str)]) -> ForgeMavenPromotions {
    let mut promos = StrMap::new();
    for (k, v) in pairs {
        promos.insert(k.to_string(), v.to_string());
    }
    ForgeMavenPromotions { homepage: String::new(), promos }
}

fn entry(rec: &Vec<String>, mc: &str, long: &str) -> ForgeEntry {
    process_forge_version(rec, mc, long, StrMap::new()).unwrap()
}

fn keys(index: &DerivedForgeIndex) -> Vec<String> {
    (0..index.versions.len()).map(|i| index.versions.key_at(i).clone()).collect()
}

#[test]
fn recommended_and_latest_are_resolved() {
    let rec = recommended_versions(&promotions(&[
        ("1.20-recommended", "10.5"),
        ("1.20-latest-forge", "10.7"),
    ]));
    assert_eq!(rec, vec!["10.5"]);
    let fetched = vec![entry(&rec, "1.20", "1.20-10.5.100"), entry(&rec, "1.20", "1.20-10.7.200")];
    let index = derive_index(empty_index(), &rec, fetched).unwrap();
    let info = index.by_mc_version.get("1.20").unwrap();
    assert_eq!(info.recommended, Some("1.20-10.5.100".to_string()));
    assert_eq!(info.latest, Some("1.20-10.7.200".to_string()));
    assert_eq!(info.versions, vec!["1.20-10.5.100", "1.20-10.7.200"]);
    assert_eq!(keys(&index), vec!["1.20-10.5.100", "1.20-10.7.200"]);
    assert_eq!(index.versions.get("1.20-10.5.100").unwrap().recommended, Some(true));
    assert_eq!(index.versions.get("1.20-10.7.200").unwrap().recommended, Some(false));
    assert_eq!(index.versions.get("1.20-10.7.200").unwrap().latest, None);
}

#[test]
fn latest_is_the_build_found_last() {
    let rec = vec![];
    let fetched = vec![
        entry(&rec, "1.20", "1.20-10.7.200"),
        entry(&rec, "1.19", "1.19-9.0.1"),
        entry(&rec, "1.20", "1.20-10.5.100"),
    ];
    let index = derive_index(empty_index(), &rec, fetched).unwrap();
    let info = index.by_mc_version.get("1.20").unwrap();
    assert_eq!(info.versions, vec!["1.20-10.7.200", "1.20-10.5.100"]);
    assert_eq!(info.latest, Some("1.20-10.5.100".to_string()));
    assert_eq!(info.recommended, None);
    let info = index.by_mc_version.get("1.19").unwrap();
    assert_eq!(info.latest, Some("1.19-9.0.1".to_string()));
    assert_eq!(index.versions.len(), 3);
}

#[test]
fn a_promotion_names_a_build_with_or_without_its_build_number() {
    let rec = vec!["47.2.0".to_string(), "10.5".to_string()];
    assert!(is_promoted(&rec, "47.2.0"));
    assert!(is_promoted(&rec, "10.5.100"));
    assert!(is_promoted(&rec, "10.5"));
    assert!(!is_promoted(&rec, "47.2.1"));
    assert!(is_promoted(&rec, "47.2.0.1"));
    assert!(!is_promoted(&rec, "47.2.0.1.5"));
    assert!(!is_promoted(&rec, "10"));
    assert!(!is_promoted(&vec![], "10.5"));
    assert!(!is_promoted(&vec!["".to_string()], "5"));
    assert!(is_promoted(&vec!["".to_string()], ".5"));
}

#[test]
fn bad_version_never_enters_the_index() {
    let rec = vec![];
    let fetched = vec![
        entry(&rec, "1.12.2", "1.12.2-14.23.5.2850"),
        entry(&rec, "1.12.2", "1.12.2-14.23.5.2851"),
        entry(&rec, "1.12.2", "1.12.2-14.23.5.2852"),
    ];
    let index = derive_index(empty_index(), &rec, fetched).unwrap();
    assert_eq!(keys(&index), vec!["1.12.2-14.23.5.2850", "1.12.2-14.23.5.2852"]);
    assert!(!index.versions.contains_key("1.12.2-14.23.5.2851"));
    let info = index.by_mc_version.get("1.12.2").unwrap();
    assert_eq!(info.versions, vec!["1.12.2-14.23.5.2850", "1.12.2-14.23.5.2852"]);
    assert_eq!(info.latest, Some("1.12.2-14.23.5.2852".to_string()));

    // Alone it leaves the index empty.
    let only = vec![entry(&rec, "1.12.2", "1.12.2-14.23.5.2851")];
    let index = derive_index(empty_index(), &rec, only).unwrap();
    assert_eq!(index.versions.len(), 0);
    assert_eq!(index.by_mc_version.len(), 0);
}

#[test]
fn index_of_an_earlier_cycle_is_brought_up_to_date() {
    let old_rec = vec!["9.1.1".to_string()];
    let first = derive_index(
        empty_index(),
        &old_rec,
        vec![entry(&old_rec, "1.19", "1.19-9.1.1"), entry(&old_rec, "1.19", "1.19-9.1.2")],
    )
    .unwrap();
    assert_eq!(
        first.by_mc_version.get("1.19").unwrap().recommended,
        Some("1.19-9.1.1".to_string())
    );
    // The promotions move on, and a build comes in.
    let rec = vec!["9.1.2".to_string()];
    let second = derive_index(first, &rec, vec![entry(&rec, "1.19", "1.19-9.1.3")]).unwrap();
    let info = second.by_mc_version.get("1.19").unwrap();
    assert_eq!(info.versions, vec!["1.19-9.1.1", "1.19-9.1.2", "1.19-9.1.3"]);
    assert_eq!(info.recommended, Some("1.19-9.1.2".to_string()));
    assert_eq!(info.latest, Some("1.19-9.1.3".to_string()));
    assert_eq!(second.versions.get("1.19-9.1.1").unwrap().recommended, Some(false));
    assert_eq!(second.versions.get("1.19-9.1.2").unwrap().recommended, Some(true));
}

#[test]
fn of_several_recommended_builds_the_last_in_order_stands() {
    let rec = vec!["10.13.2.1300".to_string()];
    let mut index = empty_index();
    add_versions(
        &mut index,
        vec![
            entry(&vec![], "1.7.10", "1.7.10-10.13.2.1300-1.7.10"),
            entry(&vec![], "1.7.10", "1.7.10-10.13.2.1300"),
        ],
    );
    assert_eq!(index.by_mc_version.get("1.7.10").unwrap().recommended, None);
    assert_eq!(refresh_recommendations(&mut index, &rec), Ok(()));
    assert_eq!(
        index.by_mc_version.get("1.7.10").unwrap().recommended,
        Some("1.7.10-10.13.2.1300-1.7.10".to_string())
    );
}

#[test]
fn recommended_build_of_an_unlisted_game_version_is_an_error() {
    let rec = vec!["9.1.1".to_string()];
    let mut index = empty_index();
    index.versions.insert("1.19-9.1.1".to_string(), entry(&rec, "1.19", "1.19-9.1.1"));
    let before = index.clone();
    assert_eq!(
        refresh_recommendations(&mut index, &rec),
        Err(IndexError::MissingGameVersion { mc_version: "1.19".to_string() })
    );
    assert_eq!(index, before);
    assert_eq!(
        derive_index(index.clone(), &rec, vec![]),
        Err(IndexError::MissingGameVersion { mc_version: "1.19".to_string() })
    );
    // Without the recommendation nothing is wrong.
    assert_eq!(refresh_recommendations(&mut index, &vec![]), Ok(()));
}

#[test]
fn game_version_without_builds_is_an_error() {
    let mut index = empty_index();
    index.by_mc_version.insert("1.1".to_string(), Default::default());
    let before = index.clone();
    assert_eq!(
        resolve_latest(&mut index),
        Err(IndexError::NoVersions { mc_version: "1.1".to_string() })
    );
    assert_eq!(index, before);
    assert_eq!(
        derive_index(index, &vec![], vec![]),
        Err(IndexError::NoVersions { mc_version: "1.1".to_string() })
    );
    let mut empty = empty_index();
    assert_eq!(resolve_latest(&mut empty), Ok(()));
}

#[test]
fn entry_of_a_fetched_build() {
    let rec = vec!["47.2.0".to_string()];
    let mut files = StrMap::new();
    files.insert(
        "installer".to_string(),
        ForgeFile {
            classifier: "installer".to_string(),
            hash: "0123456789abcdef0123456789abcdef".to_string(),
            extension: "jar".to_string(),
        },
    );
    let e = process_forge_version(&rec, "1.20.1", "1.20.1-47.2.0", files.clone()).unwrap();
    assert_eq!(
        e,
        ForgeEntry {
            long_version: "1.20.1-47.2.0".to_string(),
            mc_version: "1.20.1".to_string(),
            version: "47.2.0".to_string(),
            build: 0,
            branch: None,
            latest: None,
            recommended: Some(true),
            files: Some(files),
        }
    );
    let e = process_forge_version(&rec, "1.7.10", "1.7.10-10.13.2.1300-1.7.10", StrMap::new())
        .unwrap();
    assert_eq!(e.branch, Some("1.7.10".to_string()));
    assert_eq!(e.build, 1300);
    assert_eq!(e.recommended, Some(false));
    assert_eq!(
        process_forge_version(&rec, "1.20.1", "nonsense", StrMap::new()),
        Err(VersionError::NoMatch { long_version: "nonsense".to_string() })
    );
}

#[test]
fn a_build_is_added_as_the_last_of_its_game_version() {
    let mut index = empty_index();
    add_version(&mut index, entry(&vec![], "1.1", "1.1-1.0.1"));
    add_version(&mut index, entry(&vec!["1.0.2".to_string()], "1.1", "1.1-1.0.2"));
    add_version(&mut index, entry(&vec![], "1.1", "1.1-1.0.3"));
    let info = index.by_mc_version.get("1.1").unwrap();
    assert_eq!(info.versions, vec!["1.1-1.0.1", "1.1-1.0.2", "1.1-1.0.3"]);
    assert_eq!(info.recommended, Some("1.1-1.0.2".to_string()));
    assert_eq!(info.latest, None);
    // Taking a build in again lists it again: the history only grows.
    add_version(&mut index, entry(&vec![], "1.1", "1.1-1.0.1"));
    assert_eq!(index.versions.len(), 3);
    assert_eq!(index.by_mc_version.get("1.1").unwrap().versions.len(), 4);
}

#[test]
fn a_cycle_is_planned_and_ended() {
    let promos = promotions(&[("1.20-recommended", "10.5"), ("1.19-latest", "9.9")]);
    let remote = listing(&[("1.20", &["1.20-10.5.100", "1.20-10.7.200"]), ("1.19", &["1.19-9.9.1"])]);
    let plan = plan_forge_update(&promos, &remote, None, None);
    assert_eq!(plan.recommended, vec!["10.5"]);
    assert_eq!(plan.pending.len(), 3);
    assert_eq!(plan.start, empty_index());

    // One build fails; the others are fetched.
    let fetched = vec![
        entry(&plan.recommended, "1.19", "1.19-9.9.1"),
        entry(&plan.recommended, "1.20", "1.20-10.5.100"),
    ];
    let failed = vec![("1.20".to_string(), "1.20-10.7.200".to_string())];
    let update =
        finish_forge_update(plan.start, &plan.recommended, &remote, fetched, &failed).unwrap();
    assert_eq!(keys(&update.index), vec!["1.19-9.9.1", "1.20-10.5.100"]);
    assert_eq!(update.listing, listing(&[("1.20", &["1.20-10.5.100"]), ("1.19", &["1.19-9.9.1"])]));

    // The next cycle finds the failed build pending, and nothing else.
    let plan =
        plan_forge_update(&promos, &remote, Some(&update.listing), Some(update.index.clone()));
    assert_eq!(plan.pending, vec![("1.20".to_string(), "1.20-10.7.200".to_string())]);
    assert_eq!(plan.start, update.index);

    // A stored index without any build has everything fetched again.
    let plan = plan_forge_update(&promos, &remote, Some(&remote), Some(empty_index()));
    assert_eq!(plan.pending.len(), 3);
    let plan = plan_forge_update(&promos, &remote, Some(&remote), None);
    assert_eq!(plan.pending.len(), 0);
}

fn listing(entries: &[(&str, &[&str])]) -> ForgeMavenMetadata {
    let mut versions = StrMap::new();
    for (mc, builds) in entries {
        versions.insert(mc.to_string(), builds.iter().map(|b| b.to_string()).collect());
    }
    ForgeMavenMetadata { versions }
}
