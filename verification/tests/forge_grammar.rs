use mcmeta::storage::forge::{pending_forge_versions, stored_listing};
use mcmeta::models::forge::{ForgeMavenMetadata, ForgeMavenPromotions};
use mcmeta::storage::forge::{
    is_bad_version, is_recommendation, parse_long_version, parse_promotion_key, pending_pairs,
    recommended_versions, version_pairs, ParsedVersion, Promotion, PromotionKey, VersionError,
};
use mcmeta::strmap::StrMap;

fn parsed(mc: &str, version: &str, build: i32, branch: Option<&str>) -> ParsedVersion {
    ParsedVersion {
        mc_version: mc.to_string(),
        version: version.to_string(),
        build,
        branch: branch.map(|b| b.to_string()),
    }
}

fn reassemble(p: &ParsedVersion) -> String {
    match &p.branch {
        Some(b) => format!("{}-{}-{}", p.mc_version, p.version, b),
        None => format!("{}-{}", p.mc_version, p.version),
    }
}

#[test]
fn long_version_is_taken_apart() {
    assert_eq!(
        parse_long_version("1.20.1-47.2.0"),
        Ok(parsed("1.20.1", "47.2.0", 0, None))
    );
    assert_eq!(
        parse_long_version("1.12.2-14.23.5.2851"),
        Ok(parsed("1.12.2", "14.23.5.2851", 2851, None))
    );
    assert_eq!(
        parse_long_version("1.7.10-10.13.2.1300-1.7.10"),
        Ok(parsed("1.7.10", "10.13.2.1300", 1300, Some("1.7.10")))
    );
    assert_eq!(
        parse_long_version("1.7.10_pre4-10.12.2.1149-prerelease"),
        Ok(parsed("1.7.10_pre4", "10.12.2.1149", 1149, Some("prerelease")))
    );
    assert_eq!(parse_long_version("1.20-10.5.100"), Ok(parsed("1.20", "10.5.100", 100, None)));
    assert_eq!(parse_long_version("a-1.2"), Ok(parsed("a", "1.2", 2, None)));
    assert_eq!(parse_long_version("a-..2"), Ok(parsed("a", "..2", 2, None)));
}

#[test]
fn long_version_of_another_form_is_an_error() {
    for text in [
        "",
        "1.20.1",
        "-47.2.0",
        "1.20.1-",
        "1.20.1-47",
        "1.20.1-47.",
        "1.20.1-.47",
        "1.20.1-47.2.0-",
        "1.20.1-47.2.0-a-b",
        "1.20.1-47.2.x",
        "1.20 1-47.2.0",
        "1.20.1-47.2.0-br_anch",
        "1.20.1-47.2.0\n",
    ] {
        assert_eq!(
            parse_long_version(text),
            Err(VersionError::NoMatch { long_version: text.to_string() }),
            "{:?}",
            text
        );
    }
}

#[test]
fn build_number_that_does_not_fit_is_an_error() {
    assert_eq!(
        parse_long_version("1.1-1.2147483647"),
        Ok(parsed("1.1", "1.2147483647", i32::MAX, None))
    );
    assert_eq!(
        parse_long_version("1.1-1.2147483648"),
        Err(VersionError::BuildOutOfRange { long_version: "1.1-1.2147483648".to_string() })
    );
}

#[test]
fn parts_of_a_long_version_make_it_again() {
    for text in [
        "1.20.1-47.2.0",
        "1.7.10-10.13.2.1300-1.7.10",
        "1.7.10_pre4-10.12.2.1149-prerelease",
        "1.1-1.5.3.2",
        "b1.8.1-1.0.0.1-x.y",
    ] {
        let p = parse_long_version(text).unwrap();
        assert_eq!(reassemble(&p), text);
        assert_eq!(parse_long_version(&reassemble(&p)), Ok(p));
    }
}

fn key(mc: &str, promotion: Promotion, branch: Option<&str>) -> Option<PromotionKey> {
    Some(PromotionKey {
        mc_version: mc.to_string(),
        promotion,
        branch: branch.map(|b| b.to_string()),
    })
}

#[test]
fn promotion_key_is_read() {
    assert_eq!(parse_promotion_key("1.20-recommended"), key("1.20", Promotion::Recommended, None));
    assert_eq!(parse_promotion_key("1.20-latest"), key("1.20", Promotion::Latest, None));
    assert_eq!(
        parse_promotion_key("1.20-latest-forge"),
        key("1.20", Promotion::Latest, Some("forge"))
    );
    assert_eq!(
        parse_promotion_key("1.7.10-recommended-1.7.10"),
        key("1.7.10", Promotion::Recommended, Some("1.7.10"))
    );
    assert_eq!(
        parse_promotion_key("1.7.10_pre4-latest"),
        key("1.7.10_pre4", Promotion::Latest, None)
    );
}

#[test]
fn promotion_key_is_looked_for_from_the_left() {
    // The game version is the run without a dash before the designation.
    assert_eq!(parse_promotion_key("a-b-latest"), key("b", Promotion::Latest, None));
    // A dash after the designation that no branch character follows is no branch.
    assert_eq!(parse_promotion_key("1.1-latest-"), key("1.1", Promotion::Latest, None));
    assert_eq!(parse_promotion_key("1.1-latest-_x"), key("1.1", Promotion::Latest, None));
    // The branch ends where its characters end.
    assert_eq!(parse_promotion_key("1.1-latest-ab_cd"), key("1.1", Promotion::Latest, Some("ab")));
    // What follows the designation without a dash is ignored.
    assert_eq!(parse_promotion_key("1.1-latestx"), key("1.1", Promotion::Latest, None));
    // The first designation counts.
    assert_eq!(
        parse_promotion_key("1.1-recommended-latest"),
        key("1.1", Promotion::Recommended, Some("latest"))
    );
}

#[test]
fn key_without_game_version_or_designation_holds_nothing() {
    for text in ["", "latest", "-latest", "1.20", "1.20-", "1.20-newest", "1.20-late", "--latest"] {
        assert_eq!(parse_promotion_key(text), None, "{:?}", text);
    }
}

#[test]
fn only_an_unbranched_recommendation_recommends() {
    assert!(is_recommendation("1.20-recommended"));
    assert!(!is_recommendation("1.20-latest"));
    assert!(!is_recommendation("1.20-recommended-forge"));
    assert!(!is_recommendation("1.20-latest-forge"));
    assert!(!is_recommendation("recommended"));
}

fn promotions(pairs: &[(&str, &str)]) -> ForgeMavenPromotions {
    let mut promos = StrMap::new();
    for (k, v) in pairs {
        promos.insert(k.to_string(), v.to_string());
    }
    ForgeMavenPromotions { homepage: "https://example.invalid/".to_string(), promos }
}

#[test]
fn recommended_set_holds_each_recommended_short_version_once() {
    let p = promotions(&[
        ("1.20-recommended", "10.5"),
        ("1.20-latest-forge", "10.7"),
        ("1.19-recommended", "9.1"),
        ("1.19-latest", "9.9"),
        ("1.18-recommended", "9.1"),
        ("1.17-recommended-branch", "8.0"),
        ("garbage", "7.0"),
    ]);
    let mut rec = recommended_versions(&p);
    rec.sort();
    assert_eq!(rec, vec!["10.5", "9.1"]);
    assert_eq!(recommended_versions(&promotions(&[])), Vec::<String>::new());
}

fn metadata(entries: &[(&str, &[&str])]) -> ForgeMavenMetadata {
    let mut versions = StrMap::new();
    for (mc, builds) in entries {
        versions.insert(mc.to_string(), builds.iter().map(|b| b.to_string()).collect());
    }
    ForgeMavenMetadata { versions }
}

fn pair(a: &str, b: &str) -> (String, String) {
    (a.to_string(), b.to_string())
}

#[test]
fn pairs_of_a_listing() {
    let m = metadata(&[("1.20", &["1.20-10.5.100", "1.20-10.7.200"]), ("1.19", &["1.19-9.1.1"])]);
    assert_eq!(
        version_pairs(&m),
        vec![
            pair("1.19", "1.19-9.1.1"),
            pair("1.20", "1.20-10.5.100"),
            pair("1.20", "1.20-10.7.200"),
        ]
    );
    assert_eq!(version_pairs(&metadata(&[])), vec![]);
    assert_eq!(version_pairs(&metadata(&[("1.1", &[])])), vec![]);
}

#[test]
fn pending_pairs_are_the_remote_ones_that_are_not_local() {
    let remote = vec![pair("1.20", "a"), pair("1.20", "b"), pair("1.19", "c"), pair("1.20", "a")];
    let local = vec![pair("1.20", "b"), pair("1.18", "z")];
    assert_eq!(pending_pairs(&remote, &local), vec![pair("1.20", "a"), pair("1.19", "c")]);
    assert_eq!(
        pending_pairs(&remote, &vec![]),
        vec![pair("1.20", "a"), pair("1.20", "b"), pair("1.19", "c")]
    );
    assert_eq!(pending_pairs(&remote, &remote), vec![]);
    assert_eq!(pending_pairs(&vec![], &local), vec![]);
    // The same build under another game version is another pair.
    assert_eq!(pending_pairs(&vec![pair("1.21", "b")], &local), vec![pair("1.21", "b")]);
}

#[test]
fn the_list_of_bad_versions() {
    assert!(is_bad_version("1.12.2-14.23.5.2851"));
    assert!(!is_bad_version("1.12.2-14.23.5.2852"));
    assert!(!is_bad_version(""));
}

#[test]
fn pairs_that_a_cycle_fetches() {
    let remote = metadata(&[("1.20", &["a", "b"]), ("1.19", &["c"])]);
    let local = metadata(&[("1.20", &["a"])]);
    assert_eq!(
        pending_forge_versions(&remote, Some(&local), false),
        vec![pair("1.19", "c"), pair("1.20", "b")]
    );
    let all = vec![pair("1.19", "c"), pair("1.20", "a"), pair("1.20", "b")];
    assert_eq!(pending_forge_versions(&remote, Some(&local), true), all);
    assert_eq!(pending_forge_versions(&remote, None, false), all);
    assert_eq!(pending_forge_versions(&remote, None, true), all);
    assert_eq!(pending_forge_versions(&remote, Some(&remote), false), vec![]);

    // What failed is left out of what is stored, and is pending again.
    let stored = stored_listing(&remote, &vec![pair("1.20", "b"), pair("1.18", "c")]);
    assert_eq!(stored, metadata(&[("1.20", &["a"]), ("1.19", &["c"])]));
    assert_eq!(pending_forge_versions(&remote, Some(&stored), false), vec![pair("1.20", "b")]);
    assert_eq!(stored_listing(&remote, &vec![]), remote);
    let stored = stored_listing(&remote, &vec![pair("1.19", "c")]);
    assert_eq!(stored, metadata(&[("1.20", &["a", "b"]), ("1.19", &[])]));
}
