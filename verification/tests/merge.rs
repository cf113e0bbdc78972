use mcmeta::models::forge::{
    DerivedForgeIndex, ForgeEntry, ForgeFile, ForgeLibrary, ForgeMCVersionInfo, InstallerInfo,
};
use mcmeta::models::merge::hashmap;
use mcmeta::models::merge::option;
use mcmeta::models::merge::option_hashmap;
use mcmeta::models::merge::option_vec;
use mcmeta::models::merge::overwrite;
use mcmeta::models::merge::Merge;
use mcmeta::models::{
    Dependency, Library, MetaVersion, MojangArtifact, MojangLibrary, MojangLibraryDownloads,
    MojangLibraryExtractRules, MojangRule, MojangRules, OSRule,
};
use mcmeta::strmap::StrMap;

fn s(x: &str) -> String {
    x.to_string()
}

fn strings(pairs: &[(&str, &str)]) -> StrMap<String> {
    let mut m = StrMap::new();
    for (k, v) in pairs {
        m.insert(s(k), s(v));
    }
    m
}

fn merged<T: Merge + Clone>(a: &T, b: &T) -> T {
    let mut r = a.clone();
    r.merge(b.clone());
    r
}

#[test]
fn overwrite_takes_the_overlay() {
    let mut left = 1;
    overwrite(&mut left, 2);
    assert_eq!(left, 2);
    let mut left = s("a");
    overwrite(&mut left, s(""));
    assert_eq!(left, "");
    let mut left = Some(1);
    overwrite(&mut left, None);
    assert_eq!(left, None);
}

#[test]
fn overwrite_none_fills_a_gap() {
    let mut left = None;
    option::overwrite_none(&mut left, Some(2));
    assert_eq!(left, Some(2));
    let mut left = Some(1);
    option::overwrite_none(&mut left, Some(2));
    assert_eq!(left, Some(1));
    let mut left: Option<i32> = None;
    option::overwrite_none(&mut left, None);
    assert_eq!(left, None);
    let mut left = Some(1);
    option::overwrite_none(&mut left, None);
    assert_eq!(left, Some(1));
}

#[test]
fn overwrite_some_takes_what_is_there() {
    let mut left = Some(1);
    option::overwrite_some(&mut left, Some(2));
    assert_eq!(left, Some(2));
    let mut left = Some(1);
    option::overwrite_some(&mut left, None);
    assert_eq!(left, Some(1));
    let mut left = None;
    option::overwrite_some(&mut left, Some(2));
    assert_eq!(left, Some(2));
    let mut left: Option<i32> = None;
    option::overwrite_some(&mut left, None);
    assert_eq!(left, None);
}

fn rule(name: &str, version: Option<&str>) -> OSRule {
    OSRule { name: s(name), version: version.map(s) }
}

#[test]
fn recurse_merges_where_both_sides_are_there() {
    let mut left = Some(rule("osx", Some("10")));
    option::recurse(&mut left, Some(rule("linux", None)));
    assert_eq!(left, Some(rule("linux", Some("10"))));
    let mut left = None;
    option::recurse(&mut left, Some(rule("linux", None)));
    assert_eq!(left, Some(rule("linux", None)));
    let mut left = Some(rule("osx", None));
    option::recurse(&mut left, None);
    assert_eq!(left, Some(rule("osx", None)));
    let mut left: Option<OSRule> = None;
    option::recurse(&mut left, None);
    assert_eq!(left, None);
}

#[test]
fn append_keeps_left_then_right() {
    let mut left = vec![1, 2];
    mcmeta::models::merge::vec::append(&mut left, vec![3, 1]);
    assert_eq!(left, vec![1, 2, 3, 1]);
    let mut left = Some(vec![s("a")]);
    option_vec::append_some(&mut left, Some(vec![s("b"), s("a")]));
    assert_eq!(left, Some(vec![s("a"), s("b"), s("a")]));
    let mut left = None;
    option_vec::append_some(&mut left, Some(vec![s("b")]));
    assert_eq!(left, Some(vec![s("b")]));
    let mut left = Some(vec![s("a")]);
    option_vec::append_some(&mut left, None);
    assert_eq!(left, Some(vec![s("a")]));
    let mut left: Option<Vec<String>> = None;
    option_vec::append_some(&mut left, None);
    assert_eq!(left, None);
    // Appending a list to itself doubles it.
    let mut left = Some(vec![1, 2]);
    option_vec::append_some(&mut left, Some(vec![1, 2]));
    assert_eq!(left, Some(vec![1, 2, 1, 2]));
}

#[test]
fn overwrite_key_replaces_by_key() {
    let mut left = strings(&[("a", "1"), ("b", "2")]);
    hashmap::overwrite_key(&mut left, strings(&[("b", "20"), ("c", "30")]));
    assert_eq!(left, strings(&[("a", "1"), ("b", "20"), ("c", "30")]));
    let mut left = Some(strings(&[("a", "1")]));
    option_hashmap::overwrite_key_some(&mut left, Some(strings(&[("a", "2")])));
    assert_eq!(left, Some(strings(&[("a", "2")])));
    let mut left = None;
    option_hashmap::overwrite_key_some(&mut left, Some(strings(&[("a", "2")])));
    assert_eq!(left, Some(strings(&[("a", "2")])));
    let mut left = Some(strings(&[("a", "1")]));
    option_hashmap::overwrite_key_some(&mut left, None);
    assert_eq!(left, Some(strings(&[("a", "1")])));
}

fn rules(pairs: &[(&str, &str, Option<&str>)]) -> StrMap<OSRule> {
    let mut m = StrMap::new();
    for (k, name, version) in pairs {
        m.insert(s(k), rule(name, *version));
    }
    m
}

#[test]
fn map_recurse_merges_key_by_key() {
    let mut left = rules(&[("only-left", "osx", Some("1")), ("both", "osx", Some("2"))]);
    hashmap::recurse(
        &mut left,
        rules(&[("both", "linux", None), ("only-right", "windows", Some("3"))]),
    );
    assert_eq!(
        left,
        rules(&[
            ("only-left", "osx", Some("1")),
            ("both", "linux", Some("2")),
            ("only-right", "windows", Some("3")),
        ])
    );
    let mut left = None;
    option_hashmap::recurse_some(&mut left, Some(rules(&[("k", "osx", None)])));
    assert_eq!(left, Some(rules(&[("k", "osx", None)])));
    let mut left = Some(rules(&[("k", "osx", Some("1"))]));
    option_hashmap::recurse_some(&mut left, Some(rules(&[("k", "linux", None)])));
    assert_eq!(left, Some(rules(&[("k", "linux", Some("1"))])));
    let mut left = Some(rules(&[("k", "osx", Some("1"))]));
    option_hashmap::recurse_some(&mut left, None);
    assert_eq!(left, Some(rules(&[("k", "osx", Some("1"))])));
}

fn artifact(url: &str, sha1: Option<&str>) -> MojangArtifact {
    MojangArtifact { sha1: sha1.map(s), size: None, url: s(url), path: None }
}

fn library(exclude: &[&str], artifact_url: Option<&str>, natives: &[(&str, &str)]) -> MojangLibrary {
    MojangLibrary {
        extract: Some(MojangLibraryExtractRules { exclude: exclude.iter().map(|x| s(x)).collect() }),
        name: None,
        downloads: artifact_url.map(|u| MojangLibraryDownloads {
            artifact: Some(artifact(u, None)),
            classifiers: None,
        }),
        natives: Some(strings(natives)),
        rules: None,
    }
}

#[test]
fn a_descriptor_tree_is_merged_field_by_field() {
    let mut base = library(&["META-INF/"], Some("https://a.invalid/x.jar"), &[("linux", "natives-linux")]);
    base.rules = Some(MojangRules {
        root: vec![MojangRule { action: s("allow"), os: None }],
    });
    let mut overlay = library(&["LICENSE"], None, &[("linux", "n-l"), ("osx", "n-o")]);
    overlay.name = Some("org.lwjgl:lwjgl:3.3.1".parse().unwrap());
    overlay.rules = Some(MojangRules {
        root: vec![MojangRule { action: s("disallow"), os: Some(rule("osx", None)) }],
    });
    base.merge(overlay);
    assert_eq!(
        base.extract,
        Some(MojangLibraryExtractRules { exclude: vec![s("META-INF/"), s("LICENSE")] })
    );
    assert_eq!(base.name, Some("org.lwjgl:lwjgl:3.3.1".parse().unwrap()));
    assert_eq!(
        base.downloads.as_ref().unwrap().artifact,
        Some(artifact("https://a.invalid/x.jar", None))
    );
    assert_eq!(base.natives, Some(strings(&[("linux", "n-l"), ("osx", "n-o")])));
    assert_eq!(
        base.rules.unwrap().root,
        vec![
            MojangRule { action: s("allow"), os: None },
            MojangRule { action: s("disallow"), os: Some(rule("osx", None)) },
        ]
    );
}

#[test]
fn merging_a_descriptor_without_lists_into_itself_changes_nothing() {
    let a = artifact("https://a.invalid/x.jar", Some("abc"));
    assert_eq!(merged(&a, &a), a);
    let r = rule("osx", Some("10"));
    assert_eq!(merged(&r, &r), r);
    let d = Dependency { uid: s("net.minecraft"), equals: Some(s("1.20")), suggests: None };
    assert_eq!(merged(&d, &d), d);
    let f = ForgeFile { classifier: s("installer"), hash: s("h"), extension: s("jar") };
    assert_eq!(merged(&f, &f), f);
    let i = InstallerInfo { sha1hash: Some(s("a")), sha256hash: None, size: Some(3) };
    assert_eq!(merged(&i, &i), i);
    let mut files = StrMap::new();
    files.insert(s("installer"), f.clone());
    let e = ForgeEntry {
        long_version: s("1.1-1.2.3"),
        mc_version: s("1.1"),
        version: s("1.2.3"),
        build: 3,
        branch: None,
        latest: Some(true),
        recommended: None,
        files: Some(files),
    };
    assert_eq!(merged(&e, &e), e);
}

#[test]
fn merging_is_associative_on_the_descriptor_tree() {
    let a = library(&["a"], Some("https://a.invalid/a.jar"), &[("linux", "1")]);
    let mut b = library(&["b"], None, &[("osx", "2")]);
    b.name = Some("a:b:c".parse().unwrap());
    let c = library(&["c"], Some("https://a.invalid/c.jar"), &[("linux", "3")]);
    assert_eq!(merged(&merged(&a, &b), &c), merged(&a, &merged(&b, &c)));

    let v1 = MetaVersion {
        name: s("one"),
        requires: Some(vec![Dependency { uid: s("x"), equals: None, suggests: None }]),
        libraries: Some(vec![Library::from_mojang(a.clone())]),
        order: Some(1),
        ..Default::default()
    };
    let v2 = MetaVersion { name: s("two"), volatile: Some(true), ..Default::default() };
    let v3 = MetaVersion {
        name: s("three"),
        requires: Some(vec![Dependency { uid: s("y"), equals: None, suggests: None }]),
        libraries: Some(vec![Library::from_mojang(c.clone())]),
        main_jar: Some(Library::from_mojang(b.clone())),
        ..Default::default()
    };
    let left = merged(&merged(&v1, &v2), &v3);
    assert_eq!(left, merged(&v1, &merged(&v2, &v3)));
    assert_eq!(left.name, "three");
    assert_eq!(left.order, Some(1));
    assert_eq!(left.volatile, Some(true));
    assert_eq!(left.requires.as_ref().unwrap().len(), 2);
    assert_eq!(left.requires.as_ref().unwrap()[0].uid, "x");
    assert_eq!(left.libraries.as_ref().unwrap().len(), 2);
}

#[test]
fn overwrite_is_right_biased() {
    let mut a = ForgeLibrary { url: Some(s("u")), ..Default::default() };
    a.merge(ForgeLibrary { url: None, comment: Some(s("c")), ..Default::default() });
    assert_eq!(a.url, None);
    assert_eq!(a.comment, Some(s("c")));
}

#[test]
fn merging_two_indexes() {
    let info = |versions: &[&str], latest: Option<&str>| ForgeMCVersionInfo {
        latest: latest.map(s),
        recommended: None,
        versions: versions.iter().map(|v| s(v)).collect(),
    };
    let mut a = DerivedForgeIndex::default();
    a.by_mc_version.insert(s("1.1"), info(&["1.1-1.2.3"], Some("1.1-1.2.3")));
    a.by_mc_version.insert(s("1.0"), info(&["1.0-1.0.0"], None));
    let mut b = DerivedForgeIndex::default();
    b.by_mc_version.insert(s("1.1"), info(&["1.1-1.2.4"], None));
    b.by_mc_version.insert(s("1.2"), info(&["1.2-2.0.0"], Some("1.2-2.0.0")));
    a.merge(b);
    assert_eq!(a.by_mc_version.len(), 3);
    assert_eq!(
        a.by_mc_version.get("1.1"),
        Some(&info(&["1.1-1.2.3", "1.1-1.2.4"], Some("1.1-1.2.3")))
    );
    assert_eq!(a.by_mc_version.get("1.0"), Some(&info(&["1.0-1.0.0"], None)));
    assert_eq!(a.by_mc_version.get("1.2"), Some(&info(&["1.2-2.0.0"], Some("1.2-2.0.0"))));
}

#[test]
fn library_conversions() {
    let m = library(&["x"], Some("https://a.invalid/a.jar"), &[("linux", "1")]);
    let l = Library::from_mojang_ref(&m);
    assert_eq!(l.extract, m.extract);
    assert_eq!(l.downloads, m.downloads);
    assert_eq!(l.natives, m.natives);
    assert_eq!(l.url, None);
    assert_eq!(l.mmc_hint, None);
    assert_eq!(MojangLibrary::from_library_ref(&l), m);
    assert_eq!(MojangLibrary::from_library(l.clone()), m);
    assert_eq!(MojangLibrary::from(l.clone()), m);
    assert_eq!(Library::from(m.clone()), l);
    let back: MojangLibrary = l.into();
    assert_eq!(back, m);
}
