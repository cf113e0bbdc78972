use mcmeta::models::forge::{
    ForgeEntry, ForgeFile, ForgeProcessedVersion, ForgeVersionClassifier,
    ForgeVersionClassifierExtensions, ForgeVersionClassifierNames, ForgeVersionClassifiers,
    ForgeVersionMeta,
};
use mcmeta::storage::forge_files::{accept_hash, forge_files, FilesError};
use mcmeta::strmap::StrMap;

fn file(classifier: &str, extension: &str) -> ForgeFile {
    ForgeFile {
        classifier: classifier.to_string(),
        hash: "0123456789abcdef0123456789abcdef".to_string(),
        extension: extension.to_string(),
    }
}

fn entry(mc: &str, version: &str, branch: Option<&str>, files: &[(&str, &str)]) -> ForgeEntry {
    let mut map = StrMap::new();
    for (c, e) in files {
        map.insert(c.to_string(), file(c, e));
    }
    ForgeEntry {
        long_version: String::new(),
        mc_version: mc.to_string(),
        version: version.to_string(),
        build: 7,
        branch: branch.map(|b| b.to_string()),
        latest: None,
        recommended: None,
        files: Some(map),
    }
}

#[test]
fn file_name_and_address() {
    let f = file("installer", "jar");
    assert_eq!(f.filename("1.20.1-47.2.0"), "forge-1.20.1-47.2.0-installer.jar");
    assert_eq!(
        f.url("1.20.1-47.2.0"),
        "https://maven.minecraftforge.net/net/minecraftforge/forge/1.20.1-47.2.0/forge-1.20.1-47.2.0-installer.jar"
    );
    assert_eq!(file("", "").filename(""), "forge--.");
}

#[test]
fn classifier_and_extension_names() {
    assert_eq!(ForgeVersionClassifierExtensions::Txt.as_str(), "txt");
    assert_eq!(ForgeVersionClassifierExtensions::Zip.as_str(), "zip");
    assert_eq!(ForgeVersionClassifierExtensions::Jar.as_str(), "jar");
    assert_eq!(ForgeVersionClassifierExtensions::Stash.as_str(), "stash");
    let names = [
        (ForgeVersionClassifierNames::Changelog, "changelog"),
        (ForgeVersionClassifierNames::Installer, "installer"),
        (ForgeVersionClassifierNames::Mdk, "mdk"),
        (ForgeVersionClassifierNames::Universal, "universal"),
        (ForgeVersionClassifierNames::Userdev, "userdev"),
        (ForgeVersionClassifierNames::Sources, "sources"),
        (ForgeVersionClassifierNames::Javadoc, "javadoc"),
        (ForgeVersionClassifierNames::Client, "client"),
        (ForgeVersionClassifierNames::Src, "src"),
        (ForgeVersionClassifierNames::Server, "server"),
        (ForgeVersionClassifierNames::Launcher, "launcher"),
        (ForgeVersionClassifierNames::Userdev3, "userdev3"),
        (ForgeVersionClassifierNames::SrcZip, "src.zip"),
    ];
    for (n, s) in names {
        assert_eq!(n.as_str(), s);
    }
}

fn classifier(txt: Option<&str>, zip: Option<&str>, jar: Option<&str>, stash: Option<&str>) -> ForgeVersionClassifier {
    ForgeVersionClassifier {
        txt: txt.map(|s| s.to_string()),
        zip: zip.map(|s| s.to_string()),
        jar: jar.map(|s| s.to_string()),
        stash: stash.map(|s| s.to_string()),
    }
}

fn no_classifiers() -> ForgeVersionClassifiers {
    ForgeVersionClassifiers {
        changelog: None,
        installer: None,
        mdk: None,
        universal: None,
        userdev: None,
        sources: None,
        javadoc: None,
        client: None,
        src: None,
        server: None,
        launcher: None,
        userdev3: None,
        src_zip: None,
    }
}

#[test]
fn walk_over_the_extensions_of_a_classifier() {
    let c = classifier(Some("t"), None, Some("j"), Some("s"));
    let mut it = c.iter();
    assert_eq!(it.next(), Some((ForgeVersionClassifierExtensions::Txt, &Some("t".to_string()))));
    assert_eq!(it.next(), Some((ForgeVersionClassifierExtensions::Zip, &None)));
    assert_eq!(it.next(), Some((ForgeVersionClassifierExtensions::Jar, &Some("j".to_string()))));
    assert_eq!(it.next(), Some((ForgeVersionClassifierExtensions::Stash, &Some("s".to_string()))));
    assert_eq!(it.next(), None);
    assert_eq!(it.next(), None);
}

#[test]
fn walk_over_the_classifiers_of_a_build() {
    let mut cs = no_classifiers();
    cs.installer = Some(classifier(None, None, Some("j"), None));
    cs.src_zip = Some(classifier(None, Some("z"), None, None));
    let mut it = cs.iter();
    let mut seen = vec![];
    let mut present = vec![];
    while let Some((name, files)) = it.next() {
        seen.push(name.as_str());
        if files.is_some() {
            present.push(name.as_str());
        }
    }
    assert_eq!(
        seen,
        vec![
            "changelog", "installer", "mdk", "universal", "userdev", "sources", "javadoc",
            "client", "src", "server", "launcher", "userdev3", "src.zip"
        ]
    );
    assert_eq!(present, vec!["installer", "src.zip"]);
    assert_eq!(it.next().map(|(n, _)| n), None);
}

const HASH: &str = "0123456789abcdef0123456789abcdef";

#[test]
fn files_of_a_manifest() {
    let mut cs = no_classifiers();
    cs.installer = Some(classifier(None, None, Some(HASH), None));
    cs.changelog = Some(classifier(Some(HASH), None, None, None));
    cs.universal = Some(classifier(None, Some("short"), Some(HASH), None));
    cs.mdk = Some(classifier(None, None, None, None));
    cs.javadoc = Some(classifier(Some("not a hash"), None, None, None));
    let files = forge_files("1.20.1-47.2.0", &ForgeVersionMeta { classifiers: cs }).unwrap();
    assert_eq!(files.len(), 3);
    assert_eq!(files.get("installer"), Some(&file("installer", "jar")));
    assert_eq!(files.get("changelog"), Some(&file("changelog", "txt")));
    assert_eq!(files.get("universal"), Some(&file("universal", "jar")));
    assert_eq!(files.get("mdk"), None);
    assert_eq!(files.get("javadoc"), None);
    let none = forge_files("x", &ForgeVersionMeta { classifiers: no_classifiers() }).unwrap();
    assert_eq!(none.len(), 0);
}

#[test]
fn hash_is_cleaned_of_what_is_no_word_character() {
    let mut cs = no_classifiers();
    cs.installer = Some(classifier(
        None,
        None,
        Some(" 0123-4567 89ab:cdef\n0123.4567/89ab cdef\t"),
        None,
    ));
    let files = forge_files("1", &ForgeVersionMeta { classifiers: cs }).unwrap();
    assert_eq!(files.get("installer").unwrap().hash, HASH);
    // The underscore is a word character and stays.
    let mut cs = no_classifiers();
    cs.installer = Some(classifier(None, None, Some("0123456789abcdef_123456789abcdef"), None));
    let files = forge_files("1", &ForgeVersionMeta { classifiers: cs }).unwrap();
    assert_eq!(files.get("installer").unwrap().hash, "0123456789abcdef_123456789abcdef");
    // The length is taken after cleaning, in bytes.
    let mut cs = no_classifiers();
    cs.installer = Some(classifier(None, None, Some("0123456789abcdef 0123456789abcde"), None));
    cs.client = Some(classifier(None, None, Some("éééééééééééééééé"), None));
    let files = forge_files("1", &ForgeVersionMeta { classifiers: cs }).unwrap();
    assert_eq!(files.get("installer"), None);
    assert_eq!(files.get("client").unwrap().hash, "éééééééééééééééé");
}

#[test]
fn usable_hashes_are_32_bytes_long() {
    assert!(accept_hash(HASH));
    assert!(!accept_hash(""));
    assert!(!accept_hash("0123456789abcdef0123456789abcde"));
    assert!(!accept_hash("0123456789abcdef0123456789abcdef0"));
}

#[test]
fn second_file_of_a_classifier_is_an_error() {
    let mut cs = no_classifiers();
    cs.changelog = Some(classifier(Some(HASH), None, None, None));
    cs.universal = Some(classifier(None, Some(HASH), Some(HASH), None));
    assert_eq!(
        forge_files("1.1-1.2.3", &ForgeVersionMeta { classifiers: cs }),
        Err(FilesError::MultipleFiles {
            long_version: "1.1-1.2.3".to_string(),
            classifier: "universal".to_string(),
            extension: "jar".to_string(),
        })
    );
}

#[test]
fn processed_version_of_a_build_with_installer() {
    let e = entry(
        "1.20.1",
        "47.2.0",
        None,
        &[("installer", "jar"), ("universal", "jar"), ("changelog", "txt"), ("mdk", "zip")],
    );
    let v = ForgeProcessedVersion::new(&e);
    assert_eq!(v.build, 7);
    assert_eq!(v.raw_version, "47.2.0");
    assert_eq!(v.mc_version, "1.20.1");
    assert_eq!(v.mc_version_sane, "1.20.1");
    assert_eq!(v.branch, None);
    assert_eq!(v.long_version, "1.20.1-47.2.0");
    assert_eq!(v.installer_filename, Some("forge-1.20.1-47.2.0-installer.jar".to_string()));
    assert_eq!(
        v.installer_url,
        Some("https://maven.minecraftforge.net/net/minecraftforge/forge/1.20.1-47.2.0/forge-1.20.1-47.2.0-installer.jar".to_string())
    );
    assert_eq!(v.universal_filename, Some("forge-1.20.1-47.2.0-universal.jar".to_string()));
    assert_eq!(
        v.changelog_url,
        Some("https://maven.minecraftforge.net/net/minecraftforge/forge/1.20.1-47.2.0/forge-1.20.1-47.2.0-changelog.txt".to_string())
    );
    assert_eq!(v.name(), "Forge 7");
    assert!(v.uses_installer());
    assert_eq!(v.filename(), v.installer_filename);
    assert_eq!(v.url(), v.installer_url);
    assert!(!v.is_supported());
}

#[test]
fn processed_version_of_a_build_without_installer() {
    let e = entry("1.7.10_pre4", "10.12.2.1149", Some("prerelease"), &[("client", "zip")]);
    let v = ForgeProcessedVersion::new(&e);
    assert_eq!(v.mc_version_sane, "1.7.10-pre4");
    assert_eq!(v.long_version, "1.7.10_pre4-10.12.2.1149-prerelease");
    assert_eq!(v.installer_url, None);
    assert_eq!(
        v.universal_filename,
        Some("forge-1.7.10_pre4-10.12.2.1149-prerelease-client.zip".to_string())
    );
    assert!(!v.uses_installer());
    assert_eq!(v.filename(), v.universal_filename);
    assert_eq!(v.url(), v.universal_url);
    assert!(v.is_supported());
    assert_eq!(v.changelog_url, None);
}

#[test]
fn universal_stands_before_client() {
    let v = ForgeProcessedVersion::new(&entry("1.1", "1.2.3", None, &[("client", "jar"), ("universal", "zip")]));
    assert_eq!(v.universal_filename, Some("forge-1.1-1.2.3-universal.zip".to_string()));
    // A universal file of another kind does not count; the client file does.
    let v = ForgeProcessedVersion::new(&entry("1.1", "1.2.3", None, &[("client", "jar"), ("universal", "txt")]));
    assert_eq!(v.universal_filename, Some("forge-1.1-1.2.3-client.jar".to_string()));
    // Files of other kinds are no installer and no changelog.
    let v = ForgeProcessedVersion::new(&entry("1.1", "1.2.3", None, &[("installer", "zip"), ("changelog", "jar")]));
    assert_eq!(v.installer_url, None);
    assert_eq!(v.changelog_url, None);
    assert_eq!(v.url(), None);
    assert_eq!(v.filename(), None);
    assert!(!v.is_supported());
}

#[test]
fn game_version_1_5_2_never_uses_an_installer() {
    let v = ForgeProcessedVersion::new(&entry("1.5.2", "7.8.1.738", None, &[("installer", "jar"), ("universal", "zip")]));
    assert!(v.installer_url.is_some());
    assert!(!v.uses_installer());
    assert_eq!(v.filename(), Some("forge-1.5.2-7.8.1.738-universal.zip".to_string()));
}

#[test]
fn supported_major_lines_end_before_37() {
    for (version, expected) in [
        ("36.2.39", true),
        ("37.0.0", false),
        ("14.23.5.2859", true),
        ("0.1", true),
        ("-5.1", true),
        ("x.1", false),
        ("", false),
        ("36", true),
        ("99999999999.1", false),
    ] {
        let v = ForgeProcessedVersion::new(&entry("1.1", version, None, &[("installer", "jar")]));
        assert_eq!(v.is_supported(), expected, "{:?}", version);
    }
    // Without an archive to fetch no build is supported.
    let v = ForgeProcessedVersion::new(&entry("1.1", "1.2.3", None, &[]));
    assert!(!v.is_supported());
}

#[test]
fn only_the_first_pre_is_rewritten() {
    let v = ForgeProcessedVersion::new(&entry("1_pre_pre", "1.2", None, &[]));
    assert_eq!(v.mc_version_sane, "1-pre_pre");
    let v = ForgeProcessedVersion::new(&entry("_pr", "1.2", None, &[]));
    assert_eq!(v.mc_version_sane, "_pr");
    let v = ForgeProcessedVersion::new(&entry("x_pre", "1.2", None, &[]));
    assert_eq!(v.mc_version_sane, "x-pre");
}
