use mcmeta::storage::mojang::stored_manifest;
use mcmeta::download::forge::{default_maven_url, default_promotions_url, files_manifest_url};
use mcmeta::download::mojang::{default_download_url, ends_with, version_entry};
use mcmeta::models::mojang::{
    default_java_version_component, default_java_version_major_version,
    default_library_patch_patch_additional_libraries, AssetIndex, JavaVersion,
    LegacyOverrideEntry, LibraryPatch, ManifestRule, ManifestRuleFeatures, MinecraftVersion,
    MojangLogging, MojangLoggingArtifact, MojangVersion, MojangVersionManifest,
    MojangVersionManifestLatest, MojangVersionManifestVersion, OldSnapshotEntry, VersionArgument,
    VersionArgumentObject, VersionArgumentValue, VersionArguments, VersionLibrary,
    VersionLibraryDownloads,
};
use mcmeta::models::validation::{
    is_some, mojang_logging_validate_type, mojang_rule_action_must_be_allow_disallow,
    mojang_version_validate_compliance_level, mojang_version_validate_minimum_launcher_version,
    os_rule_name_must_be_os, validate_empty_unknown_key_map, validate_logging,
    validate_minecraft_version, validate_mojang_version, validate_os_rule, validate_rule,
    ValidationError,
};
use mcmeta::models::{
    GradleSpecifier, Library, MetaVersion, MojangArtifact, MojangArtifactBase, MojangLibrary,
    MojangLibraryDownloads, MojangRule, OSRule, Timestamp, META_FORMAT_VERSION,
};
use mcmeta::routes::{document_response, version_response, APIResponse, Status};
use mcmeta::storage::mojang::{
    identity_records, needs_fetch, old_snapshot_version, pending_versions,
};
use mcmeta::strmap::StrMap;
use mcmeta::sync::{IdentityRecord, PendingUpdate};
use mcmeta::app_config::{ServerConfig, StorageFormat};

fn s(x: &str) -> String {
    x.to_string()
}

fn at(nanos: i128) -> Timestamp {
    Timestamp { unix_nanos: nanos, offset_seconds: 0 }
}

fn mojang_version(id: &str) -> MojangVersion {
    let mut downloads = StrMap::new();
    downloads.insert(
        s("client"),
        MojangArtifactBase {
            sha1: Some(s("abc")),
            size: Some(5),
            url: s("https://example.invalid/client.jar"),
            unknown: StrMap::new(),
        },
    );
    MojangVersion {
        comment: None,
        id: s(id),
        arguments: None,
        asset_index: None,
        assets: None,
        downloads: Some(downloads),
        libraries: None,
        main_class: Some(s("net.minecraft.Main")),
        applet_class: Some(s("applet")),
        process_arguments: None,
        minecraft_arguments: Some(s("--demo")),
        minimum_launcher_version: Some(21),
        release_time: Some(at(7)),
        time: Some(at(8)),
        version_type: Some(s("release")),
        inherits_from: None,
        logging: None,
        compliance_level: None,
        java_version: None,
    }
}

#[test]
fn version_becomes_a_published_version() {
    let mut v = mojang_version("1.20.1");
    v.libraries = Some(vec![MojangLibrary {
        name: Some("a:b:c".parse().unwrap()),
        ..Default::default()
    }]);
    assert!(v.can_convert());
    let m = v.to_meta_version("Minecraft", "net.minecraft", "1.20.1");
    let expected = MetaVersion {
        format_version: META_FORMAT_VERSION,
        name: s("Minecraft"),
        version: s("1.20.1"),
        uid: s("net.minecraft"),
        version_type: Some(s("release")),
        libraries: Some(vec![Library {
            name: Some("a:b:c".parse().unwrap()),
            ..Default::default()
        }]),
        main_jar: Some(Library {
            name: Some(GradleSpecifier {
                group: s("com.mojang"),
                artifact: s("minecraft"),
                version: s("1.20.1"),
                extension: None,
                classifier: Some(s("client")),
            }),
            downloads: Some(MojangLibraryDownloads {
                artifact: Some(MojangArtifact {
                    sha1: Some(s("abc")),
                    size: Some(5),
                    url: s("https://example.invalid/client.jar"),
                    path: None,
                }),
                classifiers: None,
            }),
            ..Default::default()
        }),
        main_class: Some(s("net.minecraft.Main")),
        minecraft_arguments: Some(s("--demo")),
        release_time: Some(at(7)),
        compatible_java_majors: Some(vec![8]),
        ..Default::default()
    };
    assert_eq!(m, expected);
    assert_eq!(m.format_version, 1);
    assert_eq!(m.applet_class, None);
}

#[test]
fn published_version_follows_java_type_and_compliance() {
    let mut v = mojang_version("x");
    v.java_version = Some(JavaVersion { component: s("java-runtime-alpha"), major_version: 16 });
    v.version_type = Some(s("pending"));
    v.compliance_level = Some(1);
    let m = v.to_meta_version("n", "u", "v");
    assert_eq!(m.compatible_java_majors, Some(vec![16, 17]));
    assert_eq!(m.version_type, Some(s("experiment")));
    assert_eq!(m.additional_traits, Some(vec![]));
    v.java_version = Some(JavaVersion { component: s("c"), major_version: 17 });
    v.compliance_level = Some(0);
    v.version_type = None;
    let m = v.to_meta_version("n", "u", "v");
    assert_eq!(m.compatible_java_majors, Some(vec![17]));
    assert_eq!(m.version_type, None);
    assert_eq!(m.additional_traits, None);
}

#[test]
fn version_without_id_has_no_main_jar() {
    let mut v = mojang_version("");
    v.downloads = None;
    assert!(v.can_convert());
    assert_eq!(v.to_meta_version("n", "u", "v").main_jar, None);
}

#[test]
fn versions_that_cannot_be_published() {
    let mut v = mojang_version("1.1");
    v.downloads = None;
    assert!(!v.can_convert());
    v.downloads = Some(StrMap::new());
    assert!(!v.can_convert());
    let mut v = mojang_version("1.1");
    v.compliance_level = Some(2);
    assert!(!v.can_convert());
    v.compliance_level = Some(-1);
    assert!(!v.can_convert());
}

#[test]
fn override_is_applied_onto_a_version() {
    let base = MetaVersion {
        main_class: Some(s("old.Main")),
        applet_class: Some(s("old.Applet")),
        release_time: Some(at(1)),
        additional_traits: Some(vec![s("t0")]),
        libraries: Some(vec![]),
        minecraft_arguments: Some(s("args")),
        ..Default::default()
    };
    let entry = LegacyOverrideEntry {
        main_class: Some(s("new.Main")),
        applet_class: None,
        release_time: Some(at(2)),
        additional_traits: Some(vec![s("t1"), s("t2")]),
        additional_jvm_args: Some(vec![s("-Xmx1G")]),
    };
    let mut v = base.clone();
    entry.clone().apply_onto_meta_version(&mut v, false);
    assert_eq!(v.main_class, Some(s("new.Main")));
    assert_eq!(v.applet_class, None);
    assert_eq!(v.release_time, Some(at(2)));
    assert_eq!(v.additional_traits, Some(vec![s("t0"), s("t1"), s("t2")]));
    assert_eq!(v.additional_jvm_args, Some(vec![s("-Xmx1G")]));
    assert_eq!(v.libraries, Some(vec![]));
    assert_eq!(v.minecraft_arguments, Some(s("args")));
    let mut v = base.clone();
    entry.apply_onto_meta_version(&mut v, true);
    assert_eq!(v.libraries, None);
    assert_eq!(v.minecraft_arguments, None);
    // An entry that sets nothing still takes the classes away.
    let mut v = base.clone();
    LegacyOverrideEntry {
        main_class: None,
        applet_class: None,
        release_time: None,
        additional_traits: None,
        additional_jvm_args: None,
    }
    .apply_onto_meta_version(&mut v, false);
    assert_eq!(v.main_class, None);
    assert_eq!(v.release_time, Some(at(1)));
    assert_eq!(v.additional_traits, Some(vec![s("t0")]));
    assert_eq!(v.additional_jvm_args, None);
}

#[test]
fn patch_applies_to_the_libraries_it_names() {
    let patch = LibraryPatch {
        patch_match: vec!["a:b:1".parse().unwrap(), "c:d:2:natives".parse().unwrap()],
        patch_override: None,
        additional_libraries: None,
        patch_additional_libraries: default_library_patch_patch_additional_libraries(),
    };
    let lib = |name: Option<&str>| Library {
        name: name.map(|n| n.parse().unwrap()),
        ..Default::default()
    };
    assert!(patch.applies(&lib(Some("a:b:1"))));
    assert!(patch.applies(&lib(Some("c:d:2:natives"))));
    assert!(!patch.applies(&lib(Some("a:b:2"))));
    assert!(!patch.applies(&lib(Some("c:d:2"))));
    assert!(!patch.applies(&lib(Some("a:b:1@zip"))));
    assert!(!patch.applies(&lib(None)));
    assert!(!patch.patch_additional_libraries);
}

#[test]
fn java_defaults() {
    assert_eq!(default_java_version_component(), "jre-legacy");
    assert_eq!(default_java_version_major_version(), 8);
    assert_eq!(
        JavaVersion::default(),
        JavaVersion { component: s("jre-legacy"), major_version: 8 }
    );
}

fn err(message: &str) -> Result<(), ValidationError> {
    Err(ValidationError { message: s(message) })
}

#[test]
fn field_checks() {
    assert_eq!(is_some(Some(1)), Ok(()));
    assert_eq!(is_some::<i32>(None), err("Must be some"));
    for name in ["osx", "linux", "windows", "windows-arm64", "osx-arm64", "linux-arm64", "linux-arm32"] {
        assert_eq!(os_rule_name_must_be_os(&s(name)), Ok(()));
    }
    assert_eq!(os_rule_name_must_be_os(&s("beos")), err("`beos` not a valid os name"));
    assert_eq!(mojang_rule_action_must_be_allow_disallow(&s("allow")), Ok(()));
    assert_eq!(mojang_rule_action_must_be_allow_disallow(&s("disallow")), Ok(()));
    assert_eq!(
        mojang_rule_action_must_be_allow_disallow(&s("deny")),
        err("`deny` not a valid action, must be `allow` or `disallow`")
    );
    assert_eq!(mojang_logging_validate_type(&s("log4j2-xml")), Ok(()));
    assert_eq!(mojang_logging_validate_type(&s("plain")), err("invalid log type: plain"));
    assert_eq!(mojang_version_validate_minimum_launcher_version(&Some(21)), Ok(()));
    assert_eq!(mojang_version_validate_minimum_launcher_version(&Some(-3)), Ok(()));
    assert_eq!(
        mojang_version_validate_minimum_launcher_version(&Some(22)),
        err("Invalid launcher version `Some(22)`")
    );
    assert_eq!(
        mojang_version_validate_minimum_launcher_version(&None),
        err("Invalid launcher version `None`")
    );
    assert_eq!(mojang_version_validate_compliance_level(&Some(1)), Ok(()));
    assert_eq!(
        mojang_version_validate_compliance_level(&Some(2)),
        err("Invalid compliance level `Some(2)`")
    );
    assert_eq!(
        mojang_version_validate_compliance_level(&None),
        err("Invalid compliance level `None`")
    );
    let mut unknown = StrMap::new();
    assert_eq!(validate_empty_unknown_key_map(&unknown), Ok(()));
    unknown.insert(s("is_wizard"), s("true"));
    unknown.insert(s("has_cape"), s("1"));
    assert_eq!(
        validate_empty_unknown_key_map(&unknown),
        err("There are unknown keys present: has_cape is_wizard")
    );
}

fn features(unknown: &[&str]) -> ManifestRuleFeatures {
    let mut map = StrMap::new();
    for k in unknown {
        map.insert(s(k), s("true"));
    }
    ManifestRuleFeatures {
        is_demo_user: Some(true),
        has_custom_resolution: None,
        has_quick_plays_support: None,
        is_quick_play_singleplayer: None,
        is_quick_play_multiplayer: None,
        is_quick_play_realms: None,
        unknown: map,
    }
}

fn rule(unknown: Option<&[&str]>) -> ManifestRule {
    ManifestRule { action: s("allow"), os: None, features: unknown.map(features) }
}

fn minecraft_version(library_rule: ManifestRule, game_rule: ManifestRule) -> MinecraftVersion {
    MinecraftVersion {
        asset_index: AssetIndex { id: s("5"), sha1: s("a"), size: 1, total_size: 2, url: s("u") },
        assets: s("5"),
        compliance_level: None,
        downloads: None,
        id: s("1.20.1"),
        java_version: None,
        libraries: vec![VersionLibrary {
            name: s("a:b:c"),
            downloads: VersionLibraryDownloads { artifact: None, classifiers: None },
            natives: None,
            extract: None,
            rules: Some(vec![rule(None), library_rule]),
        }],
        logging: None,
        main_class: s("Main"),
        minecraft_arguments: None,
        arguments: Some(VersionArguments {
            game: vec![
                VersionArgument::String(s("--username")),
                VersionArgument::Object(VersionArgumentObject {
                    rules: vec![game_rule],
                    value: VersionArgumentValue::Array(vec![s("--demo")]),
                }),
            ],
            jvm: vec![],
        }),
        minimum_launcher_version: 21,
        release_time: s("2023-06-12"),
        time: s("2023-06-12T13:25:51+00:00"),
        release_type: s("release"),
    }
}

#[test]
fn documents_are_checked() {
    assert_eq!(validate_os_rule(&OSRule { name: s("osx"), version: None }), Ok(()));
    assert!(validate_os_rule(&OSRule { name: s("OSX"), version: None }).is_err());
    assert_eq!(validate_rule(&MojangRule { action: s("allow"), os: None }), Ok(()));
    assert!(validate_rule(&MojangRule { action: s(""), os: None }).is_err());
    let logging = MojangLogging {
        file: MojangLoggingArtifact { id: s("client.xml") },
        argument: s("-Dlog"),
        logging_type: s("log4j2-xml"),
    };
    assert_eq!(validate_logging(&logging), Ok(()));
    let mut v = mojang_version("1.1");
    v.compliance_level = Some(1);
    assert_eq!(validate_mojang_version(&v), Ok(()));
    v.compliance_level = None;
    assert_eq!(validate_mojang_version(&v), err("Invalid compliance level `None`"));
    v.minimum_launcher_version = Some(30);
    assert_eq!(validate_mojang_version(&v), err("Invalid launcher version `Some(30)`"));

    assert_eq!(validate_minecraft_version(&minecraft_version(rule(None), rule(Some(&[])))), Ok(()));
    assert_eq!(
        validate_minecraft_version(&minecraft_version(rule(Some(&["x"])), rule(None))),
        err("There are unknown keys present: x")
    );
    assert_eq!(
        validate_minecraft_version(&minecraft_version(rule(None), rule(Some(&["y"])))),
        err("There are unknown keys present: y")
    );
}

fn manifest(versions: &[(&str, i128)]) -> MojangVersionManifest {
    MojangVersionManifest {
        latest: MojangVersionManifestLatest { release: s("1.20.1"), snapshot: s("23w31a") },
        versions: versions
            .iter()
            .map(|(id, time)| MojangVersionManifestVersion {
                id: s(id),
                version_type: s("release"),
                url: format!("https://example.invalid/{}.json", id),
                time: at(*time),
                release_time: at(0),
                compliance_level: 1,
                sha1: s("abc"),
            })
            .collect(),
    }
}

fn record(id: &str, time: i128) -> IdentityRecord {
    IdentityRecord {
        id: s(id),
        remote_timestamp: at(time),
        source_url: format!("https://example.invalid/{}.json", id),
    }
}

#[test]
fn versions_that_a_cycle_fetches() {
    let remote = manifest(&[("1.20.1", 10), ("1.20", 9), ("1.19", 8)]);
    assert_eq!(
        identity_records(&remote),
        vec![record("1.20.1", 10), record("1.20", 9), record("1.19", 8)]
    );
    let local = manifest(&[("1.20", 5), ("1.19", 8)]);
    assert_eq!(
        pending_versions(&remote, Some(&local)),
        vec![
            PendingUpdate { record: record("1.20.1", 10), force_update: false },
            PendingUpdate { record: record("1.20", 9), force_update: true },
        ]
    );
    assert_eq!(pending_versions(&remote, None).len(), 3);
    assert!(pending_versions(&remote, None).iter().all(|p| p.force_update));
    assert_eq!(pending_versions(&remote, Some(&remote)), vec![]);
    assert!(needs_fetch(false, false));
    assert!(needs_fetch(true, true));
    assert!(needs_fetch(false, true));
    assert!(!needs_fetch(true, false));
}

#[test]
fn old_snapshot_is_made_of_the_fetched_document() {
    let fetched = minecraft_version(rule(None), rule(None));
    let snapshot = OldSnapshotEntry {
        id: s("13w12~"),
        url: s("https://example.invalid/13w12~.json"),
        wiki: None,
        jar: s("https://example.invalid/13w12~.jar"),
        sha1: s("def"),
        size: 99,
    };
    let v = old_snapshot_version(fetched.clone(), &snapshot);
    assert_eq!(v.release_time, "2023-06-12T00:00:00+02:00");
    assert_eq!(v.time, "2023-06-12T00:00:00+02:00");
    assert_eq!(v.release_type, "old_snapshot");
    let d = v.downloads.clone().unwrap();
    assert_eq!(d.client.url, "https://example.invalid/13w12~.jar");
    assert_eq!(d.client.sha1, "def");
    assert_eq!(d.client.size, 99);
    assert_eq!(d.server, None);
    assert_eq!(v.id, fetched.id);
    assert_eq!(v.libraries, fetched.libraries);
    assert_eq!(v.arguments, fetched.arguments);
    assert_eq!(v.main_class, fetched.main_class);
}

#[test]
fn where_documents_are_fetched_from() {
    assert_eq!(
        default_maven_url(),
        "https://files.minecraftforge.net/net/minecraftforge/forge/maven-metadata.json"
    );
    assert_eq!(
        default_promotions_url(),
        "https://files.minecraftforge.net/net/minecraftforge/forge/promotions_slim.json"
    );
    assert_eq!(
        default_download_url(),
        "https://piston-meta.mojang.com/mc/game/version_manifest_v2.json"
    );
    assert_eq!(
        files_manifest_url("1.20.1-47.2.0"),
        "https://files.minecraftforge.net/net/minecraftforge/forge/1.20.1-47.2.0/meta.json"
    );
}

#[test]
fn document_of_a_zipped_version() {
    assert!(ends_with("a.json", ".json"));
    assert!(ends_with(".json", ".json"));
    assert!(!ends_with("json", ".json"));
    assert!(!ends_with("a.json.bak", ".json"));
    assert!(ends_with("abc", ""));
    let names = |n: &[&str]| n.iter().map(|x| s(x)).collect::<Vec<String>>();
    assert_eq!(version_entry(&names(&["a.jar", "1.19_deep_dark.json", "readme.txt"])), Some(1));
    assert_eq!(version_entry(&names(&["a.json", "b.json", "c"])), Some(1));
    assert_eq!(version_entry(&names(&["a.jar"])), None);
    assert_eq!(version_entry(&names(&[])), None);
}

#[test]
fn answers_of_the_serving_side() {
    assert_eq!(
        version_response("1.20.1", Some(7)),
        (Status::Found, APIResponse { data: Some(7), error: None })
    );
    assert_eq!(
        version_response::<i32>("1.20.1", None),
        (
            Status::NotFound,
            APIResponse { data: None, error: Some(s("Version 1.20.1 does not exist")) }
        )
    );
    assert_eq!(
        document_response(s("doc")),
        (Status::Found, APIResponse { data: Some(s("doc")), error: None })
    );
}

#[test]
fn configuration_defaults() {
    let c = ServerConfig::defaults();
    assert_eq!(c.bind_address, "127.0.0.1:8080");
    assert_eq!(
        c.storage_format,
        StorageFormat::Json { meta_directory: s("meta"), generated_directory: s("generated") }
    );
    assert_eq!(c.metadata.max_parallel_fetch_connections, 4);
    assert_eq!(c.metadata.static_directory, "static");
    assert!(!c.debug_log.enable);
    assert_eq!(c.debug_log.path, "./logs");
    assert_eq!(c.debug_log.prefix, "mcmeta.log");
    assert_eq!(c.debug_log.level, "debug");
}

#[test]
fn failed_versions_are_pending_again() {
    let remote = manifest(&[("1.20.1", 10), ("1.20", 9), ("1.19", 8)]);
    let stored = stored_manifest(remote.clone(), &vec![s("1.20"), s("1.0")]);
    assert_eq!(stored, manifest(&[("1.20.1", 10), ("1.19", 8)]));
    assert_eq!(
        pending_versions(&remote, Some(&stored)),
        vec![PendingUpdate { record: record("1.20", 9), force_update: false }]
    );
    assert_eq!(stored_manifest(remote.clone(), &vec![]), remote);
}
