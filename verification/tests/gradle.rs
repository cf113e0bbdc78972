use mcmeta::models::{GradleSpecifier, ModelError};

#[test]
fn specifier_reads_group_artifact_version() {
    let g = GradleSpecifier::parse("org.lwjgl:lwjgl:3.3.1").unwrap();
    assert_eq!(g.group, "org.lwjgl");
    assert_eq!(g.artifact, "lwjgl");
    assert_eq!(g.version, "3.3.1");
    assert_eq!(g.extension, Some("jar".to_string()));
    assert_eq!(g.classifier, None);
    assert_eq!(g.filename(), "lwjgl-3.3.1.jar");
    assert_eq!(g.base(), "org/lwjgl/lwjgl/3.3.1");
    assert_eq!(g.path(), "org/lwjgl/lwjgl/3.3.1/lwjgl-3.3.1.jar");
    assert!(g.is_lwjgl());
    assert!(!g.is_log4j());
    assert_eq!(g.to_string(), "org.lwjgl:lwjgl:3.3.1");
}

#[test]
fn specifier_reads_classifier_and_extension() {
    let g = GradleSpecifier::parse("net.minecraftforge:forge:1.20.1-47.2.0:installer@zip").unwrap();
    assert_eq!(g.group, "net.minecraftforge");
    assert_eq!(g.artifact, "forge");
    assert_eq!(g.version, "1.20.1-47.2.0");
    assert_eq!(g.classifier, Some("installer".to_string()));
    assert_eq!(g.extension, Some("zip".to_string()));
    assert_eq!(g.filename(), "forge-1.20.1-47.2.0-installer.zip");
    assert_eq!(g.base(), "net/minecraftforge/forge/1.20.1-47.2.0");
    assert_eq!(
        g.path(),
        "net/minecraftforge/forge/1.20.1-47.2.0/forge-1.20.1-47.2.0-installer.zip"
    );
    assert_eq!(g.to_string(), "net.minecraftforge:forge:1.20.1-47.2.0:installer@zip");
    assert!(!g.is_lwjgl());
}

#[test]
fn specifier_round_trips_through_its_text() {
    for text in [
        "a:b:c",
        "a:b:c:d",
        "a:b:c@zip",
        "a:b:c:d@txt",
        "org.apache.logging.log4j:log4j-core:2.17.1",
    ] {
        let g = GradleSpecifier::parse(text).unwrap();
        assert_eq!(g.to_string(), text);
        assert_eq!(GradleSpecifier::parse(&g.to_string()).unwrap(), g);
    }
}

#[test]
fn specifier_with_too_few_parts_is_rejected() {
    for text in ["", "a", "a:b", "a:b@jar", "@"] {
        assert_eq!(
            GradleSpecifier::parse(text),
            Err(ModelError::InvalidGradleSpecifier { specifier: text.to_string() })
        );
    }
    let e = GradleSpecifier::parse("a:b").unwrap_err();
    assert_eq!(e.message(), "Invalid Gradle specifier 'a:b'");
}

#[test]
fn specifier_edge_cases() {
    // More than four parts: no classifier.
    let g = GradleSpecifier::parse("a:b:c:d:e").unwrap();
    assert_eq!(g.classifier, None);
    // Two at signs: the extension stays jar.
    let g = GradleSpecifier::parse("a:b:c@x@y").unwrap();
    assert_eq!(g.extension, Some("jar".to_string()));
    assert_eq!(g.version, "c");
    // No extension at all: the file name ends with a dot.
    let g = GradleSpecifier {
        group: "g".to_string(),
        artifact: "a".to_string(),
        version: "1".to_string(),
        extension: None,
        classifier: None,
    };
    assert_eq!(g.filename(), "a-1.");
    assert_eq!(g.to_string(), "g:a:1");
    let h: GradleSpecifier = "g:a:1".parse().unwrap();
    assert!(!g.same_as(&h));
    assert!(h.same_as(&h.clone()));
}

#[test]
fn specifier_groups() {
    for group in ["org.lwjgl", "org.lwjgl.lwjgl", "net.java.jinput", "net.java.jutils"] {
        let g = GradleSpecifier::parse(&format!("{}:x:1", group)).unwrap();
        assert!(g.is_lwjgl());
        assert!(!g.is_log4j());
    }
    let g = GradleSpecifier::parse("org.apache.logging.log4j:log4j-api:2.0").unwrap();
    assert!(g.is_log4j());
    assert!(!g.is_lwjgl());
    let g = GradleSpecifier::parse("org.lwjgl.other:x:1").unwrap();
    assert!(!g.is_lwjgl());
}
