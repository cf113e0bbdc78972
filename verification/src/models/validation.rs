//! Checks on the fields of a descriptor, beyond its shape.

use vstd::prelude::*;
use crate::decimal::{i32_to_string, int_text};
use crate::models::mojang::{
    ManifestRule, ManifestRuleFeatures, MinecraftVersion, MojangLogging, MojangVersion,
    VersionArgument, VersionLibrary, SUPPORTED_COMPLIANCE_LEVEL,
    SUPPORTED_LAUNCHER_VERSION,
};
use crate::models::{MojangRule, OSRule};
use crate::strmap::StrMap;
use crate::text::{concat, str_eq};

verus! {

/// What a check found wrong.
#[derive(Debug, Clone, PartialEq, Eq)]
pub struct ValidationError {
    /// What is wrong, in words.
    pub message: String,
}

/// Accepts an option that holds a value.
pub fn is_some<T>(obj: Option<T>) -> (r: Result<(), ValidationError>)
    ensures
        r is Ok <==> obj is Some,
        r matches Err(e) ==> e.message@ == "Must be some"@,
{
    if !obj.is_some() {
        return Err(ValidationError { message: "Must be some".to_owned() });
    }
    Ok(())
}

/// The names of the operating systems that a rule can speak of.
pub open spec fn os_name(name: Seq<char>) -> bool {
    name == "osx"@ || name == "linux"@ || name == "windows"@ || name == "windows-arm64"@ || name
        == "osx-arm64"@ || name == "linux-arm64"@ || name == "linux-arm32"@
}

/// Accepts the name of an operating system.
pub fn os_rule_name_must_be_os(name: &String) -> (r: Result<(), ValidationError>)
    ensures
        r is Ok <==> os_name(name@),
        r matches Err(e) ==> e.message@ == "`"@ + name@ + "` not a valid os name"@,
{
    let n = name.as_str();
    if str_eq(n, "osx") || str_eq(n, "linux") || str_eq(n, "windows") || str_eq(n, "windows-arm64")
        || str_eq(n, "osx-arm64") || str_eq(n, "linux-arm64") || str_eq(n, "linux-arm32") {
        Ok(())
    } else {
        let mut message = concat("`", n);
        message.append("` not a valid os name");
        Err(ValidationError { message })
    }
}

/// The actions that a rule can have.
pub open spec fn rule_action(action: Seq<char>) -> bool {
    action == "allow"@ || action == "disallow"@
}

/// Accepts the action of a rule.
pub fn mojang_rule_action_must_be_allow_disallow(action: &String) -> (r: Result<
    (),
    ValidationError,
>)
    ensures
        r is Ok <==> rule_action(action@),
        r matches Err(e) ==> e.message@ == "`"@ + action@
            + "` not a valid action, must be `allow` or `disallow`"@,
{
    let a = action.as_str();
    if str_eq(a, "allow") || str_eq(a, "disallow") {
        Ok(())
    } else {
        let mut message = concat("`", a);
        message.append("` not a valid action, must be `allow` or `disallow`");
        Err(ValidationError { message })
    }
}

/// Accepts the one known type of logging.
pub fn mojang_logging_validate_type(logging_type: &String) -> (r: Result<(), ValidationError>)
    ensures
        r is Ok <==> logging_type@ == "log4j2-xml"@,
        r matches Err(e) ==> e.message@ == "invalid log type: "@ + logging_type@,
{
    if str_eq(logging_type.as_str(), "log4j2-xml") {
        Ok(())
    } else {
        Err(ValidationError { message: concat("invalid log type: ", logging_type.as_str()) })
    }
}

/// An optional number as it is shown in a message: `Some(<number>)` or `None`.
pub open spec fn shown(v: Option<i32>) -> Seq<char> {
    match v {
        Some(n) => ("Some("@ + int_text(n as int)).push(')'),
        None => "None"@,
    }
}

/// Writes an optional number as it is shown in a message.
pub fn show(v: &Option<i32>) -> (r: String)
    ensures
        r@ == shown(*v),
{
    match v {
        Some(n) => {
            let mut r = concat("Some(", i32_to_string(*n).as_str());
            r.push(')');
            r
        },
        None => "None".to_owned(),
    }
}

/// A number that is there and at most `limit`.
pub open spec fn at_most(v: Option<i32>, limit: i32) -> bool {
    v matches Some(n) && n <= limit
}

/// Accepts a launcher version that is named and supported.
pub fn mojang_version_validate_minimum_launcher_version(
    minimum_launcher_version: &Option<i32>,
) -> (r: Result<(), ValidationError>)
    ensures
        r is Ok <==> at_most(*minimum_launcher_version, SUPPORTED_LAUNCHER_VERSION),
        r matches Err(e) ==> e.message@ == ("Invalid launcher version `"@ + shown(
            *minimum_launcher_version,
        )).push('`'),
{
    if let Some(v) = minimum_launcher_version {
        if *v <= SUPPORTED_LAUNCHER_VERSION {
            return Ok(());
        }
    }
    let mut message = concat("Invalid launcher version `", show(minimum_launcher_version).as_str());
    message.push('`');
    Err(ValidationError { message })
}

/// Accepts a compliance level that is named and supported.
pub fn mojang_version_validate_compliance_level(compliance_level: &Option<i32>) -> (r: Result<
    (),
    ValidationError,
>)
    ensures
        r is Ok <==> at_most(*compliance_level, SUPPORTED_COMPLIANCE_LEVEL),
        r matches Err(e) ==> e.message@ == ("Invalid compliance level `"@ + shown(
            *compliance_level,
        )).push('`'),
{
    if let Some(v) = compliance_level {
        if *v <= SUPPORTED_COMPLIANCE_LEVEL {
            return Ok(());
        }
    }
    let mut message = concat("Invalid compliance level `", show(compliance_level).as_str());
    message.push('`');
    Err(ValidationError { message })
}

/// The first `n` keys, each after a blank.
pub open spec fn listed_keys(keys: Seq<Seq<char>>, n: int) -> Seq<char>
    decreases n,
{
    if n <= 0 {
        Seq::empty()
    } else {
        listed_keys(keys, n - 1).push(' ') + keys[n - 1]
    }
}

/// Accepts a map of unknown keys that is empty.
pub fn validate_empty_unknown_key_map(map: &StrMap<String>) -> (r: Result<(), ValidationError>)
    ensures
        r is Ok <==> map.keys().len() == 0,
        r matches Err(e) ==> e.message@ == "There are unknown keys present:"@ + listed_keys(
            map.keys(),
            map.keys().len() as int,
        ),
{
    if map.len() == 0 {
        return Ok(());
    }
    let mut list = String::new();
    let mut i: usize = 0;
    while i < map.len()
        invariant
            i <= map.keys().len(),
            list@ == listed_keys(map.keys(), i as int),
        decreases map.keys().len() - i,
    {
        list.push(' ');
        list.append(map.key_at(i).as_str());
        i += 1;
    }
    Err(ValidationError { message: concat("There are unknown keys present:", list.as_str()) })
}

/// A rule on an operating system is valid where it names a known one.
pub fn validate_os_rule(rule: &OSRule) -> (r: Result<(), ValidationError>)
    ensures
        r is Ok <==> os_name(rule.name@),
{
    os_rule_name_must_be_os(&rule.name)
}

/// A rule is valid where its action is a known one.
pub fn validate_rule(rule: &MojangRule) -> (r: Result<(), ValidationError>)
    ensures
        r is Ok <==> rule_action(rule.action@),
{
    mojang_rule_action_must_be_allow_disallow(&rule.action)
}

/// A logging section is valid where its type is the known one.
pub fn validate_logging(logging: &MojangLogging) -> (r: Result<(), ValidationError>)
    ensures
        r is Ok <==> logging.logging_type@ == "log4j2-xml"@,
{
    mojang_logging_validate_type(&logging.logging_type)
}

/// An embedded version document is valid where its launcher version and its
/// compliance level are named and supported.
pub open spec fn valid_mojang_version(v: MojangVersion) -> bool {
    at_most(v.minimum_launcher_version, SUPPORTED_LAUNCHER_VERSION) && at_most(
        v.compliance_level,
        SUPPORTED_COMPLIANCE_LEVEL,
    )
}

/// Checks an embedded version document. Of two faults the one of the launcher
/// version is reported.
pub fn validate_mojang_version(version: &MojangVersion) -> (r: Result<(), ValidationError>)
    ensures
        r is Ok <==> valid_mojang_version(*version),
        r matches Err(e) ==> e.message@ == if !at_most(
            version.minimum_launcher_version,
            SUPPORTED_LAUNCHER_VERSION,
        ) {
            ("Invalid launcher version `"@ + shown(version.minimum_launcher_version)).push('`')
        } else {
            ("Invalid compliance level `"@ + shown(version.compliance_level)).push('`')
        },
{
    match mojang_version_validate_minimum_launcher_version(&version.minimum_launcher_version) {
        Ok(()) => {},
        Err(e) => {
            return Err(e);
        },
    }
    mojang_version_validate_compliance_level(&version.compliance_level)
}

/// The features of a rule are valid where none is unknown.
pub open spec fn valid_features(f: ManifestRuleFeatures) -> bool {
    f.unknown.keys().len() == 0
}

/// A rule is valid where its features are, if it has any.
pub open spec fn valid_manifest_rule(r: ManifestRule) -> bool {
    r.features matches Some(f) ==> valid_features(f)
}

/// Rules are valid where each of them is.
pub open spec fn valid_rules(rules: Seq<ManifestRule>) -> bool {
    forall|i: int| 0 <= i < rules.len() ==> valid_manifest_rule(#[trigger] rules[i])
}

/// The rule at `i` is the first that is not valid, and `message` names its
/// unknown features.
pub open spec fn first_fault(rules: Seq<ManifestRule>, i: int, message: Seq<char>) -> bool {
    &&& 0 <= i < rules.len()
    &&& !valid_manifest_rule(rules[i])
    &&& forall|k: int| 0 <= k < i ==> valid_manifest_rule(#[trigger] rules[k])
    &&& rules[i].features matches Some(f) && message == "There are unknown keys present:"@
        + listed_keys(f.unknown.keys(), f.unknown.keys().len() as int)
}

/// Checks the rules of a library or an argument. The first rule that is not
/// valid is reported.
pub fn validate_rules(rules: &Vec<ManifestRule>) -> (r: Result<(), ValidationError>)
    ensures
        r is Ok <==> valid_rules(rules@),
        r matches Err(e) ==> exists|i: int| first_fault(rules@, i, e.message@),
{
    let mut i: usize = 0;
    while i < rules.len()
        invariant
            i <= rules.len(),
            forall|k: int| 0 <= k < i ==> valid_manifest_rule(#[trigger] rules@[k]),
        decreases rules.len() - i,
    {
        if let Some(f) = &rules[i].features {
            match validate_empty_unknown_key_map(&f.unknown) {
                Ok(()) => {},
                Err(e) => {
                    assert(!valid_manifest_rule(rules@[i as int]));
                    assert(first_fault(rules@, i as int, e.message@));
                    return Err(e);
                },
            }
        }
        i += 1;
    }
    Ok(())
}

/// A library is valid where its rules are, if it has any.
pub open spec fn valid_library(l: VersionLibrary) -> bool {
    l.rules matches Some(r) ==> valid_rules(r@)
}

/// An argument is valid where it is plain text, or its rules are valid.
pub open spec fn valid_argument(a: VersionArgument) -> bool {
    a matches VersionArgument::Object(o) ==> valid_rules(o.rules@)
}

/// Arguments are valid where each of them is.
pub open spec fn valid_argument_list(args: Seq<VersionArgument>) -> bool {
    forall|i: int| 0 <= i < args.len() ==> valid_argument(#[trigger] args[i])
}

/// Checks a list of arguments.
pub fn validate_argument_list(args: &Vec<VersionArgument>) -> (r: Result<(), ValidationError>)
    ensures
        r is Ok <==> valid_argument_list(args@),
{
    let mut i: usize = 0;
    while i < args.len()
        invariant
            i <= args.len(),
            forall|k: int| 0 <= k < i ==> valid_argument(#[trigger] args@[k]),
        decreases args.len() - i,
    {
        if let VersionArgument::Object(o) = &args[i] {
            match validate_rules(&o.rules) {
                Ok(()) => {},
                Err(e) => {
                    assert(!valid_argument(args@[i as int]));
                    return Err(e);
                },
            }
        }
        i += 1;
    }
    Ok(())
}

/// The document of a version of the game is valid where the rules of its
/// libraries and of its arguments are.
pub open spec fn valid_minecraft_version(v: MinecraftVersion) -> bool {
    &&& forall|i: int| 0 <= i < v.libraries@.len() ==> valid_library(#[trigger] v.libraries@[i])
    &&& v.arguments matches Some(a) ==> valid_argument_list(a.game@) && valid_argument_list(a.jvm@)
}

/// Checks the document of a version of the game.
pub fn validate_minecraft_version(version: &MinecraftVersion) -> (r: Result<(), ValidationError>)
    ensures
        r is Ok <==> valid_minecraft_version(*version),
{
    let mut i: usize = 0;
    while i < version.libraries.len()
        invariant
            i <= version.libraries.len(),
            forall|k: int| 0 <= k < i ==> valid_library(#[trigger] version.libraries@[k]),
        decreases version.libraries.len() - i,
    {
        if let Some(rules) = &version.libraries[i].rules {
            match validate_rules(rules) {
                Ok(()) => {},
                Err(e) => {
                    assert(!valid_library(version.libraries@[i as int]));
                    return Err(e);
                },
            }
        }
        i += 1;
    }
    if let Some(a) = &version.arguments {
        match validate_argument_list(&a.game) {
            Ok(()) => {},
            Err(e) => {
                return Err(e);
            },
        }
        return validate_argument_list(&a.jvm);
    }
    Ok(())
}

} // verus!
