//! The files of a build, as its file manifest lists them: one file for each
//! classifier that has a usable hash.

use vstd::prelude::*;
use vstd::utf8::encode_utf8;
use crate::models::forge::{
    classifier_at, classifier_name, extension_at, extension_name, ForgeFile, ForgeFileView, ForgeVersionClassifier, ForgeVersionClassifierExtensions,
    ForgeVersionClassifierNames, ForgeVersionClassifierView, ForgeVersionClassifiersView,
    ForgeVersionMeta,
};
use crate::outside::{regex_replaced, replace_all};
use crate::strmap::StrMap;

verus! {

/// Why the files of a build cannot be listed.
#[derive(Debug, Clone, PartialEq, Eq)]
pub enum FilesError {
    /// A classifier has a usable hash under more than one extension.
    MultipleFiles { long_version: String, classifier: String, extension: String },
    /// The pattern by which hashes are cleaned was not taken.
    PatternRejected,
}

/// The hash that a classifier has under an extension, over the views.
pub open spec fn hash_at(
    c: ForgeVersionClassifierView,
    e: ForgeVersionClassifierExtensions,
) -> Option<Seq<char>> {
    match e {
        ForgeVersionClassifierExtensions::Txt => c.txt,
        ForgeVersionClassifierExtensions::Zip => c.zip,
        ForgeVersionClassifierExtensions::Jar => c.jar,
        ForgeVersionClassifierExtensions::Stash => c.stash,
    }
}

/// The files that a build has under a classifier, over the views.
pub open spec fn classifier_files(
    c: ForgeVersionClassifiersView,
    n: ForgeVersionClassifierNames,
) -> Option<ForgeVersionClassifierView> {
    match n {
        ForgeVersionClassifierNames::Changelog => c.changelog,
        ForgeVersionClassifierNames::Installer => c.installer,
        ForgeVersionClassifierNames::Mdk => c.mdk,
        ForgeVersionClassifierNames::Universal => c.universal,
        ForgeVersionClassifierNames::Userdev => c.userdev,
        ForgeVersionClassifierNames::Sources => c.sources,
        ForgeVersionClassifierNames::Javadoc => c.javadoc,
        ForgeVersionClassifierNames::Client => c.client,
        ForgeVersionClassifierNames::Src => c.src,
        ForgeVersionClassifierNames::Server => c.server,
        ForgeVersionClassifierNames::Launcher => c.launcher,
        ForgeVersionClassifierNames::Userdev3 => c.userdev3,
        ForgeVersionClassifierNames::SrcZip => c.src_zip,
    }
}

/// A hash as upstream writes it, without whatever is no word character.
pub open spec fn cleaned(hash: Seq<char>) -> Option<Seq<char>> {
    regex_replaced("\\W"@, hash, ""@)
}

/// A cleaned hash is usable where it is 32 bytes long.
pub open spec fn usable(clean: Seq<char>) -> bool {
    encode_utf8(clean).len() as usize == 32
}

/// Whether a cleaned hash is usable.
pub fn accept_hash(clean: &str) -> (r: bool)
    ensures
        r == usable(clean@),
{
    clean.len() == 32
}

/// What looking through the extensions of one classifier gives.
pub enum Found {
    /// At most one usable hash: the file, if any.
    Fine(Option<ForgeFileView>),
    /// A second usable hash, under this extension.
    Twice(ForgeVersionClassifierExtensions),
    /// The pattern was not taken.
    Rejected,
}

/// Looks through the extensions of the classifier `name` from the place `i`
/// on, with `found` the file found so far.
pub open spec fn scan_extensions(
    name: Seq<char>,
    c: ForgeVersionClassifierView,
    i: int,
    found: Option<ForgeFileView>,
) -> Found
    decreases 4 - i,
{
    if i < 0 || i >= 4 {
        Found::Fine(found)
    } else {
        match hash_at(c, extension_at(i)) {
            None => scan_extensions(name, c, i + 1, found),
            Some(h) => match cleaned(h) {
                None => Found::Rejected,
                Some(clean) => if usable(clean) {
                    if found is Some {
                        Found::Twice(extension_at(i))
                    } else {
                        scan_extensions(
                            name,
                            c,
                            i + 1,
                            Some(
                                ForgeFileView {
                                    classifier: name,
                                    hash: clean,
                                    extension: extension_name(extension_at(i)),
                                },
                            ),
                        )
                    }
                } else {
                    scan_extensions(name, c, i + 1, found)
                },
            },
        }
    }
}

/// What looking through the classifiers of a build gives.
pub enum Gathered {
    /// The files, by classifier.
    Files(Map<Seq<char>, ForgeFileView>),
    /// A classifier with usable hashes under two extensions, and the second of
    /// them.
    Twice(ForgeVersionClassifierNames, ForgeVersionClassifierExtensions),
    /// The pattern was not taken.
    Rejected,
}

/// Looks through the classifiers of a build from the place `k` on, with
/// `files` the files found so far.
pub open spec fn scan_classifiers(
    cs: ForgeVersionClassifiersView,
    k: int,
    files: Map<Seq<char>, ForgeFileView>,
) -> Gathered
    decreases 13 - k,
{
    if k < 0 || k >= 13 {
        Gathered::Files(files)
    } else {
        let name = classifier_at(k);
        match classifier_files(cs, name) {
            None => scan_classifiers(cs, k + 1, files),
            Some(c) => match scan_extensions(classifier_name(name), c, 0, None) {
                Found::Fine(None) => scan_classifiers(cs, k + 1, files),
                Found::Fine(Some(f)) => scan_classifiers(
                    cs,
                    k + 1,
                    files.insert(classifier_name(name), f),
                ),
                Found::Twice(e) => Gathered::Twice(name, e),
                Found::Rejected => Gathered::Rejected,
            },
        }
    }
}

/// What can stop the look through one classifier.
enum Problem {
    Twice(ForgeVersionClassifierExtensions),
    Rejected,
}

/// The file of the classifier `name`: the one extension under which it has a
/// usable hash.
fn classifier_file(name: ForgeVersionClassifierNames, c: &ForgeVersionClassifier) -> (r: Result<
    Option<ForgeFile>,
    Problem,
>)
    ensures
        scan_extensions(classifier_name(name), c@, 0, None) == (match r {
            Ok(f) => Found::Fine(f.deep_view()),
            Err(Problem::Twice(e)) => Found::Twice(e),
            Err(Problem::Rejected) => Found::Rejected,
        }),
        r matches Ok(Some(f)) ==> usable(f@.hash) && f@.classifier == classifier_name(name),
{
    let mut it = c.iter();
    let mut found: Option<ForgeFile> = None;
    let ghost goal = scan_extensions(classifier_name(name), c@, 0, None);
    loop
        invariant
            it.source() == *c,
            0 <= it.position() <= 4,
            found matches Some(f) ==> usable(f@.hash) && f@.classifier == classifier_name(name),
            goal == scan_extensions(classifier_name(name), c@, 0, None),
            goal == scan_extensions(classifier_name(name), c@, it.position(), found.deep_view()),
        decreases 4 - it.position(),
    {
        let ghost i = it.position();
        match it.next() {
            None => {
                return Ok(found);
            },
            Some((extension, hash)) => {
                assert(hash.deep_view() == hash_at(c@, extension));
                if let Some(h) = hash {
                    match replace_all("\\W", h.as_str(), "") {
                        None => {
                            return Err(Problem::Rejected);
                        },
                        Some(clean) => {
                            if accept_hash(clean.as_str()) {
                                if found.is_some() {
                                    return Err(Problem::Twice(extension));
                                }
                                found = Some(
                                    ForgeFile {
                                        classifier: name.as_str().to_owned(),
                                        hash: clean,
                                        extension: extension.as_str().to_owned(),
                                    },
                                );
                            }
                        },
                    }
                }
            },
        }
    }
}

/// Lists the files of the build `long_version` from its file manifest. Under
/// each classifier the hashes are cleaned of whatever is no word character; a
/// hash that is then 32 bytes long makes the file of the classifier, with the
/// extension it stands under. Other hashes are passed over. A classifier with
/// two such hashes is an error in the data. So each classifier has at most one
/// file, which stands under the name of the classifier and has a usable hash.
pub fn forge_files(long_version: &str, manifest: &ForgeVersionMeta) -> (r: Result<
    StrMap<ForgeFile>,
    FilesError,
>)
    ensures
        match r {
            Ok(files) => scan_classifiers(manifest@.classifiers, 0, Map::empty()) == Gathered::Files(
                files@,
            ),
            Err(FilesError::MultipleFiles { long_version: l, classifier, extension }) => scan_classifiers(
                manifest@.classifiers,
                0,
                Map::empty(),
            ) matches Gathered::Twice(n, e) && classifier@ == classifier_name(n) && extension@
                == extension_name(e),
            Err(FilesError::PatternRejected) => scan_classifiers(
                manifest@.classifiers,
                0,
                Map::empty(),
            ) == Gathered::Rejected,
        },
        r matches Err(FilesError::MultipleFiles { long_version: l, .. }) ==> l@ == long_version@,
        r matches Ok(files) ==> forall|k: Seq<char>| #[trigger]
            files@.dom().contains(k) ==> usable(files@[k].hash) && files@[k].classifier == k,
{
    let mut it = manifest.classifiers.iter();
    let mut files: StrMap<ForgeFile> = StrMap::new();
    let ghost cs = manifest@.classifiers;
    let ghost goal = scan_classifiers(cs, 0, Map::empty());
    loop
        invariant
            it.source() == manifest.classifiers,
            cs == manifest@.classifiers,
            0 <= it.position() <= 13,
            forall|k: Seq<char>| #[trigger]
                files@.dom().contains(k) ==> usable(files@[k].hash) && files@[k].classifier == k,
            goal == scan_classifiers(cs, 0, Map::empty()),
            goal == scan_classifiers(cs, it.position(), files@),
        decreases 13 - it.position(),
    {
        match it.next() {
            None => {
                return Ok(files);
            },
            Some((name, listed)) => {
                assert(listed.deep_view() == classifier_files(cs, name));
                if let Some(c) = listed {
                    match classifier_file(name, c) {
                        Ok(None) => {},
                        Ok(Some(file)) => {
                            files.insert(name.as_str().to_owned(), file);
                        },
                        Err(Problem::Twice(extension)) => {
                            return Err(
                                FilesError::MultipleFiles {
                                    long_version: long_version.to_owned(),
                                    classifier: name.as_str().to_owned(),
                                    extension: extension.as_str().to_owned(),
                                },
                            );
                        },
                        Err(Problem::Rejected) => {
                            return Err(FilesError::PatternRejected);
                        },
                    }
                }
            },
        }
    }
}

} // verus!
