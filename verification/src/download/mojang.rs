//! Where the documents of the game distribution are fetched from, and which
//! entry of a zipped version is its document.

use vstd::prelude::*;
use crate::text::chars_of;

verus! {

/// Where the manifest of the game distribution is fetched from, unless
/// configured otherwise.
pub fn default_download_url() -> (r: String)
    ensures
        r@ == "https://piston-meta.mojang.com/mc/game/version_manifest_v2.json"@,
{
    "https://piston-meta.mojang.com/mc/game/version_manifest_v2.json".to_owned()
}

/// `s` ends with `suffix`.
pub open spec fn ends_with_spec(s: Seq<char>, suffix: Seq<char>) -> bool {
    suffix.len() <= s.len() && s.skip(s.len() - suffix.len()) == suffix
}

/// Whether `s` ends with `suffix`.
pub fn ends_with(s: &str, suffix: &str) -> (r: bool)
    ensures
        r == ends_with_spec(s@, suffix@),
{
    let a = chars_of(s);
    let b = chars_of(suffix);
    if b.len() > a.len() {
        return false;
    }
    let off = a.len() - b.len();
    let mut i: usize = 0;
    while i < b.len()
        invariant
            i <= b.len(),
            off + b.len() == a.len(),
            a@ == s@,
            b@ == suffix@,
            a@.skip(off as int).take(i as int) == b@.take(i as int),
        decreases b.len() - i,
    {
        if a[off + i] != b[i] {
            assert(a@.skip(off as int)[i as int] != b@[i as int]);
            return false;
        }
        assert(a@.skip(off as int).take(i + 1) == a@.skip(off as int).take(i as int).push(
            a@[off + i],
        ));
        assert(b@.take(i + 1) == b@.take(i as int).push(b@[i as int]));
        i += 1;
    }
    assert(a@.skip(off as int).take(i as int) == a@.skip(off as int));
    assert(b@.take(i as int) == b@);
    true
}

/// The place of the last of the first `n` names that ends with `.json`.
pub open spec fn last_json_among(names: Seq<Seq<char>>, n: int) -> Option<int>
    decreases n,
{
    if n <= 0 {
        None
    } else if ends_with_spec(names[n - 1], ".json"@) {
        Some(n - 1)
    } else {
        last_json_among(names, n - 1)
    }
}

/// The entry of a zipped version that holds its document: the last one whose
/// name ends with `.json`. Without such an entry the archive holds no version.
pub fn version_entry(names: &Vec<String>) -> (r: Option<usize>)
    ensures
        match r {
            Some(i) => last_json_among(names.deep_view(), names.deep_view().len() as int) == Some(
                i as int,
            ) && i < names.len(),
            None => last_json_among(names.deep_view(), names.deep_view().len() as int) is None,
        },
{
    let mut i: usize = names.len();
    let ghost all = names.deep_view();
    while i > 0
        invariant
            i <= names.len(),
            all == names.deep_view(),
            last_json_among(all, all.len() as int) == last_json_among(all, i as int),
        decreases i,
    {
        i -= 1;
        assert(all[i as int] == names@[i as int]@);
        if ends_with(names[i].as_str(), ".json") {
            return Some(i);
        }
    }
    None
}

} // verus!
