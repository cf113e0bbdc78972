//! The derivation of the mod-loader index: promotions, long versions, and the
//! pairs of game version and build that are still to be fetched.

use vstd::prelude::*;
use crate::decimal::{digits_value, lemma_digits_value_nonneg, parse_i32};
use crate::models::forge::{long_version_of, ForgeMavenMetadata, ForgeMavenPromotions};
use crate::seqs::{lemma_push_contains, lemma_push_no_duplicates, lemma_take_contains};
use crate::strmap::StrMap;
use crate::text::{
    chars_of, contains_str, digit, find_char, first_index, is_digit, is_letter, lemma_first_index, letter, str_eq,
    string_of,
};

verus! {

/// A long version that upstream published malformed, and that never enters the
/// derived index.
pub open spec fn bad_version(long_version: Seq<char>) -> bool {
    long_version == "1.12.2-14.23.5.2851"@
}

/// Whether `long_version` is on the list of known-bad builds.
pub fn is_bad_version(long_version: &str) -> (r: bool)
    ensures
        r == bad_version(long_version@),
{
    str_eq(long_version, "1.12.2-14.23.5.2851")
}

/// A character of a game version: a digit, a letter, `_` or `.`.
pub open spec fn mc_char(c: char) -> bool {
    is_digit(c) || is_letter(c) || c == '_' || c == '.'
}

/// A character of a dotted version: a digit or `.`.
pub open spec fn ver_char(c: char) -> bool {
    is_digit(c) || c == '.'
}

/// A character of a branch: a letter, a digit or `.`.
pub open spec fn branch_char(c: char) -> bool {
    is_letter(c) || is_digit(c) || c == '.'
}

/// The three kinds of characters that the grammar of long versions names.
#[derive(Debug, Clone, Copy, PartialEq, Eq, Structural)]
pub enum CharKind {
    GameVersion,
    Version,
    Branch,
}

/// Whether `c` is a character of the kind `kind`.
pub open spec fn of_kind(kind: CharKind, c: char) -> bool {
    match kind {
        CharKind::GameVersion => mc_char(c),
        CharKind::Version => ver_char(c),
        CharKind::Branch => branch_char(c),
    }
}

/// Every character of `s` is of the kind `kind`.
pub open spec fn all_of_kind(kind: CharKind, s: Seq<char>) -> bool {
    forall|i: int| 0 <= i < s.len() ==> of_kind(kind, #[trigger] s[i])
}

/// Whether every character of `v[from..to]` is of the kind `kind`.
pub fn check_kind(kind: CharKind, v: &Vec<char>, from: usize, to: usize) -> (r: bool)
    requires
        from <= to <= v.len(),
    ensures
        r == all_of_kind(kind, v@.subrange(from as int, to as int)),
{
    let ghost s = v@.subrange(from as int, to as int);
    let mut i: usize = from;
    while i < to
        invariant
            from <= i <= to <= v.len(),
            s == v@.subrange(from as int, to as int),
            forall|k: int| 0 <= k < i - from ==> of_kind(kind, #[trigger] s[k]),
        decreases to - i,
    {
        let c = v[i];
        let ok = match kind {
            CharKind::GameVersion => digit(c) || letter(c) || c == '_' || c == '.',
            CharKind::Version => digit(c) || c == '.',
            CharKind::Branch => letter(c) || digit(c) || c == '.',
        };
        assert(s[i - from] == c);
        if !ok {
            return false;
        }
        i += 1;
    }
    true
}

/// The place of the last `.` in `s`, or -1 where it has none.
pub open spec fn last_dot(s: Seq<char>) -> int
    decreases s.len(),
{
    if s.len() == 0 {
        -1
    } else if s.last() == '.' {
        s.len() - 1
    } else {
        last_dot(s.drop_last())
    }
}

/// `last_dot` is the greatest place that holds a `.`.
pub proof fn lemma_last_dot(s: Seq<char>, d: int)
    requires
        -1 <= d < s.len(),
        d >= 0 ==> s[d] == '.',
        forall|k: int| d < k < s.len() ==> s[k] != '.',
    ensures
        last_dot(s) == d,
    decreases s.len(),
{
    if s.len() > 0 && d < s.len() - 1 {
        lemma_last_dot(s.drop_last(), d);
    }
}

/// A dotted version: digits and dots, with something before its last dot and
/// at least one digit after it.
pub open spec fn valid_version(ver: Seq<char>) -> bool {
    all_of_kind(CharKind::Version, ver) && 1 <= last_dot(ver) && last_dot(ver) + 1 < ver.len()
}

/// The digits after the last dot of a dotted version: its build number.
pub open spec fn build_text(ver: Seq<char>) -> Seq<char> {
    ver.subrange(last_dot(ver) + 1, ver.len() as int)
}

/// The parts of a long version.
pub struct LongVersionParts {
    /// The game version.
    pub mc_version: Seq<char>,
    /// The dotted version, build number included.
    pub version: Seq<char>,
    /// The branch, where there is one.
    pub branch: Option<Seq<char>>,
}

/// The parts are as the grammar of long versions wants them:
/// `<game version>-<dotted version>.<build>(-<branch>)?`.
pub open spec fn well_formed(p: LongVersionParts) -> bool {
    &&& p.mc_version.len() > 0
    &&& all_of_kind(CharKind::GameVersion, p.mc_version)
    &&& valid_version(p.version)
    &&& (p.branch matches Some(b) ==> b.len() > 0 && all_of_kind(CharKind::Branch, b))
}

/// The long version that the parts make.
pub open spec fn assemble(p: LongVersionParts) -> Seq<char> {
    long_version_of(p.mc_version, p.version, p.branch)
}

/// The parts of `s`, cut at its first and at its second dash; `None` where
/// `s` has no dash or the pieces are not as the grammar wants them.
pub open spec fn decompose(s: Seq<char>) -> Option<LongVersionParts> {
    let i = first_index(s, '-');
    let rest = s.skip(i + 1);
    let k = first_index(rest, '-');
    let p = LongVersionParts {
        mc_version: s.take(i),
        version: rest.take(k),
        branch: if k < rest.len() {
            Some(rest.skip(k + 1))
        } else {
            None
        },
    };
    if 0 <= i < s.len() && well_formed(p) {
        Some(p)
    } else {
        None
    }
}

/// `first_index` is a place of `s` or its length, holds `c` where it is a place,
/// and no earlier place holds `c`.
pub proof fn lemma_first_index_is_first(s: Seq<char>, c: char)
    ensures
        0 <= first_index(s, c) <= s.len(),
        first_index(s, c) < s.len() ==> s[first_index(s, c)] == c,
        forall|k: int| 0 <= k < first_index(s, c) ==> s[k] != c,
    decreases s.len(),
{
    if s.len() > 0 && s[0] != c {
        let t = s.drop_first();
        lemma_first_index_is_first(t, c);
        assert forall|k: int| 0 <= k < first_index(s, c) implies s[k] != c by {
            if k > 0 {
                assert(t[k - 1] == s[k]);
            }
        }
    }
}

/// What `decompose` finds makes the text it was found in, and is as the
/// grammar wants it.
pub proof fn lemma_decompose_sound(s: Seq<char>)
    ensures
        decompose(s) matches Some(p) ==> well_formed(p) && assemble(p) == s,
{
    if decompose(s) is Some {
        let p = decompose(s)->0;
        let i = first_index(s, '-');
        let rest = s.skip(i + 1);
        let k = first_index(rest, '-');
        lemma_first_index_is_first(s, '-');
        lemma_first_index_is_first(rest, '-');
        if k < rest.len() {
            assert(assemble(p) =~= s);
        } else {
            assert(rest.take(k) == rest);
            assert(assemble(p) =~= s);
        }
    }
}

/// No character of a kind is a dash.
pub proof fn lemma_kind_has_no_dash(kind: CharKind, s: Seq<char>)
    requires
        all_of_kind(kind, s),
    ensures
        forall|i: int| 0 <= i < s.len() ==> s[i] != '-',
{
    assert forall|i: int| 0 <= i < s.len() implies s[i] != '-' by {
        assert(of_kind(kind, s[i]));
    }
}

/// Parts that are as the grammar wants them are found again in the long
/// version that they make: putting a long version together and taking it apart
/// gives back what one started from.
pub proof fn lemma_assemble_then_decompose(p: LongVersionParts)
    requires
        well_formed(p),
    ensures
        decompose(assemble(p)) == Some(p),
{
    let s = assemble(p);
    let i = p.mc_version.len() as int;
    lemma_kind_has_no_dash(CharKind::GameVersion, p.mc_version);
    lemma_kind_has_no_dash(CharKind::Version, p.version);
    assert(s[i] == '-');
    assert forall|k: int| 0 <= k < i implies s[k] != '-' by {
        assert(s[k] == p.mc_version[k]);
    }
    lemma_first_index(s, '-', i);
    let rest = s.skip(i + 1);
    let k = p.version.len() as int;
    assert forall|j: int| 0 <= j < k implies rest[j] != '-' by {
        assert(rest[j] == p.version[j]);
    }
    match p.branch {
        Some(b) => {
            assert(rest[k] == '-');
            lemma_first_index(rest, '-', k);
            assert(rest.skip(k + 1) =~= b);
        },
        None => {
            assert(rest.len() == k);
            lemma_first_index(rest, '-', k);
        },
    }
    assert(s.take(i) =~= p.mc_version);
    assert(rest.take(k) =~= p.version);
}

/// Taking a long version apart and putting the parts together gives back the
/// long version.
pub proof fn lemma_decompose_then_assemble(s: Seq<char>)
    requires
        decompose(s) is Some,
    ensures
        assemble(decompose(s)->0) == s,
        well_formed(decompose(s)->0),
        decompose(assemble(decompose(s)->0)) == decompose(s),
{
    lemma_decompose_sound(s);
}

/// What a long version was found to hold.
#[derive(Debug, Clone, PartialEq, Eq)]
pub struct ParsedVersion {
    /// The game version that the long version names.
    pub mc_version: String,
    /// The dotted version, build number included.
    pub version: String,
    /// The build number.
    pub build: i32,
    /// The branch, where there is one.
    pub branch: Option<String>,
}

/// The parts that a parsed version holds.
pub open spec fn parts_of(p: ParsedVersion) -> LongVersionParts {
    LongVersionParts {
        mc_version: p.mc_version@,
        version: p.version@,
        branch: p.branch.deep_view(),
    }
}

/// Why a long version cannot be identified.
#[derive(Debug, Clone, PartialEq, Eq)]
pub enum VersionError {
    /// The long version is not of the form that the grammar wants.
    NoMatch { long_version: String },
    /// The build number is too large to be kept.
    BuildOutOfRange { long_version: String },
}

/// The place of the last `.` in `v[from..to]`, counted from `from`, or `None`.
pub fn find_last_dot(v: &Vec<char>, from: usize, to: usize) -> (r: Option<usize>)
    requires
        from <= to <= v.len(),
    ensures
        match r {
            Some(d) => d < to - from && last_dot(v@.subrange(from as int, to as int)) == d,
            None => last_dot(v@.subrange(from as int, to as int)) == -1,
        },
{
    let ghost s = v@.subrange(from as int, to as int);
    let mut i: usize = to;
    while i > from
        invariant
            from <= i <= to <= v.len(),
            s == v@.subrange(from as int, to as int),
            forall|k: int| i - from <= k < s.len() ==> s[k] != '.',
        decreases i,
    {
        i -= 1;
        assert(s[i - from] == v@[i as int]);
        if v[i] == '.' {
            proof {
                lemma_last_dot(s, (i - from) as int);
            }
            return Some(i - from);
        }
    }
    proof {
        lemma_last_dot(s, -1);
    }
    None
}

/// Reads a long version: `<game version>-<dotted version>.<build>(-<branch>)?`.
/// A long version of another form cannot be identified, nor one whose build
/// number does not fit.
pub fn parse_long_version(long_version: &str) -> (r: Result<ParsedVersion, VersionError>)
    ensures
        match r {
            Ok(p) => decompose(long_version@) == Some(parts_of(p)) && p.build as int == digits_value(
                build_text(p.version@),
            ),
            Err(VersionError::NoMatch { long_version: l }) => decompose(long_version@) is None && l@
                == long_version@,
            Err(VersionError::BuildOutOfRange { long_version: l }) => decompose(long_version@)
                matches Some(p) && digits_value(build_text(p.version)) > i32::MAX && l@
                == long_version@,
        },
{
    let v = chars_of(long_version);
    let n = v.len();
    let ghost s = v@;
    let i = find_char(&v, '-', 0);
    proof {
        lemma_first_index(s, '-', i as int);
    }
    if i >= n {
        return Err(VersionError::NoMatch { long_version: long_version.to_owned() });
    }
    let ghost rest = s.skip(i + 1);
    let j = find_char(&v, '-', i + 1);
    let ghost k = j - (i + 1);
    proof {
        assert forall|x: int| 0 <= x < k implies rest[x] != '-' by {
            assert(rest[x] == s[i + 1 + x]);
        }
        lemma_first_index(rest, '-', k);
        assert(s.take(i as int) == s.subrange(0, i as int));
        assert(rest.take(k) == s.subrange(i + 1, j as int));
        if j < n {
            assert(rest.skip(k + 1) == s.subrange(j + 1, n as int));
        }
    }
    if i == 0 || !check_kind(CharKind::GameVersion, &v, 0, i) {
        return Err(VersionError::NoMatch { long_version: long_version.to_owned() });
    }
    if !check_kind(CharKind::Version, &v, i + 1, j) {
        return Err(VersionError::NoMatch { long_version: long_version.to_owned() });
    }
    let dot = match find_last_dot(&v, i + 1, j) {
        Some(d) => d,
        None => {
            return Err(VersionError::NoMatch { long_version: long_version.to_owned() });
        },
    };
    if dot < 1 || dot + 1 >= j - (i + 1) {
        return Err(VersionError::NoMatch { long_version: long_version.to_owned() });
    }
    if j < n {
        if j + 1 >= n || !check_kind(CharKind::Branch, &v, j + 1, n) {
            return Err(VersionError::NoMatch { long_version: long_version.to_owned() });
        }
    }
    let ghost ver = s.subrange(i + 1, j as int);
    let ghost digits = build_text(ver);
    proof {
        assert(digits == s.subrange(i + 1 + dot + 1, j as int));
        assert forall|x: int| 0 <= x < digits.len() implies is_digit(#[trigger] digits[x]) by {
            let y = dot + 1 + x;
            assert(digits[x] == ver[y]);
            assert(of_kind(CharKind::Version, ver[y]));
            if ver[y] == '.' {
                lemma_last_dot_is_last(ver, y);
            }
        }
        assert(digits.len() > 0);
        assert(is_digit(digits[0]));
    }
    let build = match parse_i32(&v, i + 1 + dot + 1, j) {
        Some(b) => b,
        None => {
            proof {
                lemma_digits_value_nonneg(digits);
            }
            return Err(VersionError::BuildOutOfRange { long_version: long_version.to_owned() });
        },
    };
    let branch = if j < n {
        Some(string_of(&v, j + 1, n))
    } else {
        None
    };
    Ok(
        ParsedVersion {
            mc_version: string_of(&v, 0, i),
            version: string_of(&v, i + 1, j),
            build,
            branch,
        },
    )
}

/// No place after `last_dot` holds a `.`.
pub proof fn lemma_last_dot_is_last(s: Seq<char>, y: int)
    requires
        0 <= y < s.len(),
        s[y] == '.',
    ensures
        y <= last_dot(s),
    decreases s.len(),
{
    if s.last() != '.' {
        lemma_last_dot_is_last(s.drop_last(), y);
    }
}

/// Which of the two designations a promotion gives.
#[derive(Debug, Clone, Copy, PartialEq, Eq, Structural)]
pub enum Promotion {
    Latest,
    Recommended,
}

/// What a promotion key was found to hold.
#[derive(Debug, Clone, PartialEq, Eq)]
pub struct PromotionKey {
    /// The game version that the promotion is for.
    pub mc_version: String,
    /// The designation.
    pub promotion: Promotion,
    /// The branch to which the promotion is limited, where it names one.
    pub branch: Option<String>,
}

/// What a `PromotionKey` holds, as plain values.
pub struct PromotionKeyView {
    pub mc_version: Seq<char>,
    pub promotion: Promotion,
    pub branch: Option<Seq<char>>,
}

impl DeepView for PromotionKey {
    type V = PromotionKeyView;

    open spec fn deep_view(&self) -> PromotionKeyView {
        PromotionKeyView {
            mc_version: self.mc_version@,
            promotion: self.promotion,
            branch: self.branch.deep_view(),
        }
    }
}

impl View for PromotionKey {
    type V = PromotionKeyView;

    open spec fn view(&self) -> PromotionKeyView {
        self.deep_view()
    }
}

/// `s` holds `word` from the place `i` on.
pub open spec fn holds_at(s: Seq<char>, i: int, word: Seq<char>) -> bool {
    0 <= i && i + word.len() <= s.len() && s.subrange(i, i + word.len()) == word
}

/// The designation that stands right after the place `j`.
pub open spec fn promotion_after(s: Seq<char>, j: int) -> Option<Promotion> {
    if holds_at(s, j + 1, "latest"@) {
        Some(Promotion::Latest)
    } else if holds_at(s, j + 1, "recommended"@) {
        Some(Promotion::Recommended)
    } else {
        None
    }
}

/// The length of the word of a designation.
pub open spec fn word_len(p: Promotion) -> int {
    match p {
        Promotion::Latest => "latest"@.len() as int,
        Promotion::Recommended => "recommended"@.len() as int,
    }
}

/// The place `j` holds a dash that ends a game version and is followed by a
/// designation.
pub open spec fn promo_dash(s: Seq<char>, j: int) -> bool {
    0 < j < s.len() && s[j] == '-' && s[j - 1] != '-' && promotion_after(s, j) is Some
}

/// The first place at or after `from` that is such a dash.
pub open spec fn first_promo_dash(s: Seq<char>, from: int) -> Option<int>
    decreases s.len() - from,
{
    if from < 0 || from >= s.len() {
        None
    } else if promo_dash(s, from) {
        Some(from)
    } else {
        first_promo_dash(s, from + 1)
    }
}

/// Where the run without a dash that ends before `j` starts.
pub open spec fn run_start(s: Seq<char>, j: int) -> int
    decreases j,
{
    if j <= 0 || j > s.len() {
        0
    } else if s[j - 1] == '-' {
        j
    } else {
        run_start(s, j - 1)
    }
}

/// Where the run of branch characters that starts at `i` ends.
pub open spec fn branch_end(s: Seq<char>, i: int) -> int
    decreases s.len() - i,
{
    if i < 0 || i >= s.len() {
        s.len() as int
    } else if !branch_char(s[i]) {
        i
    } else {
        branch_end(s, i + 1)
    }
}

/// What a promotion key holds: `<game version>-(latest|recommended)(-<branch>)?`,
/// looked for from the left. The game version is the run without a dash before
/// the first dash that a designation follows; the branch is the run of branch
/// characters after a dash that follows the designation, where there is one.
pub open spec fn promotion_key(s: Seq<char>) -> Option<PromotionKeyView> {
    match first_promo_dash(s, 0) {
        None => None,
        Some(j) => {
            let p = promotion_after(s, j)->0;
            let k = j + 1 + word_len(p);
            Some(
                PromotionKeyView {
                    mc_version: s.subrange(run_start(s, j), j),
                    promotion: p,
                    branch: if k + 1 < s.len() && s[k] == '-' && branch_char(s[k + 1]) {
                        Some(s.subrange(k + 1, branch_end(s, k + 1)))
                    } else {
                        None
                    },
                },
            )
        },
    }
}

/// A key that recommends the short version under it: it names the designation
/// `recommended` and no branch.
pub open spec fn is_recommending(key: Seq<char>) -> bool {
    promotion_key(key) matches Some(k) && k.promotion == Promotion::Recommended && k.branch is None
}

/// The first dash that ends a game version and is followed by a designation
/// is `j`, where no place from `from` up to `j` is such a dash and `j` is one.
pub proof fn lemma_first_promo_dash(s: Seq<char>, from: int, j: int)
    requires
        0 <= from <= j < s.len(),
        promo_dash(s, j),
        forall|k: int| from <= k < j ==> !promo_dash(s, k),
    ensures
        first_promo_dash(s, from) == Some(j),
    decreases j - from,
{
    if from < j {
        lemma_first_promo_dash(s, from + 1, j);
    }
}

/// A run without a dash starts where the text starts, where no dash stands
/// before it.
pub proof fn lemma_run_start(s: Seq<char>, j: int)
    requires
        0 <= j <= s.len(),
        forall|k: int| 0 <= k < j ==> s[k] != '-',
    ensures
        run_start(s, j) == 0,
    decreases j,
{
    if j > 0 {
        lemma_run_start(s, j - 1);
    }
}

/// The key of a plain recommendation, a game version followed by
/// `-recommended`, holds that game version, the designation `recommended` and
/// no branch: it recommends the short version under it.
pub proof fn lemma_plain_recommendation(mc_version: Seq<char>)
    requires
        mc_version.len() > 0,
        forall|i: int| 0 <= i < mc_version.len() ==> mc_version[i] != '-',
    ensures
        promotion_key(mc_version.push('-') + "recommended"@) == Some(
            PromotionKeyView {
                mc_version,
                promotion: Promotion::Recommended,
                branch: None,
            },
        ),
        is_recommending(mc_version.push('-') + "recommended"@),
{
    reveal_strlit("recommended");
    reveal_strlit("latest");
    let word = "recommended"@;
    let s = mc_version.push('-') + word;
    let j = mc_version.len() as int;
    assert(s[j] == '-');
    assert(s[j - 1] == mc_version[j - 1]);
    assert(s.subrange(j + 1, j + 1 + word.len()) =~= word);
    assert(holds_at(s, j + 1, word));
    assert(!holds_at(s, j + 1, "latest"@)) by {
        if holds_at(s, j + 1, "latest"@) {
            assert(s.subrange(j + 1, j + 1 + "latest"@.len())[0] == s[j + 1]);
            assert(s[j + 1] == word[0]);
        }
    }
    assert(promotion_after(s, j) == Some(Promotion::Recommended));
    assert forall|k: int| 0 <= k < j implies !promo_dash(s, k) by {
        assert(s[k] == mc_version[k]);
    }
    lemma_first_promo_dash(s, 0, j);
    assert forall|k: int| 0 <= k < j implies s[k] != '-' by {
        assert(s[k] == mc_version[k]);
    }
    lemma_run_start(s, j);
    assert(s.subrange(0, j) =~= mc_version);
}

/// Whether `v` holds `word` from the place `i` on.
fn holds(v: &Vec<char>, i: usize, word: &Vec<char>) -> (r: bool)
    ensures
        r == holds_at(v@, i as int, word@),
{
    if word.len() > v.len() || i > v.len() - word.len() {
        return false;
    }
    let mut k: usize = 0;
    while k < word.len()
        invariant
            k <= word.len(),
            i + word.len() <= v.len(),
            v@.subrange(i as int, i + k) == word@.take(k as int),
        decreases word.len() - k,
    {
        if v[i + k] != word[k] {
            assert(v@.subrange(i as int, i + word.len())[k as int] != word@[k as int]);
            return false;
        }
        assert(v@.subrange(i as int, i + k + 1) == v@.subrange(i as int, i + k).push(v@[i + k]));
        assert(word@.take(k + 1) == word@.take(k as int).push(word@[k as int]));
        k += 1;
    }
    assert(word@.take(k as int) == word@);
    true
}

/// Reads a promotion key. A key in which no designation follows a game version
/// holds nothing.
pub fn parse_promotion_key(key: &str) -> (r: Option<PromotionKey>)
    ensures
        r.deep_view() == promotion_key(key@),
{
    let v = chars_of(key);
    let n = v.len();
    let latest = chars_of("latest");
    let recommended = chars_of("recommended");
    let mut j: usize = 0;
    while j < n
        invariant
            n == v.len(),
            v@ == key@,
            latest@ == "latest"@,
            recommended@ == "recommended"@,
            j <= n,
            first_promo_dash(v@, 0) == first_promo_dash(v@, j as int),
        decreases n - j,
    {
        if j > 0 && v[j] == '-' && v[j - 1] != '-' {
            let promotion = if holds(&v, j + 1, &latest) {
                Some(Promotion::Latest)
            } else if holds(&v, j + 1, &recommended) {
                Some(Promotion::Recommended)
            } else {
                None
            };
            if let Some(p) = promotion {
                let word = match p {
                    Promotion::Latest => latest.len(),
                    Promotion::Recommended => recommended.len(),
                };
                // The game version: back to the dash before it.
                let mut start: usize = j;
                while start > 0 && v[start - 1] != '-'
                    invariant
                        start <= j <= v.len(),
                        run_start(v@, j as int) == run_start(v@, start as int),
                    decreases start,
                {
                    start -= 1;
                }
                let k: usize = j + 1 + word;
                let branch = if k < n && k + 1 < n && v[k] == '-' && is_branch_char(v[k + 1]) {
                    let mut end: usize = k + 1;
                    while end < n && is_branch_char(v[end])
                        invariant
                            k + 1 <= end <= n,
                            n == v.len(),
                            branch_end(v@, k + 1) == branch_end(v@, end as int),
                        decreases n - end,
                    {
                        end += 1;
                    }
                    Some(string_of(&v, k + 1, end))
                } else {
                    None
                };
                return Some(PromotionKey { mc_version: string_of(&v, start, j), promotion: p, branch });
            }
        }
        j += 1;
    }
    None
}

/// Whether `c` is a character of a branch.
pub fn is_branch_char(c: char) -> (r: bool)
    ensures
        r == branch_char(c),
{
    letter(c) || digit(c) || c == '.'
}

/// Whether the promotion under `key` recommends a short version.
pub fn is_recommendation(key: &str) -> (r: bool)
    ensures
        r == is_recommending(key@),
{
    match parse_promotion_key(key) {
        Some(k) => k.promotion == Promotion::Recommended && k.branch.is_none(),
        None => false,
    }
}

/// The short version `x` stands under a key of `promos` that recommends it.
pub open spec fn recommended_by(promos: Map<Seq<char>, Seq<char>>, x: Seq<char>) -> bool {
    exists|key: Seq<char>| #[trigger]
        promos.dom().contains(key) && is_recommending(key) && promos[key] == x
}

/// One of the first `n` keys recommends `x`, which stands under it.
pub open spec fn recommended_among(
    keys: Seq<Seq<char>>,
    values: Seq<Seq<char>>,
    n: int,
    x: Seq<char>,
) -> bool {
    exists|k: int| 0 <= k < n && is_recommending(#[trigger] keys[k]) && values[k] == x
}

/// The short versions that the first `n` promotions recommend, each once, in
/// the order of the keys.
pub open spec fn recommended_list(keys: Seq<Seq<char>>, values: Seq<Seq<char>>, n: int) -> Seq<
    Seq<char>,
>
    decreases n,
{
    if n <= 0 {
        Seq::empty()
    } else {
        let before = recommended_list(keys, values, n - 1);
        if is_recommending(keys[n - 1]) && !before.contains(values[n - 1]) {
            before.push(values[n - 1])
        } else {
            before
        }
    }
}

/// The short versions that the promotions recommend, each once, in the order
/// of the keys under which they stand. A promotion that names a branch
/// recommends nothing, nor does one whose key cannot be read.
pub fn recommended_versions(promotions: &ForgeMavenPromotions) -> (r: Vec<String>)
    ensures
        r.deep_view() == recommended_list(
            promotions.promos.keys(),
            promotions.promos.values(),
            promotions.promos.keys().len() as int,
        ),
        forall|x: Seq<char>| r.deep_view().contains(x) <==> recommended_by(promotions@.promos, x),
        r.deep_view().no_duplicates(),
{
    let promos = &promotions.promos;
    promos.known_order();
    let ghost keys = promos.keys();
    let ghost values = promos.values();
    let mut out: Vec<String> = Vec::new();
    let mut i: usize = 0;
    while i < promos.len()
        invariant
            i <= keys.len(),
            keys == promos.keys(),
            values == promos.values(),
            keys.len() == values.len(),
            out.deep_view().no_duplicates(),
            out.deep_view() == recommended_list(keys, values, i as int),
            forall|x: Seq<char>|
                #![trigger out.deep_view().contains(x)]
                #![trigger recommended_among(keys, values, i as int, x)]
                out.deep_view().contains(x) <==> recommended_among(keys, values, i as int, x),
        decreases keys.len() - i,
    {
        let key = promos.key_at(i);
        let value = promos.value_at(i);
        let ghost before = out.deep_view();
        let take = is_recommendation(key.as_str());
        if take && !contains_str(&out, value.as_str()) {
            out.push(value.clone());
            proof {
                assert(out.deep_view() == before.push(value@));
                lemma_push_contains(before, value@);
                lemma_push_no_duplicates(before, value@);
            }
        }
        proof {
            let after = out.deep_view();
            assert forall|x: Seq<char>| after.contains(x) <==> recommended_among(
                keys,
                values,
                i + 1,
                x,
            ) by {
                if recommended_among(keys, values, i as int, x) {
                    let k = choose|k: int|
                        0 <= k < i && is_recommending(#[trigger] keys[k]) && values[k] == x;
                    assert(0 <= k < i + 1 && is_recommending(keys[k]) && values[k] == x);
                }
                if take && x == value@ {
                    assert(is_recommending(keys[i as int]) && values[i as int] == x);
                }
                if recommended_among(keys, values, i + 1, x) {
                    let k = choose|k: int|
                        0 <= k < i + 1 && is_recommending(#[trigger] keys[k]) && values[k] == x;
                    if k < i {
                        assert(recommended_among(keys, values, i as int, x));
                    }
                }
            }
        }
        i += 1;
    }
    proof {
        let m = promotions@.promos;
        assert forall|x: Seq<char>| out.deep_view().contains(x) <==> recommended_by(m, x) by {
            if out.deep_view().contains(x) {
                let k = choose|k: int|
                    0 <= k < i && is_recommending(#[trigger] keys[k]) && values[k] == x;
                assert(keys.contains(keys[k]));
                assert(m[keys[k]] == values[k]);
                assert(m.dom().contains(keys[k]) && is_recommending(keys[k]) && m[keys[k]] == x);
            }
            if recommended_by(m, x) {
                let key = choose|key: Seq<char>| #[trigger]
                    m.dom().contains(key) && is_recommending(key) && m[key] == x;
                assert(keys.contains(key));
                let k = keys.index_of(key);
                assert(keys[k] == key);
                assert(m[keys[k]] == values[k]);
                assert(recommended_among(keys, values, i as int, x));
            }
        }
    }
    out
}

/// The build `pair.1` is listed for the game version `pair.0`.
pub open spec fn listed(versions: Map<Seq<char>, Seq<Seq<char>>>, pair: (Seq<char>, Seq<char>)) -> bool {
    versions.dom().contains(pair.0) && versions[pair.0].contains(pair.1)
}

/// One of the first `n` keys is `pair.0`, and `pair.1` stands in the list
/// under it.
pub open spec fn listed_among(
    keys: Seq<Seq<char>>,
    values: Seq<Seq<Seq<char>>>,
    n: int,
    pair: (Seq<char>, Seq<char>),
) -> bool {
    exists|k: int| 0 <= k < n && #[trigger] keys[k] == pair.0 && values[k].contains(pair.1)
}

/// The builds `builds`, each paired with the game version `mc_version`.
pub open spec fn paired(mc_version: Seq<char>, builds: Seq<Seq<char>>) -> Seq<
    (Seq<char>, Seq<char>),
> {
    Seq::new(builds.len(), |j: int| (mc_version, builds[j]))
}

/// The pairs of the first `n` game versions, in the order of the keys and,
/// under each key, of its list.
pub open spec fn pairs_among(keys: Seq<Seq<char>>, values: Seq<Seq<Seq<char>>>, n: int) -> Seq<
    (Seq<char>, Seq<char>),
>
    decreases n,
{
    if n <= 0 {
        Seq::empty()
    } else {
        pairs_among(keys, values, n - 1) + paired(keys[n - 1], values[n - 1])
    }
}

/// The pairs of game version and long version that a coordinate listing
/// holds, game version by game version.
pub fn version_pairs(metadata: &ForgeMavenMetadata) -> (r: Vec<(String, String)>)
    ensures
        r.deep_view() == pairs_among(
            metadata.versions.keys(),
            metadata.versions.values(),
            metadata.versions.keys().len() as int,
        ),
        forall|pair: (Seq<char>, Seq<char>)|
            r.deep_view().contains(pair) <==> listed(metadata@.versions, pair),
{
    let versions = &metadata.versions;
    versions.known_order();
    let ghost keys = versions.keys();
    let ghost values = versions.values();
    let ghost m = metadata@.versions;
    let mut out: Vec<(String, String)> = Vec::new();
    let mut i: usize = 0;
    while i < versions.len()
        invariant
            i <= keys.len(),
            keys == versions.keys(),
            values == versions.values(),
            keys.len() == values.len(),
            keys.no_duplicates(),
            out.deep_view() == pairs_among(keys, values, i as int),
            forall|pair: (Seq<char>, Seq<char>)|
                #![trigger out.deep_view().contains(pair)]
                #![trigger listed_among(keys, values, i as int, pair)]
                out.deep_view().contains(pair) <==> listed_among(keys, values, i as int, pair),
        decreases keys.len() - i,
    {
        let mc_version = versions.key_at(i);
        let builds = versions.value_at(i);
        let ghost start = out.deep_view();
        let ghost list = builds.deep_view();
        let mut j: usize = 0;
        while j < builds.len()
            invariant
                j <= builds.len(),
                list == builds.deep_view(),
                out.deep_view() == start + paired(mc_version@, list).take(j as int),
                forall|pair: (Seq<char>, Seq<char>)|
                    #![trigger out.deep_view().contains(pair)]
                    out.deep_view().contains(pair) <==> start.contains(pair) || (pair.0
                        == mc_version@ && list.take(j as int).contains(pair.1)),
            decreases builds.len() - j,
        {
            let ghost before = out.deep_view();
            out.push((mc_version.clone(), builds[j].clone()));
            proof {
                let added = (mc_version@, builds@[j as int]@);
                assert(list[j as int] == builds@[j as int]@);
                assert(out.deep_view() == before.push(added));
                lemma_push_contains(before, added);
                lemma_take_contains(list, j as int);
                assert(paired(mc_version@, list).take(j + 1) == paired(mc_version@, list).take(
                    j as int,
                ).push(added));
                assert(start + paired(mc_version@, list).take(j as int).push(added) == (start
                    + paired(mc_version@, list).take(j as int)).push(added));
            }
            j += 1;
        }
        proof {
            assert(list.take(j as int) == list);
            assert(paired(mc_version@, list).take(j as int) == paired(mc_version@, list));
            assert forall|pair: (Seq<char>, Seq<char>)|
                out.deep_view().contains(pair) <==> listed_among(keys, values, i + 1, pair) by {
                if listed_among(keys, values, i as int, pair) {
                    let k = choose|k: int|
                        0 <= k < i && #[trigger] keys[k] == pair.0 && values[k].contains(pair.1);
                    assert(0 <= k < i + 1 && keys[k] == pair.0 && values[k].contains(pair.1));
                }
                if pair.0 == mc_version@ && list.contains(pair.1) {
                    assert(keys[i as int] == pair.0 && values[i as int].contains(pair.1));
                }
                if listed_among(keys, values, i + 1, pair) {
                    let k = choose|k: int|
                        0 <= k < i + 1 && #[trigger] keys[k] == pair.0 && values[k].contains(pair.1);
                    if k < i {
                        assert(listed_among(keys, values, i as int, pair));
                    }
                }
            }
        }
        i += 1;
    }
    proof {
        assert forall|pair: (Seq<char>, Seq<char>)|
            out.deep_view().contains(pair) <==> listed(m, pair) by {
            if out.deep_view().contains(pair) {
                let k = choose|k: int|
                    0 <= k < i && #[trigger] keys[k] == pair.0 && values[k].contains(pair.1);
                assert(keys.contains(keys[k]));
                assert(m[keys[k]] == values[k]);
            }
            if listed(m, pair) {
                assert(keys.contains(pair.0));
                let k = keys.index_of(pair.0);
                assert(keys[k] == pair.0);
                assert(m[keys[k]] == values[k]);
                assert(listed_among(keys, values, i as int, pair));
            }
        }
    }
    out
}

/// Whether `list` holds the pair `(a, b)`.
pub fn contains_pair(list: &Vec<(String, String)>, a: &str, b: &str) -> (r: bool)
    ensures
        r == list.deep_view().contains((a@, b@)),
{
    let mut i: usize = 0;
    while i < list.len()
        invariant
            i <= list.len(),
            forall|k: int| 0 <= k < i ==> list.deep_view()[k] != (a@, b@),
        decreases list.len() - i,
    {
        if str_eq(list[i].0.as_str(), a) && str_eq(list[i].1.as_str(), b) {
            assert(list.deep_view()[i as int] == (a@, b@));
            return true;
        }
        i += 1;
    }
    false
}

/// The pairs among the first `n` of `remote` that `local` does not hold, each
/// once, in the order in which `remote` first names them.
pub open spec fn pending_among(
    remote: Seq<(Seq<char>, Seq<char>)>,
    local: Seq<(Seq<char>, Seq<char>)>,
    n: int,
) -> Seq<(Seq<char>, Seq<char>)>
    decreases n,
{
    if n <= 0 {
        Seq::empty()
    } else {
        let before = pending_among(remote, local, n - 1);
        if !local.contains(remote[n - 1]) && !before.contains(remote[n - 1]) {
            before.push(remote[n - 1])
        } else {
            before
        }
    }
}

/// The pairs that are still to be fetched: those of `remote` that `local` does
/// not hold, each once, in the order in which `remote` first names them.
pub fn pending_pairs(remote: &Vec<(String, String)>, local: &Vec<(String, String)>) -> (r: Vec<
    (String, String),
>)
    ensures
        r.deep_view() == pending_among(
            remote.deep_view(),
            local.deep_view(),
            remote.deep_view().len() as int,
        ),
        forall|pair: (Seq<char>, Seq<char>)|
            r.deep_view().contains(pair) <==> remote.deep_view().contains(pair)
                && !local.deep_view().contains(pair),
        r.deep_view().no_duplicates(),
{
    let mut out: Vec<(String, String)> = Vec::new();
    let mut i: usize = 0;
    let ghost rem = remote.deep_view();
    let ghost loc = local.deep_view();
    while i < remote.len()
        invariant
            i <= remote.len(),
            rem == remote.deep_view(),
            loc == local.deep_view(),
            out.deep_view().no_duplicates(),
            out.deep_view() == pending_among(rem, loc, i as int),
            forall|pair: (Seq<char>, Seq<char>)|
                #![trigger out.deep_view().contains(pair)]
                #![trigger rem.take(i as int).contains(pair)]
                out.deep_view().contains(pair) <==> rem.take(i as int).contains(pair)
                    && !loc.contains(pair),
        decreases remote.len() - i,
    {
        let a = remote[i].0.as_str();
        let b = remote[i].1.as_str();
        let ghost before = out.deep_view();
        let ghost cur = (a@, b@);
        assert(rem[i as int] == cur);
        proof {
            lemma_take_contains(rem, i as int);
        }
        if !contains_pair(local, a, b) && !contains_pair(&out, a, b) {
            out.push((a.to_owned(), b.to_owned()));
            proof {
                assert(out.deep_view() == before.push(cur));
                lemma_push_contains(before, cur);
                lemma_push_no_duplicates(before, cur);
            }
        }
        i += 1;
    }
    assert(rem.take(i as int) == rem);
    out
}

/// The pairs that a cycle fetches. Where a coordinate listing is stored from
/// an earlier cycle, these are the pairs of the remote listing that the stored
/// one does not hold. Without a stored listing they are all pairs of the remote
/// listing, and so they are where `process_all` says that the stored index
/// holds no build at all.
pub fn pending_forge_versions(
    remote: &ForgeMavenMetadata,
    local: Option<&ForgeMavenMetadata>,
    process_all: bool,
) -> (r: Vec<(String, String)>)
    ensures
        forall|pair: (Seq<char>, Seq<char>)|
            r.deep_view().contains(pair) <==> listed(remote@.versions, pair) && !(match local {
                Some(l) => !process_all && listed(l@.versions, pair),
                None => false,
            }),
        r.deep_view().no_duplicates(),
{
    let remote_pairs = version_pairs(remote);
    match local {
        Some(l) => {
            if process_all {
                let none: Vec<(String, String)> = Vec::new();
                assert(none.deep_view() =~= Seq::empty());
                pending_pairs(&remote_pairs, &none)
            } else {
                let local_pairs = version_pairs(l);
                pending_pairs(&remote_pairs, &local_pairs)
            }
        },
        None => {
            let none: Vec<(String, String)> = Vec::new();
            assert(none.deep_view() =~= Seq::empty());
            pending_pairs(&remote_pairs, &none)
        },
    }
}

/// The first `n` builds of `builds` but for those that failed for the game
/// version `mc_version`.
pub open spec fn kept_builds(
    mc_version: Seq<char>,
    builds: Seq<Seq<char>>,
    failed: Seq<(Seq<char>, Seq<char>)>,
    n: int,
) -> Seq<Seq<char>>
    decreases n,
{
    if n <= 0 {
        Seq::empty()
    } else if failed.contains((mc_version, builds[n - 1])) {
        kept_builds(mc_version, builds, failed, n - 1)
    } else {
        kept_builds(mc_version, builds, failed, n - 1).push(builds[n - 1])
    }
}

/// The builds of the game version `mc_version` that did not fail, in their
/// order.
fn keep_builds(mc_version: &str, builds: &Vec<String>, failed: &Vec<(String, String)>) -> (r: Vec<
    String,
>)
    ensures
        r.deep_view() == kept_builds(
            mc_version@,
            builds.deep_view(),
            failed.deep_view(),
            builds.deep_view().len() as int,
        ),
{
    let mut out: Vec<String> = Vec::new();
    let mut i: usize = 0;
    while i < builds.len()
        invariant
            i <= builds.len(),
            out.deep_view() == kept_builds(
                mc_version@,
                builds.deep_view(),
                failed.deep_view(),
                i as int,
            ),
        decreases builds.len() - i,
    {
        let ghost before = out.deep_view();
        assert(builds.deep_view()[i as int] == builds@[i as int]@);
        if !contains_pair(failed, mc_version, builds[i].as_str()) {
            out.push(builds[i].clone());
            assert(out.deep_view() == before.push(builds@[i as int]@));
        }
        i += 1;
    }
    out
}

/// The coordinate listing that is stored after a cycle: the remote listing
/// without the pairs that failed, so that the next cycle finds them pending
/// again.
pub fn stored_listing(remote: &ForgeMavenMetadata, failed: &Vec<(String, String)>) -> (r:
    ForgeMavenMetadata)
    ensures
        r@.versions.dom() == remote@.versions.dom(),
        forall|g: Seq<char>| #[trigger]
            remote@.versions.dom().contains(g) ==> r@.versions[g] == kept_builds(
                g,
                remote@.versions[g],
                failed.deep_view(),
                remote@.versions[g].len() as int,
            ),
{
    let versions = &remote.versions;
    versions.known_order();
    let ghost keys = versions.keys();
    let ghost values = versions.values();
    let ghost fails = failed.deep_view();
    let mut out: StrMap<Vec<String>> = StrMap::new();
    let mut i: usize = 0;
    while i < versions.len()
        invariant
            i <= keys.len(),
            keys == versions.keys(),
            values == versions.values(),
            keys.len() == values.len(),
            keys.no_duplicates(),
            fails == failed.deep_view(),
            forall|g: Seq<char>| #[trigger] out@.dom().contains(g) <==> keys.take(i as int).contains(g),
            forall|k: int|
                0 <= k < i ==> #[trigger] out@[keys[k]] == kept_builds(
                    keys[k],
                    values[k],
                    fails,
                    values[k].len() as int,
                ),
        decreases keys.len() - i,
    {
        let mc_version = versions.key_at(i);
        let builds = versions.value_at(i);
        let kept = keep_builds(mc_version.as_str(), builds, failed);
        proof {
            lemma_take_contains(keys, i as int);
        }
        out.insert(mc_version.clone(), kept);
        proof {
            assert forall|k: int| 0 <= k < i + 1 implies #[trigger] out@[keys[k]] == kept_builds(
                keys[k],
                values[k],
                fails,
                values[k].len() as int,
            ) by {
                if k < i {
                    assert(keys[k] != keys[i as int]);
                }
            }
        }
        i += 1;
    }
    let r = ForgeMavenMetadata { versions: out };
    proof {
        let m = remote@.versions;
        assert(keys.take(i as int) == keys);
        assert(r@.versions.dom() =~= m.dom());
        assert forall|g: Seq<char>| #[trigger] m.dom().contains(g) implies r@.versions[g]
            == kept_builds(g, m[g], fails, m[g].len() as int) by {
            assert(keys.contains(g));
            let k = keys.index_of(g);
            assert(keys[k] == g);
            assert(m[keys[k]] == values[k]);
            assert(out@[keys[k]] == kept_builds(keys[k], values[k], fails, values[k].len() as int));
        }
    }
    r
}

/// What is kept are the builds that did not fail, nothing else.
pub proof fn lemma_kept_builds(
    mc_version: Seq<char>,
    builds: Seq<Seq<char>>,
    failed: Seq<(Seq<char>, Seq<char>)>,
    n: int,
)
    requires
        0 <= n <= builds.len(),
    ensures
        forall|l: Seq<char>|
            #![trigger kept_builds(mc_version, builds, failed, n).contains(l)]
            kept_builds(mc_version, builds, failed, n).contains(l) <==> builds.take(n).contains(l)
                && !failed.contains((mc_version, l)),
    decreases n,
{
    if n > 0 {
        lemma_kept_builds(mc_version, builds, failed, n - 1);
        lemma_take_contains(builds, n - 1);
        if !failed.contains((mc_version, builds[n - 1])) {
            lemma_push_contains(kept_builds(mc_version, builds, failed, n - 1), builds[n - 1]);
        }
    } else {
        assert(builds.take(0) =~= Seq::empty());
    }
}

} // verus!
