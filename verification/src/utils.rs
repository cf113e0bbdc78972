//! Digests of artifacts as text, the decision to skip work on an artifact
//! that has not changed, and the context of a place in a JSON text.

use vstd::prelude::*;
use crate::outside::{sha1_digest, sha1_of, sha256_digest, sha256_of};
use crate::text::{chars_of, str_eq, string_of};

verus! {

/// The digest algorithms that artifacts are hashed with.
#[derive(Debug, Clone, Copy, PartialEq, Eq, Structural)]
pub enum HashAlgo {
    Sha1,
    Sha256,
}

/// The upper-case hexadecimal digit of a value below sixteen.
pub open spec fn hex_digit(n: int) -> char {
    if n < 10 {
        (n + '0' as int) as char
    } else {
        (n - 10 + 'A' as int) as char
    }
}

/// The bytes written in upper-case hexadecimal, two digits for each byte.
pub open spec fn hex_upper_of(bytes: Seq<u8>) -> Seq<char>
    decreases bytes.len(),
{
    if bytes.len() == 0 {
        Seq::empty()
    } else {
        hex_upper_of(bytes.drop_last()).push(hex_digit(bytes.last() as int / 16)).push(
            hex_digit(bytes.last() as int % 16),
        )
    }
}

/// The digest of `data` under `algo`.
pub open spec fn digest_of(algo: HashAlgo, data: Seq<u8>) -> Seq<u8> {
    match algo {
        HashAlgo::Sha1 => sha1_of(data),
        HashAlgo::Sha256 => sha256_of(data),
    }
}

/// The digest of `data` under `algo`, as text.
pub open spec fn hash_of(algo: HashAlgo, data: Seq<u8>) -> Seq<char> {
    hex_upper_of(digest_of(algo, data))
}

/// The character that writes the hexadecimal digit `n`.
fn hex_char(n: u8) -> (c: char)
    requires
        n < 16,
    ensures
        c == hex_digit(n as int),
{
    if n == 0 {
        '0'
    } else if n == 1 {
        '1'
    } else if n == 2 {
        '2'
    } else if n == 3 {
        '3'
    } else if n == 4 {
        '4'
    } else if n == 5 {
        '5'
    } else if n == 6 {
        '6'
    } else if n == 7 {
        '7'
    } else if n == 8 {
        '8'
    } else if n == 9 {
        '9'
    } else if n == 10 {
        'A'
    } else if n == 11 {
        'B'
    } else if n == 12 {
        'C'
    } else if n == 13 {
        'D'
    } else if n == 14 {
        'E'
    } else {
        'F'
    }
}

/// Writes `bytes` in upper-case hexadecimal.
pub fn hex_upper(bytes: &Vec<u8>) -> (s: String)
    ensures
        s@ == hex_upper_of(bytes@),
{
    let mut s = String::new();
    let mut i: usize = 0;
    while i < bytes.len()
        invariant
            i <= bytes.len(),
            s@ == hex_upper_of(bytes@.take(i as int)),
        decreases bytes.len() - i,
    {
        let b = bytes[i];
        assert(bytes@.take(i + 1).drop_last() == bytes@.take(i as int));
        assert(bytes@.take(i + 1).last() == b);
        s.push(hex_char(b / 16));
        s.push(hex_char(b % 16));
        i += 1;
    }
    assert(bytes@.take(i as int) == bytes@);
    s
}

/// The digest of `data` under `algo`, in upper-case hexadecimal.
pub fn hash(data: &[u8], algo: HashAlgo) -> (s: String)
    ensures
        s@ == hash_of(algo, data@),
{
    let digest = match algo {
        HashAlgo::Sha1 => sha1_digest(data),
        HashAlgo::Sha256 => sha256_digest(data),
    };
    hex_upper(&digest)
}

/// Regeneration is due where no digest is stored from an earlier run, or the
/// stored one differs from the digest of what is there now.
pub open spec fn regeneration_due(digest: Seq<char>, stored: Option<Seq<char>>) -> bool {
    match stored {
        None => true,
        Some(s) => s != digest,
    }
}

/// Whether the documents derived from an artifact have to be made again:
/// `digest` is that of the artifact as it is now, `stored` the one kept from
/// the last run that went through, if there was one.
pub fn should_regenerate(digest: &str, stored: Option<&str>) -> (r: bool)
    ensures
        r == regeneration_due(digest@, stored.deep_view()),
{
    match stored {
        None => true,
        Some(s) => !str_eq(s, digest),
    }
}

/// A first run regenerates, and a run on the same bytes as the run before it
/// does not: of two runs on the same artifact, only the first does the work.
pub proof fn lemma_same_input_regenerates_once(algo: HashAlgo, data: Seq<u8>)
    ensures
        regeneration_due(hash_of(algo, data), None),
        !regeneration_due(hash_of(algo, data), Some(hash_of(algo, data))),
{
}

/// The bracket that closes or opens with `c`; any other character stands for
/// itself.
pub open spec fn matching_brace(c: char) -> char {
    if c == '[' {
        ']'
    } else if c == ']' {
        '['
    } else if c == '{' {
        '}'
    } else if c == '}' {
        '{'
    } else {
        c
    }
}

/// The bracket that closes or opens with `c`.
pub fn json_matching_brace(c: char) -> (r: char)
    ensures
        r == matching_brace(c),
{
    if c == '[' {
        ']'
    } else if c == ']' {
        '['
    } else if c == '{' {
        '}'
    } else if c == '}' {
        '{'
    } else {
        c
    }
}

/// The place of the newline before which `k` newlines stand, counted from
/// `from`; 0 where the text has no such newline.
pub open spec fn newline_place(body: Seq<char>, from: int, k: int) -> int
    decreases body.len() - from,
{
    if from < 0 || from >= body.len() {
        0
    } else if body[from] == '\n' {
        if k <= 0 {
            from
        } else {
            newline_place(body, from + 1, k - 1)
        }
    } else {
        newline_place(body, from + 1, k)
    }
}

/// Where the context of the line `line` starts: at the newline before which
/// `line - 1` newlines stand, and at the start of the text where there is none.
pub open spec fn line_start(body: Seq<char>, line: int) -> int {
    newline_place(body, 0, line - 1)
}

/// Where the context of the line `line` starts.
pub fn find_line_start(body: &Vec<char>, line: usize) -> (r: usize)
    requires
        line >= 1,
    ensures
        r == line_start(body@, line as int),
        r <= body.len(),
{
    let mut k: usize = line - 1;
    let mut i: usize = 0;
    while i < body.len()
        invariant
            i <= body.len(),
            line_start(body@, line as int) == newline_place(body@, i as int, k as int),
        decreases body.len() - i,
    {
        if body[i] == '\n' {
            if k == 0 {
                return i;
            }
            k -= 1;
        }
        i += 1;
    }
    0
}

/// What a look through a text has seen so far.
pub struct Scan {
    /// The quotes and brackets that are open.
    pub open: Seq<char>,
    /// The look is inside a string.
    pub in_str: bool,
    /// The next character is escaped (forward), or a string was open at the
    /// character before (backward).
    pub flag: bool,
    /// Something has opened.
    pub found_open: bool,
    /// Something has closed.
    pub found_close: bool,
    /// The character seen last.
    pub last: char,
}

/// The top of what is open is `c`.
pub open spec fn top_is(open: Seq<char>, c: char) -> bool {
    open.len() > 0 && open.last() == c
}

/// A quote.
pub open spec fn quote(c: char) -> bool {
    c == '"' || c == '\''
}

/// One step of the look forward, over the character `c`. A backslash inside a
/// string escapes the next character and is itself passed over. A quote closes
/// the string that it opened, unless it is escaped; else it opens a string.
/// Brackets outside a string open, and close what they match. A comma outside
/// a string closes too.
pub open spec fn forward_step(s: Scan, c: char) -> Scan {
    if c == '\\' && s.in_str && !s.flag {
        Scan { flag: true, ..s }
    } else {
        let s1 = if quote(c) {
            if s.in_str && !s.flag && top_is(s.open, c) {
                Scan { in_str: false, found_close: true, open: s.open.drop_last(), ..s }
            } else {
                Scan { in_str: true, open: s.open.push(c), ..s }
            }
        } else {
            s
        };
        let s2 = if (c == '[' || c == '{') && !s1.in_str {
            Scan { open: s1.open.push(c), ..s1 }
        } else {
            s1
        };
        let s3 = if (c == ']' || c == '}') && !s2.in_str && top_is(s2.open, matching_brace(c)) {
            Scan { open: s2.open.drop_last(), found_close: true, ..s2 }
        } else {
            s2
        };
        let s4 = if c == ',' && !s3.in_str {
            Scan { found_close: true, ..s3 }
        } else {
            s3
        };
        Scan { flag: false, ..s4 }
    }
}

/// The look forward stops after the character `c`: it was not passed over as
/// an escaping backslash, something has closed, and nothing is open.
pub open spec fn forward_stops(s: Scan, c: char) -> bool {
    !(c == '\\' && s.in_str && !s.flag) && forward_step(s, c).found_close && forward_step(
        s,
        c,
    ).open.len() == 0
}

/// The place at which the look forward from `i` stops, or 0 where it runs to
/// the end.
pub open spec fn forward_end(ctx: Seq<char>, i: int, s: Scan) -> int
    decreases ctx.len() - i,
{
    if i < 0 || i >= ctx.len() {
        0
    } else if forward_stops(s, ctx[i]) {
        i
    } else {
        forward_end(ctx, i + 1, forward_step(s, ctx[i]))
    }
}

/// A look that has seen nothing.
pub open spec fn fresh_scan(last: char) -> Scan {
    Scan {
        open: Seq::empty(),
        in_str: false,
        flag: false,
        found_open: false,
        found_close: false,
        last,
    }
}

/// A text cut to `max_len` characters, with ` ...` after it, where `max_len` is
/// not 0 and the text is longer.
pub open spec fn cut_after(ctx: Seq<char>, max_len: int) -> Seq<char> {
    if max_len > 0 && ctx.len() > max_len {
        ctx.take(max_len) + " ..."@
    } else {
        ctx
    }
}

/// The context after the place of an error: the text from the column `column`
/// of the line `line` on, up to the end of the first complete value or the
/// first comma outside of one, then cut to `max_len` characters.
pub open spec fn context_after(body: Seq<char>, line: int, column: int, max_len: int) -> Seq<char> {
    let ctx = body.skip(line_start(body, line) + column);
    let end = forward_end(ctx, 0, fresh_scan('\0'));
    cut_after(
        if end > 0 {
            ctx.take(end + 1)
        } else {
            ctx
        },
        max_len,
    )
}

/// The place of an error lies in the text: the line counts from 1, and the
/// column is a place of what follows the start of the line.
pub open spec fn place_in(body: Seq<char>, line: int, column: int) -> bool {
    line >= 1 && 0 <= column && line_start(body, line) + column < body.len()
}

/// Whether the place of an error lies in the text.
pub fn place_is_in(body: &str, line: usize, column: usize) -> (r: bool)
    ensures
        r == place_in(body@, line as int, column as int),
{
    if line < 1 {
        return false;
    }
    let v = chars_of(body);
    let start = find_line_start(&v, line);
    column < v.len() - start
}

/// The state of a look, as the program holds it.
struct Looker {
    open: Vec<char>,
    in_str: bool,
    flag: bool,
    found_open: bool,
    found_close: bool,
    last: char,
}

impl Looker {
    spec fn scan(&self) -> Scan {
        Scan {
            open: self.open@,
            in_str: self.in_str,
            flag: self.flag,
            found_open: self.found_open,
            found_close: self.found_close,
            last: self.last,
        }
    }

    fn top_is(&self, c: char) -> (r: bool)
        ensures
            r == top_is(self.open@, c),
    {
        self.open.len() > 0 && self.open[self.open.len() - 1] == c
    }
}

/// Attempts to read a complete JSON value at the place of an error, to give
/// context to the error. The place is the character `column` of what starts at
/// the newline before the line `line`. `max_len`, where it is not 0, limits
/// the length of the context, not counting the mark that it was cut.
pub fn get_json_context(line: usize, column: usize, body: &str, max_len: usize) -> (r: String)
    requires
        place_in(body@, line as int, column as int),
    ensures
        r@ == context_after(body@, line as int, column as int, max_len as int),
{
    let v = chars_of(body);
    let n = v.len();
    let start = find_line_start(&v, line) + column;
    let ghost ctx = v@.skip(start as int);
    let mut st = Looker {
        open: Vec::new(),
        in_str: false,
        flag: false,
        found_open: false,
        found_close: false,
        last: '\0',
    };
    let mut end: usize = 0;
    let mut i: usize = start;
    while i < n
        invariant_except_break
            end == 0,
            forward_end(ctx, 0, fresh_scan('\0')) == forward_end(ctx, i - start, st.scan()),
        invariant
            start <= i <= n,
            n == v.len(),
            ctx == v@.skip(start as int),
        ensures
            start <= i <= n,
            end == forward_end(ctx, 0, fresh_scan('\0')),
            end <= n - start,
            end > 0 ==> end < n - start,
        decreases n - i,
    {
        let c = v[i];
        assert(ctx[i - start] == c);
        if c == '\\' && st.in_str && !st.flag {
            st.flag = true;
            i += 1;
            continue;
        }
        if c == '"' || c == '\'' {
            if st.in_str && !st.flag && st.top_is(c) {
                st.in_str = false;
                st.found_close = true;
                st.open.pop();
            } else {
                st.in_str = true;
                st.open.push(c);
            }
        }
        if (c == '[' || c == '{') && !st.in_str {
            st.open.push(c);
        }
        if (c == ']' || c == '}') && !st.in_str && st.top_is(json_matching_brace(c)) {
            st.open.pop();
            st.found_close = true;
        }
        if c == ',' && !st.in_str {
            st.found_close = true;
        }
        st.flag = false;
        if st.found_close && st.open.len() == 0 {
            end = i - start;
            break;
        }
        i += 1;
    }
    let stop = if end > 0 {
        start + end + 1
    } else {
        n
    };
    proof {
        if end > 0 {
            assert(ctx.take(end + 1) == v@.subrange(start as int, stop as int));
        } else {
            assert(ctx == v@.subrange(start as int, n as int));
        }
    }
    if max_len > 0 && stop - start > max_len {
        let mut r = string_of(&v, start, start + max_len);
        r.append(" ...");
        assert(v@.subrange(start as int, stop as int).take(max_len as int) == v@.subrange(
            start as int,
            start + max_len,
        ));
        r
    } else {
        string_of(&v, start, stop)
    }
}

/// One step of the look backward, over the character `c`. A backslash right
/// before an open string takes the quote back in. A quote opens a string, and
/// closes the one that it opened. Brackets outside a string close, and open
/// what they match. A comma outside a string opens once something has closed.
pub open spec fn backward_step(s: Scan, c: char) -> Scan {
    if c == '\\' && !s.in_str && s.flag {
        Scan { open: s.open.push(s.last), found_open: false, ..s }
    } else {
        let s1 = if quote(c) {
            if s.in_str && top_is(s.open, c) {
                Scan { in_str: false, found_open: true, open: s.open.drop_last(), ..s }
            } else {
                Scan { in_str: true, found_close: true, open: s.open.push(c), ..s }
            }
        } else {
            s
        };
        let s2 = if (c == ']' || c == '}') && !s1.in_str {
            Scan { open: s1.open.push(c), found_close: true, ..s1 }
        } else {
            s1
        };
        let s3 = if (c == '[' || c == '{') && !s2.in_str && top_is(s2.open, matching_brace(c)) {
            Scan { open: s2.open.drop_last(), found_open: true, ..s2 }
        } else {
            s2
        };
        let s4 = if c == ',' && !s3.in_str && s3.found_close {
            Scan { found_open: true, ..s3 }
        } else {
            s3
        };
        Scan { flag: s4.in_str, last: c, ..s4 }
    }
}

/// The look backward stops before the character `c`: it was not taken for an
/// escaping backslash, something has opened, and nothing is open.
pub open spec fn backward_stops(s: Scan, c: char) -> bool {
    !(c == '\\' && !s.in_str && s.flag) && backward_step(s, c).found_open && backward_step(
        s,
        c,
    ).open.len() == 0
}

/// The place at which the look backward over the first `i` characters stops,
/// or 0 where it runs to the start.
pub open spec fn backward_end(ctx: Seq<char>, i: int, s: Scan) -> int
    decreases i,
{
    if i <= 0 || i > ctx.len() {
        0
    } else if backward_stops(s, ctx[i - 1]) {
        i - 1
    } else {
        backward_end(ctx, i - 1, backward_step(s, ctx[i - 1]))
    }
}

/// A text without its last `max_len + 1` characters, with `... ` before it,
/// where `max_len` is not 0 and the text is longer.
pub open spec fn cut_before(ctx: Seq<char>, max_len: int) -> Seq<char> {
    if max_len > 0 && ctx.len() > max_len {
        "... "@ + ctx.take(ctx.len() - 1 - max_len)
    } else {
        ctx
    }
}

/// The last character of a text, and the null character for an empty one.
pub open spec fn last_or_null(ctx: Seq<char>) -> char {
    if ctx.len() > 0 {
        ctx.last()
    } else {
        '\0'
    }
}

/// The context before the place of an error: the text up to the column
/// `column` of the line `line`, from the start of the last complete value or
/// from the last comma outside of one, then cut by `max_len`.
pub open spec fn context_before(body: Seq<char>, line: int, column: int, max_len: int) -> Seq<char> {
    let ctx = body.take(line_start(body, line) + column);
    let end = backward_end(ctx, ctx.len() as int, fresh_scan(last_or_null(ctx)));
    cut_before(
        if end > 0 {
            ctx.skip(end)
        } else {
            ctx
        },
        max_len,
    )
}

/// Attempts to read a complete JSON value just before the place of an error,
/// to give context to the error. The place is the character `column` of what
/// starts at the newline before the line `line`. `max_len`, where it is not 0,
/// says beyond which length the context is cut.
pub fn get_json_context_back(line: usize, column: usize, body: &str, max_len: usize) -> (r: String)
    requires
        place_in(body@, line as int, column as int),
    ensures
        r@ == context_before(body@, line as int, column as int, max_len as int),
{
    let v = chars_of(body);
    let stop = find_line_start(&v, line) + column;
    let ghost ctx = v@.take(stop as int);
    let mut st = Looker {
        open: Vec::new(),
        in_str: false,
        flag: false,
        found_open: false,
        found_close: false,
        last: if stop > 0 {
            v[stop - 1]
        } else {
            '\0'
        },
    };
    let ghost first = st.scan();
    assert(first == fresh_scan(last_or_null(ctx)));
    let mut end: usize = 0;
    let mut i: usize = stop;
    while i > 0
        invariant_except_break
            end == 0,
            backward_end(ctx, ctx.len() as int, first) == backward_end(ctx, i as int, st.scan()),
        invariant
            i <= stop <= v.len(),
            ctx == v@.take(stop as int),
        ensures
            end == backward_end(ctx, ctx.len() as int, first),
            end <= stop,
        decreases i,
    {
        let c = v[i - 1];
        assert(ctx[i - 1] == c);
        if c == '\\' && !st.in_str && st.flag {
            st.open.push(st.last);
            st.found_open = false;
            i -= 1;
            continue;
        }
        if c == '"' || c == '\'' {
            if st.in_str && st.top_is(c) {
                st.in_str = false;
                st.found_open = true;
                st.open.pop();
            } else {
                st.in_str = true;
                st.found_close = true;
                st.open.push(c);
            }
        }
        if (c == ']' || c == '}') && !st.in_str {
            st.open.push(c);
            st.found_close = true;
        }
        if (c == '[' || c == '{') && !st.in_str && st.top_is(json_matching_brace(c)) {
            st.open.pop();
            st.found_open = true;
        }
        if c == ',' && !st.in_str && st.found_close {
            st.found_open = true;
        }
        st.flag = st.in_str;
        st.last = c;
        if st.found_open && st.open.len() == 0 {
            end = i - 1;
            break;
        }
        i -= 1;
    }
    let start = end;
    proof {
        if end > 0 {
            assert(ctx.skip(end as int) == v@.subrange(start as int, stop as int));
        } else {
            assert(ctx == v@.subrange(0, stop as int));
        }
    }
    let len = stop - start;
    if max_len > 0 && len > max_len {
        let mut r = "... ".to_owned();
        r.append(string_of(&v, start, start + (len - 1 - max_len)).as_str());
        assert(v@.subrange(start as int, stop as int).take(len - 1 - max_len) == v@.subrange(
            start as int,
            start + (len - 1 - max_len),
        ));
        r
    } else {
        string_of(&v, start, stop)
    }
}

} // verus!
