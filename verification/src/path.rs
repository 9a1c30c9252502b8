//! File system paths as byte strings, with `/` between their parts.
//!
//! A path is what the file system calls it: bytes that are mostly, but not
//! always, UTF-8. Two spellings name the same path when they have the same
//! parts, so `a//b/.` and `a/b` are one path.

use crate::text::{bytes_eq, has_prefix};
use vstd::prelude::*;
use vstd::slice::{slice_subrange, slice_to_vec};
use vstd::string::*;
use vstd::utf8::*;

verus! {

/// The byte between two parts.
pub const SLASH: u8 = 0x2f;

/// The byte that stands between two parts on Windows.
pub const BACKSLASH: u8 = 0x5c;

/// The byte before an extension.
pub const DOT: u8 = 0x2e;

/// The part that stands for the directory itself.
pub open spec fn current_part() -> Seq<u8> {
    seq![DOT]
}

/// The part that stands for the directory above.
pub open spec fn parent_part() -> Seq<u8> {
    seq![DOT, DOT]
}

/// The part that an absolute path begins with.
pub open spec fn root_part() -> Seq<u8> {
    seq![SLASH]
}

/// Where the last segment of `body` begins: behind its last slash.
pub open spec fn last_start(body: Seq<u8>) -> nat
    decreases body.len(),
{
    if body.len() == 0 {
        0
    } else if body.last() == SLASH {
        body.len()
    } else {
        last_start(body.drop_last())
    }
}

/// `body` without its last segment and the slash before it.
pub open spec fn without_last(body: Seq<u8>) -> Seq<u8> {
    let start = last_start(body);
    body.take(if start > 0 {
        start - 1
    } else {
        0
    })
}

/// The last segment of `body`.
pub open spec fn last_segment(body: Seq<u8>) -> Seq<u8> {
    body.skip(last_start(body) as int)
}

/// Whether a segment inside a path says nothing: `a//b` and `a/./b` are `a/b`.
pub open spec fn is_idle(segment: Seq<u8>) -> bool {
    segment.len() == 0 || segment == current_part()
}

/// What the start of the last segment is: nothing behind it is a slash, and
/// what stands before it, if anything does, is one.
pub proof fn lemma_last_start(body: Seq<u8>)
    ensures
        last_start(body) <= body.len(),
        last_start(body) > 0 ==> body[last_start(body) - 1] == SLASH,
        forall|i: int| last_start(body) <= i < body.len() ==> body[i] != SLASH,
    decreases body.len(),
{
    if body.len() > 0 && body.last() != SLASH {
        let rest = body.drop_last();
        lemma_last_start(rest);
        assert forall|i: int| last_start(body) <= i < body.len() implies body[i] != SLASH by {
            if i < rest.len() {
                assert(rest[i] == body[i]);
            }
        }
    }
}

/// The parts of `body`, which is a path behind its head.
pub open spec fn body_parts(body: Seq<u8>) -> Seq<Seq<u8>>
    decreases body.len(),
{
    if body.len() == 0 {
        Seq::empty()
    } else {
        proof {
            lemma_last_start(body);
        }
        let before = if last_start(body) > 0 {
            body_parts(without_last(body))
        } else {
            Seq::empty()
        };
        if is_idle(last_segment(body)) {
            before
        } else {
            before.push(last_segment(body))
        }
    }
}

/// The length of a path's head: the slash of an absolute path, or a leading
/// `.` that is a whole segment.
pub open spec fn head_len(path: Seq<u8>) -> nat {
    if path.len() > 0 && path[0] == SLASH {
        1
    } else if path.len() > 0 && path[0] == DOT && (path.len() == 1 || path[1] == SLASH) {
        1
    } else {
        0
    }
}

/// The path behind its head.
pub open spec fn body_of(path: Seq<u8>) -> Seq<u8> {
    path.skip(head_len(path) as int)
}

/// The parts of a path, in order.
pub open spec fn parts(path: Seq<u8>) -> Seq<Seq<u8>> {
    if head_len(path) > 0 {
        seq![path.take(1)] + body_parts(body_of(path))
    } else {
        body_parts(body_of(path))
    }
}

/// Whether two spellings name the same path.
pub open spec fn same_path(a: Seq<u8>, b: Seq<u8>) -> bool {
    parts(a) == parts(b)
}

/// Whether `path` is `base` or lies below it.
pub open spec fn is_under(path: Seq<u8>, base: Seq<u8>) -> bool {
    has_prefix(parts(path), parts(base))
}

/// The name of the file: the last part, unless that is no name.
pub open spec fn name_bytes(path: Seq<u8>) -> Option<Seq<u8>> {
    let all = parts(path);
    if all.len() == 0 || all.last() == root_part() || all.last() == current_part() || all.last()
        == parent_part() {
        None
    } else {
        Some(all.last())
    }
}

/// Bytes read as UTF-8, if they are.
pub open spec fn utf8_chars(bytes: Seq<u8>) -> Option<Seq<char>> {
    if valid_utf8(bytes) {
        Some(decode_utf8(bytes))
    } else {
        None
    }
}

/// A path as the system spells it: on Windows, with backslashes between its
/// parts.
pub open spec fn system_spelling(path: Seq<u8>, windows: bool) -> Seq<u8> {
    if windows {
        path.map_values(
            |b: u8|
                if b == SLASH {
                    BACKSLASH
                } else {
                    b
                },
        )
    } else {
        path
    }
}

/// The text of a path as the system spells it, if that is UTF-8.
pub open spec fn system_chars(path: Seq<u8>, windows: bool) -> Option<Seq<char>> {
    utf8_chars(system_spelling(path, windows))
}

/// Where the last dot of `name` stands.
pub open spec fn last_dot(name: Seq<u8>) -> int
    decreases name.len(),
{
    if name.len() == 0 {
        -1
    } else if name.last() == DOT {
        name.len() - 1
    } else {
        last_dot(name.drop_last())
    }
}

/// What the place of the last dot is: inside the name, and the last such place,
/// or -1 where there is none.
pub proof fn lemma_last_dot(name: Seq<u8>)
    ensures
        -1 <= last_dot(name) < name.len(),
        last_dot(name) >= 0 ==> name[last_dot(name)] == DOT,
        forall|i: int| last_dot(name) < i < name.len() ==> name[i] != DOT,
    decreases name.len(),
{
    if name.len() > 0 && name.last() != DOT {
        let rest = name.drop_last();
        lemma_last_dot(rest);
        assert forall|i: int| last_dot(name) < i < name.len() implies name[i] != DOT by {
            if i < rest.len() {
                assert(rest[i] == name[i]);
            }
        }
    }
}

/// What stands behind the last dot of the file's name. A name that only
/// begins with a dot has no extension.
pub open spec fn extension_bytes(path: Seq<u8>) -> Option<Seq<u8>> {
    match name_bytes(path) {
        Some(name) => if last_dot(name) > 0 {
            Some(name.skip(last_dot(name) + 1))
        } else {
            None
        },
        None => None,
    }
}

/// `body` without the idle segments at its end.
pub open spec fn trimmed_body(body: Seq<u8>) -> Seq<u8>
    decreases body.len(),
{
    if body.len() == 0 {
        body
    } else {
        proof {
            lemma_last_start(body);
        }
        if is_idle(last_segment(body)) {
            if last_start(body) > 0 {
                trimmed_body(without_last(body))
            } else {
                Seq::empty()
            }
        } else {
            body
        }
    }
}

/// The path without its last part, as it is spelled.
pub open spec fn parent_bytes(path: Seq<u8>) -> Option<Seq<u8>> {
    let head = path.take(head_len(path) as int);
    let body = trimmed_body(body_of(path));
    if body.len() > 0 {
        Some(head + trimmed_body(without_last(body)))
    } else if head == current_part() {
        Some(Seq::empty())
    } else {
        None
    }
}

/// `path` continued by `rest`. An absolute `rest` stands alone.
pub open spec fn joined_path(path: Seq<u8>, rest: Seq<u8>) -> Seq<u8> {
    if rest.len() > 0 && rest[0] == SLASH {
        rest
    } else if path.len() == 0 || path.last() == SLASH {
        path + rest
    } else {
        path.push(SLASH) + rest
    }
}

/// The text that stands for bytes that are not UTF-8: what
/// `String::from_utf8_lossy` makes of them.
pub uninterp spec fn lossy_text(bytes: Seq<u8>) -> Seq<char>;

/// The text of a path. Bytes that are not UTF-8 are replaced.
pub open spec fn path_text(path: Seq<u8>) -> Seq<char> {
    if valid_utf8(path) {
        decode_utf8(path)
    } else {
        lossy_text(path)
    }
}

/// `String::from_utf8`: the text that `bytes` encode, or `None` where they are
/// not UTF-8.
#[verifier::external_body]
fn utf8_text(bytes: &[u8]) -> (text: Option<String>)
    ensures
        match text {
            Some(t) => encode_utf8(t@) == bytes@,
            None => !valid_utf8(bytes@),
        },
{
    String::from_utf8(bytes.to_vec()).ok()
}

/// `String::from_utf8_lossy`: text for any bytes, which is only named.
#[verifier::external_body]
fn utf8_text_lossy(bytes: &[u8]) -> (text: String)
    ensures
        text@ == lossy_text(bytes@),
{
    String::from_utf8_lossy(bytes).into_owned()
}

/// The name of the file as text, if it is UTF-8.
pub open spec fn name_chars(path: Seq<u8>) -> Option<Seq<char>> {
    match name_bytes(path) {
        Some(name) => utf8_chars(name),
        None => None,
    }
}

/// The extension of the file's name as text, if it is UTF-8.
pub open spec fn extension_chars(path: Seq<u8>) -> Option<Seq<char>> {
    match extension_bytes(path) {
        Some(extension) => utf8_chars(extension),
        None => None,
    }
}

fn decode(bytes: &[u8]) -> (text: Option<String>)
    ensures
        match text {
            Some(t) => utf8_chars(bytes@) == Some(t@),
            None => utf8_chars(bytes@) is None,
        },
{
    let text = utf8_text(bytes);
    proof {
        if text is Some {
            encode_utf8_valid_utf8(text->0@);
            encode_utf8_decode_utf8(text->0@);
        }
    }
    text
}

/// A file system path.
#[derive(Debug)]
pub struct FilePath {
    bytes: Vec<u8>,
}

impl View for FilePath {
    type V = Seq<u8>;

    closed spec fn view(&self) -> Seq<u8> {
        self.bytes@
    }
}

impl DeepView for FilePath {
    type V = Seq<u8>;

    open spec fn deep_view(&self) -> Seq<u8> {
        self@
    }
}

impl Clone for FilePath {
    fn clone(&self) -> (copy: Self)
        ensures
            copy@ == self@,
    {
        FilePath { bytes: slice_to_vec(self.bytes.as_slice()) }
    }
}

fn find_last_start(body: &[u8]) -> (start: usize)
    ensures
        start == last_start(body@),
{
    let mut end: usize = body.len();
    assert(body@.take(end as int) =~= body@);
    while end > 0 && body[end - 1] != SLASH
        invariant
            end <= body@.len(),
            last_start(body@.take(end as int)) == last_start(body@),
        decreases end,
    {
        assert(body@.take(end as int).drop_last() =~= body@.take(end - 1));
        end -= 1;
    }
    end
}

fn find_last_dot(name: &[u8]) -> (at: Option<usize>)
    ensures
        match at {
            Some(i) => last_dot(name@) == i && i < name@.len(),
            None => last_dot(name@) == -1,
        },
{
    let mut end: usize = name.len();
    assert(name@.take(end as int) =~= name@);
    while end > 0
        invariant
            end <= name@.len(),
            last_dot(name@.take(end as int)) == last_dot(name@),
        decreases end,
    {
        if name[end - 1] == DOT {
            return Some(end - 1);
        }
        assert(name@.take(end as int).drop_last() =~= name@.take(end - 1));
        end -= 1;
    }
    None
}

fn segment_is_idle(segment: &[u8]) -> (idle: bool)
    ensures
        idle == is_idle(segment@),
{
    let idle = segment.len() == 0 || (segment.len() == 1 && segment[0] == DOT);
    assert(idle == is_idle(segment@)) by {
        if segment@.len() == 1 && segment@[0] == DOT {
            assert(segment@ =~= current_part());
        }
    }
    idle
}

fn cut_last(body: &[u8]) -> (rest: &[u8])
    ensures
        rest@ == without_last(body@),
{
    let start = find_last_start(body);
    proof {
        lemma_last_start(body@);
    }
    slice_subrange(
        body,
        0,
        if start > 0 {
            start - 1
        } else {
            0
        },
    )
}

fn trim_body(body: &[u8]) -> (rest: &[u8])
    ensures
        rest@ == trimmed_body(body@),
    decreases body@.len(),
{
    if body.len() == 0 {
        return body;
    }
    let start = find_last_start(body);
    proof {
        lemma_last_start(body@);
    }
    if segment_is_idle(slice_subrange(body, start, body.len())) {
        if start > 0 {
            trim_body(cut_last(body))
        } else {
            slice_subrange(body, 0, 0)
        }
    } else {
        body
    }
}

fn collect_parts(body: &[u8], found: &mut Vec<Vec<u8>>)
    ensures
        final(found).deep_view() == old(found).deep_view() + body_parts(body@),
    decreases body@.len(),
{
    if body.len() == 0 {
        assert(found.deep_view() =~= old(found).deep_view() + body_parts(body@));
        return;
    }
    let start = find_last_start(body);
    proof {
        lemma_last_start(body@);
    }
    if start > 0 {
        collect_parts(cut_last(body), found);
    }
    let segment = slice_subrange(body, start, body.len());
    let ghost before = found.deep_view();
    if !segment_is_idle(segment) {
        found.push(slice_to_vec(segment));
        assert(found@.last().deep_view() =~= segment@);
        assert(found.deep_view() =~= before.push(segment@));
    }
    assert(found.deep_view() =~= old(found).deep_view() + body_parts(body@));
}

fn is_prefix(short: &Vec<Vec<u8>>, long: &Vec<Vec<u8>>) -> (found: bool)
    ensures
        found == has_prefix(long.deep_view(), short.deep_view()),
{
    if short.len() > long.len() {
        return false;
    }
    let ghost l = long.deep_view();
    let ghost s = short.deep_view();
    for i in 0..short.len()
        invariant
            l == long.deep_view(),
            s == short.deep_view(),
            short@.len() <= long@.len(),
            forall|j: int| 0 <= j < i ==> l[j] == s[j],
    {
        assert(short@[i as int].deep_view() =~= short@[i as int]@);
        assert(long@[i as int].deep_view() =~= long@[i as int]@);
        if !bytes_eq(short[i].as_slice(), long[i].as_slice()) {
            assert(l.take(s.len() as int)[i as int] == l[i as int]);
            return false;
        }
    }
    assert(l.take(s.len() as int) =~= s);
    true
}

impl FilePath {
    /// The path that `text` spells.
    pub fn new(text: &str) -> (path: Self)
        ensures
            path@ == encode_utf8(text@),
    {
        FilePath { bytes: slice_to_vec(text.as_bytes()) }
    }

    /// The path that `bytes` spell.
    pub fn from_bytes(bytes: Vec<u8>) -> (path: Self)
        ensures
            path@ == bytes@,
    {
        FilePath { bytes }
    }

    /// The bytes that spell the path.
    pub fn as_bytes(&self) -> (bytes: &[u8])
        ensures
            bytes@ == self@,
    {
        self.bytes.as_slice()
    }

    fn head(&self) -> (len: usize)
        ensures
            len == head_len(self@),
            len <= self@.len(),
    {
        let b = &self.bytes;
        if b.len() > 0 && b[0] == SLASH {
            1
        } else if b.len() > 0 && b[0] == DOT && (b.len() == 1 || b[1] == SLASH) {
            1
        } else {
            0
        }
    }

    /// The parts of the path, in order.
    pub fn parts(&self) -> (found: Vec<Vec<u8>>)
        ensures
            found.deep_view() == parts(self@),
    {
        let head = self.head();
        let mut found: Vec<Vec<u8>> = Vec::new();
        if head > 0 {
            found.push(slice_to_vec(slice_subrange(self.bytes.as_slice(), 0, 1)));
            assert(found@[0].deep_view() =~= self@.take(1));
        }
        let ghost first = if head > 0 {
            seq![self@.take(1)]
        } else {
            Seq::empty()
        };
        assert(found.deep_view() =~= first);
        collect_parts(slice_subrange(self.bytes.as_slice(), head, self.bytes.len()), &mut found);
        assert(found.deep_view() =~= parts(self@));
        found
    }

    /// Whether `other` spells the same path.
    pub fn same_as(&self, other: &FilePath) -> (same: bool)
        ensures
            same == same_path(self@, other@),
    {
        let a = self.parts();
        let b = other.parts();
        if a.len() != b.len() {
            return false;
        }
        let same = is_prefix(&b, &a);
        assert(parts(self@).take(parts(other@).len() as int) =~= parts(self@));
        same
    }

    /// Whether the path is `base` or lies below it.
    pub fn starts_with(&self, base: &FilePath) -> (under: bool)
        ensures
            under == is_under(self@, base@),
    {
        is_prefix(&base.parts(), &self.parts())
    }

    /// The last part, if it is the name of a file.
    fn name(&self) -> (name: Option<Vec<u8>>)
        ensures
            match name {
                Some(n) => name_bytes(self@) == Some(n@),
                None => name_bytes(self@) is None,
            },
    {
        let mut all = self.parts();
        match all.pop() {
            None => None,
            Some(last) => {
                assert(last.deep_view() =~= last@);
                assert(last@ == parts(self@).last());
                let n = last.len();
                let special = (n == 1 && (last[0] == SLASH || last[0] == DOT)) || (n == 2 && last[0]
                    == DOT && last[1] == DOT);
                proof {
                    if n == 1 && last@[0] == SLASH {
                        assert(last@ =~= root_part());
                    }
                    if n == 1 && last@[0] == DOT {
                        assert(last@ =~= current_part());
                    }
                    if n == 2 && last@[0] == DOT && last@[1] == DOT {
                        assert(last@ =~= parent_part());
                    }
                }
                if special {
                    None
                } else {
                    Some(last)
                }
            },
        }
    }

    /// The name of the file, if it has one that is UTF-8.
    pub fn file_name(&self) -> (name: Option<String>)
        ensures
            match name {
                Some(n) => name_chars(self@) == Some(n@),
                None => name_chars(self@) is None,
            },
    {
        match self.name() {
            None => None,
            Some(n) => decode(n.as_slice()),
        }
    }

    /// The extension of the file's name, if it has one that is UTF-8.
    pub fn extension(&self) -> (extension: Option<String>)
        ensures
            match extension {
                Some(e) => extension_chars(self@) == Some(e@),
                None => extension_chars(self@) is None,
            },
    {
        match self.name() {
            None => None,
            Some(n) => match find_last_dot(n.as_slice()) {
                None => None,
                Some(at) => if at == 0 {
                    None
                } else {
                    let size: usize = n.len();
                    decode(slice_subrange(n.as_slice(), at + 1, size))
                },
            },
        }
    }

    /// The path without its last part.
    pub fn parent(&self) -> (above: Option<FilePath>)
        ensures
            match above {
                Some(p) => parent_bytes(self@) == Some(p@),
                None => parent_bytes(self@) is None,
            },
    {
        let head = self.head();
        let all = self.bytes.as_slice();
        let whole = slice_subrange(all, head, all.len());
        assert(whole@ =~= body_of(self@));
        let body = trim_body(whole);
        let ghost above = self@.take(head as int) + trimmed_body(without_last(body@));
        assert(body@.len() > 0 ==> parent_bytes(self@) == Some(above));
        if body.len() > 0 {
            let mut bytes = slice_to_vec(slice_subrange(all, 0, head));
            let mut rest = slice_to_vec(trim_body(cut_last(body)));
            bytes.append(&mut rest);
            assert(bytes@ =~= above);
            Some(FilePath::from_bytes(bytes))
        } else if head > 0 && all[0] == DOT {
            assert(self@.take(head as int) =~= current_part());
            let bytes: Vec<u8> = Vec::new();
            assert(parent_bytes(self@) == Some(bytes@));
            Some(FilePath::from_bytes(bytes))
        } else {
            assert(head > 0 ==> self@.take(1)[0] == SLASH);
            None
        }
    }

    /// The path continued by `rest`.
    pub fn join(&self, rest: &str) -> (path: FilePath)
        ensures
            path@ == joined_path(self@, encode_utf8(rest@)),
    {
        let mut tail = slice_to_vec(rest.as_bytes());
        if tail.len() > 0 && tail[0] == SLASH {
            return FilePath { bytes: tail };
        }
        let mut bytes = slice_to_vec(self.bytes.as_slice());
        if bytes.len() > 0 && bytes[bytes.len() - 1] != SLASH {
            bytes.push(SLASH);
        }
        bytes.append(&mut tail);
        FilePath { bytes }
    }

    /// The text of the path. Bytes that are not UTF-8 are replaced.
    pub fn to_text(&self) -> (text: String)
        ensures
            text@ == path_text(self@),
    {
        match decode(self.bytes.as_slice()) {
            Some(text) => text,
            None => utf8_text_lossy(self.bytes.as_slice()),
        }
    }

    /// The text of the path, if it is UTF-8.
    pub fn to_str(&self) -> (text: Option<String>)
        ensures
            match text {
                Some(t) => utf8_chars(self@) == Some(t@),
                None => utf8_chars(self@) is None,
            },
    {
        decode(self.bytes.as_slice())
    }

    /// The text of the path as the system spells it, if that is UTF-8.
    pub fn system_text(&self, windows: bool) -> (text: Option<String>)
        ensures
            text.deep_view() == system_chars(self@, windows),
    {
        if !windows {
            return self.to_str();
        }
        let mut bytes: Vec<u8> = Vec::new();
        for i in 0..self.bytes.len()
            invariant
                bytes@ == system_spelling(self.bytes@.take(i as int), true),
        {
            let b = if self.bytes[i] == SLASH {
                BACKSLASH
            } else {
                self.bytes[i]
            };
            bytes.push(b);
            assert(bytes@ =~= system_spelling(self.bytes@.take(i + 1), true));
        }
        assert(self.bytes@.take(self.bytes@.len() as int) =~= self.bytes@);
        decode(bytes.as_slice())
    }
}

/// Whether `name` can be one part below a directory, spelled as it is.
pub open spec fn is_plain(name: Seq<u8>) -> bool {
    &&& name.len() > 0
    &&& name != current_part()
    &&& forall|i: int| 0 <= i < name.len() ==> name[i] != SLASH
}

/// A path as it is spelled, without idle segments at its end.
pub open spec fn trimmed_path(path: Seq<u8>) -> Seq<u8> {
    path.take(head_len(path) as int) + trimmed_body(body_of(path))
}

proof fn lemma_last_start_is(body: Seq<u8>, start: nat)
    requires
        start <= body.len(),
        start > 0 ==> body[start - 1] == SLASH,
        forall|i: int| start <= i < body.len() ==> body[i] != SLASH,
    ensures
        last_start(body) == start,
{
    lemma_last_start(body);
}

proof fn lemma_trimmed_body(body: Seq<u8>)
    ensures
        body_parts(trimmed_body(body)) == body_parts(body),
        trimmed_body(body).len() <= body.len(),
        trimmed_body(body) == body.take(trimmed_body(body).len() as int),
        trimmed_body(body).len() < body.len() ==> trimmed_body(body).len() == 0
            || body[trimmed_body(body).len() as int] == SLASH,
        trimmed_body(body).len() > 0 ==> !is_idle(last_segment(trimmed_body(body))),
    decreases body.len(),
{
    lemma_last_start(body);
    assert(body.take(body.len() as int) =~= body);
    if body.len() > 0 && is_idle(last_segment(body)) {
        let rest = without_last(body);
        if last_start(body) > 0 {
            lemma_trimmed_body(rest);
            let t = trimmed_body(rest);
            assert(rest.take(t.len() as int) =~= body.take(t.len() as int));
            if t.len() < rest.len() {
                assert(rest[t.len() as int] == body[t.len() as int]);
            }
        } else {
            assert(body.take(0) =~= Seq::<u8>::empty());
        }
    }
}

proof fn lemma_same_head(path: Seq<u8>, body: Seq<u8>)
    requires
        body.len() <= body_of(path).len(),
        body == body_of(path).take(body.len() as int),
        0 < body.len() < body_of(path).len() ==> body_of(path)[body.len() as int] == SLASH,
    ensures
        head_len(path.take(head_len(path) as int) + body) == head_len(path),
        body_of(path.take(head_len(path) as int) + body) == body,
        parts(path.take(head_len(path) as int) + body) == (if head_len(path) > 0 {
            seq![path.take(1)] + body_parts(body)
        } else {
            body_parts(body)
        }),
{
    let head = head_len(path);
    let whole = path.take(head as int) + body;
    assert(head_len(whole) == head) by {
        if whole.len() > 0 {
            assert(whole[0] == path[0]) by {
                if head == 0 {
                    assert(body[0] == body_of(path)[0]);
                }
            }
            if whole.len() > 1 {
                assert(whole[1] == path[1]) by {
                    assert(body[1 - head] == body_of(path)[1 - head]);
                }
            } else if head == 0 && path.len() > 1 {
                assert(body_of(path)[1] == path[1]);
            }
        }
    }
    assert(body_of(whole) =~= body);
    if head > 0 {
        assert(whole.take(1) =~= path.take(1));
    }
}

/// The path without its last part is what the parent names. Only a path that
/// is empty or the root has no parent.
pub proof fn parent_drops_the_last_part(path: Seq<u8>)
    ensures
        match parent_bytes(path) {
            Some(above) => parts(path).len() > 0 && parts(above) == parts(path).drop_last(),
            None => parts(path).len() == 0 || parts(path) == seq![root_part()],
        },
{
    let whole = body_of(path);
    let body = trimmed_body(whole);
    lemma_trimmed_body(whole);
    lemma_last_start(body);
    let head = path.take(head_len(path) as int);
    if body.len() > 0 {
        let rest = without_last(body);
        lemma_trimmed_body(rest);
        let kept = trimmed_body(rest);
        assert(kept =~= whole.take(kept.len() as int));
        assert(kept.len() < whole.len());
        assert(kept.len() > 0 ==> whole[kept.len() as int] == SLASH) by {
            if kept.len() == rest.len() {
                assert(body[rest.len() as int] == whole[rest.len() as int]);
            } else if kept.len() > 0 {
                assert(rest[kept.len() as int] == whole[kept.len() as int]);
            }
        }
        lemma_same_head(path, kept);
        assert(parts(head + kept) =~= parts(path).drop_last());
    } else {
        if head_len(path) > 0 {
            assert(parts(path) =~= seq![path.take(1)]);
            if path[0] == DOT {
                assert(head =~= current_part());
                assert(parts(Seq::<u8>::empty()) =~= parts(path).drop_last());
            } else {
                assert(path.take(1) =~= root_part());
                assert(head[0] != current_part()[0]);
                assert(parts(path) =~= seq![root_part()]);
            }
        } else {
            assert(head.len() != current_part().len());
            assert(parts(path).len() == 0);
        }
    }
}

/// Joining a name to a directory adds that part and no other, and the parent
/// of the result is the directory.
pub proof fn join_adds_one_part(dir: Seq<u8>, name: Seq<u8>)
    requires
        is_plain(name),
    ensures
        parts(joined_path(dir, name)) == parts(dir).push(name),
        parent_bytes(joined_path(dir, name)) == Some(trimmed_path(dir)),
{
    let path = joined_path(dir, name);
    let before = if dir.len() == 0 || dir.last() == SLASH {
        dir
    } else {
        dir.push(SLASH)
    };
    assert(path =~= before + name);
    if name.len() == 1 && name[0] == DOT {
        assert(name =~= current_part());
    }
    assert(head_len(path) == head_len(dir)) by {
        if dir.len() > 0 {
            assert(path[0] == dir[0]);
            if dir.len() > 1 {
                assert(path[1] == dir[1]);
            }
        } else {
            assert(path =~= name);
        }
    }
    let head = head_len(dir) as int;
    let body = body_of(path);
    let start = (before.len() - head) as nat;
    assert(path.take(head) =~= dir.take(head));
    if head > 0 {
        assert(path.take(1) =~= dir.take(1));
    }
    assert(start > 0 ==> body[start - 1] == SLASH);
    assert forall|i: int| start <= i < body.len() implies body[i] != SLASH by {
        assert(body[i] == name[i - start]);
    }
    lemma_last_start_is(body, start);
    assert(last_segment(body) =~= name);
    assert(trimmed_body(body) == body);
    let old_body = body_of(dir);
    let rest = without_last(body);
    if dir.len() > head && dir.last() == SLASH {
        // The directory is spelled with a slash at its end, which is idle.
        assert(old_body.last() == SLASH);
        lemma_last_start(old_body);
        assert(last_segment(old_body).len() == 0);
        assert(rest =~= without_last(old_body));
        assert(body_parts(old_body) == body_parts(rest));
        assert(trimmed_body(old_body) == trimmed_body(rest));
    } else {
        assert(rest =~= old_body);
        if start == 0 {
            assert(old_body.len() == 0);
        }
    }
    assert(body_parts(body) =~= body_parts(old_body).push(name));
    assert(parts(path) =~= parts(dir).push(name));
    assert(trimmed_body(rest) == trimmed_body(old_body));
}

/// Whether `paths` hold a spelling of `path`.
pub open spec fn holds_path(paths: Seq<Seq<u8>>, path: Seq<u8>) -> bool {
    exists|i: int| 0 <= i < paths.len() && same_path(#[trigger] paths[i], path)
}

/// `paths` without those that an earlier one already names.
pub open spec fn unique(paths: Seq<Seq<u8>>) -> Seq<Seq<u8>>
    decreases paths.len(),
{
    if paths.len() == 0 {
        Seq::empty()
    } else if holds_path(paths.drop_last(), paths.last()) {
        unique(paths.drop_last())
    } else {
        unique(paths.drop_last()).push(paths.last())
    }
}

/// Dropping repetitions loses no path and leaves each of them once.
pub proof fn unique_keeps_each_path_once(paths: Seq<Seq<u8>>)
    ensures
        forall|path: Seq<u8>| #[trigger]
            holds_path(unique(paths), path) == holds_path(paths, path),
        forall|i: int, j: int|
            0 <= i < j < unique(paths).len() ==> !same_path(
                #[trigger] unique(paths)[i],
                #[trigger] unique(paths)[j],
            ),
        forall|i: int| 0 <= i < unique(paths).len() ==> paths.contains(#[trigger] unique(paths)[i]),
    decreases paths.len(),
{
    if paths.len() > 0 {
        let rest = paths.drop_last();
        let last = paths.last();
        let kept = unique(rest);
        unique_keeps_each_path_once(rest);
        assert forall|path: Seq<u8>| #[trigger]
            holds_path(unique(paths), path) == holds_path(paths, path) by {
            assert(holds_path(paths, path) == (holds_path(rest, path) || same_path(last, path))) by {
                if holds_path(rest, path) {
                    let i = choose|i: int| 0 <= i < rest.len() && same_path(#[trigger] rest[i], path);
                    assert(same_path(paths[i], path));
                }
                if same_path(last, path) {
                    assert(same_path(paths[paths.len() - 1], path));
                }
                if holds_path(paths, path) && !same_path(last, path) {
                    let i = choose|i: int|
                        0 <= i < paths.len() && same_path(#[trigger] paths[i], path);
                    assert(same_path(rest[i], path));
                }
            }
            assert(holds_path(kept, path) == holds_path(rest, path));
            if holds_path(rest, last) {
                if same_path(last, path) {
                    let i = choose|i: int| 0 <= i < rest.len() && same_path(#[trigger] rest[i], last);
                    assert(same_path(rest[i], path));
                }
            } else {
                let more = kept.push(last);
                if holds_path(kept, path) {
                    let i = choose|i: int| 0 <= i < kept.len() && same_path(#[trigger] kept[i], path);
                    assert(same_path(more[i], path));
                }
                if same_path(last, path) {
                    assert(same_path(more[kept.len() as int], path));
                }
                if holds_path(more, path) && !same_path(last, path) {
                    let i = choose|i: int| 0 <= i < more.len() && same_path(#[trigger] more[i], path);
                    assert(same_path(kept[i], path));
                }
            }
        }
        if !holds_path(rest, last) {
            assert(!holds_path(kept, last));
            assert forall|i: int| 0 <= i < kept.len() implies !same_path(#[trigger] kept[i], last) by {
            }
            assert(paths[paths.len() - 1] == last);
        }
        assert forall|i: int| 0 <= i < unique(paths).len() implies paths.contains(
            #[trigger] unique(paths)[i],
        ) by {
            if i < kept.len() {
                assert(kept[i] == unique(paths)[i]);
                let j = choose|j: int| 0 <= j < rest.len() && rest[j] == kept[i];
                assert(paths[j] == kept[i]);
            }
        }
    }
}

/// Drops the paths that an earlier one already names.
pub fn unique_paths(paths: &[FilePath]) -> (kept: Vec<FilePath>)
    ensures
        kept.deep_view() == unique(paths.deep_view()),
{
    let mut kept: Vec<FilePath> = Vec::new();
    let ghost all = paths.deep_view();
    assert(kept.deep_view() =~= unique(all.take(0)));
    for i in 0..paths.len()
        invariant
            all == paths.deep_view(),
            kept.deep_view() == unique(all.take(i as int)),
    {
        let ghost before = all.take(i as int);
        assert(all.take(i + 1).drop_last() =~= before);
        let seen = is_held(&kept, &paths[i]);
        proof {
            unique_keeps_each_path_once(before);
            assert(seen == holds_path(before, all[i as int]));
        }
        if !seen {
            let ghost held = kept.deep_view();
            kept.push(paths[i].clone());
            assert(kept.deep_view() =~= held.push(all[i as int]));
        }
    }
    assert(all.take(paths@.len() as int) =~= all);
    kept
}

fn is_held(paths: &Vec<FilePath>, path: &FilePath) -> (found: bool)
    ensures
        found == holds_path(paths.deep_view(), path@),
{
    let ghost all = paths.deep_view();
    for i in 0..paths.len()
        invariant
            all == paths.deep_view(),
            forall|j: int| 0 <= j < i ==> !same_path(#[trigger] all[j], path@),
    {
        if paths[i].same_as(path) {
            assert(same_path(all[i as int], path@));
            return true;
        }
    }
    false
}

/// The shortest paths: none, the root, the directory itself, and a name.
pub proof fn parts_of_short_paths(name: Seq<u8>)
    requires
        is_plain(name),
    ensures
        parts(Seq::empty()) == Seq::<Seq<u8>>::empty(),
        parts(seq![SLASH]) == seq![seq![SLASH]],
        parts(seq![DOT]) == seq![seq![DOT]],
        parts(name) == seq![name],
{
    let none: Seq<u8> = Seq::empty();
    assert(body_of(none) =~= none);
    assert(parts(none) =~= Seq::empty());
    let root = seq![SLASH];
    assert(body_of(root) =~= none);
    assert(root.take(1) =~= root);
    assert(parts(root) =~= seq![root]);
    let here = seq![DOT];
    assert(body_of(here) =~= none);
    assert(here.take(1) =~= here);
    assert(parts(here) =~= seq![here]);
    join_adds_one_part(none, name);
    assert(joined_path(none, name) =~= name);
    assert(parts(name) =~= seq![name]);
}

/// A slash at the end of a path, or a slash and a dot, add no part.
pub proof fn idle_segments_add_no_part(path: Seq<u8>)
    requires
        path.len() > 0,
    ensures
        parts(path.push(SLASH)) == parts(path),
        parts(path.push(SLASH).push(DOT)) == parts(path),
{
    let longer = path.push(SLASH);
    assert(head_len(longer) == head_len(path)) by {
        assert(longer[0] == path[0]);
        if path.len() > 1 {
            assert(longer[1] == path[1]);
        }
    }
    let body = body_of(path);
    assert(body_of(longer) =~= body.push(SLASH));
    assert(last_start(body.push(SLASH)) == body.len() + 1);
    assert(last_segment(body.push(SLASH)) =~= Seq::<u8>::empty());
    assert(without_last(body.push(SLASH)) =~= body);
    assert(longer.take(1) =~= path.take(1));
    let dotted = longer.push(DOT);
    assert(head_len(dotted) == head_len(path)) by {
        assert(dotted[0] == path[0]);
        assert(dotted[1] == longer[1]);
    }
    let end = body.push(SLASH).push(DOT);
    assert(body_of(dotted) =~= end);
    lemma_last_start_is(end, (body.len() + 1) as nat);
    assert(last_segment(end) =~= current_part());
    assert(without_last(end) =~= body);
    assert(dotted.take(1) =~= path.take(1));
}

/// One path lies below another exactly where its parts are those of the other
/// and some more, however many; and whatever lies below it does so too.
pub proof fn lying_below_is_about_parts(path: Seq<u8>, base: Seq<u8>, lower: Seq<u8>)
    ensures
        is_under(path, base) <==> exists|rest: Seq<Seq<u8>>|
            parts(path) == #[trigger] (parts(base) + rest),
        is_under(path, path),
        is_under(path, base) && is_under(lower, path) ==> is_under(lower, base),
{
    let all = parts(path);
    let above = parts(base);
    if is_under(path, base) {
        assert(all =~= above + all.skip(above.len() as int));
        if is_under(lower, path) {
            let low = parts(lower);
            assert(low.take(above.len() as int) =~= low.take(all.len() as int).take(
                above.len() as int,
            ));
        }
    }
    if exists|rest: Seq<Seq<u8>>| all == #[trigger] (above + rest) {
        let rest = choose|rest: Seq<Seq<u8>>| all == #[trigger] (above + rest);
        assert(all.take(above.len() as int) =~= above);
    }
    assert(all.take(all.len() as int) =~= all);
}

/// A file that is joined to a directory lies below whatever the directory lies
/// below, so depth does not matter.
pub proof fn joined_files_stay_below(base: Seq<u8>, dir: Seq<u8>, name: Seq<u8>)
    requires
        is_plain(name),
        is_under(dir, base),
    ensures
        is_under(joined_path(dir, name), dir),
        is_under(joined_path(dir, name), base),
{
    join_adds_one_part(dir, name);
    let path = joined_path(dir, name);
    assert(parts(path) =~= parts(dir) + seq![name]);
    lying_below_is_about_parts(path, dir, path);
    lying_below_is_about_parts(dir, base, path);
}

/// Two paths are the same exactly where their parts are, and files that are
/// joined to one directory are the same exactly where their names are.
pub proof fn names_tell_files_apart(dir: Seq<u8>, a: Seq<u8>, b: Seq<u8>)
    requires
        is_plain(a),
        is_plain(b),
    ensures
        same_path(joined_path(dir, a), joined_path(dir, b)) <==> a == b,
        !same_path(joined_path(dir, a), dir),
{
    join_adds_one_part(dir, a);
    join_adds_one_part(dir, b);
    assert(parts(dir).push(a).last() == a);
    assert(parts(dir).push(b).last() == b);
    assert(parts(dir).push(a).len() == parts(dir).len() + 1);
}

/// The name of a file is what was joined to its directory, and none where that
/// is the directory above. No other path has a name than one with such a part
/// at its end.
pub proof fn the_name_is_the_last_part(dir: Seq<u8>, name: Seq<u8>, path: Seq<u8>)
    requires
        is_plain(name),
    ensures
        name_bytes(joined_path(dir, name)) == (if name == seq![DOT, DOT] {
            None
        } else {
            Some(name)
        }),
        name_bytes(path) is Some ==> parts(path).len() > 0 && parts(path).last() == name_bytes(
            path,
        )->0,
        name_bytes(path) is None ==> parts(path).len() == 0 || parts(path).last() == seq![SLASH]
            || parts(path).last() == seq![DOT] || parts(path).last() == seq![DOT, DOT],
{
    join_adds_one_part(dir, name);
    assert(parts(joined_path(dir, name)).last() == name);
    assert(name != root_part()) by {
        if name == root_part() {
            assert(name[0] == SLASH);
        }
    }
}

/// The extension is what stands behind the last dot of a name, unless nothing
/// stands before that dot.
pub proof fn the_extension_follows_the_last_dot(
    path: Seq<u8>,
    stem: Seq<u8>,
    extension: Seq<u8>,
)
    requires
        name_bytes(path) == Some(stem.push(DOT) + extension),
        forall|i: int| 0 <= i < extension.len() ==> extension[i] != DOT,
    ensures
        extension_bytes(path) == (if stem.len() > 0 {
            Some(extension)
        } else {
            None
        }),
{
    let name = stem.push(DOT) + extension;
    lemma_last_dot(name);
    let at = last_dot(name);
    assert(name[stem.len() as int] == DOT);
    assert(at == stem.len()) by {
        if at > stem.len() {
            assert(name[at] == extension[at - stem.len() - 1]);
        }
    }
    assert(name.skip(at + 1) =~= extension);
}

/// A path without a name, or with one that holds no dot, has no extension.
pub proof fn no_dot_no_extension(path: Seq<u8>)
    requires
        name_bytes(path) matches Some(name) ==> forall|i: int| 0 <= i < name.len() ==> name[i] != DOT,
    ensures
        extension_bytes(path) is None,
{
    if name_bytes(path) is Some {
        lemma_last_dot(name_bytes(path)->0);
    }
}

/// Bytes are read as the text that they encode, and as none where there is no
/// such text; a name and an extension are read so.
pub proof fn texts_are_read_as_encoded(text: Seq<char>, bytes: Seq<u8>, path: Seq<u8>)
    ensures
        utf8_chars(encode_utf8(text)) == Some(text),
        utf8_chars(bytes) matches Some(read) ==> encode_utf8(read) == bytes,
        path_text(encode_utf8(text)) == text,
        utf8_chars(bytes) is None ==> path_text(bytes) == lossy_text(bytes),
        name_bytes(path) == Some(encode_utf8(text)) ==> name_chars(path) == Some(text),
        name_chars(path) == Some(text) ==> name_bytes(path) == Some(encode_utf8(text)),
        extension_bytes(path) == Some(encode_utf8(text)) ==> extension_chars(path) == Some(text),
        extension_chars(path) == Some(text) ==> extension_bytes(path) == Some(encode_utf8(text)),
{
    encode_utf8_valid_utf8(text);
    encode_utf8_decode_utf8(text);
    if valid_utf8(bytes) {
        decode_utf8_encode_utf8(bytes);
    }
    if name_bytes(path) is Some && valid_utf8(name_bytes(path)->0) {
        decode_utf8_encode_utf8(name_bytes(path)->0);
    }
    if extension_bytes(path) is Some && valid_utf8(extension_bytes(path)->0) {
        decode_utf8_encode_utf8(extension_bytes(path)->0);
    }
}

/// On Windows a path is spelled with backslashes for slashes and is otherwise
/// the same; elsewhere it is spelled as it is.
pub proof fn spelling_only_turns_slashes(path: Seq<u8>, windows: bool)
    ensures
        system_spelling(path, false) == path,
        system_spelling(path, windows).len() == path.len(),
        forall|i: int|
            #![trigger path[i]]
            #![trigger system_spelling(path, windows)[i]]
            0 <= i < path.len() ==> system_spelling(path, windows)[i] == (if windows && path[i]
                == 0x2f {
                0x5cu8
            } else {
                path[i]
            }),
        system_chars(path, windows) == utf8_chars(system_spelling(path, windows)),
{
}

/// A path that is continued begins with the directory and ends with the rest,
/// with one slash between them and no other change; one that begins at the root
/// stands alone.
pub proof fn joining_keeps_both_ends(dir: Seq<u8>, rest: Seq<u8>)
    ensures
        rest.len() > 0 && rest[0] == SLASH ==> joined_path(dir, rest) == rest,
        dir.len() == 0 ==> joined_path(dir, rest) == rest,
        dir.len() > 0 && !(rest.len() > 0 && rest[0] == SLASH) ==> joined_path(dir, rest) == (
        if dir.last() == SLASH {
            dir
        } else {
            dir.push(SLASH)
        }) + rest,
{
    assert(Seq::<u8>::empty() + rest =~= rest);
    if dir.len() == 0 {
        assert(dir + rest =~= rest);
    }
}

/// The parent of a file is the directory that it was joined to, as that is
/// spelled, where the directory was itself joined together or is the root.
pub proof fn the_parent_is_the_directory(top: Seq<u8>, dir: Seq<u8>, name: Seq<u8>)
    requires
        is_plain(dir),
        is_plain(name),
    ensures
        parent_bytes(joined_path(joined_path(top, dir), name)) == Some(joined_path(top, dir)),
        parent_bytes(joined_path(seq![SLASH], name)) == Some(seq![SLASH]),
        parent_bytes(seq![SLASH]) is None,
        parent_bytes(Seq::empty()) is None,
{
    let above = joined_path(top, dir);
    join_adds_one_part(top, dir);
    join_adds_one_part(above, name);
    lemma_joined_is_tight(top, dir);
    let root = seq![SLASH];
    join_adds_one_part(root, name);
    assert(body_of(root) =~= Seq::<u8>::empty());
    assert(trimmed_path(root) =~= root);
    parent_drops_the_last_part(root);
    let none: Seq<u8> = Seq::empty();
    parts_of_short_paths(name);
    parent_drops_the_last_part(none);
    if parent_bytes(root) is Some {
        assert(root.take(1)[0] != current_part()[0]);
    }
}

proof fn lemma_joined_is_tight(top: Seq<u8>, dir: Seq<u8>)
    requires
        is_plain(dir),
    ensures
        trimmed_path(joined_path(top, dir)) == joined_path(top, dir),
{
    let path = joined_path(top, dir);
    let body = body_of(path);
    join_adds_one_part(top, dir);
    parts_of_short_paths(dir);
    assert(path.len() >= dir.len());
    assert forall|i: int| 0 <= i < dir.len() implies #[trigger] path[path.len() - dir.len() + i]
        == dir[i] by {}
    // The head never reaches into the name.
    let before = path.len() - dir.len();
    assert(head_len(path) <= before) by {
        if before == 0 {
            assert(path =~= dir);
            assert(dir[0] != SLASH);
            if dir.len() == 1 && dir[0] == DOT {
                assert(dir =~= current_part());
            }
        }
    }
    let start = (before - head_len(path)) as nat;
    assert(start > 0 ==> body[start - 1] == SLASH);
    assert forall|i: int| start <= i < body.len() implies body[i] != SLASH by {
        assert(body[i] == path[before + (i - start)]);
        assert(path[before + (i - start)] == dir[i - start]);
    }
    lemma_last_start_is(body, start);
    assert(last_segment(body) =~= dir);
    assert(path =~= path.take(head_len(path) as int) + body);
}

/// Dropping repetitions keeps the first spelling of each path, in order: what
/// was kept of a list stays where it was when more is added, a path that is new
/// is kept as it is spelled, and one that is known is not kept again.
pub proof fn unique_keeps_the_first_in_order(paths: Seq<Seq<u8>>, path: Seq<u8>)
    ensures
        unique(Seq::empty()) == Seq::<Seq<u8>>::empty(),
        unique(paths.push(path)) == (if exists|i: int|
            0 <= i < paths.len() && parts(#[trigger] paths[i]) == parts(path) {
            unique(paths)
        } else {
            unique(paths).push(path)
        }),
{
    assert(paths.push(path).drop_last() =~= paths);
    if holds_path(paths, path) {
        let i = choose|i: int| 0 <= i < paths.len() && same_path(#[trigger] paths[i], path);
        assert(parts(paths[i]) == parts(path));
    }
    if exists|i: int| 0 <= i < paths.len() && parts(#[trigger] paths[i]) == parts(path) {
        let i = choose|i: int| 0 <= i < paths.len() && parts(#[trigger] paths[i]) == parts(path);
        assert(same_path(paths[i], path));
    }
}

} // verus!
