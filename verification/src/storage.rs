//! Attachment storage keys and paths. Reading and writing the files is left
//! to the caller; this module decides where they go.
use vstd::prelude::*;

use crate::ids::{uuid_hyphenated, uuid_to_string};
use crate::queries::opt_text_view;
use crate::text::{is_ascii_alphanumeric, owned, push_char, push_str};

verus! {

/// What `Path::file_name` returns for a path given as text: its final
/// component, if it has one. Path syntax is fixed by the compilation
/// target, not by anything at run time.
pub uninterp spec fn std_file_name(path: Seq<char>) -> Option<Seq<char>>;

/// What `Path::join` gives for a base directory and a relative key.
pub uninterp spec fn std_path_join(base: Seq<char>, key: Seq<char>) -> Seq<char>;

/// What `Path::starts_with` says: whether `base` is a prefix of `path`,
/// component by component.
pub uninterp spec fn std_path_starts_with(path: Seq<char>, base: Seq<char>) -> bool;

/// Whether `char::is_alphanumeric` holds: Unicode `Alphabetic` or
/// `Numeric`.
pub uninterp spec fn unicode_alphanumeric(c: char) -> bool;

/// The text after the last `/` of `s` (all of `s` when it holds none).
pub open spec fn last_segment(s: Seq<char>) -> Seq<char>
    decreases s.len(),
{
    if s.len() == 0 {
        Seq::empty()
    } else if s.last() == '/' {
        Seq::empty()
    } else {
        last_segment(s.drop_last()).push(s.last())
    }
}

/// A path with no `\`, no `:` and not beginning with two `/`: on every
/// target its only separator is `/`, and it has no prefix (a drive needs a
/// `:`, a UNC or device prefix two leading separators).
pub open spec fn is_slash_separated(s: Seq<char>) -> bool {
    &&& !s.contains('\\')
    &&& !s.contains(':')
    &&& !(s.len() >= 2 && s[0] == '/' && s[1] == '/')
}

/// A path segment that names a file: not empty, not `.` and not `..`.
pub open spec fn is_plain_segment(f: Seq<char>) -> bool {
    f.len() > 0 && f != "."@ && f != ".."@
}

/// `Path::new(name).file_name()`, as text. Beyond naming the result, the
/// contract states what the documentation gives: the final component is
/// never empty, never holds a `/` (a separator on every target), and is
/// never `.` (normalized away) or `..` (then there is none); the empty
/// path, `.` and `..` have none; and a path that is slash-separated (see
/// `is_slash_separated`: no other separator and no prefix on any target)
/// whose text after its last `/` names a file has that text as its final
/// component.
#[verifier::external_body]
fn path_file_name(name: &str) -> (r: Option<String>)
    ensures
        match r {
            Some(f) => std_file_name(name@) == Some(f@),
            None => std_file_name(name@) is None,
        },
        r matches Some(f) ==> (f@.len() > 0 && !f@.contains('/') && f@ != "."@ && f@ != ".."@),
        (name@ == ""@ || name@ == "."@ || name@ == ".."@) ==> r is None,
        is_slash_separated(name@) && is_plain_segment(last_segment(name@)) ==> opt_text_view(r) == Some(last_segment(name@)),
{
    match std::path::Path::new(name).file_name() {
        Some(os) => match os.to_str() {
            Some(s) => Some(s.to_string()),
            None => None,
        },
        None => None,
    }
}

/// `char::is_alphanumeric`. The contract names the Unicode property and
/// states only that on ASCII it is `[A-Za-z0-9]`.
#[verifier::external_body]
fn char_is_alphanumeric(c: char) -> (b: bool)
    ensures
        b == unicode_alphanumeric(c),
        (c as u32) < 128 ==> b == is_ascii_alphanumeric(c),
{
    c.is_alphanumeric()
}

/// Whether position `i` of `k` begins a `/`-separated segment.
pub open spec fn segment_starts(k: Seq<char>, i: int) -> bool {
    i == 0 || k[i - 1] == '/'
}

/// A relative key of plain segments: not empty, no `\` and no `:` (so no
/// other separator and no prefix on any target), no leading or trailing
/// `/`, never two `/` in a row, and no segment `.` or `..`.
pub open spec fn is_relative_key(k: Seq<char>) -> bool {
    &&& k.len() > 0
    &&& forall|i: int| 0 <= i < k.len() ==> #[trigger] k[i] != '\\' && k[i] != ':'
    &&& k[0] != '/'
    &&& k.last() != '/'
    &&& forall|i: int| 0 <= i < k.len() - 1 ==> !(#[trigger] k[i] == '/' && k[i + 1] == '/')
    &&& forall|i: int|
        0 <= i < k.len() && segment_starts(k, i) && #[trigger] k[i] == '.' ==> (i + 1 < k.len() && k[i
            + 1] != '/' && (k[i + 1] == '.' ==> (i + 2 < k.len() && k[i + 2] != '/')))
}

/// `Path::new(base).join(key)`, as text. Beyond naming the result, the
/// contract states what `Path::join` (a relative path is pushed onto the
/// base) and `Path::starts_with` (whole components) document together: a
/// relative key of plain segments, joined to the base, gives a path that
/// begins with the base component by component.
#[verifier::external_body]
fn path_join(base: &str, key: &str) -> (r: String)
    ensures
        r@ == std_path_join(base@, key@),
        is_relative_key(key@) ==> std_path_starts_with(r@, base@),
{
    std::path::Path::new(base).join(key).to_string_lossy().into_owned()
}

/// `Path::new(path).starts_with(base)`.
#[verifier::external_body]
fn path_starts_with(path: &str, base: &str) -> (b: bool)
    ensures
        b == std_path_starts_with(path@, base@),
{
    std::path::Path::new(path).starts_with(base)
}

/// Whether `c` counts as a letter or digit in a stored file name
/// (`char::is_alphanumeric`): on ASCII, `[A-Za-z0-9]`.
pub open spec fn is_name_alphanumeric(c: char) -> bool {
    if (c as u32) < 128 {
        is_ascii_alphanumeric(c)
    } else {
        unicode_alphanumeric(c)
    }
}

/// Whether `c` is kept in a stored file name: letters, digits, `.`, `-`
/// and `_`.
pub open spec fn is_safe_char(c: char) -> bool {
    is_name_alphanumeric(c) || c == '.' || c == '-' || c == '_'
}

/// A character of a stored file name: kept when safe, `_` otherwise.
pub open spec fn safe_char(c: char) -> char {
    if is_safe_char(c) {
        c
    } else {
        '_'
    }
}

/// The stored form of an uploaded file's name, given the final component
/// of that name (if any): every character made safe, `"file"` when there
/// is nothing left.
pub open spec fn sanitized_name(file_name: Option<Seq<char>>) -> Seq<char> {
    let base = match file_name {
        Some(f) => f,
        None => "file"@,
    };
    let cleaned = base.map_values(|c: char| safe_char(c));
    if cleaned.len() == 0 {
        "file"@
    } else {
        cleaned
    }
}

/// The stored form of an uploaded file's name: only its final path
/// component is kept, every character that is not a letter, digit, `.`,
/// `-` or `_` becomes `_`; it is never empty and never `.` or `..`, and
/// holds no `/`.
pub fn sanitize_file_name(name: &str) -> (r: String)
    ensures
        r@ == sanitized_name(std_file_name(name@)),
        std_file_name(name@) is None ==> r@ == "file"@,
        (name@ == ""@ || name@ == "."@ || name@ == ".."@) ==> r@ == "file"@,
        is_slash_separated(name@) && is_plain_segment(last_segment(name@)) ==> r@ == last_segment(
            name@,
        ).map_values(|c: char| safe_char(c)),
        forall|k: int| 0 <= k < r@.len() ==> is_safe_char(#[trigger] r@[k]),
        r@.len() > 0,
        !r@.contains('/'),
        r@ != "."@,
        r@ != ".."@,
{
    proof {
        reveal_strlit("file");
        reveal_strlit(".");
        reveal_strlit("..");
    }
    let base = match path_file_name(name) {
        Some(f) => f,
        None => owned("file"),
    };
    let ghost b = base@;
    let mut cleaned = String::new();
    for c in it: base.as_str().chars()
        invariant
            it.seq() == b,
            cleaned@ == b.take(it.index() as int).map_values(|c: char| safe_char(c)),
            !cleaned@.contains('/'),
            forall|k: int| 0 <= k < cleaned@.len() ==> (cleaned@[k] == '.' <==> b[k] == '.'),
    {
        let keep = char_is_alphanumeric(c) || c == '.' || c == '-' || c == '_';
        let ghost before = cleaned@;
        if keep {
            push_char(&mut cleaned, c);
        } else {
            push_char(&mut cleaned, '_');
        }
        proof {
            assert(b.take(it.index() + 1) =~= b.take(it.index() as int).push(c));
            assert(b.take(it.index() + 1).map_values(|c: char| safe_char(c)) =~= before.push(
                safe_char(c),
            ));
            assert forall|k: int| 0 <= k < cleaned@.len() implies cleaned@[k] != '/' by {
                if k < before.len() {
                    assert(before[k] == cleaned@[k]);
                }
            }
        }
    }
    proof {
        assert(b.take(b.len() as int) =~= b);
    }
    if cleaned.as_str().is_empty() {
        owned("file")
    } else {
        proof {
            if cleaned@ == "."@ {
                assert(b.len() == 1 && b[0] == '.');
                assert(b =~= "."@);
            }
            if cleaned@ == ".."@ {
                assert(b.len() == 2 && b[0] == '.' && b[1] == '.');
                assert(b =~= ".."@);
            }
        }
        cleaned
    }
}

/// Local filesystem storage for attachments, rooted at a base directory.
pub struct Storage {
    base_dir: String,
}

/// The key an attachment is stored under: `task/attachment/name`, each
/// UUID in its hyphenated form and the name sanitized.
pub open spec fn spec_key_for(task_id: u128, attachment_id: u128, name: Seq<char>) -> Seq<char> {
    uuid_hyphenated(task_id) + "/"@ + uuid_hyphenated(attachment_id) + "/"@ + sanitized_name(
        std_file_name(name),
    )
}

impl Storage {
    pub closed spec fn base(&self) -> Seq<char> {
        self.base_dir@
    }

    /// Storage rooted at `base_dir` (creating the directory is the
    /// caller's part).
    pub fn from_dir(base_dir: String) -> (s: Storage)
        ensures
            s.base() == base_dir@,
    {
        Storage { base_dir }
    }

    pub fn base_dir(&self) -> (r: &str)
        ensures
            r@ == self.base(),
    {
        self.base_dir.as_str()
    }

    /// A storage key that cannot escape the base directory and does not
    /// collide across attachments, even for identically named files on the
    /// same task: three `/`-separated segments, none empty, none `.` or
    /// `..`.
    pub fn key_for(task_id: u128, attachment_id: u128, file_name: &str) -> (r: String)
        ensures
            r@ == spec_key_for(task_id, attachment_id, file_name@),
            exists|last: Seq<char>|
                #![auto]
                r@ == uuid_hyphenated(task_id) + "/"@ + uuid_hyphenated(attachment_id) + "/"@
                    + last && last.len() > 0 && !last.contains('/') && last != "."@ && last
                    != ".."@,
            is_relative_key(r@),
    {
        let safe = sanitize_file_name(file_name);
        let mut key = uuid_to_string(task_id);
        push_str(&mut key, "/");
        push_str(&mut key, uuid_to_string(attachment_id).as_str());
        push_str(&mut key, "/");
        push_str(&mut key, safe.as_str());
        proof {
            let last = safe@;
            assert(key@ == uuid_hyphenated(task_id) + "/"@ + uuid_hyphenated(attachment_id) + "/"@
                + last);
            assert forall|i: int| 0 <= i < last.len() implies #[trigger] last[i] != '\\' && last[i]
                != ':' by {
                assert(is_safe_char(last[i]));
            }
            lemma_key_is_relative(task_id, attachment_id, last);
        }
        key
    }

    /// The path a key is stored at: the key joined to the base directory.
    /// `None` guards against path traversal in a stored key: a key with a
    /// `..` segment (between `/` or `\` separators) is refused, and so is
    /// one whose joined path does not begin with the base directory
    /// component by component (an absolute key replaces the base when
    /// joined). A relative key of plain segments, such as every key of
    /// `key_for`, is always accepted.
    pub fn path_for(&self, key: &str) -> (r: Option<String>)
        ensures
            has_parent_segment(key@) ==> r is None,
            match r {
                Some(p) => !has_parent_segment(key@) && p@ == std_path_join(self.base(), key@)
                    && std_path_starts_with(p@, self.base()),
                None => has_parent_segment(key@) || !std_path_starts_with(
                    std_path_join(self.base(), key@),
                    self.base(),
                ),
            },
            is_relative_key(key@) ==> (r matches Some(p) && p@ == std_path_join(self.base(), key@)),
    {
        if contains_parent_segment(key) {
            return None;
        }
        let path = path_join(self.base_dir.as_str(), key);
        proof {
            if is_relative_key(key@) {
                lemma_relative_key_has_no_parent(key@);
            }
        }
        if path_starts_with(path.as_str(), self.base_dir.as_str()) {
            Some(path)
        } else {
            None
        }
    }
}

/// A path separator on some target: `/`, or `\` on Windows.
pub open spec fn is_separator(c: char) -> bool {
    c == '/' || c == '\\'
}

/// A `..` segment begins at position `i` of `k`.
pub open spec fn parent_segment_at(k: Seq<char>, i: int) -> bool {
    &&& 0 <= i
    &&& i + 1 < k.len()
    &&& (i == 0 || is_separator(k[i - 1]))
    &&& k[i] == '.'
    &&& k[i + 1] == '.'
    &&& (i + 2 == k.len() || is_separator(k[i + 2]))
}

/// Whether `k` holds a `..` segment, which would climb out of the directory
/// it is joined to.
pub open spec fn has_parent_segment(k: Seq<char>) -> bool {
    exists|i: int| #[trigger] parent_segment_at(k, i)
}

/// Looks for a `..` segment in a key.
fn contains_parent_segment(key: &str) -> (b: bool)
    ensures
        b == has_parent_segment(key@),
{
    let v = crate::text::chars_of(key);
    let n = v.len();
    let mut i: usize = 0;
    while i < n
        invariant
            v@ == key@,
            n == v@.len(),
            i <= n,
            forall|j: int| 0 <= j < i ==> !#[trigger] parent_segment_at(key@, j),
        decreases n - i,
    {
        if i + 1 < n && (i == 0 || v[i - 1] == '/' || v[i - 1] == '\\') && v[i] == '.' && v[i + 1] == '.'
            && (i + 2 == n || v[i + 2] == '/' || v[i + 2] == '\\') {
            assert(parent_segment_at(key@, i as int));
            return true;
        }
        i = i + 1;
    }
    proof {
        assert forall|j: int| !#[trigger] parent_segment_at(key@, j) by {
            if 0 <= j < n {
            }
        }
    }
    false
}

/// A relative key of plain segments has no `..` segment.
proof fn lemma_relative_key_has_no_parent(k: Seq<char>)
    requires
        is_relative_key(k),
    ensures
        !has_parent_segment(k),
{
    assert forall|i: int| !#[trigger] parent_segment_at(k, i) by {
        if parent_segment_at(k, i) {
            assert(k[i] != '\\');
            if i > 0 {
                assert(k[i - 1] != '\\');
            }
            assert(segment_starts(k, i));
            assert(k[i] == '.');
            if i + 2 < k.len() {
                assert(k[i + 2] != '\\');
            }
        }
    }
}

} // verus!

verus! {

/// A key of two UUIDs and a plain file name is a relative key of plain
/// segments.
proof fn lemma_key_is_relative(t: u128, a: u128, last: Seq<char>)
    requires
        last.len() > 0,
        last != "."@,
        last != ".."@,
        !last.contains('/'),
        forall|i: int| 0 <= i < last.len() ==> #[trigger] last[i] != '\\' && last[i] != ':',
    ensures
        is_relative_key(uuid_hyphenated(t) + "/"@ + uuid_hyphenated(a) + "/"@ + last),
{
    reveal_strlit("/");
    reveal_strlit(".");
    reveal_strlit("..");
    crate::ids::lemma_uuid_hyphenated_chars(t);
    crate::ids::lemma_uuid_hyphenated_chars(a);
    let u1 = uuid_hyphenated(t);
    let u2 = uuid_hyphenated(a);
    let k = u1 + "/"@ + u2 + "/"@ + last;
    let n = k.len();
    assert(n == 74 + last.len());
    assert forall|i: int| 0 <= i < n implies (if i < 36 {
        #[trigger] k[i] == u1[i]
    } else if i == 36 {
        k[i] == '/'
    } else if i < 73 {
        k[i] == u2[i - 37]
    } else if i == 73 {
        k[i] == '/'
    } else {
        k[i] == last[i - 74]
    }) by {}
    assert forall|i: int| 0 <= i < last.len() implies #[trigger] last[i] != '/' by {
        if last[i] == '/' {
            assert(last.contains('/'));
        }
    }
    assert forall|i: int| 0 <= i < n implies #[trigger] k[i] != '\\' && k[i] != ':' by {
        if i < 36 {
            assert(u1[i] == '-' || (48 <= (u1[i] as u32) <= 57) || (97 <= (u1[i] as u32) <= 102));
        } else if 36 < i < 73 {
            assert(u2[i - 37] == '-' || (48 <= (u2[i - 37] as u32) <= 57) || (97 <= (
            u2[i - 37] as u32) <= 102));
        }
    }
    assert(k[0] == u1[0]);
    assert(u1[0] == '-' || (48 <= (u1[0] as u32) <= 57) || (97 <= (u1[0] as u32) <= 102));
    assert(k.last() == last.last());
    assert forall|i: int| 0 <= i < n - 1 implies !(#[trigger] k[i] == '/' && k[i + 1] == '/') by {
        if i < 36 {
            assert(u1[i] == '-' || (48 <= (u1[i] as u32) <= 57) || (97 <= (u1[i] as u32) <= 102));
        } else if i == 36 {
            assert(u2[0] == '-' || (48 <= (u2[0] as u32) <= 57) || (97 <= (u2[0] as u32) <= 102));
        } else if i < 73 {
            assert(u2[i - 37] == '-' || (48 <= (u2[i - 37] as u32) <= 57) || (97 <= (
            u2[i - 37] as u32) <= 102));
        } else if i == 73 {
        }
    }
    assert forall|i: int|
        0 <= i < n && segment_starts(k, i) && #[trigger] k[i] == '.' implies (i + 1 < n && k[i + 1]
        != '/' && (k[i + 1] == '.' ==> (i + 2 < n && k[i + 2] != '/'))) by {
        if i < 36 {
            assert(u1[i] == '-' || (48 <= (u1[i] as u32) <= 57) || (97 <= (u1[i] as u32) <= 102));
        } else if i == 36 {
        } else if i < 73 {
            assert(u2[i - 37] == '-' || (48 <= (u2[i - 37] as u32) <= 57) || (97 <= (
            u2[i - 37] as u32) <= 102));
        } else if i == 73 {
        } else {
            if i > 74 {
                assert(k[i - 1] == last[i - 75]);
            }
            assert(i == 74);
            if last.len() == 1 {
                assert(last =~= "."@);
            }
            if last.len() == 2 && last[1] == '.' {
                assert(last =~= ".."@);
            }
        }
    }
}

} // verus!
