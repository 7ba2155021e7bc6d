//! Uploads of attachments: file names and the fields of the stored record.
use crate::error::AppError;
use crate::repo::attachments::AttachmentInput;
use crate::text::push_char;
use vstd::prelude::*;

verus! {

/// Whether a character is alphabetic or numeric in Unicode, as `char::is_alphanumeric`
/// decides.
pub uninterp spec fn unicode_alphanumeric(c: char) -> bool;

/// An ASCII letter or digit.
pub open spec fn ascii_alnum(c: char) -> bool {
    ('A' <= c && c <= 'Z') || ('a' <= c && c <= 'z') || ('0' <= c && c <= '9')
}

/// Calls `char::is_alphanumeric`, documented as `is_alphabetic() || is_numeric()`; for
/// an ASCII character that means an ASCII letter or digit.
#[verifier::external_body]
fn is_alphanumeric(c: char) -> (r: bool)
    ensures
        r == unicode_alphanumeric(c),
        (c as u32) < 128 ==> r == ascii_alnum(c),
{
    c.is_alphanumeric()
}

/// `t` occurs in `s` as a contiguous part.
pub open spec fn occurs_in(t: Seq<char>, s: Seq<char>) -> bool {
    exists|i: int| 0 <= i && i + t.len() <= s.len() && #[trigger] s.subrange(i, i + t.len()) == t
}

/// A path in which only `/` separates components on every platform: it has no `\`
/// or `:` (which Windows reads as separators or prefixes) and does not start with
/// `//` (which Windows reads as a network share).
pub open spec fn portable_path(s: Seq<char>) -> bool {
    &&& !s.contains('\\')
    &&& !s.contains(':')
    &&& !(s.len() >= 2 && s[0] == '/' && s[1] == '/')
}

/// Scanning `s` backwards with `tail` the characters already read of the current
/// part: the last `/`-separated part of `s + tail` that is neither empty nor `.`.
pub open spec fn last_part_from(s: Seq<char>, tail: Seq<char>) -> Option<Seq<char>>
    decreases s.len(),
{
    if s.len() == 0 {
        if tail.len() > 0 && tail != "."@ { Some(tail) } else { None }
    } else if s.last() == '/' {
        if tail.len() > 0 && tail != "."@ { Some(tail) } else { last_part_from(s.drop_last(), Seq::empty()) }
    } else {
        last_part_from(s.drop_last(), seq![s.last()] + tail)
    }
}

/// The file name of a portable path as `Path`'s components give it: repeated `/` and
/// `.` parts are dropped, and the last remaining part is the name unless it is `..`;
/// a path with no part left (`""`, `"/"`, `"."`) has none.
pub open spec fn file_name_spec(s: Seq<char>) -> Option<Seq<char>> {
    match last_part_from(s, Seq::empty()) {
        Some(p) => if p == ".."@ { None } else { Some(p) },
        None => None,
    }
}

/// A name that `Path::file_name` may give: a non-empty part of the path, without `/`,
/// and neither `.` nor `..`.
pub open spec fn file_name_of(n: Seq<char>, path: Seq<char>) -> bool {
    &&& n.len() > 0
    &&& occurs_in(n, path)
    &&& !n.contains('/')
    &&& n != "."@
    &&& n != ".."@
}

/// The last component of a path, as `std::path::Path::file_name` gives it: its final
/// component if that is a normal one.
///
/// As `Path::components` documents, `/` separates components on every platform,
/// repeated separators and `.` parts (but a leading one) are normalized away, and
/// `..` ends a path with no file name; so a name given is a non-empty part of the
/// path without `/`, and not `.` or `..`, and for a portable path it is
/// `file_name_spec`. On Windows `\`, `:` and a leading `//` are read too, so what the
/// call gives for other paths depends on the platform and is left to the first
/// clause.
#[verifier::external_body]
fn path_file_name(path: &str) -> (r: Option<String>)
    ensures
        match r {
            Some(n) => file_name_of(n@, path@) && (portable_path(path@) ==> file_name_spec(path@)
                == Some(n@)),
            None => portable_path(path@) ==> file_name_spec(path@) is None,
        },
{
    match std::path::Path::new(path).file_name() {
        Some(n) => match n.to_str() {
            Some(s) => Some(s.to_string()),
            None => None,
        },
        None => None,
    }
}

/// Characters that may stay in a stored file name: alphanumerics and `.`, `-`, `_`.
pub open spec fn keeps_char(c: char) -> bool {
    unicode_alphanumeric(c) || c == '.' || c == '-' || c == '_'
}

/// The name with every other character replaced by `_`.
pub open spec fn sanitized(s: Seq<char>) -> Seq<char> {
    s.map_values(|c: char| if keeps_char(c) { c } else { '_' })
}

/// At position `i`, an ASCII character of `s` is kept in `r` if it is an ASCII letter
/// or digit or one of `.`, `-`, `_`, and is `_` otherwise.
pub open spec fn ascii_sanitized_at(r: Seq<char>, s: Seq<char>, i: int) -> bool {
    (s[i] as u32) < 128 ==> r[i] == if ascii_alnum(s[i]) || s[i] == '.' || s[i] == '-' || s[i] == '_' {
        s[i]
    } else {
        '_'
    }
}

/// Replaces the characters that may not stay in a stored file name by `_`.
pub fn sanitize_name(name: &str) -> (r: String)
    ensures
        r@ == sanitized(name@),
        forall|i: int| 0 <= i < name@.len() ==> #[trigger] ascii_sanitized_at(r@, name@, i),
{
    let n = name.unicode_len();
    let mut out = String::new();
    let mut i: usize = 0;
    while i < n
        invariant
            n == name@.len(),
            i <= n,
            out@ =~= sanitized(name@.subrange(0, i as int)),
            forall|k: int| 0 <= k < i ==> #[trigger] ascii_sanitized_at(out@, name@, k),
        decreases n - i,
    {
        let c = name.get_char(i);
        let k = if is_alphanumeric(c) || c == '.' || c == '-' || c == '_' { c } else { '_' };
        let ghost before = out@;
        push_char(&mut out, k);
        assert(name@.subrange(0, i + 1) =~= name@.subrange(0, i as int).push(c));
        assert forall|j: int| 0 <= j < i + 1 implies #[trigger] ascii_sanitized_at(out@, name@, j) by {
            if j < i {
                assert(ascii_sanitized_at(before, name@, j));
                assert(out@[j] == before[j]);
            }
        }
        i = i + 1;
    }
    assert(name@.subrange(0, n as int) =~= name@);
    out
}

/// The base of the stored name of an upload: the file name that `Path::file_name`
/// gives, or `upload` where it gives none.
pub open spec fn upload_base(base: Seq<char>, name: Seq<char>) -> bool {
    &&& base == "upload"@ || file_name_of(base, name)
    &&& portable_path(name) ==> base == match file_name_spec(name) {
        Some(b) => b,
        None => "upload"@,
    }
}

/// A safe stored file name for an uploaded file: its last path component (or
/// `upload` where there is none) with unsafe characters replaced by `_`; for a portable
/// path that component is `file_name_spec`. It is never empty, `.` or `..`, and holds
/// no `/`, `\` or space.
pub fn sanitize_filename(name: &str) -> (r: String)
    ensures
        exists|base: Seq<char>|
            upload_base(base, name@) && r@ == #[trigger] sanitized(base) && forall|i: int|
                0 <= i < base.len() ==> #[trigger] ascii_sanitized_at(r@, base, i),
        portable_path(name@) ==> r@ == sanitized(
            match file_name_spec(name@) {
                Some(b) => b,
                None => "upload"@,
            },
        ),
        r@.len() > 0,
        r@ != "."@,
        r@ != ".."@,
        forall|i: int| 0 <= i < r@.len() ==> r@[i] != '/' && r@[i] != '\\' && r@[i] != ' ',
{
    let base = match path_file_name(name) {
        Some(b) => b,
        None => String::from_str("upload"),
    };
    let r = sanitize_name(base.as_str());
    let ghost b = base@;
    proof {
        reveal_strlit("upload");
        assert(upload_base(b, name@));
        assert(b.len() > 0);
        assert(r@.len() == b.len());
        assert forall|i: int| 0 <= i < r@.len() implies r@[i] != '/' && r@[i] != '\\' && r@[i] != ' ' by {
            assert(ascii_sanitized_at(r@, b, i));
            assert(r@[i] == sanitized(b)[i]);
        }
        if r@ == "."@ || r@ == ".."@ {
            reveal_strlit(".");
            reveal_strlit("..");
            assert forall|i: int| 0 <= i < b.len() implies b[i] == '.' by {
                assert(r@[i] == sanitized(b)[i]);
                assert(r@[i] == '.');
            }
            if r@ == "."@ {
                assert(b =~= "."@);
            } else {
                assert(b =~= ".."@);
            }
            assert(b != "upload"@);
        }
    }
    r
}

/// The name an uploaded file is stored under: the attachment id, `_`, the safe name.
pub fn stored_filename(id: &str, safe_name: &str) -> (r: String)
    ensures
        r@ == id@ + "_"@ + safe_name@,
{
    String::from_str(id).concat("_").concat(safe_name)
}

/// A path component of the attachment directory: the given owner value or `unknown`.
pub fn owner_dir(value: &Option<String>) -> (r: String)
    ensures
        r@ == match value { Some(v) => v@, None => "unknown"@ },
{
    match value {
        Some(v) => v.clone(),
        None => String::from_str("unknown"),
    }
}

/// The original name and content type of an uploaded file, with their defaults.
pub fn upload_names(file_name: Option<&str>, content_type: Option<&str>) -> (r: (String, String))
    ensures
        r.0@ == match file_name { Some(f) => f@, None => "upload"@ },
        r.1@ == match content_type { Some(c) => c@, None => "application/octet-stream"@ },
{
    let f = match file_name {
        Some(f) => String::from_str(f),
        None => String::from_str("upload"),
    };
    let c = match content_type {
        Some(c) => String::from_str(c),
        None => String::from_str("application/octet-stream"),
    };
    (f, c)
}

/// A file received with an upload.
#[derive(Debug, Clone, PartialEq, Eq)]
pub struct UploadedFile {
    pub id: String,
    pub original_filename: String,
    pub content_type: String,
    pub byte_size: i64,
    pub path: String,
}

/// The record to store for an upload: owner type, owner id and file are all required,
/// checked in that order.
pub fn attachment_input(
    owner_type: Option<String>,
    owner_id: Option<String>,
    file: Option<UploadedFile>,
) -> (r: Result<(UploadedFile, AttachmentInput), AppError>)
    ensures
        owner_type is None ==> (r matches Err(AppError::BadRequest(m)) && m@ == "owner_type required"@),
        owner_type is Some && owner_id is None ==> (r matches Err(AppError::BadRequest(m)) && m@
            == "owner_id required"@),
        owner_type is Some && owner_id is Some && file is None ==> (r matches Err(
            AppError::BadRequest(m),
        ) && m@ == "file required"@),
        owner_type is Some && owner_id is Some && file is Some ==> (r matches Ok((f, input)) && f
            == file->0 && input == (AttachmentInput {
            owner_type: owner_type->0,
            owner_id: owner_id->0,
            filename: f.original_filename,
            content_type: f.content_type,
            byte_size: f.byte_size,
            caption: None,
        })),
{
    let owner_type = match owner_type {
        Some(t) => t,
        None => return Err(AppError::BadRequest(String::from_str("owner_type required"))),
    };
    let owner_id = match owner_id {
        Some(i) => i,
        None => return Err(AppError::BadRequest(String::from_str("owner_id required"))),
    };
    let info = match file {
        Some(f) => f,
        None => return Err(AppError::BadRequest(String::from_str("file required"))),
    };
    let input = AttachmentInput {
        owner_type,
        owner_id,
        filename: info.original_filename.clone(),
        content_type: info.content_type.clone(),
        byte_size: info.byte_size,
        caption: None,
    };
    Ok((info, input))
}

} // verus!
