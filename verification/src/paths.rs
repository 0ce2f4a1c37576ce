//! Path text as `std::path::PathBuf::push` builds it on Unix, and the
//! file-system probes the library consults.

use vstd::prelude::*;
use crate::text::{chars_of, concat2, push_char, to_owned_string};

verus! {

/// The path `base` joined with `part`, as `PathBuf::push` does on Unix: an
/// absolute `part` replaces `base`; otherwise a `/` separates the two unless
/// `base` is empty or already ends with one.
pub open spec fn join(base: Seq<char>, part: Seq<char>) -> Seq<char> {
    if part.len() > 0 && part[0] == '/' {
        part
    } else if base.len() == 0 || base.last() == '/' {
        base + part
    } else {
        base.push('/') + part
    }
}

/// `join` of a base and several relative parts, left to right.
pub open spec fn join_all(base: Seq<char>, parts: Seq<Seq<char>>) -> Seq<char>
    decreases parts.len(),
{
    if parts.len() == 0 {
        base
    } else {
        join(join_all(base, parts.drop_last()), parts.last())
    }
}

/// `base.join(part)` as text.
pub fn path_join(base: &str, part: &str) -> (res: String)
    ensures
        res@ == join(base@, part@),
{
    let p = chars_of(part);
    if p.len() > 0 && p[0] == '/' {
        return to_owned_string(part);
    }
    let b = chars_of(base);
    if b.len() == 0 || b[b.len() - 1] == '/' {
        concat2(base, part)
    } else {
        let mut out = to_owned_string(base);
        push_char(&mut out, '/');
        out.append(part);
        out
    }
}

/// `answer` is what the existence probe gave for the path `path`: the
/// result of a call of `path_exists` on that text. The probe's answer
/// depends on the disk; this names which question it answered, not the
/// answer.
pub closed spec fn exists_answer(path: Seq<char>, answer: bool) -> bool {
    exists|p: &str| #[trigger] call_ensures(path_exists, (p,), answer) && p@ == path
}

/// `answer` is what the regular-file probe gave for the path `path`: the
/// result of a call of `path_is_file` on that text.
pub closed spec fn is_file_answer(path: Seq<char>, answer: bool) -> bool {
    exists|p: &str| #[trigger] call_ensures(path_is_file, (p,), answer) && p@ == path
}

/// Asks whether something exists at `path`.
pub fn probe_exists(path: &str) -> (res: bool)
    ensures
        exists_answer(path@, res),
{
    let probe = path_exists;
    probe(path)
}

/// Asks whether `path` names a regular file.
pub fn probe_is_file(path: &str) -> (res: bool)
    ensures
        is_file_answer(path@, res),
{
    let probe = path_is_file;
    probe(path)
}

/// Whether a file-system entry exists at `path` (std's `Path::exists`).
/// The answer depends on the disk at the time of the call; nothing is
/// stated of it.
#[verifier::external_body]
pub(crate) fn path_exists(path: &str) -> bool {
    std::path::Path::new(path).exists()
}

/// Whether `path` names a regular file (std's `Path::is_file`). The answer
/// depends on the disk at the time of the call; nothing is stated of it.
#[verifier::external_body]
pub(crate) fn path_is_file(path: &str) -> bool {
    std::path::Path::new(path).is_file()
}

} // verus!
