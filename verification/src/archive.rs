//! Reading compressed archives: one member by name, or the whole stream
//! after every member's path has been checked.
//!
//! Decompression is `lzma`'s and the tar format is `tar`'s. Writing files is
//! the host's: [`extract_all`] hands it a stream that is safe to unpack.

use vstd::prelude::*;
use vstd::string::*;
use vstd::slice::*;
use vstd::utf8::{decode_utf8, encode_utf8, valid_utf8};
use crate::error::{bytes_view, text_view, unit_view, Error, ErrorKind, ErrorView};

verus! {

/// The byte that separates the components of a member's path.
pub const SEPARATOR: u8 = 47;

/// The byte of which the parent directory's name has two.
pub const DOT: u8 = 46;

/// The stream that the XZ data `archive` holds, or `None` where it is no
/// XZ data.
pub uninterp spec fn xz_decoded(archive: Seq<u8>) -> Option<Seq<u8>>;

/// The members of the tar stream `tar` in their order, each with its path
/// and its content; or, where `tar` is no tar stream, the reader's message.
pub uninterp spec fn tar_members(tar: Seq<u8>) -> Result<Seq<(Seq<u8>, Seq<u8>)>, Seq<char>>;

/// The view of what the tar reader returned.
pub open spec fn listing_view(r: Result<Vec<(Vec<u8>, Vec<u8>)>, String>) -> Result<
    Seq<(Seq<u8>, Seq<u8>)>,
    Seq<char>,
> {
    match r {
        Ok(members) => Ok(members.deep_view()),
        Err(detail) => Err(detail@),
    }
}

/// The view of what decompression returned.
pub open spec fn stream_view(r: Result<Vec<u8>, String>) -> Result<Seq<u8>, Seq<char>> {
    match r {
        Ok(tar) => Ok(tar@),
        Err(detail) => Err(detail@),
    }
}

/// Whether decompressing `archive` can have given `decoded`: a stream only
/// if it is the one that `archive` holds. A failure is always possible,
/// since decompression may run out of memory.
pub open spec fn plausible(archive: Seq<u8>, decoded: Result<Seq<u8>, Seq<char>>) -> bool {
    decoded matches Ok(tar) ==> xz_decoded(archive) == Some(tar)
}

/// Calls `lzma::decompress`. Where that succeeds, what it returns is the
/// stream that `archive` holds, a function of `archive` alone. It may also
/// fail for want of memory, so nothing is claimed of a failure; of the error
/// only the message is kept.
#[verifier::external_body]
pub(crate) fn xz_decompress(archive: &[u8]) -> (r: Result<Vec<u8>, String>)
    ensures
        r matches Ok(tar) ==> xz_decoded(archive@) == Some(tar@),
{
    lzma::decompress(archive).map_err(|err| err.to_string())
}

/// Walks `tar::Archive::entries` over `tar` and hands out, for each entry,
/// what `Entry::path_bytes` returns and what reading the entry to its end
/// gives, or the message of the first error. The contract only gives the
/// outcome a name: it is a function of `tar` alone.
#[verifier::external_body]
fn tar_list(tar: &[u8]) -> (r: Result<Vec<(Vec<u8>, Vec<u8>)>, String>)
    ensures
        listing_view(r) == tar_members(tar@),
{
    let mut archive = tar::Archive::new(tar);
    let mut members = Vec::new();
    for entry in archive.entries().map_err(|err| err.to_string())? {
        let mut entry = entry.map_err(|err| err.to_string())?;
        let path = entry.path_bytes().into_owned();
        let mut data = Vec::new();
        std::io::Read::read_to_end(&mut entry, &mut data).map_err(|err| err.to_string())?;
        members.push((path, data));
    }
    Ok(members)
}

/// Whether `path` starts at the root.
pub open spec fn is_absolute(path: Seq<u8>) -> bool {
    path.len() > 0 && path[0] == SEPARATOR
}

/// Whether a component `..` of `path` starts at `at`.
pub open spec fn parent_at(path: Seq<u8>, at: int) -> bool {
    &&& 0 <= at
    &&& at + 2 <= path.len()
    &&& path[at] == DOT
    &&& path[at + 1] == DOT
    &&& (at == 0 || path[at - 1] == SEPARATOR)
    &&& (at + 2 == path.len() || path[at + 2] == SEPARATOR)
}

/// Whether a member with this path stays below the directory it is unpacked
/// into: the path is relative and none of its components is `..`.
pub open spec fn confined(path: Seq<u8>) -> bool {
    !is_absolute(path) && forall|at: int| !parent_at(path, at)
}

/// Whether every member's path is confined.
pub open spec fn all_confined(members: Seq<(Seq<u8>, Seq<u8>)>) -> bool {
    forall|i: int| 0 <= i < members.len() ==> confined(#[trigger] members[i].0)
}

/// Whether `at` is the first member with the path `name`.
pub open spec fn first_named(members: Seq<(Seq<u8>, Seq<u8>)>, name: Seq<u8>, at: int) -> bool {
    &&& 0 <= at < members.len()
    &&& members[at].0 == name
    &&& forall|i: int| 0 <= i < at ==> members[i].0 != name
}

/// Whether `at` is the first member whose path is not confined.
pub open spec fn first_escape(members: Seq<(Seq<u8>, Seq<u8>)>, at: int) -> bool {
    &&& 0 <= at < members.len()
    &&& !confined(members[at].0)
    &&& forall|i: int| 0 <= i < at ==> confined(#[trigger] members[i].0)
}

/// Whether some member has the path `name`.
pub open spec fn has_member(members: Seq<(Seq<u8>, Seq<u8>)>, name: Seq<u8>) -> bool {
    exists|i: int| 0 <= i < members.len() && members[i].0 == name
}

/// Whether two byte strings are equal.
pub fn same_bytes(a: &[u8], b: &[u8]) -> (same: bool)
    ensures
        same == (a@ == b@),
{
    if a.len() != b.len() {
        return false;
    }
    let mut i: usize = 0;
    while i < a.len()
        invariant
            i <= a.len(),
            a.len() == b.len(),
            forall|k: int| 0 <= k < i ==> a@[k] == b@[k],
        decreases a.len() - i,
    {
        if a[i] != b[i] {
            return false;
        }
        i = i + 1;
    }
    assert(a@ =~= b@);
    true
}

/// Whether a member with the path `path` stays below the directory it is
/// unpacked into.
pub fn is_confined(path: &[u8]) -> (ok: bool)
    ensures
        ok == confined(path@),
{
    let n = path.len();
    if n > 0 && path[0] == SEPARATOR {
        return false;
    }
    let mut i: usize = 0;
    while i < n
        invariant
            i <= n,
            n == path.len(),
            forall|at: int| at < i ==> !parent_at(path@, at),
        decreases n - i,
    {
        if n - i >= 2 && path[i] == DOT && path[i + 1] == DOT {
            let starts = i == 0 || path[i - 1] == SEPARATOR;
            let ends = n - i == 2 || path[i + 2] == SEPARATOR;
            if starts && ends {
                assert(parent_at(path@, i as int));
                return false;
            }
        }
        assert(!parent_at(path@, i as int));
        i = i + 1;
    }
    true
}

/// The first member with the path `name`, if there is one.
pub fn find_member(members: &Vec<(Vec<u8>, Vec<u8>)>, name: &[u8]) -> (found: Option<usize>)
    ensures
        match found {
            Some(at) => first_named(members.deep_view(), name@, at as int),
            None => !has_member(members.deep_view(), name@),
        },
{
    let ghost listed = members.deep_view();
    let mut i: usize = 0;
    while i < members.len()
        invariant
            i <= members.len(),
            listed == members.deep_view(),
            forall|k: int| 0 <= k < i ==> listed[k].0 != name@,
        decreases members.len() - i,
    {
        assert(listed[i as int] == (members[i as int].0@, members[i as int].1@));
        if same_bytes(members[i].0.as_slice(), name) {
            return Some(i);
        }
        i = i + 1;
    }
    None
}

/// The first member whose path is not confined, if there is one.
pub fn find_escape(members: &Vec<(Vec<u8>, Vec<u8>)>) -> (found: Option<usize>)
    ensures
        match found {
            Some(at) => first_escape(members.deep_view(), at as int),
            None => all_confined(members.deep_view()),
        },
{
    let ghost listed = members.deep_view();
    let mut i: usize = 0;
    while i < members.len()
        invariant
            i <= members.len(),
            listed == members.deep_view(),
            forall|k: int| 0 <= k < i ==> confined(#[trigger] listed[k].0),
        decreases members.len() - i,
    {
        assert(listed[i as int] == (members[i as int].0@, members[i as int].1@));
        if !is_confined(members[i].0.as_slice()) {
            return Some(i);
        }
        i = i + 1;
    }
    None
}

/// The index of the first member with the path `name`.
pub open spec fn first_index(members: Seq<(Seq<u8>, Seq<u8>)>, name: Seq<u8>) -> int {
    choose|at: int| first_named(members, name, at)
}

/// The failure for a member that an archive lacks.
pub open spec fn no_member(name: Seq<char>) -> ErrorView {
    ErrorView { kind: ErrorKind::Extraction, detail: name + " not found in archive"@ }
}

/// The failure for an archive with a member that would leave the directory
/// it is unpacked into.
pub open spec fn escapes() -> ErrorView {
    ErrorView { kind: ErrorKind::Extraction, detail: "archive member leaves the destination"@ }
}

/// What [`read_member`] answers: the content of the first member named
/// `name`.
pub open spec fn member_content(
    listing: Result<Seq<(Seq<u8>, Seq<u8>)>, Seq<char>>,
    name: Seq<char>,
) -> Result<Seq<u8>, ErrorView> {
    match listing {
        Err(detail) => Err(ErrorView { kind: ErrorKind::Extraction, detail }),
        Ok(members) => if has_member(members, encode_utf8(name)) {
            Ok(members[first_index(members, encode_utf8(name))].1)
        } else {
            Err(no_member(name))
        },
    }
}

/// What [`check_stream`] answers: whether every member stays below the
/// directory the stream is unpacked into.
pub open spec fn checked(listing: Result<Seq<(Seq<u8>, Seq<u8>)>, Seq<char>>) -> Result<
    (),
    ErrorView,
> {
    match listing {
        Err(detail) => Err(ErrorView { kind: ErrorKind::Extraction, detail }),
        Ok(members) => if all_confined(members) {
            Ok(())
        } else {
            Err(escapes())
        },
    }
}

/// What [`extract_member`] answers where decompression gave `decoded`.
pub open spec fn member_after(decoded: Result<Seq<u8>, Seq<char>>, name: Seq<char>) -> Result<
    Seq<u8>,
    ErrorView,
> {
    match decoded {
        Err(detail) => Err(ErrorView { kind: ErrorKind::Extraction, detail }),
        Ok(tar) => member_content(tar_members(tar), name),
    }
}

/// What [`extract_all`] answers where decompression gave `decoded`: the
/// stream, if all its members are confined.
pub open spec fn stream_after(decoded: Result<Seq<u8>, Seq<char>>) -> Result<Seq<u8>, ErrorView> {
    match decoded {
        Err(detail) => Err(ErrorView { kind: ErrorKind::Extraction, detail }),
        Ok(tar) => match checked(tar_members(tar)) {
            Ok(()) => Ok(tar),
            Err(e) => Err(e),
        },
    }
}

/// A stream is only handed out for unpacking if it can be read to its end
/// and none of its members has an absolute path or a component `..`.
pub proof fn stream_for_unpacking_is_confined(decoded: Result<Seq<u8>, Seq<char>>, tar: Seq<u8>)
    requires
        stream_after(decoded) == Ok::<_, ErrorView>(tar),
    ensures
        decoded == Ok::<_, Seq<char>>(tar),
        tar_members(tar) matches Ok(members) && forall|i: int|
            0 <= i < members.len() ==> !is_absolute(#[trigger] members[i].0) && forall|at: int|
                !parent_at(members[i].0, at),
{
    let members = tar_members(tar)->Ok_0;
    assert forall|i: int| 0 <= i < members.len() implies !is_absolute(#[trigger] members[i].0)
        && forall|at: int| !parent_at(members[i].0, at) by {
        assert(confined(members[i].0));
    }
}

/// What [`text_of`] answers: the text that `bytes` encode.
pub open spec fn decoded_text(bytes: Seq<u8>) -> Result<Seq<char>, ErrorView> {
    if valid_utf8(bytes) {
        Ok(decode_utf8(bytes))
    } else {
        Err(ErrorView { kind: ErrorKind::Extraction, detail: "member is not valid UTF-8"@ })
    }
}

/// Calls `String::from_utf8`, which succeeds exactly on valid UTF-8 and then
/// returns the text that the bytes encode.
#[verifier::external_body]
fn utf8_text(bytes: Vec<u8>) -> (text: Option<String>)
    ensures
        text is Some == valid_utf8(bytes@),
        text matches Some(t) ==> t@ == decode_utf8(bytes@),
{
    String::from_utf8(bytes).ok()
}

/// The text that `bytes` encode in UTF-8.
pub fn text_of(bytes: Vec<u8>) -> (r: Result<String, Error>)
    ensures
        text_view(r) == decoded_text(bytes@),
{
    match utf8_text(bytes) {
        Some(text) => Ok(text),
        None => Err(
            Error::new(ErrorKind::Extraction, String::from_str("member is not valid UTF-8")),
        ),
    }
}

/// The content of the first member of the tar stream `tar` that has the
/// path `name`.
pub fn read_member(tar: &[u8], name: &str) -> (r: Result<Vec<u8>, Error>)
    ensures
        bytes_view(r) == member_content(tar_members(tar@), name@),
{
    match tar_list(tar) {
        Err(detail) => Err(Error::new(ErrorKind::Extraction, detail)),
        Ok(mut members) => {
            match find_member(&members, name.as_bytes()) {
                Some(at) => {
                    let ghost listed = members.deep_view();
                    let member = members.remove(at);
                    assert(listed[at as int] == (member.0@, member.1@));
                    Ok(member.1)
                },
                None => {
                    let detail = String::from_str(name).concat(" not found in archive");
                    Err(Error::new(ErrorKind::Extraction, detail))
                },
            }
        },
    }
}

/// Whether the tar stream `tar` can be unpacked: it can be read to its end
/// and every member stays below the directory it is unpacked into.
pub fn check_stream(tar: &[u8]) -> (r: Result<(), Error>)
    ensures
        unit_view(r) == checked(tar_members(tar@)),
{
    match tar_list(tar) {
        Err(detail) => Err(Error::new(ErrorKind::Extraction, detail)),
        Ok(members) => {
            match find_escape(&members) {
                None => Ok(()),
                Some(_) => Err(
                    Error::new(
                        ErrorKind::Extraction,
                        String::from_str("archive member leaves the destination"),
                    ),
                ),
            }
        },
    }
}

/// The content of the member `name` of the compressed archive `archive`,
/// without a byte written anywhere.
pub fn extract_member(archive: &[u8], name: &str) -> (r: Result<Vec<u8>, Error>)
    ensures
        exists|decoded: Result<Seq<u8>, Seq<char>>| #[trigger]
            plausible(archive@, decoded) && bytes_view(r) == member_after(decoded, name@),
{
    let decoded = xz_decompress(archive);
    assert(plausible(archive@, stream_view(decoded)));
    match decoded {
        Err(detail) => Err(Error::new(ErrorKind::Extraction, detail)),
        Ok(tar) => read_member(tar.as_slice(), name),
    }
}

/// What to make of what decompression returned: the stream, once every
/// member's path has been checked.
pub fn checked_stream(decoded: Result<Vec<u8>, String>) -> (r: Result<Vec<u8>, Error>)
    ensures
        bytes_view(r) == stream_after(stream_view(decoded)),
{
    match decoded {
        Err(detail) => Err(Error::new(ErrorKind::Extraction, detail)),
        Ok(tar) => match check_stream(tar.as_slice()) {
            Ok(()) => Ok(tar),
            Err(e) => Err(e),
        },
    }
}

/// The tar stream that the compressed archive `archive` holds, once every
/// member's path has been checked: what it returns can be unpacked into a
/// directory without a file landing outside it.
pub fn extract_all(archive: &[u8]) -> (r: Result<Vec<u8>, Error>)
    ensures
        exists|decoded: Result<Seq<u8>, Seq<char>>| #[trigger]
            plausible(archive@, decoded) && bytes_view(r) == stream_after(decoded),
{
    let decoded = xz_decompress(archive);
    assert(plausible(archive@, stream_view(decoded)));
    checked_stream(decoded)
}

} // verus!
