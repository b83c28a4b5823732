//! The manifest of a release: which digest each file has.

use vstd::prelude::*;
use vstd::string::*;
use crate::error::{text_view, Error, ErrorKind, ErrorView};

verus! {

/// What a manifest document holds: the release time and the entries of
/// `files` in the order of their names; or, where the bytes are no manifest,
/// the parser's message.
pub uninterp spec fn manifest_document(bytes: Seq<u8>) -> Result<
    (u64, Seq<(Seq<char>, Seq<char>)>),
    Seq<char>,
>;

/// The view of what the parser returned.
pub open spec fn document_view(r: Result<(u64, Vec<(String, String)>), String>) -> Result<
    (u64, Seq<(Seq<char>, Seq<char>)>),
    Seq<char>,
> {
    match r {
        Ok(m) => Ok((m.0, m.1.deep_view())),
        Err(detail) => Err(detail@),
    }
}

/// Calls `serde_json::from_slice` for a `buildchain::Manifest` and hands out
/// its `time`, and its `files` as pairs of name and digest, or the error's
/// message. The contract only gives the outcome a name: it is a function of
/// `bytes` alone.
#[verifier::external_body]
fn read_document(bytes: &[u8]) -> (r: Result<(u64, Vec<(String, String)>), String>)
    ensures
        document_view(r) == manifest_document(bytes@),
{
    match serde_json::from_slice::<buildchain::Manifest>(bytes) {
        Ok(manifest) => Ok((manifest.time, manifest.files.into_iter().collect())),
        Err(err) => Err(err.to_string()),
    }
}

/// The mapping that a list of entries stands for: each name maps to the
/// digest of its last entry.
pub open spec fn files_of(entries: Seq<(Seq<char>, Seq<char>)>) -> Map<Seq<char>, Seq<char>>
    decreases entries.len(),
{
    if entries.len() == 0 {
        Map::empty()
    } else {
        files_of(entries.drop_last()).insert(entries.last().0, entries.last().1)
    }
}

/// A name that no entry has is not in the mapping.
pub proof fn lemma_files_of_absent(entries: Seq<(Seq<char>, Seq<char>)>, name: Seq<char>)
    requires
        forall|i: int| 0 <= i < entries.len() ==> entries[i].0 != name,
    ensures
        !files_of(entries).contains_key(name),
    decreases entries.len(),
{
    if entries.len() > 0 {
        lemma_files_of_absent(entries.drop_last(), name);
    }
}

/// A name maps to the digest of the last entry that has it.
pub proof fn lemma_files_of_last(entries: Seq<(Seq<char>, Seq<char>)>, name: Seq<char>, at: int)
    requires
        0 <= at < entries.len(),
        entries[at].0 == name,
        forall|i: int| at < i < entries.len() ==> entries[i].0 != name,
    ensures
        files_of(entries).contains_key(name),
        files_of(entries)[name] == entries[at].1,
    decreases entries.len(),
{
    if at < entries.len() - 1 {
        lemma_files_of_last(entries.drop_last(), name, at);
    }
}

/// The text of the failure for a name that the manifest lacks.
pub open spec fn not_found(name: Seq<char>) -> Seq<char> {
    name + " not found"@
}

/// A release's manifest.
#[derive(Debug)]
pub struct Manifest {
    /// When the release was built, in seconds since the epoch.
    pub time: u64,
    entries: Vec<(String, String)>,
}

/// The mathematical value of a [`Manifest`].
pub struct ManifestView {
    pub time: u64,
    pub files: Map<Seq<char>, Seq<char>>,
}

impl View for Manifest {
    type V = ManifestView;

    closed spec fn view(&self) -> ManifestView {
        ManifestView { time: self.time, files: files_of(self.entries.deep_view()) }
    }
}

/// What [`Manifest::lookup`] answers for `name` in `files`.
pub open spec fn lookup_of(files: Map<Seq<char>, Seq<char>>, name: Seq<char>) -> Result<
    Seq<char>,
    ErrorView,
> {
    if files.contains_key(name) {
        Ok(files[name])
    } else {
        Err(ErrorView { kind: ErrorKind::Manifest, detail: not_found(name) })
    }
}

/// Whatever a manifest holds, a name that it does not list is answered with
/// a failure, never with a digest, and the failure's message begins with
/// the name.
pub proof fn absent_name_is_reported(files: Map<Seq<char>, Seq<char>>, name: Seq<char>)
    requires
        !files.contains_key(name),
    ensures
        lookup_of(files, name) matches Err(e) && e.kind == ErrorKind::Manifest && e.detail
            == not_found(name) && e.detail.subrange(0, name.len() as int) == name,
{
    assert(not_found(name).subrange(0, name.len() as int) =~= name);
}

/// What [`Manifest::parse`] makes of what the parser returned.
pub open spec fn parsed(document: Result<(u64, Seq<(Seq<char>, Seq<char>)>), Seq<char>>) -> Result<
    ManifestView,
    ErrorView,
> {
    match document {
        Ok((time, entries)) => Ok(ManifestView { time, files: files_of(entries) }),
        Err(detail) => Err(ErrorView { kind: ErrorKind::Manifest, detail }),
    }
}

/// The view of a manifest or the failure to read one.
pub open spec fn manifest_view(r: Result<Manifest, Error>) -> Result<ManifestView, ErrorView> {
    match r {
        Ok(manifest) => Ok(manifest@),
        Err(e) => Err(e@),
    }
}

impl Manifest {
    /// A manifest without files.
    pub fn new(time: u64) -> (m: Manifest)
        ensures
            m@ == (ManifestView { time, files: Map::empty() }),
    {
        let m = Manifest { time, entries: Vec::new() };
        assert(m.entries.deep_view() =~= Seq::empty());
        m
    }

    /// The manifest that lists `entries`, pairs of name and digest; of two
    /// entries with one name the later one counts.
    pub fn from_entries(time: u64, entries: Vec<(String, String)>) -> (m: Manifest)
        ensures
            m@ == (ManifestView { time, files: files_of(entries.deep_view()) }),
    {
        Manifest { time, entries }
    }

    /// Records that the file `name` has the digest `digest`, in place of any
    /// digest it had.
    pub fn insert(&mut self, name: String, digest: String)
        ensures
            final(self)@ == (ManifestView {
                time: old(self)@.time,
                files: old(self)@.files.insert(name@, digest@),
            }),
    {
        let ghost before = self.entries.deep_view();
        self.entries.push((name, digest));
        proof {
            let after = self.entries.deep_view();
            assert(after.drop_last() =~= before);
            assert(after.last() == (name@, digest@));
        }
    }

    /// The digest of the file `name`, or the failure that names it.
    pub fn lookup(&self, name: &str) -> (r: Result<String, Error>)
        ensures
            text_view(r) == lookup_of(self@.files, name@),
    {
        let ghost entries = self.entries.deep_view();
        let wanted = String::from_str(name);
        let mut i: usize = self.entries.len();
        while i > 0
            invariant
                i <= self.entries.len(),
                entries == self.entries.deep_view(),
                wanted@ == name@,
                forall|k: int| i <= k < entries.len() ==> entries[k].0 != name@,
            decreases i,
        {
            i = i - 1;
            let entry = &self.entries[i];
            assert(entries[i as int] == (entry.0@, entry.1@));
            if entry.0 == wanted {
                proof {
                    lemma_files_of_last(entries, name@, i as int);
                }
                return Ok(entry.1.clone());
            }
        }
        proof {
            lemma_files_of_absent(entries, name@);
        }
        let detail = wanted.concat(" not found");
        Err(Error::new(ErrorKind::Manifest, detail))
    }

    /// Reads a manifest document.
    pub fn parse(bytes: &[u8]) -> (r: Result<Manifest, Error>)
        ensures
            manifest_view(r) == parsed(manifest_document(bytes@)),
    {
        match read_document(bytes) {
            Ok((time, entries)) => Ok(Manifest::from_entries(time, entries)),
            Err(detail) => Err(Error::new(ErrorKind::Manifest, detail)),
        }
    }
}

} // verus!
