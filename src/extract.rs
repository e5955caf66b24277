use vstd::prelude::*;

use crate::archive::{archive_len, open_archive, read_entry, zip_entries, zip_entries_of, zip_opens, Archive};
use crate::text::{chars_of, string_of};

verus! {

/// What went wrong while unpacking.
#[derive(Debug, Clone, Copy, PartialEq, Eq, Structural)]
pub enum ExtractionCause {
    /// The payload is not a readable archive.
    MalformedArchive,
    /// An entry could not be read or decompressed.
    UnreadableEntry,
    /// An entry's name would place it outside the destination.
    UnsafePath,
    /// Writing an entry to the filesystem failed.
    WriteFailed,
}

/// An extraction failure, with the index of the entry it came at, if any.
#[derive(Debug, Clone, Copy, PartialEq, Eq, Structural)]
pub struct ExtractionError {
    pub entry_index: Option<usize>,
    pub cause: ExtractionCause,
}

/// What unpacking one entry asks of the filesystem.
#[derive(Debug)]
pub enum EntryAction {
    /// Create the directory and all its missing ancestors.
    CreateDir { path: String },
    /// Create the parent chain, then write the file, replacing any content.
    WriteFile { path: String, contents: Vec<u8> },
}

/// The separators an entry name may use.
pub open spec fn is_separator(c: char) -> bool {
    c == '/' || c == '\\'
}

/// The name marks a directory: it ends with a separator.
pub open spec fn is_dir_name(name: Seq<char>) -> bool {
    name.len() > 0 && is_separator(name.last())
}

/// The depth below the root after a completed segment `seg`, starting at
/// `depth`, and whether the walk has stayed at or below the root: `..` climbs
/// one level, an empty segment and `.` stay, any other segment descends.
pub open spec fn close_segment(depth: int, ok: bool, seg: Seq<char>) -> (int, bool) {
    if seg == seq!['.', '.'] {
        (depth - 1, ok && depth >= 1)
    } else if seg.len() == 0 || seg == seq!['.'] {
        (depth, ok)
    } else {
        (depth + 1, ok)
    }
}

/// The walk over the first `i` characters of `name`: the depth reached by the
/// completed segments, whether nothing so far leaves the root or names a
/// drive (a `:` in the first segment), the segment in progress, and whether
/// it is the first one.
pub open spec fn walk(name: Seq<char>, i: nat) -> (int, bool, Seq<char>, bool)
    decreases i,
{
    if i == 0 || i > name.len() {
        (0, true, seq![], true)
    } else {
        let (depth, ok, seg, first) = walk(name, (i - 1) as nat);
        let c = name[i - 1];
        if is_separator(c) {
            let (d, k) = close_segment(depth, ok, seg);
            (d, k, seq![], false)
        } else {
            (depth, ok && !(first && c == ':'), seg.push(c), first)
        }
    }
}

/// The name stays below the directory it is joined to: it is not empty, not
/// absolute, names no drive, and its `..` segments never climb above the
/// directory.
pub open spec fn is_safe_name(name: Seq<char>) -> bool {
    let (depth, ok, seg, first) = walk(name, name.len());
    &&& name.len() > 0
    &&& !is_separator(name[0])
    &&& close_segment(depth, ok, seg).1
}

/// Once the walk has left the root, it never comes back.
pub proof fn lemma_refusal_persists(name: Seq<char>, i: nat, j: nat)
    requires
        i <= j <= name.len(),
        !walk(name, i).1,
    ensures
        !walk(name, j).1,
    decreases j - i,
{
    if i < j {
        lemma_refusal_persists(name, i, (j - 1) as nat);
    }
}

/// `name` placed under `root`.
pub open spec fn join(root: Seq<char>, name: Seq<char>) -> Seq<char> {
    if root.len() == 0 || is_separator(root.last()) {
        root + name
    } else {
        root + seq!['/'] + name
    }
}

impl EntryAction {
    /// The path the action works on.
    pub open spec fn target(&self) -> Seq<char> {
        match self {
            EntryAction::CreateDir { path } => path@,
            EntryAction::WriteFile { path, .. } => path@,
        }
    }
}

/// `a` is what an entry of `name` and `data` under `root` asks for.
pub open spec fn is_action_for(root: Seq<char>, name: Seq<char>, data: Seq<u8>, a: EntryAction) -> bool {
    &&& a.target() == join(root, name)
    &&& if is_dir_name(name) {
        a is CreateDir
    } else {
        a matches EntryAction::WriteFile { contents, .. } && contents@ == data
    }
}

/// `r` is what unpacking `entry`, found at `index`, under `root` gives: its
/// action where it was read and its name is safe, an error at `index` else.
pub open spec fn is_outcome_for(
    root: Seq<char>,
    index: usize,
    entry: Option<(Seq<char>, Seq<u8>)>,
    r: Result<EntryAction, ExtractionError>,
) -> bool {
    match entry {
        None => r == Err::<EntryAction, ExtractionError>(
            ExtractionError { entry_index: Some(index), cause: ExtractionCause::UnreadableEntry },
        ),
        Some((name, data)) => if is_safe_name(name) {
            r matches Ok(a) && is_action_for(root, name, data, a)
        } else {
            r == Err::<EntryAction, ExtractionError>(
                ExtractionError { entry_index: Some(index), cause: ExtractionCause::UnsafePath },
            )
        },
    }
}

/// Checks that `name` is safe to join to a destination.
pub fn check_name(name: &Vec<char>) -> (r: bool)
    ensures
        r == is_safe_name(name@),
{
    let ghost s = name@;
    let n = name.len();
    if n == 0 || name[0] == '/' || name[0] == '\\' {
        return false;
    }
    let mut depth: usize = 0;
    let mut start: usize = 0;
    let mut first = true;
    let mut i: usize = 0;
    while i < n
        invariant
            n == name.len(),
            s == name@,
            start <= i <= n,
            depth <= i,
            walk(s, i as nat) == (depth as int, true, s.subrange(start as int, i as int), first),
        decreases n - i,
    {
        let c = name[i];
        assert(s.subrange(start as int, i as int).push(c) =~= s.subrange(start as int, i + 1));
        if c == '/' || c == '\\' {
            let len = i - start;
            if len == 2 && name[start] == '.' && name[start + 1] == '.' {
                assert(s.subrange(start as int, i as int) =~= seq!['.', '.']);
                if depth == 0 {
                    proof {
                        lemma_refusal_persists(s, (i + 1) as nat, n as nat);
                    }
                    return false;
                }
                depth = depth - 1;
            } else if len == 0 || (len == 1 && name[start] == '.') {
                assert(len == 1 ==> s.subrange(start as int, i as int) =~= seq!['.']);
            } else {
                proof {
                    let seg = s.subrange(start as int, i as int);
                    let dd: Seq<char> = seq!['.', '.'];
                    let d1: Seq<char> = seq!['.'];
                    assert(dd.len() == 2 && dd[0] == '.' && dd[1] == '.');
                    assert(d1.len() == 1 && d1[0] == '.');
                    if seg.len() >= 1 {
                        assert(seg[0] == s[start as int]);
                    }
                    if seg.len() >= 2 {
                        assert(seg[1] == s[start + 1]);
                    }
                    assert(seg != dd);
                    assert(seg != d1);
                }
                depth = depth + 1;
            }
            start = i + 1;
            first = false;
            assert(s.subrange(start as int, start as int) =~= seq![]);
        } else if first && c == ':' {
            proof {
                lemma_refusal_persists(s, (i + 1) as nat, n as nat);
            }
            return false;
        }
        i = i + 1;
    }
    let len = n - start;
    if len == 2 && name[start] == '.' && name[start + 1] == '.' {
        assert(s.subrange(start as int, n as int) =~= seq!['.', '.']);
        depth != 0
    } else {
        proof {
            let seg = s.subrange(start as int, n as int);
            let dd: Seq<char> = seq!['.', '.'];
            assert(dd.len() == 2 && dd[0] == '.' && dd[1] == '.');
            if seg.len() == 2 {
                assert(seg[0] == s[start as int]);
                assert(seg[1] == s[start + 1]);
            }
            assert(seg != dd);
        }
        true
    }
}

/// Decides what one entry of the archive asks for under `root`.
pub fn plan_entry(root: &str, name: &str, data: Vec<u8>) -> (r: Result<EntryAction, ExtractionCause>)
    ensures
        r is Ok <==> is_safe_name(name@),
        r matches Ok(a) ==> is_action_for(root@, name@, data@, a),
        r is Err ==> r == Err::<EntryAction, ExtractionCause>(ExtractionCause::UnsafePath),
{
    let name_chars = chars_of(name);
    if !check_name(&name_chars) {
        return Err(ExtractionCause::UnsafePath);
    }
    let mut path = chars_of(root);
    let rn = path.len();
    if !(rn == 0 || path[rn - 1] == '/' || path[rn - 1] == '\\') {
        path.push('/');
    }
    let ghost base = path@;
    let mut i: usize = 0;
    while i < name_chars.len()
        invariant
            i <= name_chars.len(),
            path@ == base + name_chars@.subrange(0, i as int),
        decreases name_chars.len() - i,
    {
        path.push(name_chars[i]);
        i = i + 1;
        assert(path@ =~= base + name_chars@.subrange(0, i as int));
    }
    assert(name_chars@.subrange(0, name_chars.len() as int) =~= name_chars@);
    assert(path@ =~= join(root@, name@));
    let nn = name_chars.len();
    let target = string_of(&path);
    if name_chars[nn - 1] == '/' || name_chars[nn - 1] == '\\' {
        Ok(EntryAction::CreateDir { path: target })
    } else {
        Ok(EntryAction::WriteFile { path: target, contents: data })
    }
}

/// An archive being unpacked under a destination, one entry at a time, in
/// the archive's order. After a failure it hands out nothing more: what was
/// already written stays where it is.
pub struct Extraction {
    archive: Archive,
    root: String,
    count: usize,
    next: usize,
    failed: bool,
}

impl Extraction {
    /// The destination directory.
    pub closed spec fn root(&self) -> Seq<char> {
        self.root@
    }

    /// The number of entries in the archive.
    pub closed spec fn count(&self) -> nat {
        self.count as nat
    }

    /// The index of the next entry to unpack.
    pub closed spec fn next_index(&self) -> nat {
        self.next as nat
    }

    /// The entries of the archive, in order.
    pub closed spec fn entries(&self) -> Seq<Option<(Seq<char>, Seq<u8>)>> {
        zip_entries(self.archive)
    }

    /// Whether an entry has failed.
    pub closed spec fn failed(&self) -> bool {
        self.failed
    }

    /// Whether entries are left to hand out.
    pub open spec fn is_active(&self) -> bool {
        !self.failed() && self.next_index() < self.count()
    }

    pub closed spec fn wf(&self) -> bool {
        &&& self.next <= self.count
        &&& self.count == zip_entries(self.archive).len()
    }

    /// Opens `data` as an archive to unpack under `root`.
    pub fn open(data: Vec<u8>, root: &str) -> (r: Result<Extraction, ExtractionError>)
        ensures
            r is Ok <==> zip_opens(data@),
            r matches Ok(x) ==> x.wf() && x.root() == root@ && x.next_index() == 0 && !x.failed(),
            r matches Ok(x) ==> x.count() == x.entries().len(),
            r matches Ok(x) ==> x.entries() == zip_entries_of(data@),
            r matches Err(e) ==> e == (ExtractionError {
                entry_index: None,
                cause: ExtractionCause::MalformedArchive,
            }),
    {
        match open_archive(data) {
            Ok(archive) => {
                let count = archive_len(&archive);
                Ok(Extraction { archive, root: root.to_owned(), count, next: 0, failed: false })
            },
            Err(_) => Err(ExtractionError { entry_index: None, cause: ExtractionCause::MalformedArchive }),
        }
    }

    /// Reads the next entry and says what it asks for; `None` once every
    /// entry was handed out or one has failed.
    pub fn next_action(&mut self) -> (r: Option<Result<EntryAction, ExtractionError>>)
        requires
            old(self).wf(),
        ensures
            final(self).wf(),
            final(self).root() == old(self).root(),
            final(self).count() == old(self).count(),
            final(self).entries() == old(self).entries(),
            old(self).is_active() ==> (r matches Some(x) && is_outcome_for(
                old(self).root(),
                old(self).next_index() as usize,
                old(self).entries()[old(self).next_index() as int],
                x,
            )),
            !old(self).is_active() ==> r is None && final(self).next_index() == old(self).next_index()
                && final(self).failed() == old(self).failed(),
            old(self).is_active() ==> r is Some && final(self).next_index() == old(self).next_index()
                + 1,
            r matches Some(Ok(_)) ==> !final(self).failed(),
            r matches Some(Ok(a)) ==> exists|name: Seq<char>, data: Seq<u8>|
                is_safe_name(name) && is_action_for(old(self).root(), name, data, a),
            r matches Some(Err(e)) ==> final(self).failed() && e.entry_index == Some(
                old(self).next_index() as usize,
            ) && (e.cause == ExtractionCause::UnreadableEntry || e.cause
                == ExtractionCause::UnsafePath),
    {
        if self.failed || self.next >= self.count {
            return None;
        }
        let i = self.next;
        self.next = self.next + 1;
        match read_entry(&mut self.archive, i) {
            Err(_) | Ok(Err(_)) => {
                self.failed = true;
                Some(Err(ExtractionError { entry_index: Some(i), cause: ExtractionCause::UnreadableEntry }))
            },
            Ok(Ok((name, data))) => {
                let ghost d = data@;
                match plan_entry(self.root.as_str(), name.as_str(), data) {
                    Ok(a) => {
                        assert(is_safe_name(name@) && is_action_for(old(self).root(), name@, d, a));
                        Some(Ok(a))
                    },
                    Err(cause) => {
                        self.failed = true;
                        Some(Err(ExtractionError { entry_index: Some(i), cause }))
                    },
                }
            },
        }
    }

    /// Records that writing the entry last handed out failed; nothing more
    /// is handed out after it.
    pub fn write_failed(&mut self) -> (r: ExtractionError)
        requires
            old(self).wf(),
            old(self).next_index() > 0,
        ensures
            final(self).wf(),
            final(self).failed(),
            final(self).next_index() == old(self).next_index(),
            final(self).root() == old(self).root(),
            r == (ExtractionError {
                entry_index: Some((old(self).next_index() - 1) as usize),
                cause: ExtractionCause::WriteFailed,
            }),
    {
        self.failed = true;
        ExtractionError { entry_index: Some(self.next - 1), cause: ExtractionCause::WriteFailed }
    }
}

/// A path that a safe entry name joined to `root` gives starts with `root`
/// and ends with the name, which never climbs above `root`.
pub proof fn law_target_inside_root(root: Seq<char>, name: Seq<char>)
    requires
        is_safe_name(name),
    ensures
        join(root, name).len() > root.len(),
        join(root, name).subrange(0, root.len() as int) == root,
        join(root, name).subrange(join(root, name).len() - name.len(), join(root, name).len() as int)
            == name,
{
    let p = join(root, name);
    assert(p.subrange(0, root.len() as int) =~= root);
    assert(p.subrange(p.len() - name.len(), p.len() as int) =~= name);
}

} // verus!
