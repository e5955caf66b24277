use vstd::prelude::*;

use crate::text::{chars_of, string_of};

verus! {

/// Why a directory could not be removed.
#[derive(Debug, Clone, Copy, PartialEq, Eq, Structural)]
pub enum RemovalCause {
    /// The directory does not exist.
    NotFound,
    /// The directory exists but could not be deleted.
    Inaccessible,
}

/// The first directory that could not be removed, and why.
#[derive(Debug)]
pub struct RemovalError {
    pub path: String,
    pub cause: RemovalCause,
}

/// The path of managed folder `folder` under `root`.
pub open spec fn folder_path(root: Seq<char>, folder: Seq<char>) -> Seq<char> {
    root + seq!['\\'] + folder
}

/// `folder` under `root`, joined by a backslash.
pub fn folder_target(root: &str, folder: &str) -> (r: String)
    ensures
        r@ == folder_path(root@, folder@),
{
    let mut p = chars_of(root);
    p.push('\\');
    let f = chars_of(folder);
    let ghost base = p@;
    let mut i: usize = 0;
    while i < f.len()
        invariant
            i <= f.len(),
            p@ == base + f@.subrange(0, i as int),
        decreases f.len() - i,
    {
        p.push(f[i]);
        i = i + 1;
        assert(p@ =~= base + f@.subrange(0, i as int));
    }
    assert(f@.subrange(0, f.len() as int) =~= f@);
    string_of(&p)
}

/// The removal of managed folders under a root, in their configured order,
/// stopping at the first failure: folders after it are left untouched.
pub struct Removal {
    targets: Vec<String>,
    next: usize,
    error: Option<RemovalError>,
}

impl Removal {
    /// The directories to remove, in order.
    pub closed spec fn targets(&self) -> Seq<Seq<char>> {
        self.targets@.map_values(|t: String| t@)
    }

    /// How many directories have been removed.
    pub closed spec fn removed(&self) -> nat {
        self.next as nat
    }

    /// The failure that stopped the run, if any.
    pub closed spec fn error(&self) -> Option<RemovalError> {
        self.error
    }

    pub closed spec fn wf(&self) -> bool {
        self.next <= self.targets.len()
    }

    /// Whether a directory is left to remove.
    pub open spec fn is_active(&self) -> bool {
        self.error() is None && self.removed() < self.targets().len()
    }

    /// A run over `folders` under `root`, before any removal.
    pub fn new(root: &str, folders: &Vec<String>) -> (r: Removal)
        ensures
            r.wf(),
            r.removed() == 0,
            r.error() is None,
            r.targets().len() == folders.len(),
            forall|i: int|
                0 <= i < folders.len() ==> #[trigger] r.targets()[i] == folder_path(
                    root@,
                    folders@[i]@,
                ),
    {
        let mut targets: Vec<String> = Vec::new();
        let mut i: usize = 0;
        while i < folders.len()
            invariant
                i <= folders.len(),
                targets.len() == i,
                forall|j: int| 0 <= j < i ==> #[trigger] targets@[j]@ == folder_path(root@, folders@[j]@),
            decreases folders.len() - i,
        {
            targets.push(folder_target(root, folders[i].as_str()));
            i = i + 1;
        }
        Removal { targets, next: 0, error: None }
    }

    /// The next directory to remove; `None` once all are removed or one failed.
    pub fn next_target(&self) -> (r: Option<String>)
        requires
            self.wf(),
        ensures
            self.is_active() ==> r is Some && r->Some_0@ == self.targets()[self.removed() as int],
            !self.is_active() ==> r is None,
    {
        if self.error.is_some() || self.next >= self.targets.len() {
            None
        } else {
            Some(self.targets[self.next].clone())
        }
    }

    /// Records what removing the directory of `next_target` gave.
    pub fn record(&mut self, outcome: Result<(), RemovalCause>)
        requires
            old(self).wf(),
            old(self).is_active(),
        ensures
            final(self).wf(),
            final(self).targets() == old(self).targets(),
            outcome is Ok ==> final(self).removed() == old(self).removed() + 1,
            outcome is Ok ==> final(self).error() is None,
            outcome is Err ==> final(self).removed() == old(self).removed(),
            outcome matches Err(c) ==> (final(self).error() matches Some(e)
                && e.path@ == old(self).targets()[old(self).removed() as int] && e.cause == c),
    {
        match outcome {
            Ok(()) => {
                self.next = self.next + 1;
            },
            Err(cause) => {
                self.error = Some(RemovalError { path: self.targets[self.next].clone(), cause });
            },
        }
    }

    /// How the run ended: `None` while directories are left, `Ok` once all
    /// were removed, the failure otherwise.
    pub fn result(&self) -> (r: Option<Result<(), RemovalError>>)
        requires
            self.wf(),
        ensures
            self.is_active() ==> r is None,
            self.error() is None && !self.is_active() ==> r matches Some(Ok(())),
            self.error() matches Some(e) ==> (r matches Some(Err(x)) && x.path@ == e.path@
                && x.cause == e.cause),
    {
        match &self.error {
            Some(e) => Some(Err(RemovalError { path: e.path.clone(), cause: e.cause })),
            None => if self.next >= self.targets.len() {
                Some(Ok(()))
            } else {
                None
            },
        }
    }
}

/// Once a removal has failed, no directory is handed out any more, so the
/// folders after the failing one are left untouched; before that, folders
/// are handed out in their configured order.
pub proof fn law_fail_fast_in_order(r: Removal)
    requires
        r.wf(),
    ensures
        r.error() is Some ==> !r.is_active(),
        r.is_active() ==> r.removed() < r.targets().len(),
{
}

} // verus!
