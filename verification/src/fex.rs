//! The directory view: a one-slot cache of the last listed path and its
//! records. A request for the cached, non-empty path is answered from the
//! cache without a fresh scan; a request for a different path, or for the
//! empty path, consumes the outcome of a fresh scan, which the caller
//! performs and hands in as plain data.
use crate::record::clone_records;
use crate::record::normalize_entries;
use crate::record::spec_records;
use crate::record::FexFile;
use crate::record::FexFileView;
use crate::record::RawEntry;
use crate::text::str_eq;
use crate::FexError;
use vstd::prelude::*;

verus! {

/// The mathematical value of a [`Fex`]: the cached records and the cached
/// path, as sequences.
pub struct FexView {
    pub files: Seq<FexFileView>,
    pub dir: Seq<char>,
}

/// The directory view. Its two fields are the single cache slot: the
/// records of the last fresh scan and the path they were scanned for.
pub struct Fex {
    files: Vec<FexFile>,
    dir: String,
}

impl View for Fex {
    type V = FexView;

    closed spec fn view(&self) -> FexView {
        FexView { files: self.files.deep_view(), dir: self.dir@ }
    }
}

impl Fex {
    /// A request for `dir` must go to the filesystem exactly when `dir` is
    /// the empty path or differs from the cached path.
    pub open spec fn spec_needs_scan(&self, dir: Seq<char>) -> bool {
        dir.len() == 0 || self@.dir != dir
    }

    /// A fresh view: nothing cached, the cached path empty.
    pub fn new() -> (f: Fex)
        ensures
            f@.files == Seq::<FexFileView>::empty(),
            f@.dir == Seq::<char>::empty(),
    {
        let f = Fex { files: Vec::new(), dir: String::new() };
        proof {
            assert(f@.files =~= Seq::<FexFileView>::empty());
        }
        f
    }

    /// Decides whether listing `dir` needs a fresh scan of the filesystem.
    pub fn needs_scan(&self, dir: &str) -> (b: bool)
        ensures
            b == self.spec_needs_scan(dir@),
    {
        dir.is_empty() || !str_eq(self.dir.as_str(), dir)
    }

    /// Lists `dir`. When the cache answers (`dir` non-empty and equal to the
    /// cached path), the cached records come back unchanged and `fresh` is
    /// ignored. Otherwise `fresh` must carry the outcome of a fresh scan of
    /// `dir`: its entries are normalized into records, cached under `dir`,
    /// and returned; a failed or missing scan outcome leaves the cache as it
    /// was and reports the directory unreadable.
    pub fn files(&mut self, dir: &str, fresh: Option<Result<Vec<RawEntry>, ()>>) -> (r: Result<
        Vec<FexFile>,
        FexError,
    >)
        ensures
            !old(self).spec_needs_scan(dir@) ==> ({
                &&& *final(self) == *old(self)
                &&& r matches Ok(v) && v.deep_view() == old(self)@.files
            }),
            old(self).spec_needs_scan(dir@) ==> (match fresh {
                Some(Ok(es)) => {
                    &&& final(self)@.dir == dir@
                    &&& final(self)@.files == spec_records(es.deep_view())
                    &&& r matches Ok(v) && v.deep_view() == final(self)@.files
                },
                _ => {
                    &&& *final(self) == *old(self)
                    &&& r matches Err(e) && e == FexError::DirectoryUnreadable
                },
            }),
    {
        if !self.needs_scan(dir) {
            let records = clone_records(&self.files);
            Ok(records)
        } else {
            match fresh {
                Some(Ok(es)) => {
                    self.dir = dir.to_owned();
                    self.files = normalize_entries(&es);
                    let records = clone_records(&self.files);
                    Ok(records)
                },
                _ => Err(FexError::DirectoryUnreadable),
            }
        }
    }
}

/// A listing request for the empty path always forces a fresh scan, even
/// when the cached path is itself empty.
pub proof fn lemma_empty_path_forces_scan(f: &Fex)
    ensures
        f.spec_needs_scan(Seq::<char>::empty()),
{
}

/// A repeated listing request for the cached, non-empty path is a cache
/// hit: no fresh scan is made, so together with the contract of
/// [`Fex::files`] the second request returns the cached records unchanged,
/// stale or not.
pub proof fn lemma_same_path_is_cache_hit(f: &Fex, dir: Seq<char>)
    requires
        f@.dir == dir,
        dir.len() > 0,
    ensures
        !f.spec_needs_scan(dir),
{
}

/// A listing request for any path other than the cached one forces a
/// fresh scan.
pub proof fn lemma_changed_path_forces_scan(f: &Fex, dir: Seq<char>)
    requires
        f@.dir != dir,
    ensures
        f.spec_needs_scan(dir),
{
}

} // verus!
