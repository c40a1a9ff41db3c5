//! Where a sync may write: allowed roots, minus forbidden ones.

use vstd::prelude::*;
use crate::fs::str_views;
use crate::paths::{join, path_join};

verus! {

/// The roots under which a sync may write, and roots it must never touch.
#[derive(Debug)]
pub struct WriteAllowlist {
    pub allowed_roots: Vec<String>,
    pub forbidden_roots: Vec<String>,
}

/// An allowlist as a value of the specification.
pub struct AllowlistView {
    pub allowed: Seq<Seq<char>>,
    pub forbidden: Seq<Seq<char>>,
}

impl View for WriteAllowlist {
    type V = AllowlistView;

    open spec fn view(&self) -> AllowlistView {
        AllowlistView {
            allowed: str_views(self.allowed_roots@),
            forbidden: str_views(self.forbidden_roots@),
        }
    }
}

/// Each of `subdirs` joined below `root`.
pub open spec fn joined_all(root: Seq<char>, subdirs: Seq<Seq<char>>) -> Seq<Seq<char>> {
    subdirs.map_values(|s: Seq<char>| join(root, s))
}

impl WriteAllowlist {
    /// Writes anywhere in the consumer project.
    pub fn from_consumer(consumer_root: &str, forbidden: Vec<String>) -> (r: WriteAllowlist)
        ensures
            r@ == (AllowlistView { allowed: seq![consumer_root@], forbidden: str_views(forbidden@) }),
    {
        let mut allowed: Vec<String> = Vec::new();
        allowed.push(consumer_root.to_owned());
        assert(str_views(allowed@) =~= seq![consumer_root@]);
        WriteAllowlist { allowed_roots: allowed, forbidden_roots: forbidden }
    }

    /// Writes only in the given subdirectories of the consumer project.
    pub fn from_consumer_subdirs(consumer_root: &str, subdirs: &Vec<String>, forbidden: Vec<String>) -> (r: WriteAllowlist)
        ensures
            r@ == (AllowlistView {
                allowed: joined_all(consumer_root@, str_views(subdirs@)),
                forbidden: str_views(forbidden@),
            }),
    {
        let mut allowed: Vec<String> = Vec::new();
        let mut i: usize = 0;
        while i < subdirs.len()
            invariant
                i <= subdirs.len(),
                str_views(allowed@) == joined_all(consumer_root@, str_views(subdirs@).subrange(0, i as int)),
            decreases subdirs.len() - i,
        {
            let x = path_join(consumer_root, subdirs[i].as_str());
            let ghost prev = allowed@;
            let ghost done = str_views(subdirs@).subrange(0, i as int);
            let ghost next = str_views(subdirs@).subrange(0, i + 1);
            allowed.push(x);
            assert(str_views(allowed@) =~= str_views(prev).push(x@));
            assert(next =~= done.push(subdirs@[i as int]@));
            assert(joined_all(consumer_root@, next) =~= joined_all(consumer_root@, done).push(x@));
            i = i + 1;
        }
        assert(str_views(subdirs@).subrange(0, i as int) =~= str_views(subdirs@));
        WriteAllowlist { allowed_roots: allowed, forbidden_roots: forbidden }
    }

    /// Writes only under the given roots.
    pub fn from_allowed_roots(allowed: Vec<String>, forbidden: Vec<String>) -> (r: WriteAllowlist)
        ensures
            r@ == (AllowlistView { allowed: str_views(allowed@), forbidden: str_views(forbidden@) }),
    {
        WriteAllowlist { allowed_roots: allowed, forbidden_roots: forbidden }
    }
}

} // verus!
