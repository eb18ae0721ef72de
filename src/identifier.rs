//! How an operation names a remote object: by object id, by path, or by a path relative to an id.
use vstd::prelude::*;
use crate::params::{EntryView, Params};

verus! {

/// Selects a remote file or directory.
pub enum Identifier {
    /// The object with this id.
    ByPid(String),
    /// The object at this path.
    ByPath(String),
    /// The object at `path`, taken relative to the object `pid`.
    ByPidAndPath(String, String),
}

impl Identifier {
    /// The entries this identifier contributes under the given key names: the id first, then
    /// the path.
    pub open spec fn entries(&self, id_key: Seq<char>, path_key: Seq<char>) -> Seq<EntryView> {
        match self {
            Identifier::ByPid(pid) => seq![(id_key, pid@)],
            Identifier::ByPath(path) => seq![(path_key, path@)],
            Identifier::ByPidAndPath(pid, path) => seq![(id_key, pid@), (path_key, path@)],
        }
    }

    /// True when the identifier carries a path (alone or relative to an id).
    pub open spec fn has_path(&self) -> bool {
        !(self is ByPid)
    }

    /// Whether the identifier carries a path; endpoints that create or target a location
    /// accept only these.
    pub fn is_path_like(&self) -> (r: bool)
        ensures
            r == self.has_path(),
    {
        match self {
            Identifier::ByPid(_) => false,
            _ => true,
        }
    }

    /// Appends this identifier's entries to `p` under `id_key` and `path_key`.
    pub fn to_params(&self, p: &mut Params, id_key: &str, path_key: &str)
        ensures
            final(p)@ == old(p)@ + self.entries(id_key@, path_key@),
    {
        match self {
            Identifier::ByPid(pid) => {
                p.add_str(id_key, pid.as_str());
            },
            Identifier::ByPath(path) => {
                p.add_str(path_key, path.as_str());
            },
            Identifier::ByPidAndPath(pid, path) => {
                p.add_str(id_key, pid.as_str());
                p.add_str(path_key, path.as_str());
            },
        }
        assert(final(p)@ =~= old(p)@ + self.entries(id_key@, path_key@));
    }
}

} // verus!
