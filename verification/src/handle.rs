//! Dataset handles and the dataset hierarchy.
//!
//! The native library hands out opaque handles and walks the hierarchy
//! through iteration callbacks.  Here a handle carries the two facts the
//! service reads from it — the dataset's name and its kind — and the
//! hierarchy is an explicitly constructed pool of entries, each naming its
//! parent, handed to the listing code instead of being read from ambient
//! global state.

use vstd::prelude::*;

verus! {

/// The bit the type word carries for a filesystem.
pub const ZFS_TYPE_FILESYSTEM: u32 = 1;

/// The bit the type word carries for a snapshot.
pub const ZFS_TYPE_SNAPSHOT: u32 = 2;

/// The bit the type word carries for a volume.
pub const ZFS_TYPE_VOLUME: u32 = 4;

/// The bit the type word carries for a pool.
pub const ZFS_TYPE_POOL: u32 = 8;

/// The bit the type word carries for a bookmark.
pub const ZFS_TYPE_BOOKMARK: u32 = 16;

/// A set of dataset kinds, carried as a word of type bits.
#[derive(Clone, Copy, Debug, PartialEq, Eq, Structural)]
pub struct ZfsType(pub u32);

impl ZfsType {
    /// The empty set of kinds.
    pub fn none() -> (r: ZfsType)
        ensures
            r.0 == 0,
    {
        ZfsType(0)
    }

    /// This set together with the kinds of `other`.
    pub open spec fn with_spec(self, other: ZfsType) -> ZfsType {
        ZfsType(self.0 | other.0)
    }

    /// This set together with the kinds of `other`.
    pub fn with(self, other: ZfsType) -> (r: ZfsType)
        ensures
            r == self.with_spec(other),
    {
        ZfsType(self.0 | other.0)
    }

    /// Whether the set holds the filesystem kind.
    pub open spec fn is_filesystem_spec(&self) -> bool {
        self.0 & ZFS_TYPE_FILESYSTEM != 0
    }

    /// Whether the set holds the filesystem kind.
    pub fn is_filesystem(&self) -> (r: bool)
        ensures
            r == self.is_filesystem_spec(),
    {
        self.0 & ZFS_TYPE_FILESYSTEM != 0
    }

    /// Whether the set holds the snapshot kind.
    pub open spec fn is_snapshot_spec(&self) -> bool {
        self.0 & ZFS_TYPE_SNAPSHOT != 0
    }

    /// Whether the set holds the snapshot kind.
    pub fn is_snapshot(&self) -> (r: bool)
        ensures
            r == self.is_snapshot_spec(),
    {
        self.0 & ZFS_TYPE_SNAPSHOT != 0
    }

    /// Whether the set holds the volume kind.
    pub open spec fn is_volume_spec(&self) -> bool {
        self.0 & ZFS_TYPE_VOLUME != 0
    }

    /// Whether the set holds the volume kind.
    pub fn is_volume(&self) -> (r: bool)
        ensures
            r == self.is_volume_spec(),
    {
        self.0 & ZFS_TYPE_VOLUME != 0
    }

    /// Whether the set holds the bookmark kind.
    pub open spec fn is_bookmark_spec(&self) -> bool {
        self.0 & ZFS_TYPE_BOOKMARK != 0
    }

    /// Whether the set holds the bookmark kind.
    pub fn is_bookmark(&self) -> (r: bool)
        ensures
            r == self.is_bookmark_spec(),
    {
        self.0 & ZFS_TYPE_BOOKMARK != 0
    }

    /// Whether the set holds the pool kind.
    pub open spec fn is_pool_spec(&self) -> bool {
        self.0 & ZFS_TYPE_POOL != 0
    }

    /// Whether the set holds the pool kind.
    pub fn is_pool(&self) -> (r: bool)
        ensures
            r == self.is_pool_spec(),
    {
        self.0 & ZFS_TYPE_POOL != 0
    }

    /// Whether the two sets share a kind.
    pub open spec fn contains_spec(&self, other: ZfsType) -> bool {
        self.0 & other.0 != 0
    }

    /// Whether the two sets share a kind.
    pub fn contains(&self, other: ZfsType) -> (r: bool)
        ensures
            r == self.contains_spec(other),
    {
        self.0 & other.0 != 0
    }

    /// The word's canonical name, for display.
    pub fn name(&self) -> (r: &'static str)
        ensures
            r@ == self.name_spec(),
    {
        if self.0 == ZFS_TYPE_FILESYSTEM {
            "filesystem"
        } else if self.0 == ZFS_TYPE_SNAPSHOT {
            "snapshot"
        } else if self.0 == ZFS_TYPE_VOLUME {
            "volume"
        } else if self.0 == ZFS_TYPE_POOL {
            "pool"
        } else if self.0 == ZFS_TYPE_BOOKMARK {
            "bookmark"
        } else {
            "invalid"
        }
    }

    /// What `name` returns for each word.
    pub open spec fn name_spec(&self) -> Seq<char> {
        if self.0 == ZFS_TYPE_FILESYSTEM {
            "filesystem"@
        } else if self.0 == ZFS_TYPE_SNAPSHOT {
            "snapshot"@
        } else if self.0 == ZFS_TYPE_VOLUME {
            "volume"@
        } else if self.0 == ZFS_TYPE_POOL {
            "pool"@
        } else if self.0 == ZFS_TYPE_BOOKMARK {
            "bookmark"@
        } else {
            "invalid"@
        }
    }
}

/// What the service reads from a native dataset handle: the dataset's
/// name and its kind.
#[derive(Debug)]
pub struct ZfsHandle {
    pub name: String,
    pub kind: ZfsType,
}

/// The mathematical image of a [`ZfsHandle`].
pub struct HandleView {
    pub name: Seq<char>,
    pub kind: ZfsType,
}

impl View for ZfsHandle {
    type V = HandleView;

    open spec fn view(&self) -> HandleView {
        HandleView { name: self.name@, kind: self.kind }
    }
}

impl Clone for ZfsHandle {
    fn clone(&self) -> (r: Self)
        ensures
            r@ == self@,
    {
        ZfsHandle { name: self.name.clone(), kind: self.kind }
    }
}

impl ZfsHandle {
    /// Builds a handle from its two facts.
    pub fn new(name: String, kind: ZfsType) -> (r: ZfsHandle)
        ensures
            r@.name == name@,
            r@.kind == kind,
    {
        ZfsHandle { name, kind }
    }

    /// The dataset's name.
    pub fn name(&self) -> (r: String)
        ensures
            r@ == self@.name,
    {
        self.name.clone()
    }

    /// The dataset's kind.
    pub fn kind(&self) -> (r: ZfsType)
        ensures
            r == self@.kind,
    {
        self.kind
    }
}

/// The mathematical image of a sequence of handles.
pub open spec fn handle_views(hs: Seq<ZfsHandle>) -> Seq<HandleView> {
    hs.map_values(|h: ZfsHandle| h@)
}

/// One entry of a dataset pool: a handle and the position of its parent,
/// which always stands earlier in the pool.
#[derive(Clone, Debug)]
pub struct PoolEntry {
    pub handle: ZfsHandle,
    pub parent: Option<usize>,
}

/// The dataset hierarchy, handed to the listing code as an explicit
/// value: entries in an order where every parent precedes its children.
#[derive(Clone, Debug)]
pub struct DatasetPool {
    pub entries: Vec<PoolEntry>,
}

impl DatasetPool {
    /// Every entry's parent stands strictly before it.
    pub open spec fn wf(&self) -> bool {
        forall|i: int|
            0 <= i < self.entries@.len() ==> match (#[trigger] self.entries@[i]).parent {
                Some(p) => p < i,
                None => true,
            }
    }

    /// An empty hierarchy.
    pub fn new() -> (r: DatasetPool)
        ensures
            r.wf(),
            r.entries@.len() == 0,
    {
        DatasetPool { entries: Vec::new() }
    }

    /// Adds a root dataset and returns its position.
    pub fn add_root(&mut self, handle: ZfsHandle) -> (i: usize)
        requires
            old(self).wf(),
            old(self).entries@.len() < usize::MAX,
        ensures
            final(self).wf(),
            i == old(self).entries@.len(),
            final(self).entries@ == old(self).entries@.push(
                PoolEntry { handle, parent: None },
            ),
    {
        let i = self.entries.len();
        self.entries.push(PoolEntry { handle, parent: None });
        i
    }

    /// Adds a dataset below the entry at `parent` and returns its
    /// position.
    pub fn add_child(&mut self, parent: usize, handle: ZfsHandle) -> (i: usize)
        requires
            old(self).wf(),
            parent < old(self).entries@.len(),
            old(self).entries@.len() < usize::MAX,
        ensures
            final(self).wf(),
            i == old(self).entries@.len(),
            final(self).entries@ == old(self).entries@.push(
                PoolEntry { handle, parent: Some(parent) },
            ),
    {
        let i = self.entries.len();
        self.entries.push(PoolEntry { handle, parent: Some(parent) });
        i
    }

    /// Whether the entry at `child` sits directly below the entry at
    /// `parent`.
    pub open spec fn is_child_of(&self, child: int, parent: int) -> bool {
        &&& 0 <= child < self.entries@.len()
        &&& self.entries@[child].parent == Some(parent as usize)
    }

    /// Whether the entry at `child` sits anywhere below the entry at
    /// `parent`.
    pub open spec fn is_descendant_of(&self, child: int, parent: int) -> bool
        decreases child,
    {
        &&& 0 <= child < self.entries@.len()
        &&& match self.entries@[child].parent {
            Some(p) => p as int == parent || (self.wf() && self.is_descendant_of(
                p as int,
                parent,
            )),
            None => false,
        }
    }

    /// Whether the entry at `i` is a root of the hierarchy.
    pub open spec fn is_root(&self, i: int) -> bool {
        &&& 0 <= i < self.entries@.len()
        &&& self.entries@[i].parent is None
    }
}

} // verus!
