//! Building collections of datasets.
//!
//! The builder gathers which kinds to list, where to start and whether to
//! descend, then walks an explicitly supplied dataset pool: the selected
//! handles are exactly the pool entries of the wanted kinds that stand in
//! the wanted part of the hierarchy, in pool order.

use vstd::prelude::*;

use crate::handle::{handle_views, DatasetPool, HandleView, ZfsHandle, ZfsType};
use crate::text::str_eq;

verus! {

/// Whether the entry at `e` stands where the selection looks: among the
/// roots, below the chosen start, or anywhere when the walk is recursive.
pub open spec fn in_scope(
    pool: &DatasetPool,
    start: Option<int>,
    recursive: bool,
    e: int,
) -> bool {
    match start {
        Option::None => if recursive {
            0 <= e < pool.entries@.len()
        } else {
            pool.is_root(e)
        },
        Option::Some(s) => if recursive {
            pool.is_descendant_of(e, s)
        } else {
            pool.is_child_of(e, s)
        },
    }
}

/// Whether the entry at `e` is selected: in scope, and of a wanted kind.
pub open spec fn selected(
    pool: &DatasetPool,
    kinds: ZfsType,
    start: Option<int>,
    recursive: bool,
    e: int,
) -> bool {
    &&& in_scope(pool, start, recursive, e)
    &&& kinds.contains_spec(pool.entries@[e].handle@.kind)
}

/// The handles of the selected entries among the first `n`, in pool
/// order.
pub open spec fn selected_upto(
    pool: &DatasetPool,
    kinds: ZfsType,
    start: Option<int>,
    recursive: bool,
    n: int,
) -> Seq<HandleView>
    decreases n,
{
    if n <= 0 {
        Seq::<HandleView>::empty()
    } else {
        selected_upto(pool, kinds, start, recursive, n - 1) + if selected(
            pool,
            kinds,
            start,
            recursive,
            n - 1,
        ) {
            seq![pool.entries@[n - 1].handle@]
        } else {
            Seq::<HandleView>::empty()
        }
    }
}

/// The position of the entry named `name`, if one exists.
pub open spec fn named_index(pool: &DatasetPool, name: Seq<char>) -> Option<int> {
    if exists|i: int|
        0 <= i < pool.entries@.len() && (#[trigger] pool.entries@[i]).handle@.name == name {
        Some(
            choose|i: int|
                0 <= i < pool.entries@.len() && (#[trigger] pool.entries@[i]).handle@.name
                    == name,
        )
    } else {
        None
    }
}

/// Every pool entry carries its own name.
pub open spec fn distinct_names(pool: &DatasetPool) -> bool {
    forall|i: int, j: int|
        0 <= i < j < pool.entries@.len() ==> (#[trigger] pool.entries@[i]).handle@.name != (
        #[trigger] pool.entries@[j]).handle@.name
}

/// Finds the entry named `name`.
pub(crate) fn find_by_name(pool: &DatasetPool, name: &str) -> (r: Option<usize>)
    requires
        distinct_names(pool),
    ensures
        match r {
            Some(i) => named_index(pool, name@) == Some(i as int),
            None => named_index(pool, name@) is None,
        },
{
    let mut i: usize = 0;
    while i < pool.entries.len()
        invariant
            i <= pool.entries@.len(),
            distinct_names(pool),
            forall|j: int| 0 <= j < i ==> (#[trigger] pool.entries@[j]).handle@.name != name@,
        decreases pool.entries@.len() - i,
    {
        if str_eq(pool.entries[i].handle.name.as_str(), name) {
            proof {
                let k = choose|k: int|
                    0 <= k < pool.entries@.len() && (#[trigger] pool.entries@[k]).handle@.name
                        == name@;
                assert(pool.entries@[i as int].handle@.name == name@);
                assert(k == i as int);
            }
            return Some(i);
        }
        i = i + 1;
    }
    None
}

/// Whether the entry at `child` sits anywhere below the entry at
/// `parent`, decided by climbing the parent chain.
fn is_descendant(pool: &DatasetPool, child: usize, parent: usize) -> (r: bool)
    requires
        pool.wf(),
        child < pool.entries@.len(),
    ensures
        r == pool.is_descendant_of(child as int, parent as int),
{
    let mut cur: usize = child;
    loop
        invariant
            pool.wf(),
            cur < pool.entries@.len(),
            pool.is_descendant_of(child as int, parent as int) == pool.is_descendant_of(
                cur as int,
                parent as int,
            ),
        decreases cur,
    {
        match pool.entries[cur].parent {
            None => {
                return false;
            },
            Some(p) => {
                if p == parent {
                    return true;
                }
                proof {
                    assert(pool.is_descendant_of(cur as int, parent as int)
                        == pool.is_descendant_of(p as int, parent as int));
                }
                cur = p;
            },
        }
    }
}

/// Whether the entry at `e` is selected, decided from the pool.
fn entry_selected(
    pool: &DatasetPool,
    kinds: ZfsType,
    start: &Option<usize>,
    recursive: bool,
    e: usize,
) -> (r: bool)
    requires
        pool.wf(),
        e < pool.entries@.len(),
        match start {
            Some(s) => *s < pool.entries@.len(),
            None => true,
        },
    ensures
        r == selected(
            pool,
            kinds,
            match start {
                Some(s) => Some(*s as int),
                None => None,
            },
            recursive,
            e as int,
        ),
{
    let in_scope = match start {
        None => {
            if recursive {
                true
            } else {
                matches!(pool.entries[e].parent, None)
            }
        },
        Some(s) => {
            if recursive {
                is_descendant(pool, e, *s)
            } else {
                match pool.entries[e].parent {
                    Some(p) => p == *s,
                    None => false,
                }
            }
        },
    };
    in_scope && kinds.contains(pool.entries[e].handle.kind)
}

/// Walks the pool and gathers the handles of the selected entries, in
/// pool order.
pub(crate) fn collect_selected(
    pool: &DatasetPool,
    kinds: ZfsType,
    start: &Option<usize>,
    recursive: bool,
) -> (r: Vec<ZfsHandle>)
    requires
        pool.wf(),
        match start {
            Some(s) => *s < pool.entries@.len(),
            None => true,
        },
    ensures
        handle_views(r@) == selected_upto(
            pool,
            kinds,
            match start {
                Some(s) => Some(*s as int),
                None => None,
            },
            recursive,
            pool.entries@.len() as int,
        ),
{
    let ghost start_spec: Option<int> = match start {
        Some(s) => Some(*s as int),
        None => None,
    };
    let mut out: Vec<ZfsHandle> = Vec::new();
    let mut i: usize = 0;
    while i < pool.entries.len()
        invariant
            pool.wf(),
            i <= pool.entries@.len(),
            start_spec == match start {
                Some(s) => Some(*s as int),
                None => None,
            },
            match start {
                Some(s) => *s < pool.entries@.len(),
                None => true,
            },
            handle_views(out@) == selected_upto(
                pool,
                kinds,
                start_spec,
                recursive,
                i as int,
            ),
        decreases pool.entries@.len() - i,
    {
        let ghost before = handle_views(out@);
        if entry_selected(pool, kinds, start, recursive, i) {
            let handle = pool.entries[i].handle.clone();
            proof {
                assert(handle@ == pool.entries@[i as int].handle@);
            }
            out.push(handle);
            proof {
                assert(handle_views(out@) =~= before.push(
                    pool.entries@[i as int].handle@,
                ));
                assert(selected_upto(pool, kinds, start_spec, recursive, i + 1) =~= before.push(
                    pool.entries@[i as int].handle@,
                ));
            }
        } else {
            proof {
                assert(selected_upto(pool, kinds, start_spec, recursive, i + 1) =~= before);
            }
        }
        i = i + 1;
    }
    out
}

/// Gathers what to list and from where, then walks a dataset pool.
#[derive(Debug)]
pub struct DatasetIteratorBuilder {
    from_dataset: Option<String>,
    datasets: Vec<ZfsHandle>,
    kind: ZfsType,
    recursive: bool,
}

impl DatasetIteratorBuilder {
    /// The kinds gathered so far.
    pub closed spec fn kind_spec(&self) -> ZfsType {
        self.kind
    }

    /// Whether the walk will descend below the direct children.
    pub closed spec fn recursive_spec(&self) -> bool {
        self.recursive
    }

    /// The dataset the walk starts below, if one was named.
    pub closed spec fn from_spec(&self) -> Option<Seq<char>> {
        match self.from_dataset {
            Some(ref name) => Some(name@),
            None => None,
        }
    }

    /// A selection over the whole hierarchy.
    pub fn new() -> (r: DatasetIteratorBuilder)
        ensures
            r.kind_spec().0 == 0,
            !r.recursive_spec(),
            r.from_spec() is None,
    {
        DatasetIteratorBuilder {
            from_dataset: None,
            datasets: Vec::new(),
            kind: ZfsType::none(),
            recursive: false,
        }
    }

    /// A selection starting below the named dataset.
    pub fn from(dataset: &str) -> (r: DatasetIteratorBuilder)
        ensures
            r.kind_spec().0 == 0,
            !r.recursive_spec(),
            r.from_spec() == Some(dataset@),
    {
        DatasetIteratorBuilder {
            from_dataset: Some(dataset.to_owned()),
            datasets: Vec::new(),
            kind: ZfsType::none(),
            recursive: false,
        }
    }

    /// Also list filesystems.
    pub fn filesystems(self) -> (r: Self)
        ensures
            r.kind_spec() == self.kind_spec().with_spec(
                ZfsType(crate::handle::ZFS_TYPE_FILESYSTEM),
            ),
            r.recursive_spec() == self.recursive_spec(),
            r.from_spec() == self.from_spec(),
    {
        let mut this = self;
        this.kind = this.kind.with(ZfsType(crate::handle::ZFS_TYPE_FILESYSTEM));
        this
    }

    /// Also list volumes.
    pub fn volumes(self) -> (r: Self)
        ensures
            r.kind_spec() == self.kind_spec().with_spec(ZfsType(crate::handle::ZFS_TYPE_VOLUME)),
            r.recursive_spec() == self.recursive_spec(),
            r.from_spec() == self.from_spec(),
    {
        let mut this = self;
        this.kind = this.kind.with(ZfsType(crate::handle::ZFS_TYPE_VOLUME));
        this
    }

    /// Also list snapshots.
    pub fn snapshots(self) -> (r: Self)
        ensures
            r.kind_spec() == self.kind_spec().with_spec(
                ZfsType(crate::handle::ZFS_TYPE_SNAPSHOT),
            ),
            r.recursive_spec() == self.recursive_spec(),
            r.from_spec() == self.from_spec(),
    {
        let mut this = self;
        this.kind = this.kind.with(ZfsType(crate::handle::ZFS_TYPE_SNAPSHOT));
        this
    }

    /// Also list bookmarks.
    pub fn bookmarks(self) -> (r: Self)
        ensures
            r.kind_spec() == self.kind_spec().with_spec(
                ZfsType(crate::handle::ZFS_TYPE_BOOKMARK),
            ),
            r.recursive_spec() == self.recursive_spec(),
            r.from_spec() == self.from_spec(),
    {
        let mut this = self;
        this.kind = this.kind.with(ZfsType(crate::handle::ZFS_TYPE_BOOKMARK));
        this
    }

    /// Whether to descend below the direct children.
    pub fn recursive(self, yes: bool) -> (r: Self)
        ensures
            r.kind_spec() == self.kind_spec(),
            r.recursive_spec() == yes,
            r.from_spec() == self.from_spec(),
    {
        let mut this = self;
        this.recursive = yes;
        this
    }

    /// The direct children of `parent` — the roots, when no parent is
    /// given — in pool order.
    pub fn get_children(pool: &DatasetPool, parent: Option<usize>) -> (r: Vec<ZfsHandle>)
        requires
            pool.wf(),
            match parent {
                Some(s) => s < pool.entries@.len(),
                None => true,
            },
        ensures
            handle_views(r@) == selected_upto(
                pool,
                ZfsType(0xffff_ffff),
                match parent {
                    Some(s) => Some(s as int),
                    None => None,
                },
                false,
                pool.entries@.len() as int,
            ),
    {
        collect_selected(pool, ZfsType(0xffff_ffff), &parent, false)
    }

    /// Walks the pool: the collected handles are exactly the entries of
    /// the gathered kinds in the selected part of the hierarchy, in pool
    /// order.  A start dataset that the pool does not hold selects
    /// nothing below it, as the roots are listed instead.
    pub fn get_collection(self, pool: &DatasetPool) -> (r: DatasetCollector)
        requires
            pool.wf(),
            distinct_names(pool),
        ensures
            r.handles_spec() == selected_upto(
                pool,
                self.kind_spec(),
                match self.from_spec() {
                    Some(name) => named_index(pool, name),
                    None => None,
                },
                self.recursive_spec(),
                pool.entries@.len() as int,
            ),
    {
        let start: Option<usize> = match &self.from_dataset {
            Some(name) => find_by_name(pool, name.as_str()),
            None => None,
        };
        let handles = collect_selected(pool, self.kind, &start, self.recursive);
        DatasetCollector::new(handles)
    }
}

/// The outcome of a walk: the selected dataset handles, in pool order.
#[derive(Debug)]
pub struct DatasetCollector {
    datasets: Vec<ZfsHandle>,
}

impl DatasetCollector {
    /// The selected handles.
    pub closed spec fn handles_spec(&self) -> Seq<HandleView> {
        handle_views(self.datasets@)
    }

    /// Wraps a list of selected handles.
    pub fn new(datasets: Vec<ZfsHandle>) -> (r: DatasetCollector)
        ensures
            r.handles_spec() == handle_views(datasets@),
    {
        DatasetCollector { datasets }
    }

    /// How many datasets were selected.
    pub fn len(&self) -> (n: usize)
        ensures
            n == self.handles_spec().len(),
    {
        self.datasets.len()
    }

    /// Hands the selected handles out, in pool order.
    pub fn into_vec(self) -> (r: Vec<ZfsHandle>)
        ensures
            handle_views(r@) == self.handles_spec(),
    {
        self.datasets
    }
}

} // verus!
