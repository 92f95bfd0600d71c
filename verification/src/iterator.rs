//! Iterating over datasets.
//!
//! A second face of the listing code: the builder names a parent dataset
//! — or none, for the roots — gathers kinds, and hands back the selection
//! as an iterator value.  A named parent is listed first, followed, when
//! the walk is recursive, by every dataset below it of the gathered
//! kinds, in pool order.

use vstd::prelude::*;

use crate::collector::{collect_selected, find_by_name, named_index, selected_upto};
use crate::handle::{handle_views, DatasetPool, HandleView, ZfsHandle, ZfsType};

verus! {

/// Failure to look a dataset up.
#[derive(Clone, Copy, Debug, PartialEq, Eq, Structural)]
pub enum ZfsError {
    /// The named dataset is not in the hierarchy.
    DatasetNotExist,
}

/// The outcome of a walk: the selected dataset handles.
#[derive(Debug)]
pub struct DatasetIterator {
    handles: Vec<ZfsHandle>,
}

impl DatasetIterator {
    /// The selected handles.
    pub closed spec fn handles_spec(&self) -> Seq<HandleView> {
        handle_views(self.handles@)
    }

    /// Wraps a list of selected handles.
    pub fn new(handles: Vec<ZfsHandle>) -> (r: DatasetIterator)
        ensures
            r.handles_spec() == handle_views(handles@),
    {
        DatasetIterator { handles }
    }

    /// How many datasets were selected.
    pub fn len(&self) -> (n: usize)
        ensures
            n == self.handles_spec().len(),
    {
        self.handles.len()
    }

    /// Hands the selected handles out, in selection order.
    pub fn into_vec(self) -> (r: Vec<ZfsHandle>)
        ensures
            handle_views(r@) == self.handles_spec(),
    {
        self.handles
    }
}

/// Gathers which datasets to iterate over.
#[derive(Debug)]
pub struct DatasetIteratorBuilder {
    parent: Option<String>,
    kind: ZfsType,
    recursive: bool,
}

impl DatasetIteratorBuilder {
    /// The kinds gathered so far.
    pub closed spec fn kind_spec(&self) -> ZfsType {
        self.kind
    }

    /// Whether the walk descends below the parent's direct position.
    pub closed spec fn recursive_spec(&self) -> bool {
        self.recursive
    }

    /// The dataset the iteration starts at, if one was named.
    pub closed spec fn parent_spec(&self) -> Option<Seq<char>> {
        match self.parent {
            Some(ref name) => Some(name@),
            None => None,
        }
    }

    /// An iteration over the hierarchy's roots.
    pub fn new() -> (r: DatasetIteratorBuilder)
        ensures
            r.kind_spec().0 == 0,
            !r.recursive_spec(),
            r.parent_spec() is None,
    {
        DatasetIteratorBuilder { parent: None, kind: ZfsType::none(), recursive: false }
    }

    /// An iteration starting at the named dataset.
    pub fn from(dataset: &str) -> (r: DatasetIteratorBuilder)
        ensures
            r.kind_spec().0 == 0,
            !r.recursive_spec(),
            r.parent_spec() == Some(dataset@),
    {
        DatasetIteratorBuilder {
            parent: Some(dataset.to_owned()),
            kind: ZfsType::none(),
            recursive: false,
        }
    }

    /// Also iterate filesystems.
    pub fn filesystems(&mut self) -> (ret: &mut Self)
        ensures
            ret.kind_spec() == old(self).kind_spec().with_spec(
                ZfsType(crate::handle::ZFS_TYPE_FILESYSTEM),
            ),
            ret.recursive_spec() == old(self).recursive_spec(),
            ret.parent_spec() == old(self).parent_spec(),
            *final(self) == *final(ret),
    {
        self.kind = self.kind.with(ZfsType(crate::handle::ZFS_TYPE_FILESYSTEM));
        self
    }

    /// Also iterate volumes.
    pub fn volumes(&mut self) -> (ret: &mut Self)
        ensures
            ret.kind_spec() == old(self).kind_spec().with_spec(
                ZfsType(crate::handle::ZFS_TYPE_VOLUME),
            ),
            ret.recursive_spec() == old(self).recursive_spec(),
            ret.parent_spec() == old(self).parent_spec(),
            *final(self) == *final(ret),
    {
        self.kind = self.kind.with(ZfsType(crate::handle::ZFS_TYPE_VOLUME));
        self
    }

    /// Also iterate snapshots.
    pub fn snapshots(&mut self) -> (ret: &mut Self)
        ensures
            ret.kind_spec() == old(self).kind_spec().with_spec(
                ZfsType(crate::handle::ZFS_TYPE_SNAPSHOT),
            ),
            ret.recursive_spec() == old(self).recursive_spec(),
            ret.parent_spec() == old(self).parent_spec(),
            *final(self) == *final(ret),
    {
        self.kind = self.kind.with(ZfsType(crate::handle::ZFS_TYPE_SNAPSHOT));
        self
    }

    /// Also iterate bookmarks.
    pub fn bookmarks(&mut self) -> (ret: &mut Self)
        ensures
            ret.kind_spec() == old(self).kind_spec().with_spec(
                ZfsType(crate::handle::ZFS_TYPE_BOOKMARK),
            ),
            ret.recursive_spec() == old(self).recursive_spec(),
            ret.parent_spec() == old(self).parent_spec(),
            *final(self) == *final(ret),
    {
        self.kind = self.kind.with(ZfsType(crate::handle::ZFS_TYPE_BOOKMARK));
        self
    }

    /// Iterate every kind of dataset.
    pub fn all(&mut self) -> (ret: &mut Self)
        ensures
            ret.kind_spec() == old(self).kind_spec().with_spec(
                ZfsType(
                    crate::handle::ZFS_TYPE_FILESYSTEM | crate::handle::ZFS_TYPE_VOLUME
                        | crate::handle::ZFS_TYPE_SNAPSHOT | crate::handle::ZFS_TYPE_BOOKMARK,
                ),
            ),
            ret.recursive_spec() == old(self).recursive_spec(),
            ret.parent_spec() == old(self).parent_spec(),
            *final(self) == *final(ret),
    {
        self.kind = self.kind.with(
            ZfsType(
                crate::handle::ZFS_TYPE_FILESYSTEM | crate::handle::ZFS_TYPE_VOLUME
                    | crate::handle::ZFS_TYPE_SNAPSHOT | crate::handle::ZFS_TYPE_BOOKMARK,
            ),
        );
        self
    }

    /// Whether to descend below the named parent.
    pub fn recursive(&mut self, yes: bool) -> (ret: &mut Self)
        ensures
            ret.kind_spec() == old(self).kind_spec(),
            ret.recursive_spec() == yes,
            ret.parent_spec() == old(self).parent_spec(),
            *final(self) == *final(ret),
    {
        self.recursive = yes;
        self
    }

    /// Walks the pool.  A named parent must exist and comes first in the
    /// iteration, followed, when the walk is recursive, by every dataset
    /// below it of the gathered kinds; without a parent the hierarchy's
    /// roots of the gathered kinds are iterated.
    pub fn get(&self, pool: &DatasetPool) -> (r: Result<DatasetIterator, ZfsError>)
        requires
            pool.wf(),
            crate::collector::distinct_names(pool),
        ensures
            self.parent_spec() is None ==> (r matches Ok(it) && it.handles_spec()
                == selected_upto(
                pool,
                self.kind_spec(),
                None,
                false,
                pool.entries@.len() as int,
            )),
            self.parent_spec() matches Some(name) ==> match named_index(pool, name) {
                Some(s) => r matches Ok(it) && it.handles_spec() == seq![
                    pool.entries@[s].handle@,
                ] + if self.recursive_spec() {
                    selected_upto(
                        pool,
                        self.kind_spec(),
                        Some(s),
                        true,
                        pool.entries@.len() as int,
                    )
                } else {
                    Seq::<HandleView>::empty()
                },
                None => r == Err::<DatasetIterator, ZfsError>(ZfsError::DatasetNotExist),
            },
    {
        match &self.parent {
            None => Ok(self.get_all(pool)),
            Some(name) => {
                match find_by_name(pool, name.as_str()) {
                    None => Err(ZfsError::DatasetNotExist),
                    Some(s) => {
                        let mut handles: Vec<ZfsHandle> = Vec::new();
                        handles.push(pool.entries[s].handle.clone());
                        let ghost first = handle_views(handles@);
                        proof {
                            assert(first =~= seq![pool.entries@[s as int].handle@]);
                        }
                        if self.recursive {
                            let below = collect_selected(pool, self.kind, &Some(s), true);
                            let ghost below_views = handle_views(below@);
                            let mut j: usize = 0;
                            while j < below.len()
                                invariant
                                    j <= below@.len(),
                                    below_views == handle_views(below@),
                                    first == seq![pool.entries@[s as int].handle@],
                                    handle_views(handles@) =~= first + below_views.take(
                                        j as int,
                                    ),
                                decreases below@.len() - j,
                            {
                                let ghost prev = handle_views(handles@);
                                handles.push(below[j].clone());
                                proof {
                                    assert(handle_views(handles@) =~= prev.push(
                                        below_views[j as int],
                                    ));
                                    assert(below_views.take(j + 1) =~= below_views.take(
                                        j as int,
                                    ).push(below_views[j as int]));
                                }
                                j = j + 1;
                            }
                            proof {
                                assert(below_views.take(below_views.len() as int)
                                    =~= below_views);
                            }
                            Ok(DatasetIterator::new(handles))
                        } else {
                            Ok(DatasetIterator::new(handles))
                        }
                    },
                }
            },
        }
    }

    /// Walks the hierarchy's roots: the iterated handles are exactly the
    /// roots of the gathered kinds, in pool order.
    pub fn get_all(&self, pool: &DatasetPool) -> (r: DatasetIterator)
        requires
            pool.wf(),
        ensures
            r.handles_spec() == selected_upto(
                pool,
                self.kind_spec(),
                None,
                false,
                pool.entries@.len() as int,
            ),
    {
        let handles = collect_selected(pool, self.kind, &None, false);
        DatasetIterator::new(handles)
    }
}

} // verus!
