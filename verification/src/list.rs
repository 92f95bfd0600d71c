//! The dataset listing command.
//!
//! The command gathers which kinds to show and where to start, walks the
//! hierarchy, and renders one line per dataset: the dataset's name, a
//! space, and its kind's name, the lines joined by newlines.

use vstd::prelude::*;
use vstd::string::StringExecFns;

use crate::collector::{named_index, selected_upto};
use crate::handle::{DatasetPool, HandleView, ZfsHandle, ZfsType};
use crate::iterator::{DatasetIteratorBuilder, ZfsError};

verus! {

/// Which kinds of dataset a listing shows.
#[derive(Clone, Copy, Debug, PartialEq, Eq, Structural)]
pub enum Type {
    Filesystem,
    Snapshot,
    Volume,
    Bookmark,
    All,
}

/// The type bits one listing switch turns on.
pub open spec fn kind_bits(t: Type) -> ZfsType {
    match t {
        Type::Filesystem => ZfsType(crate::handle::ZFS_TYPE_FILESYSTEM),
        Type::Snapshot => ZfsType(crate::handle::ZFS_TYPE_SNAPSHOT),
        Type::Volume => ZfsType(crate::handle::ZFS_TYPE_VOLUME),
        Type::Bookmark => ZfsType(crate::handle::ZFS_TYPE_BOOKMARK),
        Type::All => ZfsType(
            crate::handle::ZFS_TYPE_FILESYSTEM | crate::handle::ZFS_TYPE_VOLUME
                | crate::handle::ZFS_TYPE_SNAPSHOT | crate::handle::ZFS_TYPE_BOOKMARK,
        ),
    }
}

/// The type bits the first `n` listing switches turn on together.
pub open spec fn kinds_upto(types: Seq<Type>, n: int) -> ZfsType
    decreases n,
{
    if n <= 0 {
        ZfsType(0)
    } else {
        kinds_upto(types, n - 1).with_spec(kind_bits(types[n - 1]))
    }
}

/// A listing request: the kinds to show, whether to descend, and the
/// dataset to start below.
#[derive(Debug)]
pub struct List {
    /// Recursively list children datasets.
    pub recursive: bool,
    /// The kinds of dataset to display.
    pub types: Vec<Type>,
    /// The dataset to list, when not the whole hierarchy.
    pub dataset: Option<String>,
}

/// One rendered line: the dataset's name, a space, and its kind's name.
pub open spec fn render_line(h: HandleView) -> Seq<char> {
    h.name + " "@ + h.kind.name_spec()
}

/// The rendered text of the first `n` selected datasets, joined by
/// newlines.
pub open spec fn render_upto(hs: Seq<HandleView>, n: int) -> Seq<char>
    decreases n,
{
    if n <= 0 {
        Seq::<char>::empty()
    } else if n == 1 {
        render_line(hs[0])
    } else {
        render_upto(hs, n - 1) + "\n"@ + render_line(hs[n - 1])
    }
}

/// Renders the selected datasets, one line each.
pub fn render(handles: &Vec<ZfsHandle>) -> (r: String)
    ensures
        r@ == render_upto(
            crate::handle::handle_views(handles@),
            handles@.len() as int,
        ),
{
    let ghost views = crate::handle::handle_views(handles@);
    let mut out = String::new();
    let mut i: usize = 0;
    while i < handles.len()
        invariant
            i <= handles@.len(),
            views == crate::handle::handle_views(handles@),
            out@ == render_upto(views, i as int),
        decreases handles@.len() - i,
    {
        if i > 0 {
            out.append("\n");
        }
        let name = handles[i].name();
        out.append(name.as_str());
        out.append(" ");
        let kind_name = handles[i].kind().name();
        out.append(kind_name);
        proof {
            assert(out@ =~= render_upto(views, i + 1));
        }
        i = i + 1;
    }
    out
}

impl List {
    /// Runs the listing over the hierarchy: the selected datasets are
    /// rendered one line each.  Naming a dataset the hierarchy does not
    /// hold is the one failure.
    pub fn exec(self, pool: &DatasetPool) -> (r: Result<String, ZfsError>)
        requires
            pool.wf(),
            crate::collector::distinct_names(pool),
        ensures
            ({
                let kinds = kinds_upto(self.types@, self.types@.len() as int);
                match self.dataset {
                    Option::None => r matches Ok(text) && text@ == render_upto(
                        selected_upto(pool, kinds, None, false, pool.entries@.len() as int),
                        selected_upto(
                            pool,
                            kinds,
                            None,
                            false,
                            pool.entries@.len() as int,
                        ).len() as int,
                    ),
                    Option::Some(ref name) => match named_index(pool, name@) {
                        Some(s) => r matches Ok(text) && text@ == render_upto(
                            seq![pool.entries@[s].handle@] + if self.recursive {
                                selected_upto(
                                    pool,
                                    kinds,
                                    Some(s),
                                    true,
                                    pool.entries@.len() as int,
                                )
                            } else {
                                Seq::<HandleView>::empty()
                            },
                            1 + if self.recursive {
                                selected_upto(
                                    pool,
                                    kinds,
                                    Some(s),
                                    true,
                                    pool.entries@.len() as int,
                                ).len() as int
                            } else {
                                0
                            },
                        ),
                        None => r == Err::<String, ZfsError>(ZfsError::DatasetNotExist),
                    },
                }
            }),
    {
        let mut builder = match &self.dataset {
            Some(parent) => DatasetIteratorBuilder::from(parent.as_str()),
            None => DatasetIteratorBuilder::new(),
        };
        let mut i: usize = 0;
        while i < self.types.len()
            invariant
                i <= self.types@.len(),
                builder.kind_spec() == kinds_upto(self.types@, i as int),
                builder.recursive_spec() == false,
                builder.parent_spec() == match self.dataset {
                    Option::Some(ref name) => Some(name@),
                    Option::None => None,
                },
            decreases self.types@.len() - i,
        {
            match self.types[i] {
                Type::Filesystem => {
                    builder.filesystems();
                },
                Type::Snapshot => {
                    builder.snapshots();
                },
                Type::Volume => {
                    builder.volumes();
                },
                Type::Bookmark => {
                    builder.bookmarks();
                },
                Type::All => {
                    builder.all();
                },
            }
            i = i + 1;
        }
        builder.recursive(self.recursive);
        proof {
            assert(builder.recursive_spec() == self.recursive);
            assert(builder.kind_spec() == kinds_upto(self.types@, self.types@.len() as int));
        }
        match builder.get(pool) {
            Ok(it) => {
                let ghost sel = it.handles_spec();
                let handles = it.into_vec();
                let text = render(&handles);
                proof {
                    assert(crate::handle::handle_views(handles@) == sel);
                    assert(handles@.len() == sel.len());
                    assert(text@ == render_upto(sel, sel.len() as int));
                }
                Ok(text)
            },
            Err(e) => Err(e),
        }
    }
}

} // verus!
