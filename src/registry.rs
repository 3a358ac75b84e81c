//! Registries that give the size of each render target: windows and image assets.
//!
//! Sizes in user units are of a type `L` chosen by the caller; pixel sizes are `u32`.

use vstd::prelude::*;
use crate::target::{ImageHandle, WindowId};

verus! {

/// What the window registry knows of one window.
#[derive(Clone, Copy, Debug)]
pub struct WindowInfo<L> {
    pub id: WindowId,
    pub physical_width: u32,
    pub physical_height: u32,
    /// Width and height in user units.
    pub logical_size: L,
}

/// What the image asset store knows of one image: its backing texture's size.
#[derive(Clone, Copy, Debug)]
pub struct ImageInfo<L> {
    pub handle: ImageHandle,
    pub width: u32,
    pub height: u32,
    /// The pixel size, in the unit of logical sizes.
    pub logical_size: L,
}

/// The latest entry of `s` for window `id`.
pub open spec fn find_window<L>(s: Seq<WindowInfo<L>>, id: WindowId) -> Option<WindowInfo<L>>
    decreases s.len(),
{
    if s.len() == 0 {
        None
    } else if s.last().id == id {
        Some(s.last())
    } else {
        find_window(s.drop_last(), id)
    }
}

/// The latest entry of `s` for image `h`.
pub open spec fn find_image<L>(s: Seq<ImageInfo<L>>, h: ImageHandle) -> Option<ImageInfo<L>>
    decreases s.len(),
{
    if s.len() == 0 {
        None
    } else if s.last().handle == h {
        Some(s.last())
    } else {
        find_image(s.drop_last(), h)
    }
}

/// The windows that exist, each with its size. Registering a window again replaces it.
pub struct Windows<L> {
    entries: Vec<WindowInfo<L>>,
}

impl<L: Copy> Windows<L> {
    /// The window registered under `id`, if any.
    pub closed spec fn lookup(&self, id: WindowId) -> Option<WindowInfo<L>> {
        find_window(self.entries@, id)
    }

    pub fn new() -> (r: Windows<L>)
        ensures
            forall|id: WindowId| r.lookup(id).is_none(),
    {
        Windows { entries: Vec::new() }
    }

    /// Registers `info` under its id, replacing what was there.
    pub fn insert(&mut self, info: WindowInfo<L>)
        ensures
            forall|id: WindowId|
                final(self).lookup(id) == if id == info.id {
                    Some(info)
                } else {
                    old(self).lookup(id)
                },
    {
        self.entries.push(info);
        proof {
            assert(self.entries@.drop_last() =~= old(self).entries@);
        }
    }

    /// The window registered under `id`, if any.
    pub fn get(&self, id: WindowId) -> (r: Option<WindowInfo<L>>)
        ensures
            r == self.lookup(id),
    {
        let mut i: usize = self.entries.len();
        proof {
            assert(self.entries@.take(i as int) =~= self.entries@);
        }
        while i > 0
            invariant
                i <= self.entries@.len(),
                find_window(self.entries@, id) == find_window(self.entries@.take(i as int), id),
            decreases i,
        {
            let e = self.entries[i - 1];
            proof {
                assert(self.entries@.take(i as int).drop_last() =~= self.entries@.take(i - 1));
            }
            if e.id == id {
                return Some(e);
            }
            i = i - 1;
        }
        None
    }
}

/// The image assets that are loaded, each with its size. Adding an image again replaces it.
pub struct Images<L> {
    entries: Vec<ImageInfo<L>>,
}

impl<L: Copy> Images<L> {
    /// The image loaded under `handle`, if any.
    pub closed spec fn lookup(&self, handle: ImageHandle) -> Option<ImageInfo<L>> {
        find_image(self.entries@, handle)
    }

    pub fn new() -> (r: Images<L>)
        ensures
            forall|h: ImageHandle| r.lookup(h).is_none(),
    {
        Images { entries: Vec::new() }
    }

    /// Adds `info` under its handle, replacing what was there.
    pub fn insert(&mut self, info: ImageInfo<L>)
        ensures
            forall|h: ImageHandle|
                final(self).lookup(h) == if h == info.handle {
                    Some(info)
                } else {
                    old(self).lookup(h)
                },
    {
        self.entries.push(info);
        proof {
            assert(self.entries@.drop_last() =~= old(self).entries@);
        }
    }

    /// The image loaded under `handle`, if any.
    pub fn get(&self, handle: ImageHandle) -> (r: Option<ImageInfo<L>>)
        ensures
            r == self.lookup(handle),
    {
        let mut i: usize = self.entries.len();
        proof {
            assert(self.entries@.take(i as int) =~= self.entries@);
        }
        while i > 0
            invariant
                i <= self.entries@.len(),
                find_image(self.entries@, handle) == find_image(self.entries@.take(i as int), handle),
            decreases i,
        {
            let e = self.entries[i - 1];
            proof {
                assert(self.entries@.take(i as int).drop_last() =~= self.entries@.take(i - 1));
            }
            if e.handle == handle {
                return Some(e);
            }
            i = i - 1;
        }
        None
    }
}

} // verus!
