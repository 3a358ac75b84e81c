//! The clear pass: for each extracted camera, which of its attachments are cleared, and to
//! what. Clear values are of types `C` (colors) and `D` (depths) chosen by the caller.

use vstd::prelude::*;
use crate::target::{Entity, RenderTarget};

verus! {

/// How one channel of a camera's target is treated at the start of a frame.
#[derive(Clone, Copy, Debug, PartialEq, Eq)]
pub enum ClearOp<T> {
    /// Clear to this value.
    Value(T),
    /// Leave the contents as they are.
    Keep,
}

/// How a camera clears its color and depth targets.
#[derive(Clone, Copy, Debug, PartialEq, Eq)]
pub struct ClearSpec<C, D> {
    pub color: ClearOp<C>,
    pub depth: ClearOp<D>,
}

/// What extraction copied of a camera into the render world.
#[derive(Clone, Copy, Debug)]
pub struct ExtractedCamera<C, D> {
    pub target: RenderTarget,
    pub clear: ClearSpec<C, D>,
}

/// How a pass initializes an attachment.
#[derive(Clone, Copy, Debug, PartialEq, Eq)]
pub enum LoadOp<T> {
    /// Clear to this value.
    Clear(T),
    /// Keep the previous contents.
    Load,
}

/// What a pass does with an attachment at its start and at its end.
#[derive(Clone, Copy, Debug, PartialEq, Eq)]
pub struct Operations<T> {
    pub load: LoadOp<T>,
    /// Whether the contents are kept for later passes.
    pub store: bool,
}

/// The depth-stencil attachment of a pass.
#[derive(Clone, Copy, Debug, PartialEq, Eq)]
pub struct DepthStencilAttachment<D> {
    pub depth_ops: Option<Operations<D>>,
    pub stencil_ops: Option<Operations<u32>>,
}

/// One pass to issue: it clears the color view and/or the depth view of `entity`.
#[derive(Clone, Copy, Debug, PartialEq, Eq)]
pub struct ClearPass<C, D> {
    pub entity: Entity,
    /// Operations on the camera's color view; `None`: the pass has no color attachment.
    pub color_attachment: Option<Operations<C>>,
    pub depth_stencil_attachment: Option<DepthStencilAttachment<D>>,
}

/// An entity of the render world as the clear pass sees it.
#[derive(Clone, Copy, Debug)]
pub struct ViewEntity<C, D> {
    pub entity: Entity,
    pub camera: Option<ExtractedCamera<C, D>>,
    /// Whether the entity carries an extracted view.
    pub extracted_view: bool,
    /// Whether a color view was resolved for it.
    pub color_view: bool,
    /// Whether a depth view was resolved for it.
    pub depth_view: bool,
}

/// The render world: its entities, by index.
pub struct RenderWorld<C, D> {
    pub entities: Vec<ViewEntity<C, D>>,
}

/// The color attachment that `clear` asks for, given whether a color view exists.
pub open spec fn color_attachment_of<C>(clear: ClearOp<C>, has_view: bool) -> Option<Operations<C>> {
    match clear {
        ClearOp::Value(v) => if has_view {
            Some(Operations { load: LoadOp::Clear(v), store: true })
        } else {
            None
        },
        ClearOp::Keep => None,
    }
}

/// The depth attachment that `clear` asks for, given whether a depth view exists.
pub open spec fn depth_attachment_of<D>(clear: ClearOp<D>, has_view: bool) -> Option<
    DepthStencilAttachment<D>,
> {
    match clear {
        ClearOp::Value(v) => if has_view {
            Some(
                DepthStencilAttachment {
                    depth_ops: Some(Operations { load: LoadOp::Clear(v), store: true }),
                    stencil_ops: None,
                },
            )
        } else {
            None
        },
        ClearOp::Keep => None,
    }
}

/// The pass that `e` needs, if any: none when it has no camera or nothing resolves.
pub open spec fn clear_pass_of<C, D>(e: ViewEntity<C, D>) -> Option<ClearPass<C, D>> {
    match e.camera {
        Some(camera) => {
            let color = color_attachment_of(camera.clear.color, e.color_view);
            let depth = depth_attachment_of(camera.clear.depth, e.depth_view);
            if color.is_some() || depth.is_some() {
                Some(ClearPass { entity: e.entity, color_attachment: color, depth_stencil_attachment: depth })
            } else {
                None
            }
        },
        None => None,
    }
}

/// Whether the clear pass's query matches `e`: a camera with an extracted view.
pub open spec fn matches_query<C, D>(e: ViewEntity<C, D>) -> bool {
    e.camera.is_some() && e.extracted_view
}

/// Indices below `n` of the entities of `world` that the query matches, in increasing order.
pub open spec fn matching_upto<C, D>(world: Seq<ViewEntity<C, D>>, n: int) -> Seq<usize>
    decreases n,
{
    if n <= 0 {
        Seq::empty()
    } else {
        let r = matching_upto(world, n - 1);
        if matches_query(world[n - 1]) {
            r.push((n - 1) as usize)
        } else {
            r
        }
    }
}

/// Indices of the entities of `world` that the query matches, in increasing order.
pub open spec fn matching<C, D>(world: Seq<ViewEntity<C, D>>) -> Seq<usize> {
    matching_upto(world, world.len() as int)
}

/// The passes for the entities of `world` at the indices `query`, in that order.
pub open spec fn clear_passes<C, D>(world: Seq<ViewEntity<C, D>>, query: Seq<usize>) -> Seq<
    ClearPass<C, D>,
>
    decreases query.len(),
{
    if query.len() == 0 {
        Seq::empty()
    } else {
        let rest = clear_passes(world, query.drop_last());
        match clear_pass_of(world[query.last() as int]) {
            Some(p) => rest.push(p),
            None => rest,
        }
    }
}

/// The pass that `e` needs, if any.
pub fn clear_pass_for<C: Copy, D: Copy>(e: &ViewEntity<C, D>) -> (r: Option<ClearPass<C, D>>)
    ensures
        r == clear_pass_of(*e),
{
    match &e.camera {
        Some(camera) => {
            let color = match camera.clear.color {
                ClearOp::Value(v) => if e.color_view {
                    Some(Operations { load: LoadOp::Clear(v), store: true })
                } else {
                    None
                },
                ClearOp::Keep => None,
            };
            let depth = match camera.clear.depth {
                ClearOp::Value(v) => if e.depth_view {
                    Some(
                        DepthStencilAttachment {
                            depth_ops: Some(Operations { load: LoadOp::Clear(v), store: true }),
                            stencil_ops: None,
                        },
                    )
                } else {
                    None
                },
                ClearOp::Keep => None,
            };
            if color.is_some() || depth.is_some() {
                Some(ClearPass { entity: e.entity, color_attachment: color, depth_stencil_attachment: depth })
            } else {
                None
            }
        },
        None => None,
    }
}

proof fn lemma_matching_in_range<C, D>(world: Seq<ViewEntity<C, D>>, n: int)
    requires
        0 <= n <= usize::MAX,
    ensures
        forall|k: int|
            0 <= k < matching_upto(world, n).len() ==> (#[trigger] matching_upto(world, n)[k]) < n,
    decreases n,
{
    if n > 0 {
        lemma_matching_in_range(world, n - 1);
        let r = matching_upto(world, n - 1);
        assert(((n - 1) as usize) as int == n - 1);
        if matches_query(world[n - 1]) {
            assert forall|k: int| 0 <= k < r.len() + 1 implies #[trigger] r.push((n - 1) as usize)[k] < n by {
                if k < r.len() {
                    assert(r.push((n - 1) as usize)[k] == r[k]);
                }
            }
        }
    }
}

/// A render-graph node that clears each camera's targets as its `ClearSpec` says.
/// It caches the indices of the entities that its query matches.
pub struct ClearPassNode {
    query: Vec<usize>,
}

impl ClearPassNode {
    /// The cached indices of matching entities.
    pub closed spec fn query(&self) -> Seq<usize> {
        self.query@
    }

    /// Whether the cached query reflects `world`.
    pub open spec fn is_current<C, D>(&self, world: Seq<ViewEntity<C, D>>) -> bool {
        self.query() == matching(world)
    }

    fn matching_indices<C, D>(world: &RenderWorld<C, D>) -> (r: Vec<usize>)
        ensures
            r@ == matching(world.entities@),
    {
        let mut r: Vec<usize> = Vec::new();
        let mut i: usize = 0;
        while i < world.entities.len()
            invariant
                i <= world.entities@.len(),
                r@ == matching_upto(world.entities@, i as int),
            decreases world.entities@.len() - i,
        {
            let e = &world.entities[i];
            if e.camera.is_some() && e.extracted_view {
                r.push(i);
            }
            i = i + 1;
        }
        r
    }

    /// A node whose query reflects `world`.
    pub fn new<C, D>(world: &RenderWorld<C, D>) -> (r: ClearPassNode)
        ensures
            r.is_current(world.entities@),
    {
        ClearPassNode { query: Self::matching_indices(world) }
    }

    /// Refreshes the query against `world`; to be called whenever its entities may have changed.
    pub fn update<C, D>(&mut self, world: &RenderWorld<C, D>)
        ensures
            final(self).is_current(world.entities@),
    {
        self.query = Self::matching_indices(world);
    }

    /// The passes to issue this frame, one for each matching entity with something to clear,
    /// in query order.
    pub fn run<C: Copy, D: Copy>(&self, world: &RenderWorld<C, D>) -> (r: Vec<ClearPass<C, D>>)
        requires
            self.is_current(world.entities@),
        ensures
            r@ == clear_passes(world.entities@, matching(world.entities@)),
    {
        let n = world.entities.len();
        proof {
            lemma_matching_in_range(world.entities@, n as int);
        }
        let mut passes: Vec<ClearPass<C, D>> = Vec::new();
        let mut k: usize = 0;
        while k < self.query.len()
            invariant
                self.query@ == matching(world.entities@),
                forall|j: int| 0 <= j < self.query@.len() ==> (#[trigger] self.query@[j]) < world.entities@.len(),
                k <= self.query@.len(),
                passes@ == clear_passes(world.entities@, self.query@.take(k as int)),
            decreases self.query@.len() - k,
        {
            let idx = self.query[k];
            proof {
                assert(self.query@.take(k + 1).drop_last() =~= self.query@.take(k as int));
            }
            match clear_pass_for(&world.entities[idx]) {
                Some(p) => passes.push(p),
                None => {},
            }
            k = k + 1;
        }
        proof {
            assert(self.query@.take(k as int) =~= self.query@);
        }
        passes
    }
}

/// A camera that clears neither channel, or has no view to clear, needs no pass.
pub proof fn lemma_nothing_to_clear_needs_no_pass<C, D>(e: ViewEntity<C, D>)
    requires
        e.camera.is_some() ==> (
            (e.camera.unwrap().clear.color == ClearOp::<C>::Keep
                && e.camera.unwrap().clear.depth == ClearOp::<D>::Keep)
            || (!e.color_view && !e.depth_view)),
    ensures
        clear_pass_of(e).is_none(),
{
}

/// Every pass of a run clears what it attaches, and stores the cleared contents.
pub proof fn lemma_cleared_attachments_are_stored<C, D>(world: Seq<ViewEntity<C, D>>, query: Seq<usize>)
    requires
        forall|j: int| 0 <= j < query.len() ==> (#[trigger] query[j]) < world.len(),
    ensures
        forall|k: int| 0 <= k < clear_passes(world, query).len() ==> {
            let p = #[trigger] clear_passes(world, query)[k];
            &&& p.color_attachment.is_some() || p.depth_stencil_attachment.is_some()
            &&& p.color_attachment matches Some(ops) ==> ops.store && ops.load is Clear
            &&& p.depth_stencil_attachment matches Some(a) ==> {
                &&& a.stencil_ops.is_none()
                &&& a.depth_ops matches Some(ops) && ops.store && ops.load is Clear
            }
        },
    decreases query.len(),
{
    if query.len() > 0 {
        lemma_cleared_attachments_are_stored(world, query.drop_last());
    }
}

} // verus!
