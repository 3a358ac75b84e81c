//! Camera state and the per-frame decision of which cameras recompute their projection.
//!
//! The projection itself is computed by the caller from the size that `camera_system`
//! hands out for each camera, and stored back with `Camera::set_projection`.

use vstd::prelude::*;
use crate::registry::{Images, Windows};
use crate::target::{
    contains_entity, contains_window, DepthCalculation, Entity, ImageHandle, RenderTarget, WindowId,
};

verus! {

/// A camera: its projection matrix of type `M`, clipping planes of type `F`, and target.
pub struct Camera<M, F> {
    pub projection_matrix: M,
    pub name: Option<String>,
    pub target: RenderTarget,
    pub depth_calculation: DepthCalculation,
    pub near: F,
    pub far: F,
}

/// The window that `target` names, if it is a window.
pub open spec fn window_of(target: RenderTarget) -> Option<WindowId> {
    match target {
        RenderTarget::Window(w) => Some(w),
        RenderTarget::Image(_) => None,
    }
}

/// Physical size of `target` in pixels, if the target is known.
pub open spec fn physical_size_of<L: Copy>(
    target: RenderTarget,
    windows: Windows<L>,
    images: Images<L>,
) -> Option<(u32, u32)> {
    match target {
        RenderTarget::Window(w) => match windows.lookup(w) {
            Some(info) => Some((info.physical_width, info.physical_height)),
            None => None,
        },
        RenderTarget::Image(h) => match images.lookup(h) {
            Some(info) => Some((info.width, info.height)),
            None => None,
        },
    }
}

/// Logical size of `target`, if the target is known.
pub open spec fn logical_size_of<L: Copy>(
    target: RenderTarget,
    windows: Windows<L>,
    images: Images<L>,
) -> Option<L> {
    match target {
        RenderTarget::Window(w) => match windows.lookup(w) {
            Some(info) => Some(info.logical_size),
            None => None,
        },
        RenderTarget::Image(h) => match images.lookup(h) {
            Some(info) => Some(info.logical_size),
            None => None,
        },
    }
}

impl<M, F> Camera<M, F> {
    /// The window this camera renders to, if it renders to a window.
    pub fn get_window(&self) -> (r: Option<WindowId>)
        ensures
            r == window_of(self.target),
    {
        if let RenderTarget::Window(window) = self.target {
            Some(window)
        } else {
            None
        }
    }

    /// The size in pixels of this camera's target, if the target is known.
    pub fn get_physical_size<L: Copy>(&self, windows: &Windows<L>, images: &Images<L>) -> (r:
        Option<(u32, u32)>)
        ensures
            r == physical_size_of(self.target, *windows, *images),
    {
        match self.target {
            RenderTarget::Window(window_id) => match windows.get(window_id) {
                Some(info) => Some((info.physical_width, info.physical_height)),
                None => None,
            },
            RenderTarget::Image(handle) => match images.get(handle) {
                Some(info) => Some((info.width, info.height)),
                None => None,
            },
        }
    }

    /// The size in user units of this camera's target, if the target is known.
    pub fn get_logical_size<L: Copy>(&self, windows: &Windows<L>, images: &Images<L>) -> (r:
        Option<L>)
        ensures
            r == logical_size_of(self.target, *windows, *images),
    {
        match self.target {
            RenderTarget::Window(window_id) => match windows.get(window_id) {
                Some(info) => Some(info.logical_size),
                None => None,
            },
            RenderTarget::Image(handle) => match images.get(handle) {
                Some(info) => Some(info.logical_size),
                None => None,
            },
        }
    }

    /// Stores what the camera's projection computed: its matrix and depth calculation.
    pub fn set_projection(&mut self, projection_matrix: M, depth_calculation: DepthCalculation)
        ensures
            final(self).projection_matrix == projection_matrix,
            final(self).depth_calculation == depth_calculation,
            final(self).name == old(self).name,
            final(self).target == old(self).target,
            final(self).near == old(self).near,
            final(self).far == old(self).far,
    {
        self.projection_matrix = projection_matrix;
        self.depth_calculation = depth_calculation;
    }
}

/// `s` from its last element to its first.
pub open spec fn reversed(s: Seq<WindowId>) -> Seq<WindowId> {
    Seq::new(s.len(), |k: int| s[s.len() - 1 - k])
}

/// `acc` extended by each element of `s`, in order, that it does not hold yet.
pub open spec fn push_new(acc: Seq<WindowId>, s: Seq<WindowId>) -> Seq<WindowId>
    decreases s.len(),
{
    if s.len() == 0 {
        acc
    } else {
        let a = push_new(acc, s.drop_last());
        if a.contains(s.last()) {
            a
        } else {
            a.push(s.last())
        }
    }
}

/// The windows that were resized or created, each once: resize events latest first,
/// then creation events latest first.
pub open spec fn changed_windows(resized: Seq<WindowId>, created: Seq<WindowId>) -> Seq<WindowId> {
    push_new(push_new(Seq::empty(), reversed(resized)), reversed(created))
}

proof fn lemma_push_new(acc: Seq<WindowId>, s: Seq<WindowId>)
    requires
        acc.no_duplicates(),
    ensures
        push_new(acc, s).no_duplicates(),
        forall|x: WindowId| push_new(acc, s).contains(x) <==> (acc.contains(x) || s.contains(x)),
    decreases s.len(),
{
    if s.len() > 0 {
        lemma_push_new(acc, s.drop_last());
        assert forall|x: WindowId| s.contains(x) <==> (s.drop_last().contains(x) || x == s.last()) by {
            if s.contains(x) {
                let j = choose|j: int| 0 <= j < s.len() && s[j] == x;
                if j < s.len() - 1 {
                    assert(s.drop_last()[j] == x);
                }
            }
            if s.drop_last().contains(x) {
                let j = choose|j: int| 0 <= j < s.len() - 1 && s.drop_last()[j] == x;
                assert(s[j] == x);
            }
            if x == s.last() {
                assert(s[s.len() - 1] == x);
            }
        }
        let a = push_new(acc, s.drop_last());
        if !a.contains(s.last()) {
            assert forall|x: WindowId| a.push(s.last()).contains(x) <==> (a.contains(x) || x == s.last()) by {
                if a.push(s.last()).contains(x) {
                    let j = choose|j: int| 0 <= j < a.len() + 1 && a.push(s.last())[j] == x;
                    if j < a.len() {
                        assert(a[j] == x);
                    }
                }
                if a.contains(x) {
                    let j = choose|j: int| 0 <= j < a.len() && a[j] == x;
                    assert(a.push(s.last())[j] == x);
                }
                if x == s.last() {
                    assert(a.push(s.last())[a.len() as int] == x);
                }
            }
            assert forall|i: int, j: int|
                0 <= i < a.len() + 1 && 0 <= j < a.len() + 1 && i != j implies a.push(s.last())[i]
                    != a.push(s.last())[j] by {
                if i == a.len() {
                    assert(a.contains(a[j]));
                } else if j == a.len() {
                    assert(a.contains(a[i]));
                }
            }
        }
    }
}

proof fn lemma_reversed_contains(s: Seq<WindowId>)
    ensures
        forall|x: WindowId| reversed(s).contains(x) <==> s.contains(x),
{
    assert forall|x: WindowId| reversed(s).contains(x) <==> s.contains(x) by {
        if reversed(s).contains(x) {
            let k = choose|k: int| 0 <= k < s.len() && reversed(s)[k] == x;
            assert(s[s.len() - 1 - k] == x);
        }
        if s.contains(x) {
            let j = choose|j: int| 0 <= j < s.len() && s[j] == x;
            assert(reversed(s)[s.len() - 1 - j] == x);
        }
    }
}

/// Appends to `acc` each id of `events`, latest first, that `acc` does not hold yet.
fn push_latest_first(acc: &mut Vec<WindowId>, events: &Vec<WindowId>)
    ensures
        final(acc)@ == push_new(old(acc)@, reversed(events@)),
{
    let n = events.len();
    let mut k: usize = 0;
    proof {
        assert(reversed(events@).take(0) =~= Seq::<WindowId>::empty());
    }
    while k < n
        invariant
            n == events@.len(),
            k <= n,
            acc@ == push_new(old(acc)@, reversed(events@).take(k as int)),
        decreases n - k,
    {
        let id = events[n - 1 - k];
        proof {
            let r = reversed(events@).take(k + 1);
            assert(r.drop_last() =~= reversed(events@).take(k as int));
            assert(r.last() == id);
        }
        if !contains_window(acc, id) {
            acc.push(id);
        }
        k = k + 1;
    }
    proof {
        assert(reversed(events@).take(n as int) =~= reversed(events@));
    }
}

/// The windows that were resized or created this frame, each once, latest events first.
pub fn changed_window_ids(resized: &Vec<WindowId>, created: &Vec<WindowId>) -> (r: Vec<WindowId>)
    ensures
        r@ == changed_windows(resized@, created@),
        r@.no_duplicates(),
        forall|w: WindowId| r@.contains(w) <==> (resized@.contains(w) || created@.contains(w)),
{
    let mut ids: Vec<WindowId> = Vec::new();
    push_latest_first(&mut ids, resized);
    push_latest_first(&mut ids, created);
    proof {
        lemma_push_new(Seq::empty(), reversed(resized@));
        lemma_push_new(push_new(Seq::empty(), reversed(resized@)), reversed(created@));
        lemma_reversed_contains(resized@);
        lemma_reversed_contains(created@);
    }
    ids
}

/// One camera as the projection update sees it.
#[derive(Clone, Copy, Debug)]
pub struct ProjectionQueryItem {
    pub entity: Entity,
    pub target: RenderTarget,
    /// Whether the camera's projection parameters were written since the last update.
    pub projection_changed: bool,
}

/// Whether `item` must recompute its projection: its window was resized or created,
/// the camera was just added, or its projection parameters were written.
pub open spec fn needs_update(
    item: ProjectionQueryItem,
    resized: Seq<WindowId>,
    created: Seq<WindowId>,
    added: Seq<Entity>,
) -> bool {
    ||| match item.target {
        RenderTarget::Window(w) => resized.contains(w) || created.contains(w),
        RenderTarget::Image(_) => false,
    }
    ||| added.contains(item.entity)
    ||| item.projection_changed
}

/// The size with which `item` recomputes its projection this frame, or `None` when it
/// keeps its projection: it needs no update, or its target's size is unavailable.
pub open spec fn projection_update<L: Copy>(
    item: ProjectionQueryItem,
    resized: Seq<WindowId>,
    created: Seq<WindowId>,
    added: Seq<Entity>,
    windows: Windows<L>,
    images: Images<L>,
) -> Option<L> {
    if needs_update(item, resized, created, added) {
        logical_size_of(item.target, windows, images)
    } else {
        None
    }
}

/// Decides, for each camera of `cameras`, whether it recomputes its projection this frame,
/// and with which logical size: the entry at `i` is `Some(size)` when camera `i` must be
/// updated with `size`, and `None` when its projection stays as it is.
pub fn camera_system<L: Copy>(
    resized: &Vec<WindowId>,
    created: &Vec<WindowId>,
    windows: &Windows<L>,
    images: &Images<L>,
    cameras: &Vec<ProjectionQueryItem>,
    added: &Vec<Entity>,
) -> (r: Vec<Option<L>>)
    ensures
        r@.len() == cameras@.len(),
        forall|i: int|
            0 <= i < cameras@.len() ==> r@[i] == projection_update(
                #[trigger] cameras@[i],
                resized@,
                created@,
                added@,
                *windows,
                *images,
            ),
{
    let changed = changed_window_ids(resized, created);
    let mut updates: Vec<Option<L>> = Vec::new();
    let mut i: usize = 0;
    while i < cameras.len()
        invariant
            i <= cameras@.len(),
            updates@.len() == i,
            forall|w: WindowId| changed@.contains(w) <==> (resized@.contains(w) || created@.contains(w)),
            forall|j: int|
                0 <= j < i ==> updates@[j] == projection_update(
                    #[trigger] cameras@[j],
                    resized@,
                    created@,
                    added@,
                    *windows,
                    *images,
                ),
        decreases cameras@.len() - i,
    {
        let item = cameras[i];
        let window_changed = match item.target {
            RenderTarget::Window(w) => contains_window(&changed, w),
            RenderTarget::Image(_) => false,
        };
        let update = if window_changed || contains_entity(added, item.entity)
            || item.projection_changed {
            match item.target {
                RenderTarget::Window(w) => match windows.get(w) {
                    Some(info) => Some(info.logical_size),
                    None => None,
                },
                RenderTarget::Image(h) => match images.get(h) {
                    Some(info) => Some(info.logical_size),
                    None => None,
                },
            }
        } else {
            None
        };
        updates.push(update);
        i = i + 1;
    }
    updates
}

/// A camera that must be updated and whose target size is known recomputes its
/// projection with exactly that size.
pub proof fn lemma_update_uses_current_size<L: Copy>(
    item: ProjectionQueryItem,
    resized: Seq<WindowId>,
    created: Seq<WindowId>,
    added: Seq<Entity>,
    windows: Windows<L>,
    images: Images<L>,
    size: L,
)
    requires
        needs_update(item, resized, created, added),
        logical_size_of(item.target, windows, images) == Some(size),
    ensures
        projection_update(item, resized, created, added, windows, images) == Some(size),
{
}

/// A camera whose target size is unavailable keeps its projection, whatever happened.
pub proof fn lemma_unavailable_size_keeps_projection<L: Copy>(
    item: ProjectionQueryItem,
    resized: Seq<WindowId>,
    created: Seq<WindowId>,
    added: Seq<Entity>,
    windows: Windows<L>,
    images: Images<L>,
)
    requires
        logical_size_of(item.target, windows, images).is_none(),
    ensures
        projection_update(item, resized, created, added, windows, images).is_none(),
{
}

/// Any number of resize events for one window yield that window once, and each camera
/// is updated just as after a single event.
pub proof fn lemma_repeated_resizes_count_once<L: Copy>(
    w: WindowId,
    n: nat,
    item: ProjectionQueryItem,
    created: Seq<WindowId>,
    added: Seq<Entity>,
    windows: Windows<L>,
    images: Images<L>,
)
    requires
        n >= 1,
    ensures
        changed_windows(Seq::new(n, |k: int| w), Seq::empty()) == seq![w],
        projection_update(item, Seq::new(n, |k: int| w), created, added, windows, images)
            == projection_update(item, seq![w], created, added, windows, images),
{
    let s = Seq::new(n, |k: int| w);
    assert(s.contains(w) && seq![w].contains(w)) by {
        assert(s[0] == w);
        assert(seq![w][0] == w);
    }
    assert forall|x: WindowId| s.contains(x) <==> seq![w].contains(x) by {
        if s.contains(x) {
            let j = choose|j: int| 0 <= j < s.len() && s[j] == x;
        }
        if seq![w].contains(x) {
            let j = choose|j: int| 0 <= j < 1 && seq![w][j] == x;
        }
    }
    lemma_push_new(Seq::empty(), reversed(s));
    lemma_reversed_contains(s);
    let c = push_new(Seq::empty(), reversed(s));
    assert(reversed(Seq::<WindowId>::empty()) =~= Seq::<WindowId>::empty());
    assert(changed_windows(s, Seq::empty()) == c);
    assert(c.contains(w));
    assert(c.len() == 1) by {
        if c.len() > 1 {
            assert(c.contains(c[0]) && c.contains(c[1]));
            assert(s.contains(c[0]) && s.contains(c[1]));
            let j0 = choose|j: int| 0 <= j < s.len() && s[j] == c[0];
            let j1 = choose|j: int| 0 <= j < s.len() && s[j] == c[1];
            assert(c[0] == w && c[1] == w);
        }
    }
    assert(c =~= seq![w]);
}

/// Resizing or creating windows never updates a camera that renders to an image, unless
/// it was just added or its projection parameters were written.
pub proof fn lemma_window_events_skip_image_cameras<L: Copy>(
    item: ProjectionQueryItem,
    handle: ImageHandle,
    resized: Seq<WindowId>,
    created: Seq<WindowId>,
    added: Seq<Entity>,
    windows: Windows<L>,
    images: Images<L>,
)
    requires
        item.target == RenderTarget::Image(handle),
        !added.contains(item.entity),
        !item.projection_changed,
    ensures
        !needs_update(item, resized, created, added),
        projection_update(item, resized, created, added, windows, images).is_none(),
{
}

} // verus!
