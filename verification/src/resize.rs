//! Keeping the render target and the full-screen quad as large as the
//! output surface.

use vstd::prelude::*;
use crate::surface::{FullScreenQuad, MainRenderTarget, RenderTargetView, SurfaceId, SurfaceSize, create_window_quad};

verus! {

/// The output surface `surface` now measures `width` by `height` physical
/// pixels.
#[derive(Clone, Copy, Debug, PartialEq, Eq, Structural)]
pub struct ResizeEvent {
    pub surface: SurfaceId,
    pub width: u32,
    pub height: u32,
}

/// What the caller has to do to the storage after resize handling.
#[derive(Clone, Copy, Debug, PartialEq, Eq, Structural)]
pub enum ResizeAction {
    /// Nothing: texture and mesh stay as they are.
    Keep,
    /// Allocate the texture and the mesh anew at this size.
    Regenerate(SurfaceSize),
}

/// The sizes of the render target and of the quad.
#[derive(Clone, Copy, Debug, PartialEq, Eq, Structural)]
pub struct Extents {
    pub target: SurfaceSize,
    pub quad: SurfaceSize,
}

impl ResizeEvent {
    /// The size that the event announces.
    pub open spec fn size(self) -> SurfaceSize {
        SurfaceSize { width: self.width, height: self.height }
    }
}

/// The size announced by the last event for the surface `primary`, if there
/// is such an event. Events for other surfaces do not count.
pub open spec fn latest_size(events: Seq<ResizeEvent>, primary: SurfaceId) -> Option<SurfaceSize>
    decreases events.len(),
{
    if events.len() == 0 {
        None
    } else if events.last().surface == primary {
        Some(events.last().size())
    } else {
        latest_size(events.drop_last(), primary)
    }
}

/// What has to be done so that target and quad have the requested size:
/// nothing when no size is requested or both have it already.
pub open spec fn action_for(extents: Extents, requested: Option<SurfaceSize>) -> ResizeAction {
    match requested {
        None => ResizeAction::Keep,
        Some(size) => if extents.target == size && extents.quad == size {
            ResizeAction::Keep
        } else {
            ResizeAction::Regenerate(size)
        },
    }
}

/// The sizes of target and quad once the request has been served.
pub open spec fn extents_after(extents: Extents, requested: Option<SurfaceSize>) -> Extents {
    match requested {
        None => extents,
        Some(size) => Extents { target: size, quad: size },
    }
}

/// The sizes of target and quad after the events have been served one by
/// one, in order.
pub open spec fn extents_after_each(
    extents: Extents,
    events: Seq<ResizeEvent>,
    primary: SurfaceId,
) -> Extents
    decreases events.len(),
{
    if events.len() == 0 {
        extents
    } else {
        let before = extents_after_each(extents, events.drop_last(), primary);
        if events.last().surface == primary {
            extents_after(before, Some(events.last().size()))
        } else {
            before
        }
    }
}

/// Finds the size that the pending events ask for: that of the last event
/// for the primary surface.
pub fn pending_size(events: &[ResizeEvent], primary: SurfaceId) -> (size: Option<SurfaceSize>)
    ensures
        size == latest_size(events@, primary),
{
    let mut i: usize = events.len();
    proof {
        assert(events@.take(i as int) =~= events@);
    }
    while i > 0
        invariant
            i <= events.len(),
            latest_size(events@, primary) == latest_size(events@.take(i as int), primary),
        decreases i,
    {
        let event = events[i - 1];
        proof {
            let prefix = events@.take(i as int);
            assert(prefix.drop_last() =~= events@.take(i - 1));
        }
        if event.surface.raw == primary.raw {
            return Some(SurfaceSize { width: event.width, height: event.height });
        }
        i = i - 1;
    }
    None
}

/// Brings the render target and the quad to `size`, together.
///
/// When both have that size already nothing is touched. Otherwise the
/// render target is recreated under its handle and the quad is replaced by
/// a new one, both at `size`.
pub fn regenerate(target: &mut MainRenderTarget, quad: &mut FullScreenQuad, size: SurfaceSize) -> (action:
    ResizeAction)
    ensures
        action == action_for(
            Extents { target: old(target)@.size, quad: old(quad).size },
            Some(size),
        ),
        final(target)@ == (RenderTargetView { size, ..old(target)@ }),
        final(quad).size == size,
        action is Keep ==> *final(target) == *old(target) && *final(quad) == *old(quad),
        action is Regenerate ==> final(quad).placed(),
{
    let current = target.size();
    if current.width == size.width && current.height == size.height && quad.size.width
        == size.width && quad.size.height == size.height {
        return ResizeAction::Keep;
    }
    target.recreate(size.width, size.height);
    *quad = create_window_quad(size);
    ResizeAction::Regenerate(size)
}

/// Serves the resize events of one frame.
///
/// Only events for the surface `primary` count, and of those only the last
/// one: target and quad are brought to its size in one step. Without such an
/// event, or when both have that size already, nothing is touched.
pub fn coordinate_resize(
    target: &mut MainRenderTarget,
    quad: &mut FullScreenQuad,
    events: &[ResizeEvent],
    primary: SurfaceId,
) -> (action: ResizeAction)
    ensures
        action == action_for(
            Extents { target: old(target)@.size, quad: old(quad).size },
            latest_size(events@, primary),
        ),
        (Extents { target: final(target)@.size, quad: final(quad).size }) == extents_after(
            Extents { target: old(target)@.size, quad: old(quad).size },
            latest_size(events@, primary),
        ),
        latest_size(events@, primary) matches Some(size) ==> final(target)@.size == size
            && final(quad).size == size,
        final(target)@ == (RenderTargetView { size: final(target)@.size, ..old(target)@ }),
        action is Keep ==> *final(target) == *old(target) && *final(quad) == *old(quad),
        action is Regenerate ==> final(quad).placed(),
{
    match pending_size(events, primary) {
        Some(size) => regenerate(target, quad, size),
        None => ResizeAction::Keep,
    }
}

/// After an event for the primary surface has been served, the render
/// target and the quad both have the size that the event announced.
pub proof fn lemma_resize_sets_both(extents: Extents, event: ResizeEvent, primary: SurfaceId)
    requires
        event.surface == primary,
    ensures
        latest_size(seq![event], primary) == Some(event.size()),
        extents_after(extents, latest_size(seq![event], primary)) == (Extents {
            target: event.size(),
            quad: event.size(),
        }),
{
}

/// An event for any other surface changes nothing.
pub proof fn lemma_other_surfaces_are_ignored(
    extents: Extents,
    event: ResizeEvent,
    primary: SurfaceId,
)
    requires
        event.surface != primary,
    ensures
        latest_size(seq![event], primary) is None,
        action_for(extents, latest_size(seq![event], primary)) == ResizeAction::Keep,
        extents_after(extents, latest_size(seq![event], primary)) == extents,
{
    reveal_with_fuel(latest_size, 2);
}

/// A request for the size that target and quad already have is a no-op, and
/// serving any request a second time is one too.
pub proof fn lemma_resize_is_idempotent(extents: Extents, requested: Option<SurfaceSize>)
    ensures
        requested == Some(extents.target) && extents.quad == extents.target ==> action_for(
            extents,
            requested,
        ) == ResizeAction::Keep && extents_after(extents, requested) == extents,
        action_for(extents_after(extents, requested), requested) == ResizeAction::Keep,
        extents_after(extents_after(extents, requested), requested) == extents_after(
            extents,
            requested,
        ),
{
}

/// The size that pending events ask for is that of the last event for the
/// primary surface, and there is none exactly when no event is for it.
pub proof fn lemma_latest_size_is_last_primary(events: Seq<ResizeEvent>, primary: SurfaceId)
    ensures
        match latest_size(events, primary) {
            Some(size) => exists|i: int|
                {
                    &&& 0 <= i < events.len()
                    &&& (#[trigger] events[i]).surface == primary
                    &&& events[i].size() == size
                    &&& forall|j: int| i < j < events.len() ==> (#[trigger] events[j]).surface != primary
                },
            None => forall|i: int| 0 <= i < events.len() ==> (#[trigger] events[i]).surface != primary,
        },
    decreases events.len(),
{
    if events.len() > 0 && events.last().surface != primary {
        let head = events.drop_last();
        lemma_latest_size_is_last_primary(head, primary);
        match latest_size(head, primary) {
            Some(size) => {
                let i = choose|i: int|
                    {
                        &&& 0 <= i < head.len()
                        &&& (#[trigger] head[i]).surface == primary
                        &&& head[i].size() == size
                        &&& forall|j: int| i < j < head.len() ==> (#[trigger] head[j]).surface != primary
                    };
                assert forall|j: int| i < j < events.len() implies (#[trigger] events[j]).surface
                    != primary by {
                    if j < head.len() {
                        assert(events[j] == head[j]);
                    }
                }
            },
            None => {
                assert forall|i: int| 0 <= i < events.len() implies (#[trigger] events[i]).surface
                    != primary by {
                    if i < head.len() {
                        assert(events[i] == head[i]);
                    }
                }
            },
        }
    }
}

/// Serving only the latest event for the primary surface leaves target and
/// quad at the sizes that serving every event in turn would.
pub proof fn lemma_latest_event_wins(
    extents: Extents,
    events: Seq<ResizeEvent>,
    primary: SurfaceId,
)
    ensures
        extents_after_each(extents, events, primary) == extents_after(
            extents,
            latest_size(events, primary),
        ),
    decreases events.len(),
{
    if events.len() > 0 {
        lemma_latest_event_wins(extents, events.drop_last(), primary);
    }
}

} // verus!
