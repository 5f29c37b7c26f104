//! Binding hit-testing to freshly rendered geometry.
//!
//! Once per pass, every geometry instance that is not yet pickable gets a
//! bounding-box proxy from the [`crate::proxy::ProxyMeshCache`] and a
//! three-state highlight. Binding is idempotent: an instance bound once is
//! never rebound, and binding one instance never touches cache entries that
//! belong to other instances — the cache only ever grows.

use vstd::prelude::*;
use crate::fixed::{sat_add, add_sat};
use crate::proxy::{Aabb, ProxyMeshCache, aabb_bounded, lemma_extension_keeps_proxy};

verus! {

/// The closed set of interaction-driven highlight states.
#[derive(Clone, Copy, Debug, PartialEq, Eq, Structural)]
pub enum HighlightState {
    Hovered,
    Pressed,
    Selected,
}

/// A base color with alpha, each channel in thousandths.
#[derive(Clone, Copy, Debug, PartialEq, Eq, Structural)]
pub struct ColorFx {
    pub r: i64,
    pub g: i64,
    pub b: i64,
    pub a: i64,
}

/// The tint added to a material's base color per highlight state: two blues
/// for hovering and pressing, a green for selection.
pub open spec fn highlight_offset(state: HighlightState) -> ColorFx {
    match state {
        HighlightState::Hovered => ColorFx { r: -500i64, g: -300i64, b: 900i64, a: 800i64 },
        HighlightState::Pressed => ColorFx { r: -400i64, g: -400i64, b: 800i64, a: 800i64 },
        HighlightState::Selected => ColorFx { r: -400i64, g: 800i64, b: -400i64, a: 0i64 },
    }
}

/// The highlighted variant of a base color: the state's tint added channel
/// by channel, saturating at the representable range.
pub fn highlight_tint(state: HighlightState, base: ColorFx) -> (c: ColorFx)
    ensures
        c.r == sat_add(base.r as int, highlight_offset(state).r as int),
        c.g == sat_add(base.g as int, highlight_offset(state).g as int),
        c.b == sat_add(base.b as int, highlight_offset(state).b as int),
        c.a == sat_add(base.a as int, highlight_offset(state).a as int),
{
    let off = match state {
        HighlightState::Hovered => ColorFx { r: -500, g: -300, b: 900, a: 800 },
        HighlightState::Pressed => ColorFx { r: -400, g: -400, b: 800, a: 800 },
        HighlightState::Selected => ColorFx { r: -400, g: 800, b: -400, a: 0 },
    };
    ColorFx {
        r: add_sat(base.r, off.r),
        g: add_sat(base.g, off.g),
        b: add_sat(base.b, off.b),
        a: add_sat(base.a, off.a),
    }
}

/// One renderable geometry instance, as the binder sees it: its identity,
/// the identity of its source mesh, its bounding volume, and — once bound —
/// the proxy mesh its hit-testing runs against.
#[derive(Clone, Copy, Debug)]
pub struct Geometry {
    pub entity: u64,
    pub mesh: u64,
    pub bounds: Aabb,
    pub pickability: Option<u64>,
}

/// Bind every not-yet-pickable geometry instance: obtain the proxy for its
/// source mesh — creating it on first sight — and mark the instance bound to
/// it. Instances bound earlier are left exactly as they were, and the cache
/// keeps every entry it had.
#[verifier::loop_isolation(false)]
pub fn bind_pickability(geometry: &mut Vec<Geometry>, cache: &mut ProxyMeshCache)
    requires
        old(cache).wf(),
        forall|i: int|
            0 <= i < old(geometry)@.len() ==> aabb_bounded(#[trigger] old(geometry)@[i].bounds),
        old(cache).next_proxy + old(geometry)@.len() < u64::MAX,
    ensures
        final(cache).wf(),
        old(cache).entries@.is_prefix_of(final(cache).entries@),
        final(geometry)@.len() == old(geometry)@.len(),
        forall|i: int|
            0 <= i < old(geometry)@.len() ==> {
                &&& (#[trigger] final(geometry)@[i]).entity == old(geometry)@[i].entity
                &&& final(geometry)@[i].mesh == old(geometry)@[i].mesh
                &&& final(geometry)@[i].bounds == old(geometry)@[i].bounds
            },
        forall|i: int|
            0 <= i < old(geometry)@.len() && old(geometry)@[i].pickability is Some
                ==> (#[trigger] final(geometry)@[i]).pickability == old(geometry)@[i].pickability,
        forall|i: int|
            0 <= i < old(geometry)@.len() && old(geometry)@[i].pickability is None ==> {
                &&& final(cache).has_source((#[trigger] final(geometry)@[i]).mesh)
                &&& final(geometry)@[i].pickability == Some(
                    final(cache).proxy_of(final(geometry)@[i].mesh),
                )
            },
{
    let mut i: usize = 0;
    while i < geometry.len()
        invariant
            i <= geometry@.len(),
            geometry@.len() == old(geometry)@.len(),
            cache.wf(),
            old(cache).entries@.is_prefix_of(cache.entries@),
            cache.next_proxy <= old(cache).next_proxy + i,
            forall|k: int|
                0 <= k < geometry@.len() ==> {
                    &&& (#[trigger] geometry@[k]).entity == old(geometry)@[k].entity
                    &&& geometry@[k].mesh == old(geometry)@[k].mesh
                    &&& geometry@[k].bounds == old(geometry)@[k].bounds
                },
            forall|k: int|
                i <= k < geometry@.len() ==> (#[trigger] geometry@[k]).pickability == old(
                    geometry,
                )@[k].pickability,
            forall|k: int|
                0 <= k < i && old(geometry)@[k].pickability is Some
                    ==> (#[trigger] geometry@[k]).pickability == old(geometry)@[k].pickability,
            forall|k: int|
                0 <= k < i && old(geometry)@[k].pickability is None ==> {
                    &&& cache.has_source((#[trigger] geometry@[k]).mesh)
                    &&& geometry@[k].pickability == Some(cache.proxy_of(geometry@[k].mesh))
                },
        decreases geometry@.len() - i,
    {
        let ghost cache_pre = *cache;
        let g = geometry[i];
        if g.pickability.is_none() {
            let proxy = cache.get_or_create(g.mesh, g.bounds);
            geometry.set(
                i,
                Geometry { entity: g.entity, mesh: g.mesh, bounds: g.bounds, pickability: Some(proxy) },
            );
            proof {
                assert forall|k: int|
                    0 <= k < i && old(geometry)@[k].pickability is None implies {
                    &&& cache.has_source((#[trigger] geometry@[k]).mesh)
                    &&& geometry@[k].pickability == Some(cache.proxy_of(geometry@[k].mesh))
                } by {
                    lemma_extension_keeps_proxy(&cache_pre, cache, geometry@[k].mesh);
                }
            }
        }
        i = i + 1;
    }
}

} // verus!
