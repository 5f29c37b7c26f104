//! The picking-proxy cache.
//!
//! Hit-testing never runs against full render geometry: every source mesh is
//! paired with a cheap axis-aligned box mesh spanned by its bounding volume.
//! The pairing is keyed by source-mesh identity and created at most once —
//! repeated geometry never regenerates its proxy, and downstream hit-testing
//! structures may therefore key on proxy identity.

use vstd::prelude::*;
use crate::fixed::{Vec3Fx, vec3_bounded};

verus! {

/// An axis-aligned bounding volume: a center and half-extents.
#[derive(Clone, Copy, Debug, PartialEq, Eq, Structural)]
pub struct Aabb {
    pub center: Vec3Fx,
    pub half_extents: Vec3Fx,
}

/// Both parts of a bounding volume lie within the world-coordinate bound.
pub open spec fn aabb_bounded(a: Aabb) -> bool {
    vec3_bounded(a.center) && vec3_bounded(a.half_extents)
}

/// A box mesh, spanned by two opposite corners.
#[derive(Clone, Copy, Debug, PartialEq, Eq, Structural)]
pub struct BoxMesh {
    pub min: Vec3Fx,
    pub max: Vec3Fx,
}

/// The box a bounding volume spans: its corners are the center shifted by
/// minus and plus the half-extents.
pub open spec fn box_of(a: Aabb) -> BoxMesh {
    BoxMesh {
        min: Vec3Fx {
            x: (a.center.x - a.half_extents.x) as i64,
            y: (a.center.y - a.half_extents.y) as i64,
            z: (a.center.z - a.half_extents.z) as i64,
        },
        max: Vec3Fx {
            x: (a.center.x + a.half_extents.x) as i64,
            y: (a.center.y + a.half_extents.y) as i64,
            z: (a.center.z + a.half_extents.z) as i64,
        },
    }
}

/// One cached pairing: a source mesh, the identity of its generated proxy,
/// and the proxy's geometry.
#[derive(Clone, Copy, Debug, PartialEq, Eq, Structural)]
pub struct ProxyEntry {
    pub source: u64,
    pub proxy: u64,
    pub mesh: BoxMesh,
}

/// The identity-keyed map from source meshes to their hit-test proxies.
pub struct ProxyMeshCache {
    /// Cached pairings, in creation order.
    pub entries: Vec<ProxyEntry>,
    /// The identity the next generated proxy mesh will take.
    pub next_proxy: u64,
}

impl ProxyMeshCache {
    /// Well-formedness: at most one entry per source mesh, and proxy
    /// identities strictly increasing — hence fresh and pairwise distinct.
    pub open spec fn wf(&self) -> bool {
        &&& forall|i: int, j: int|
            0 <= i < j < self.entries@.len() ==> #[trigger] self.entries@[i].source
                != #[trigger] self.entries@[j].source
        &&& forall|i: int, j: int|
            0 <= i < j < self.entries@.len() ==> #[trigger] self.entries@[i].proxy
                < #[trigger] self.entries@[j].proxy
        &&& forall|i: int|
            0 <= i < self.entries@.len() ==> #[trigger] self.entries@[i].proxy < self.next_proxy
    }

    /// Whether a source mesh already has a proxy.
    pub open spec fn has_source(&self, source: u64) -> bool {
        exists|i: int| 0 <= i < self.entries@.len() && #[trigger] self.entries@[i].source == source
    }

    /// The index of a source mesh's entry.
    pub open spec fn index_of(&self, source: u64) -> int {
        choose|i: int| 0 <= i < self.entries@.len() && #[trigger] self.entries@[i].source == source
    }

    /// The proxy identity cached for a source mesh.
    pub open spec fn proxy_of(&self, source: u64) -> u64 {
        self.entries@[self.index_of(source)].proxy
    }

    /// A fresh, empty cache.
    pub fn new() -> (c: ProxyMeshCache)
        ensures
            c.wf(),
            c.entries@.len() == 0,
            c.next_proxy == 0,
    {
        ProxyMeshCache { entries: Vec::new(), next_proxy: 0 }
    }

    /// Look a source mesh up, constructing and caching its box proxy on a
    /// miss. For a fixed source mesh the returned proxy identity is the same
    /// across all calls: a hit changes nothing, and a miss stores the pairing
    /// before returning it.
    #[verifier::loop_isolation(false)]
    pub fn get_or_create(&mut self, source: u64, bounds: Aabb) -> (proxy: u64)
        requires
            old(self).wf(),
            aabb_bounded(bounds),
            old(self).next_proxy < u64::MAX,
        ensures
            final(self).wf(),
            final(self).has_source(source),
            proxy == final(self).proxy_of(source),
            old(self).has_source(source) ==> {
                &&& final(self).entries@ == old(self).entries@
                &&& final(self).next_proxy == old(self).next_proxy
                &&& proxy == old(self).proxy_of(source)
            },
            !old(self).has_source(source) ==> {
                &&& proxy == old(self).next_proxy
                &&& final(self).entries@ == old(self).entries@.push(
                    (ProxyEntry { source, proxy: old(self).next_proxy, mesh: box_of(bounds) }),
                )
                &&& final(self).next_proxy == old(self).next_proxy + 1
            },
            old(self).entries@.is_prefix_of(final(self).entries@),
            final(self).next_proxy <= old(self).next_proxy + 1,
    {
        let mut i: usize = 0;
        while i < self.entries.len()
            invariant
                i <= self.entries.len(),
                forall|k: int| 0 <= k < i ==> #[trigger] self.entries@[k].source != source,
            decreases self.entries.len() - i,
        {
            if self.entries[i].source == source {
                let p = self.entries[i].proxy;
                proof {
                    let j = self.index_of(source);
                    assert(self.entries@[i as int].source == source);
                    assert(0 <= j < self.entries@.len() && self.entries@[j].source == source);
                    if j != i as int {
                        if j < i as int {
                            assert(self.entries@[j].source != self.entries@[i as int].source);
                        } else {
                            assert(self.entries@[i as int].source != self.entries@[j].source);
                        }
                    }
                }
                return p;
            }
            i = i + 1;
        }
        let proxy = self.next_proxy;
        let mesh = BoxMesh {
            min: Vec3Fx {
                x: bounds.center.x - bounds.half_extents.x,
                y: bounds.center.y - bounds.half_extents.y,
                z: bounds.center.z - bounds.half_extents.z,
            },
            max: Vec3Fx {
                x: bounds.center.x + bounds.half_extents.x,
                y: bounds.center.y + bounds.half_extents.y,
                z: bounds.center.z + bounds.half_extents.z,
            },
        };
        let ghost pre = self.entries@;
        self.entries.push(ProxyEntry { source, proxy, mesh });
        self.next_proxy = self.next_proxy + 1;
        proof {
            assert(self.entries@[pre.len() as int].source == source);
            let j = self.index_of(source);
            assert(0 <= j < self.entries@.len() && self.entries@[j].source == source);
            assert forall|a: int, b: int|
                0 <= a < b < self.entries@.len() implies #[trigger] self.entries@[a].source
                != #[trigger] self.entries@[b].source && #[trigger] self.entries@[a].proxy
                < #[trigger] self.entries@[b].proxy by {
                if b < pre.len() {
                } else {
                    assert(self.entries@[a] == pre[a]);
                }
            }
            if j != pre.len() as int {
                assert(self.entries@[j].source != self.entries@[pre.len() as int].source);
            }
        }
        proxy
    }
}

/// Extending a well-formed cache never rebinds a source that was already
/// cached: its proxy in the larger cache is its proxy in the smaller one.
pub proof fn lemma_extension_keeps_proxy(c1: &ProxyMeshCache, c2: &ProxyMeshCache, source: u64)
    requires
        c2.wf(),
        c1.entries@.is_prefix_of(c2.entries@),
        c1.has_source(source),
    ensures
        c2.has_source(source),
        c2.proxy_of(source) == c1.proxy_of(source),
{
    let i = c1.index_of(source);
    assert(0 <= i < c1.entries@.len() && c1.entries@[i].source == source);
    assert(c2.entries@[i] == c1.entries@[i]);
    let j = c2.index_of(source);
    assert(0 <= j < c2.entries@.len() && c2.entries@[j].source == source);
    if i != j {
        if i < j {
            assert(c2.entries@[i].source != c2.entries@[j].source);
        } else {
            assert(c2.entries@[j].source != c2.entries@[i].source);
        }
    }
}

/// Distinct source meshes always map to distinct proxy meshes.
pub proof fn lemma_distinct_sources_distinct_proxies(c: &ProxyMeshCache, a: u64, b: u64)
    requires
        c.wf(),
        c.has_source(a),
        c.has_source(b),
        a != b,
    ensures
        c.proxy_of(a) != c.proxy_of(b),
{
    let i = c.index_of(a);
    let j = c.index_of(b);
    assert(0 <= i < c.entries@.len() && c.entries@[i].source == a);
    assert(0 <= j < c.entries@.len() && c.entries@[j].source == b);
    if i < j {
        assert(c.entries@[i].proxy < c.entries@[j].proxy);
    } else {
        assert(c.entries@[j].proxy < c.entries@[i].proxy);
    }
}

} // verus!
