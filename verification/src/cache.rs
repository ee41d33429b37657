//! The cache of generated circle sprites, keyed by radius and colour.
use vstd::prelude::*;
use vstd::hash_map::HashMapWithView;

verus! {

broadcast use vstd::std_specs::hash::group_hash_axioms;

/// The cache slot of a circle of radius `radius` in colour `rgba`: the radius
/// in the upper 32 bits, then the red, green, blue and alpha bytes.
pub open spec fn circle_key(radius: u32, rgba: Seq<u8>) -> u64 {
    (radius as int * 0x1_0000_0000 + color_code(rgba)) as u64
}

/// The four colour bytes as one 32-bit number, red first.
pub open spec fn color_code(rgba: Seq<u8>) -> int {
    rgba[0] as int * 0x100_0000 + rgba[1] as int * 0x1_0000 + rgba[2] as int * 0x100
        + rgba[3] as int
}

/// Computes [`circle_key`].
pub fn cache_key(radius: u32, rgba: [u8; 4]) -> (key: u64)
    ensures
        key == circle_key(radius, rgba@),
{
    (radius as u64) * 0x1_0000_0000 + (rgba[0] as u64) * 0x100_0000 + (rgba[1] as u64) * 0x1_0000
        + (rgba[2] as u64) * 0x100 + (rgba[3] as u64)
}

/// Circles of different radii or colours never share a cache slot.
pub proof fn lemma_circle_key_injective(r1: u32, c1: Seq<u8>, r2: u32, c2: Seq<u8>)
    requires
        c1.len() == 4,
        c2.len() == 4,
        circle_key(r1, c1) == circle_key(r2, c2),
    ensures
        r1 == r2,
        c1 == c2,
{
    let (v1, v2) = (color_code(c1), color_code(c2));
    assert(0 <= v1 < 0x1_0000_0000 && 0 <= v2 < 0x1_0000_0000);
    assert(r1 as int * 0x1_0000_0000 + v1 == r2 as int * 0x1_0000_0000 + v2);
    assert(r1 == r2 && v1 == v2);
    assert(c1[0] == c2[0]);
    assert(c1[1] == c2[1]);
    assert(c1[2] == c2[2]);
    assert(c1 =~= c2);
}

/// Generated circle sprites, one per radius and colour, each held by a handle
/// of type `H`.
#[verifier::reject_recursive_types(H)]
pub struct CircleAssets<H> {
    handles: HashMapWithView<u64, H>,
}

impl<H> View for CircleAssets<H> {
    type V = Map<u64, H>;

    closed spec fn view(&self) -> Map<u64, H> {
        self.handles@
    }
}

impl<H: Clone> CircleAssets<H> {
    /// An empty cache.
    pub fn new() -> (assets: Self)
        ensures
            assets@ == Map::<u64, H>::empty(),
    {
        CircleAssets { handles: HashMapWithView::new() }
    }

    /// The cached sprite of a circle of radius `radius` in colour `rgba`, if
    /// one was made.
    pub fn get(&self, radius: u32, rgba: [u8; 4]) -> (handle: Option<&H>)
        ensures
            match handle {
                Some(h) => self@.contains_key(circle_key(radius, rgba@)) && *h == self@[circle_key(
                    radius,
                    rgba@,
                )],
                None => !self@.contains_key(circle_key(radius, rgba@)),
            },
    {
        let key = cache_key(radius, rgba);
        self.handles.get(&key)
    }

    /// The sprite of a circle of radius `radius` in colour `rgba`: a clone of
    /// the cached one if there is one, and otherwise the one that `create`
    /// makes, of which the cache keeps a clone. On a cache hit `create` is not
    /// called: it is handed back unspent as the second component.
    pub fn get_or_create<F: FnOnce() -> H>(&mut self, radius: u32, rgba: [u8; 4], create: F) -> (res: (H, Option<F>))
        requires
            create.requires(()),
        ensures
            old(self)@.submap_of(final(self)@),
            final(self)@.contains_key(circle_key(radius, rgba@)),
            old(self)@.contains_key(circle_key(radius, rgba@)) ==> {
                &&& final(self)@ == old(self)@
                &&& cloned(old(self)@[circle_key(radius, rgba@)], res.0)
                &&& res.1 == Some(create)
            },
            !old(self)@.contains_key(circle_key(radius, rgba@)) ==> {
                &&& create.ensures((), res.0)
                &&& res.1 is None
                &&& final(self)@ == old(self)@.insert(
                    circle_key(radius, rgba@),
                    final(self)@[circle_key(radius, rgba@)],
                )
                &&& cloned(res.0, final(self)@[circle_key(radius, rgba@)])
            },
    {
        let key = cache_key(radius, rgba);
        match self.handles.get(&key) {
            Some(handle) => (handle.clone(), Some(create)),
            None => {
                let handle = create();
                self.handles.insert(key, handle.clone());
                (handle, None)
            },
        }
    }
}

} // verus!
