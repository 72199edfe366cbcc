//! A three-component vector over any component type with an addition.
use std::ops::Add;
use vstd::prelude::*;
use vstd::std_specs::ops::AddSpec;

verus! {

/// A value with three components of one type.
#[derive(Clone, Copy, PartialEq, Eq, Hash, Debug)]
pub struct Vec3<T> {
    pub x: T,
    pub y: T,
    pub z: T,
}

impl<T: Add> Add for Vec3<T> {
    type Output = Vec3<T::Output>;

    /// Adds two vectors component by component.
    fn add(self, v: Self) -> (r: Self::Output)
        ensures
            T::obeys_add_spec() ==> r == (Vec3 {
                x: self.x.add_spec(v.x),
                y: self.y.add_spec(v.y),
                z: self.z.add_spec(v.z),
            }),
    {
        Vec3 { x: self.x + v.x, y: self.y + v.y, z: self.z + v.z }
    }
}

impl<T: Add> vstd::std_specs::ops::AddSpecImpl for Vec3<T> {
    open spec fn obeys_add_spec() -> bool {
        T::obeys_add_spec()
    }

    open spec fn add_req(self, v: Self) -> bool {
        &&& self.x.add_req(v.x)
        &&& self.y.add_req(v.y)
        &&& self.z.add_req(v.z)
    }

    open spec fn add_spec(self, v: Self) -> Vec3<T::Output> {
        Vec3 { x: self.x.add_spec(v.x), y: self.y.add_spec(v.y), z: self.z.add_spec(v.z) }
    }
}

/// Reading back the components of a freshly built vector gives the values it
/// was built from.
pub proof fn lemma_components_round_trip<T>(x: T, y: T, z: T)
    ensures
        (Vec3 { x, y, z }).x == x,
        (Vec3 { x, y, z }).y == y,
        (Vec3 { x, y, z }).z == z,
{
}

/// On `i32` components, a sum that does not overflow is the integer sum of
/// each pair of components.
pub proof fn lemma_i32_sum_is_componentwise(a: Vec3<i32>, b: Vec3<i32>)
    requires
        a.add_req(b),
    ensures
        a.add_spec(b).x == a.x + b.x,
        a.add_spec(b).y == a.y + b.y,
        a.add_spec(b).z == a.z + b.z,
{
}

/// Vector addition commutes wherever the component addition commutes.
pub proof fn lemma_add_commutes<T: Add>(a: Vec3<T>, b: Vec3<T>)
    requires
        forall|p: T, q: T| #[trigger] p.add_spec(q) == q.add_spec(p),
    ensures
        a.add_spec(b) == b.add_spec(a),
{
    assert(a.x.add_spec(b.x) == b.x.add_spec(a.x));
    assert(a.y.add_spec(b.y) == b.y.add_spec(a.y));
    assert(a.z.add_spec(b.z) == b.z.add_spec(a.z));
}

/// Vector addition associates wherever the component addition associates.
pub proof fn lemma_add_associates<T: Add<Output = T>>(a: Vec3<T>, b: Vec3<T>, c: Vec3<T>)
    requires
        forall|p: T, q: T, s: T| #[trigger] p.add_spec(q).add_spec(s) == p.add_spec(#[trigger] q.add_spec(s)),
    ensures
        a.add_spec(b).add_spec(c) == a.add_spec(b.add_spec(c)),
{
    assert(a.x.add_spec(b.x).add_spec(c.x) == a.x.add_spec(b.x.add_spec(c.x)));
    assert(a.y.add_spec(b.y).add_spec(c.y) == a.y.add_spec(b.y.add_spec(c.y)));
    assert(a.z.add_spec(b.z).add_spec(c.z) == a.z.add_spec(b.z.add_spec(c.z)));
}

} // verus!
