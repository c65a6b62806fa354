//! The scene: a list of primitives, hit as one.
use crate::hittable::{Crossing, HitRecord, Hittable};
use crate::scalar::Scalar;
use crate::vec3::{Point3, Vec3};
use vstd::prelude::*;
use vstd::seq_lib::to_multiset_contains;

verus! {

/// The primitives of a scene, in the order in which they were added.
pub struct HittableList {
    pub objects: Vec<Hittable>,
}

/// The nearest hit among the crossings of one ray with the primitives of a
/// list, as the index of the primitive and the ray parameter. The list is
/// walked front to back; each primitive is asked for a hit no farther than
/// the best one so far, and replaces it when it has one.
pub open spec fn nearest(cs: Seq<Crossing>, t_min: Scalar, t_max: Scalar) -> Option<(int, Scalar)>
    decreases cs.len(),
{
    if cs.len() == 0 {
        None
    } else {
        let before = nearest(cs.drop_last(), t_min, t_max);
        match cs.last().root(t_min, closest(before, t_max)) {
            Some(t) => Some((cs.len() - 1, t)),
            None => before,
        }
    }
}

/// The far end of the interval that is still open after `best`.
pub open spec fn closest(best: Option<(int, Scalar)>, t_max: Scalar) -> Scalar {
    match best {
        Some((_, t)) => t,
        None => t_max,
    }
}

impl HittableList {
    /// The primitives, in order.
    pub open spec fn view(&self) -> Seq<Hittable> {
        self.objects@
    }

    /// The empty scene.
    pub fn new() -> (list: HittableList)
        ensures
            list@ == Seq::<Hittable>::empty(),
    {
        HittableList { objects: Vec::new() }
    }

    /// Adds a primitive at the end.
    pub fn add(&mut self, object: Hittable)
        ensures
            final(self)@ == old(self)@.push(object),
    {
        self.objects.push(object);
    }

    /// The number of primitives.
    pub fn len(&self) -> (n: usize)
        ensures
            n == self@.len(),
    {
        self.objects.len()
    }

    /// The primitive at `index`.
    pub fn get(&self, index: usize) -> (object: Option<Hittable>)
        ensures
            object == if index < self@.len() {
                Some(self@[index as int])
            } else {
                None
            },
    {
        if index < self.objects.len() {
            Some(self.objects[index])
        } else {
            None
        }
    }

    /// The nearest hit of one ray within the interval from `t_min` to
    /// `t_max`: the index of the primitive and the ray parameter, or `None`
    /// when the ray hits nothing. `crossings` holds the ray's crossing with
    /// each primitive, in the order of the list.
    pub fn hit(&self, crossings: &Vec<Crossing>, t_min: Scalar, t_max: Scalar) -> (r: Option<
        (usize, Scalar),
    >)
        requires
            crossings@.len() == self@.len(),
        ensures
            match r {
                Some((i, t)) => nearest(crossings@, t_min, t_max) == Some((i as int, t)) && i
                    < self@.len(),
                None => nearest(crossings@, t_min, t_max) is None,
            },
            self@.len() == 0 ==> r is None,
    {
        let mut best: Option<(usize, Scalar)> = None;
        let mut closest_so_far = t_max;
        let n: usize = crossings.len();
        let mut i: usize = 0;
        while i < n
            invariant
                i <= n,
                n == crossings@.len(),
                n == self@.len(),
                match best {
                    Some((k, t)) => nearest(crossings@.take(i as int), t_min, t_max) == Some(
                        (k as int, t),
                    ) && k < i && closest_so_far == t,
                    None => nearest(crossings@.take(i as int), t_min, t_max) is None
                        && closest_so_far == t_max,
                },
            decreases n - i,
        {
            proof {
                let next = crossings@.take(i + 1);
                assert(next.drop_last() == crossings@.take(i as int));
                assert(next.last() == crossings@[i as int]);
            }
            if let Some(t) = self.objects[i].hit(&crossings[i], t_min, closest_so_far) {
                closest_so_far = t;
                best = Some((i, t));
            }
            i += 1;
        }
        proof {
            assert(crossings@.take(n as int) == crossings@);
        }
        best
    }

    /// The record of the nearest hit of one ray within the interval from
    /// `t_min` to `t_max`, or `None` when the ray hits nothing. `crossing`
    /// gives the ray's crossing with a primitive; every primitive is asked
    /// once, front to back. `contact` gives, for the primitive that is hit
    /// and the ray parameter of the hit, the point of the ray there, the
    /// outward normal at that point, and the dot product of the ray's
    /// direction with that normal; it is asked once, for the nearest hit.
    pub fn hit_with<F, G>(&self, crossing: &F, contact: &G, t_min: Scalar, t_max: Scalar) -> (r:
        Option<HitRecord>) where
        F: Fn(Hittable) -> Crossing,
        G: Fn(Hittable, Scalar) -> (Point3, Vec3, Scalar),

        requires
            forall|object: Hittable| call_requires(*crossing, (object,)),
            forall|object: Hittable, t: Scalar| call_requires(*contact, (object, t)),
        ensures
            exists|cs: Seq<Crossing>|
                {
                    &&& cs.len() == self@.len()
                    &&& forall|i: int|
                        0 <= i < cs.len() ==> call_ensures(
                            *crossing,
                            (self@[i],),
                            #[trigger] cs[i],
                        )
                    &&& #[trigger] found(self@, cs, *contact, t_min, t_max, r)
                },
            self@.len() == 0 ==> r is None,
    {
        let mut crossings: Vec<Crossing> = Vec::new();
        let n: usize = self.objects.len();
        let mut i: usize = 0;
        while i < n
            invariant
                i <= n,
                n == self@.len(),
                crossings@.len() == i,
                forall|object: Hittable| call_requires(*crossing, (object,)),
                forall|k: int|
                    0 <= k < i ==> call_ensures(*crossing, (self@[k],), #[trigger] crossings@[k]),
            decreases n - i,
        {
            crossings.push(crossing(self.objects[i]));
            i += 1;
        }
        let r = match self.hit(&crossings, t_min, t_max) {
            Some((index, t)) => {
                let object = self.objects[index];
                let (p, outward_normal, facing) = contact(object, t);
                Some(object.record(t, p, outward_normal, facing))
            },
            None => None,
        };
        assert(found(self@, crossings@, *contact, t_min, t_max, r));
        r
    }
}

/// Whether `r` is what a ray finds in a list of primitives, given its
/// crossings with them: nothing when no hit is nearest, and otherwise the
/// record of the nearest hit, made by the primitive that is hit from what
/// `contact` gives for it.
pub open spec fn found<G>(
    objects: Seq<Hittable>,
    cs: Seq<Crossing>,
    contact: G,
    t_min: Scalar,
    t_max: Scalar,
    r: Option<HitRecord>,
) -> bool where G: Fn(Hittable, Scalar) -> (Point3, Vec3, Scalar) {
    match nearest(cs, t_min, t_max) {
        None => r is None,
        Some((i, t)) => 0 <= i < objects.len() && exists|
            p: Point3,
            outward_normal: Vec3,
            facing: Scalar,
        | #[trigger]
            call_ensures(contact, (objects[i], t), (p, outward_normal, facing)) && r == Some(
                objects[i].spec_record(t, p, outward_normal, facing),
            ),
    }
}

/// The nearest surface wins, whatever the order of the list. For a ray
/// whose crossings are ordered and an interval without NaN, the hit that
/// the walk reports is the least of the hits that the primitives report
/// one by one over the whole interval; among equal ones it is the last in
/// the list. The walk reports no hit exactly when no primitive does.
pub proof fn lemma_nearest_is_least(cs: Seq<Crossing>, t_min: Scalar, t_max: Scalar)
    requires
        !t_min.nan(),
        !t_max.nan(),
        forall|j: int| 0 <= j < cs.len() ==> (#[trigger] cs[j]).ordered(),
    ensures
        match nearest(cs, t_min, t_max) {
            Some((i, t)) => {
                &&& 0 <= i < cs.len()
                &&& cs[i].root(t_min, t_max) == Some(t)
                &&& !t.nan()
                &&& t_min.value() <= t.value() <= t_max.value()
                &&& forall|j: int|
                    0 <= j < cs.len() ==> match (#[trigger] cs[j]).root(t_min, t_max) {
                        Some(u) => t.value() <= u.value() && (j > i ==> t.value() < u.value()),
                        None => true,
                    }
            },
            None => forall|j: int|
                0 <= j < cs.len() ==> (#[trigger] cs[j]).root(t_min, t_max) is None,
        },
    decreases cs.len(),
{
    if cs.len() > 0 {
        let front = cs.drop_last();
        let last = cs.last();
        assert(forall|j: int| 0 <= j < front.len() ==> front[j] == cs[j]);
        lemma_nearest_is_least(front, t_min, t_max);
        let before = nearest(front, t_min, t_max);
        let bound = closest(before, t_max);
        assert(last.ordered());
        assert(!bound.nan() && bound.value() <= t_max.value());
        match last.root(t_min, bound) {
            Some(t) => {
                assert(last.root(t_min, t_max) == Some(t));
                assert forall|j: int| 0 <= j < cs.len() implies match (#[trigger] cs[j]).root(
                    t_min,
                    t_max,
                ) {
                    Some(u) => t.value() <= u.value() && (j > cs.len() - 1 ==> t.value()
                        < u.value()),
                    None => true,
                } by {
                    if j < front.len() {
                        assert(front[j] == cs[j]);
                    }
                }
            },
            None => {
                match before {
                    Some((i, t)) => {
                        assert(cs[i] == front[i]);
                        assert forall|j: int| 0 <= j < cs.len() implies match (
                        #[trigger] cs[j]).root(t_min, t_max) {
                            Some(u) => t.value() <= u.value() && (j > i ==> t.value()
                                < u.value()),
                            None => true,
                        } by {
                            if j < front.len() {
                                assert(front[j] == cs[j]);
                            }
                        }
                    },
                    None => {
                        assert forall|j: int| 0 <= j < cs.len() implies (#[trigger] cs[j]).root(
                            t_min,
                            t_max,
                        ) is None by {
                            if j < front.len() {
                                assert(front[j] == cs[j]);
                            }
                        }
                    },
                }
            },
        }
    }
}

/// The parameter of the nearest hit does not depend on the order of the
/// list: two lists that hold the same crossings, each as often as the
/// other, both report no hit, or both report a hit at the same value.
pub proof fn lemma_nearest_ignores_order(
    a: Seq<Crossing>,
    b: Seq<Crossing>,
    t_min: Scalar,
    t_max: Scalar,
)
    requires
        !t_min.nan(),
        !t_max.nan(),
        forall|j: int| 0 <= j < a.len() ==> (#[trigger] a[j]).ordered(),
        a.to_multiset() == b.to_multiset(),
    ensures
        match (nearest(a, t_min, t_max), nearest(b, t_min, t_max)) {
            (Some((_, t)), Some((_, u))) => t.value() == u.value(),
            (None, None) => true,
            _ => false,
        },
{
    assert forall|j: int| 0 <= j < b.len() implies exists|i: int|
        0 <= i < a.len() && a[i] == #[trigger] b[j] by {
        to_multiset_contains(b, b[j]);
        to_multiset_contains(a, b[j]);
        assert(b.contains(b[j]));
    }
    assert forall|i: int| 0 <= i < a.len() implies exists|j: int|
        0 <= j < b.len() && b[j] == #[trigger] a[i] by {
        to_multiset_contains(a, a[i]);
        to_multiset_contains(b, a[i]);
        assert(a.contains(a[i]));
    }
    lemma_nearest_is_least(a, t_min, t_max);
    lemma_nearest_is_least(b, t_min, t_max);
    match nearest(a, t_min, t_max) {
        Some((i, _)) => {
            let j = choose|j: int| 0 <= j < b.len() && b[j] == a[i];
            assert(b[j].root(t_min, t_max) is Some);
        },
        None => {},
    }
    match nearest(b, t_min, t_max) {
        Some((j, _)) => {
            let i = choose|i: int| 0 <= i < a.len() && a[i] == b[j];
            assert(a[i].root(t_min, t_max) is Some);
        },
        None => {},
    }
}

} // verus!
