//! A scene: surfaces in the order in which they were added.

use crate::hittable::{answer, below, reports_nearest, HitRecord, Hittable};
use crate::interval::Interval;
use crate::ray::Ray;
use crate::scalar::Scalar;
use vstd::prelude::*;

verus! {

/// The surfaces of a scene. A ray that strikes several of them is answered
/// with the nearest crossing.
pub struct HittableList<H> {
    pub objects: Vec<H>,
}

/// The upper end of the range in which the next surface is asked: the
/// distance of the best crossing so far, or the end of the whole range.
pub open spec fn closest_so_far<M>(best: Option<HitRecord<M>>, ray_t: Interval) -> Scalar {
    match best {
        Some(rec) => rec.t,
        None => ray_t.max,
    }
}

/// The crossing that a scan of `objects` in their order ends with. Each
/// surface is asked in the range that ends at the best crossing before it, so
/// that it replaces that crossing only with one strictly nearer.
pub open spec fn nearest<H: Hittable>(objects: Seq<H>, r: Ray, ray_t: Interval) -> Option<
    HitRecord<H::Material>,
>
    decreases objects.len(),
{
    if objects.len() == 0 {
        None
    } else {
        let before = nearest(objects.drop_last(), r, ray_t);
        match answer(objects.last(), r, ray_t.min, closest_so_far(before, ray_t)) {
            Some(rec) => Some(rec),
            None => before,
        }
    }
}

/// `rec` is what surface `k` answers by itself in the whole range, no surface
/// answers with a nearer crossing, and none before `k` with one as near.
pub open spec fn is_first_nearest<H: Hittable>(
    objects: Seq<H>,
    r: Ray,
    ray_t: Interval,
    k: int,
    rec: HitRecord<H::Material>,
) -> bool {
    &&& 0 <= k < objects.len()
    &&& objects[k].hit_spec(r, ray_t) == Some(rec)
    &&& forall|j: int|
        0 <= j < objects.len() ==> ((#[trigger] objects[j].hit_spec(r, ray_t)) matches Some(other)
            ==> if j < k {
            rec.t.lt(other.t)
        } else {
            rec.t.le(other.t)
        })
}

impl<H> HittableList<H> {
    /// A scene without surfaces.
    pub fn new() -> (list: Self)
        ensures
            list.objects@ == Seq::<H>::empty(),
    {
        HittableList { objects: Vec::new() }
    }

    /// A scene of one surface.
    pub fn new_from(object: H) -> (list: Self)
        ensures
            list.objects@ == seq![object],
    {
        let mut objects = Vec::new();
        objects.push(object);
        HittableList { objects }
    }

    /// Removes every surface.
    pub fn clear(&mut self)
        ensures
            final(self).objects@ == Seq::<H>::empty(),
    {
        self.objects.clear();
    }

    /// Adds a surface behind those that are there.
    pub fn add(&mut self, object: H)
        ensures
            final(self).objects@ == old(self).objects@.push(object),
    {
        self.objects.push(object);
    }
}

impl<H: Hittable> Hittable for HittableList<H> {
    type Material = H::Material;

    open spec fn hit_spec(&self, r: Ray, ray_t: Interval) -> Option<HitRecord<H::Material>> {
        nearest(self.objects@, r, ray_t)
    }

    fn hit(&self, r: &Ray, ray_t: Interval) -> (res: Option<HitRecord<H::Material>>) {
        let mut best: Option<HitRecord<H::Material>> = None;
        let mut closest = ray_t.max;
        let mut i: usize = 0;
        while i < self.objects.len()
            invariant
                i <= self.objects.len(),
                best == nearest(self.objects@.take(i as int), *r, ray_t),
                closest == closest_so_far(best, ray_t),
                best matches Some(rec) ==> ray_t.surrounds(rec.t),
            decreases self.objects.len() - i,
        {
            proof {
                assert(self.objects@.take(i + 1).drop_last() == self.objects@.take(i as int));
                assert(self.objects@.take(i + 1).last() == self.objects@[i as int]);
            }
            let found = self.objects[i].hit(r, Interval::from_values(ray_t.min, closest));
            if let Some(rec) = found {
                closest = rec.t;
                best = Some(rec);
            }
            i += 1;
        }
        proof {
            assert(self.objects@.take(i as int) == self.objects@);
        }
        best
    }
}

/// Where a scan finds nothing in a prefix of surfaces that report their
/// nearest crossing, none of them answers by itself; where it finds a
/// crossing, that is the first nearest of the prefix.
proof fn lemma_scan<H: Hittable>(objects: Seq<H>, r: Ray, ray_t: Interval)
    requires
        forall|j: int| 0 <= j < objects.len() ==> reports_nearest(#[trigger] objects[j], r),
    ensures
        nearest(objects, r, ray_t) is None ==> forall|j: int|
            0 <= j < objects.len() ==> (#[trigger] objects[j].hit_spec(r, ray_t)) is None,
        nearest(objects, r, ray_t) matches Some(rec) ==> ray_t.surrounds(rec.t) && exists|k: int|
            is_first_nearest(objects, r, ray_t, k, rec),
    decreases objects.len(),
{
    if objects.len() > 0 {
        let front = objects.drop_last();
        let m = objects.len() - 1;
        lemma_scan(front, r, ray_t);
        let before = nearest(front, r, ray_t);
        let closest = closest_so_far(before, ray_t);
        let alone = answer(objects[m], r, ray_t.min, ray_t.max);
        let asked = answer(objects[m], r, ray_t.min, closest);
        assert(reports_nearest(objects[m], r));
        assert(alone == objects[m].hit_spec(r, ray_t));
        // A range that ends in a NaN holds nothing; in any other the surface
        // is asked below an end that is not above that of the whole range.
        assert(closest.le(ray_t.max) ==> asked == below(alone, closest));
        assert(!closest.le(ray_t.max) ==> before is None && alone is None && asked is None);
        assert forall|j: int| 0 <= j < m implies objects[j] == front[j] by {}
        if let Some(rec) = nearest(objects, r, ray_t) {
            // The winner is the last surface where that answers below the
            // best so far, else the winner of the prefix.
            let k = if asked is Some {
                m
            } else {
                choose|k: int| is_first_nearest(front, r, ray_t, k, rec)
            };
            assert(is_first_nearest(objects, r, ray_t, k, rec));
        }
    }
}

/// A scene of surfaces that report their nearest crossing answers with the
/// nearest crossing of all: the one that some surface gives by itself in the
/// whole range, with no surface giving a nearer one, and the first in the
/// scene among those that are equally near. It answers with nothing exactly
/// where no surface gives a crossing by itself.
pub proof fn lemma_nearest_of_all<H: Hittable>(list: HittableList<H>, r: Ray, ray_t: Interval)
    requires
        forall|j: int|
            0 <= j < list.objects@.len() ==> reports_nearest(#[trigger] list.objects@[j], r),
    ensures
        list.hit_spec(r, ray_t) is None <==> forall|j: int|
            0 <= j < list.objects@.len() ==> (#[trigger] list.objects@[j].hit_spec(r, ray_t))
                is None,
        list.hit_spec(r, ray_t) matches Some(rec) ==> exists|k: int|
            is_first_nearest(list.objects@, r, ray_t, k, rec),
{
    lemma_scan(list.objects@, r, ray_t);
    if let Some(rec) = list.hit_spec(r, ray_t) {
        let k = choose|k: int| is_first_nearest(list.objects@, r, ray_t, k, rec);
        assert(list.objects@[k].hit_spec(r, ray_t) is Some);
    }
}

/// What a scene of surfaces that report their nearest crossing answers with
/// is the record of one of its surfaces, as that surface gives it by itself,
/// with the handle on the material that the surface put there.
pub proof fn lemma_record_is_a_surfaces_own<H: Hittable>(
    list: HittableList<H>,
    r: Ray,
    ray_t: Interval,
)
    requires
        forall|j: int|
            0 <= j < list.objects@.len() ==> reports_nearest(#[trigger] list.objects@[j], r),
    ensures
        list.hit_spec(r, ray_t) matches Some(rec) ==> exists|k: int|
            0 <= k < list.objects@.len() && #[trigger] list.objects@[k].hit_spec(r, ray_t)
                == Some(rec),
{
    lemma_nearest_of_all(list, r, ray_t);
    if let Some(rec) = list.hit_spec(r, ray_t) {
        let k = choose|k: int| is_first_nearest(list.objects@, r, ray_t, k, rec);
        assert(list.objects@[k].hit_spec(r, ray_t) == Some(rec));
    }
}

/// Lowering the upper end of the range of a scan keeps what it found below
/// the new end and leaves nothing otherwise.
proof fn lemma_scan_narrowing<H: Hittable>(
    objects: Seq<H>,
    r: Ray,
    min: Scalar,
    wide: Scalar,
    narrow: Scalar,
)
    requires
        forall|j: int| 0 <= j < objects.len() ==> reports_nearest(#[trigger] objects[j], r),
        narrow.le(wide),
    ensures
        nearest(objects, r, Interval { min, max: narrow }) == below(
            nearest(objects, r, Interval { min, max: wide }),
            narrow,
        ),
    decreases objects.len(),
{
    if objects.len() > 0 {
        let front = objects.drop_last();
        let s = objects.last();
        let inner = Interval { min, max: narrow };
        let outer = Interval { min, max: wide };
        lemma_scan_narrowing(front, r, min, wide, narrow);
        lemma_scan(front, r, inner);
        lemma_scan(front, r, outer);
        let closest_inner = closest_so_far(nearest(front, r, inner), inner);
        let closest_outer = closest_so_far(nearest(front, r, outer), outer);
        let alone = answer(s, r, min, wide);
        assert(reports_nearest(objects[objects.len() - 1], r));
        assert(answer(s, r, min, closest_inner) == below(alone, closest_inner));
        assert(answer(s, r, min, closest_outer) == below(alone, closest_outer));
    }
}

/// A scene of surfaces that report their nearest crossing reports its nearest
/// crossing too, so that scenes may hold scenes.
pub proof fn lemma_scene_reports_nearest<H: Hittable>(list: HittableList<H>, r: Ray)
    requires
        forall|j: int|
            0 <= j < list.objects@.len() ==> reports_nearest(#[trigger] list.objects@[j], r),
    ensures
        reports_nearest(list, r),
{
    assert forall|min: Scalar, max: Scalar|
        (#[trigger] answer(list, r, min, max)) matches Some(rec) ==> (Interval {
            min,
            max,
        }).surrounds(rec.t) by {
        lemma_scan(list.objects@, r, Interval { min, max });
    }
    assert forall|min: Scalar, wide: Scalar, narrow: Scalar| narrow.le(wide) implies #[trigger] answer(
        list,
        r,
        min,
        narrow,
    ) == below(#[trigger] answer(list, r, min, wide), narrow) by {
        lemma_scan_narrowing(list.objects@, r, min, wide, narrow);
    }
}

} // verus!
