//! The bounding volume hierarchy: a binary tree over a set of objects that
//! lets a ray skip every subtree whose box it misses.

use crate::aabb::AABB;
use crate::hit::rect::Axis;
use crate::hit::{HitRecord, Hittable};
use crate::random::{index_of_word, lemma_skip_adds, lemma_skip_none, skip, Sampler};
use crate::ray::Ray;
use crate::scalar::Scalar;
use vstd::prelude::*;

verus! {

/// Why a hierarchy could not be built.
#[derive(Clone, Copy, Debug, PartialEq, Eq, Structural)]
pub enum BVHError {
    /// The list of objects was empty.
    Empty,
    /// An object of the list has no bounding box.
    Unbounded,
}

/// A node of the hierarchy: one object, or two subtrees. Either way the node
/// stores the box that covers everything below it.
pub enum BVHNode {
    Leaf { object: Hittable, bbox: AABB },
    Branch { left: Box<BVHNode>, right: Box<BVHNode>, bbox: AABB },
}

/// Every object of the sequence has a bounding box over `[t0, t1]`.
pub open spec fn all_bounded(objects: Seq<Hittable>, t0: Scalar, t1: Scalar) -> bool {
    forall|i: int| 0 <= i < objects.len() ==> (#[trigger] objects[i]).spec_bounding_box(t0, t1).is_some()
}

/// The key by which objects are ordered along `axis`: the lower corner of
/// the object's box.
pub open spec fn box_key(object: Hittable, axis: Axis, t0: Scalar, t1: Scalar) -> int {
    axis.of(object.spec_bounding_box(t0, t1).unwrap().min)@
}

/// The keys of the sequence ascend.
pub open spec fn ordered_by_key(objects: Seq<Hittable>, axis: Axis, t0: Scalar, t1: Scalar) -> bool {
    forall|i: int, j: int|
        0 <= i <= j < objects.len() ==> box_key(#[trigger] objects[i], axis, t0, t1) <= box_key(
            #[trigger] objects[j],
            axis,
            t0,
            t1,
        )
}

/// No key of `low` is above a key of `high`.
pub open spec fn keys_split(
    low: Seq<Hittable>,
    high: Seq<Hittable>,
    axis: Axis,
    t0: Scalar,
    t1: Scalar,
) -> bool {
    forall|i: int, j: int|
        0 <= i < low.len() && 0 <= j < high.len() ==> box_key(#[trigger] low[i], axis, t0, t1)
            <= box_key(#[trigger] high[j], axis, t0, t1)
}

/// The nearer of two hits; the second where both are equally near.
pub open spec fn spec_closer<'a>(a: Option<HitRecord<'a>>, b: Option<HitRecord<'a>>) -> Option<
    HitRecord<'a>,
> {
    match (a, b) {
        (Some(x), Some(y)) => if x.t@ < y.t@ {
            Some(x)
        } else {
            Some(y)
        },
        (Some(x), None) => Some(x),
        (None, Some(y)) => Some(y),
        (None, None) => None,
    }
}

/// The nearer of two hits; the second where both are equally near.
#[verifier::when_used_as_spec(spec_closer)]
pub fn closer<'a>(a: Option<HitRecord<'a>>, b: Option<HitRecord<'a>>) -> (r: Option<HitRecord<'a>>)
    ensures
        r == spec_closer(a, b),
{
    match (a, b) {
        (Some(x), Some(y)) => if x.t.raw < y.t.raw {
            Some(x)
        } else {
            Some(y)
        },
        (Some(x), None) => Some(x),
        (None, Some(y)) => Some(y),
        (None, None) => None,
    }
}

/// The axis that a draw selects.
pub open spec fn spec_axis_of(draw: u32) -> Axis {
    if draw == 0 {
        Axis::X
    } else if draw == 1 {
        Axis::Y
    } else {
        Axis::Z
    }
}

/// The axis that a draw selects.
#[verifier::when_used_as_spec(spec_axis_of)]
pub fn axis_of(draw: u32) -> (a: Axis)
    ensures
        a == spec_axis_of(draw),
{
    if draw == 0 {
        Axis::X
    } else if draw == 1 {
        Axis::Y
    } else {
        Axis::Z
    }
}

/// The position of the first object with the least key among the first `n`.
pub open spec fn least_index(objects: Seq<Hittable>, n: int, axis: Axis, t0: Scalar, t1: Scalar) -> int
    decreases n,
{
    if n <= 1 {
        0
    } else {
        let best = least_index(objects, n - 1, axis, t0, t1);
        if box_key(objects[n - 1], axis, t0, t1) < box_key(objects[best], axis, t0, t1) {
            n - 1
        } else {
            best
        }
    }
}

/// The objects in ascending order of their keys along `axis`, found by
/// selection: the first object with the least key comes first, and the rest
/// follow in the same way. `size` is the number of objects.
pub open spec fn sorted_by(
    objects: Seq<Hittable>,
    axis: Axis,
    t0: Scalar,
    t1: Scalar,
    size: nat,
) -> Seq<Hittable>
    decreases size,
{
    if size == 0 || objects.len() == 0 {
        Seq::empty()
    } else {
        let best = least_index(objects, objects.len() as int, axis, t0, t1);
        seq![objects[best]] + sorted_by(objects.remove(best), axis, t0, t1, (size - 1) as nat)
    }
}

/// The tree that a stream of words gives over `size` objects, and how many
/// of the words building it uses. One object makes a leaf. For more, the
/// first word stands for the axis, the objects are ordered along it, and the
/// halves are built with the words after that: the left half first, the
/// right half with what the left half has left.
pub open spec fn build_of(
    objects: Seq<Hittable>,
    t0: Scalar,
    t1: Scalar,
    words: spec_fn(nat) -> u32,
    size: nat,
) -> (BVHNode, nat)
    decreases size,
{
    if size <= 1 {
        (
            BVHNode::Leaf {
                object: objects[0],
                bbox: objects[0].spec_bounding_box(t0, t1).unwrap(),
            },
            0,
        )
    } else {
        let axis = spec_axis_of(index_of_word(words(0), 3));
        let sorted = sorted_by(objects, axis, t0, t1, size);
        let mid = size / 2;
        let (left, used) = build_of(sorted.subrange(0, mid as int), t0, t1, skip(words, 1), mid);
        let (right, more) = build_of(
            sorted.subrange(mid as int, size as int),
            t0,
            t1,
            skip(words, 1 + used),
            (size - mid) as nat,
        );
        (
            BVHNode::Branch {
                left: Box::new(left),
                right: Box::new(right),
                bbox: AABB::surrounding_box(left.bbox(), right.bbox()),
            },
            1 + used + more,
        )
    }
}

/// The position of the first object with the least key.
fn index_of_least(objects: &Vec<Hittable>, axis: Axis, t0: Scalar, t1: Scalar) -> (best: usize)
    requires
        objects@.len() > 0,
        all_bounded(objects@, t0, t1),
    ensures
        best == least_index(objects@, objects@.len() as int, axis, t0, t1),
        best < objects@.len(),
        forall|j: int|
            0 <= j < objects@.len() ==> box_key(objects@[best as int], axis, t0, t1) <= box_key(
                #[trigger] objects@[j],
                axis,
                t0,
                t1,
            ),
{
    let mut best: usize = 0;
    let mut least: Scalar = axis.of(objects[0].bounding_box(t0, t1).unwrap().min);
    let mut i: usize = 1;
    while i < objects.len()
        invariant
            1 <= i <= objects@.len(),
            best < i,
            best == least_index(objects@, i as int, axis, t0, t1),
            all_bounded(objects@, t0, t1),
            least@ == box_key(objects@[best as int], axis, t0, t1),
            forall|j: int|
                0 <= j < i ==> least@ <= box_key(#[trigger] objects@[j], axis, t0, t1),
        decreases objects@.len() - i,
    {
        let key = axis.of(objects[i].bounding_box(t0, t1).unwrap().min);
        if key.raw < least.raw {
            best = i;
            least = key;
        }
        i = i + 1;
    }
    best
}

/// The objects in ascending order of their keys along `axis`.
fn sorted_by_key(objects: Vec<Hittable>, axis: Axis, t0: Scalar, t1: Scalar) -> (sorted: Vec<Hittable>)
    requires
        all_bounded(objects@, t0, t1),
    ensures
        sorted@ == sorted_by(objects@, axis, t0, t1, objects@.len()),
        sorted@.to_multiset() == objects@.to_multiset(),
        sorted@.len() == objects@.len(),
        all_bounded(sorted@, t0, t1),
        ordered_by_key(sorted@, axis, t0, t1),
{
    broadcast use vstd::seq_lib::group_to_multiset_ensures;

    let ghost given = objects@;
    let mut rest = objects;
    let mut sorted: Vec<Hittable> = Vec::new();
    assert(sorted@ + sorted_by(rest@, axis, t0, t1, rest@.len()) =~= sorted_by(
        given,
        axis,
        t0,
        t1,
        given.len(),
    ));
    while rest.len() > 0
        invariant
            sorted@ + sorted_by(rest@, axis, t0, t1, rest@.len()) == sorted_by(
                given,
                axis,
                t0,
                t1,
                given.len(),
            ),
            sorted@.to_multiset().add(rest@.to_multiset()) == given.to_multiset(),
            sorted@.len() + rest@.len() == given.len(),
            all_bounded(rest@, t0, t1),
            all_bounded(sorted@, t0, t1),
            ordered_by_key(sorted@, axis, t0, t1),
            keys_split(sorted@, rest@, axis, t0, t1),
        decreases rest@.len(),
    {
        let best = index_of_least(&rest, axis, t0, t1);
        let ghost before_rest = rest@;
        let ghost before_sorted = sorted@;
        let object = rest.remove(best);
        sorted.push(object);
        proof {
            assert(sorted@ + sorted_by(rest@, axis, t0, t1, rest@.len()) =~= before_sorted
                + sorted_by(before_rest, axis, t0, t1, before_rest.len()));
            vstd::seq_lib::to_multiset_contains(before_rest, object);
            vstd::seq_lib::to_multiset_remove(before_rest, best as int);
            vstd::seq_lib::to_multiset_build(before_sorted, object);
            assert(sorted@.to_multiset().add(rest@.to_multiset()) =~= given.to_multiset()) by {
                broadcast use vstd::multiset::group_multiset_axioms;

            }
        }
    }
    sorted
}

/// Whether every object of the list has a bounding box.
fn check_bounded(objects: &Vec<Hittable>, t0: Scalar, t1: Scalar) -> (ok: bool)
    ensures
        ok == all_bounded(objects@, t0, t1),
{
    let mut i: usize = 0;
    while i < objects.len()
        invariant
            i <= objects@.len(),
            forall|j: int| 0 <= j < i ==> (#[trigger] objects@[j]).spec_bounding_box(t0, t1).is_some(),
        decreases objects@.len() - i,
    {
        if objects[i].bounding_box(t0, t1).is_none() {
            return false;
        }
        i = i + 1;
    }
    true
}

impl BVHNode {
    /// The box that covers everything below the node.
    pub open spec fn bbox(&self) -> AABB {
        match self {
            BVHNode::Leaf { object, bbox } => *bbox,
            BVHNode::Branch { left, right, bbox } => *bbox,
        }
    }

    /// The objects below the node, from left to right.
    pub open spec fn leaves(&self) -> Seq<Hittable>
        decreases self,
    {
        match self {
            BVHNode::Leaf { object, bbox } => seq![*object],
            BVHNode::Branch { left, right, bbox } => left.leaves() + right.leaves(),
        }
    }

    /// The tree was built for the time interval `[t0, t1]`: the box of a leaf
    /// is the box of its object, the box of a branch is the merge of the
    /// boxes of its two subtrees, the left subtree holds half of the objects,
    /// rounded down, and along one of the three axes no key on the left is
    /// above a key on the right.
    pub open spec fn wf(&self, t0: Scalar, t1: Scalar) -> bool
        decreases self,
    {
        match self {
            BVHNode::Leaf { object, bbox } => object.spec_bounding_box(t0, t1) == Some(*bbox),
            BVHNode::Branch { left, right, bbox } => {
                &&& left.wf(t0, t1)
                &&& right.wf(t0, t1)
                &&& *bbox == AABB::surrounding_box(left.bbox(), right.bbox())
                &&& left.leaves().len() == (left.leaves().len() + right.leaves().len()) / 2
                &&& exists|axis: Axis| #[trigger]
                    keys_split(left.leaves(), right.leaves(), axis, t0, t1)
            },
        }
    }

    /// Whether hits depend on the ray alone: nothing inside draws at random.
    pub open spec fn deterministic(&self) -> bool
        decreases self,
    {
        match self {
            BVHNode::Leaf { object, bbox } => object.deterministic(),
            BVHNode::Branch { left, right, bbox } => left.deterministic() && right.deterministic(),
        }
    }

    /// The hit of the tree: a leaf is hit where its object is; a branch whose
    /// box the ray misses is not hit, and otherwise it is hit where the
    /// nearer of its two subtrees is.
    pub open spec fn spec_hit(&self, ray: &Ray, t_min: Scalar, t_max: Scalar) -> Option<HitRecord>
        decreases self,
    {
        match self {
            BVHNode::Leaf { object, bbox } => object.spec_hit(ray, t_min, t_max),
            BVHNode::Branch { left, right, bbox } => if bbox.hit(ray, t_min, t_max) {
                closer(left.spec_hit(ray, t_min, t_max), right.spec_hit(ray, t_min, t_max))
            } else {
                None
            },
        }
    }

    /// The hit that a stream of words gives, and how many of them it uses:
    /// for a leaf those of its object; for a branch none where the ray misses
    /// the box, and otherwise the nearer of the hits of its subtrees, the
    /// right one with the words that the left one has left.
    pub open spec fn hit_from(
        &self,
        ray: &Ray,
        t_min: Scalar,
        t_max: Scalar,
        words: spec_fn(nat) -> u32,
    ) -> (Option<HitRecord>, nat)
        decreases self,
    {
        match self {
            BVHNode::Leaf { object, bbox } => object.hit_from(ray, t_min, t_max, words),
            BVHNode::Branch { left, right, bbox } => if bbox.hit(ray, t_min, t_max) {
                let (near, used) = left.hit_from(ray, t_min, t_max, words);
                let (far, more) = right.hit_from(ray, t_min, t_max, skip(words, used));
                (spec_closer(near, far), used + more)
            } else {
                (None, 0)
            },
        }
    }

    /// `r` is an answer that the tree can give: that of its object for a
    /// leaf; for a branch none where the ray misses the box, and otherwise
    /// the nearer of an answer of each subtree.
    pub open spec fn may_hit(&self, ray: &Ray, t_min: Scalar, t_max: Scalar, r: Option<HitRecord>) -> bool
        decreases self,
    {
        match self {
            BVHNode::Leaf { object, bbox } => object.may_hit(ray, t_min, t_max, r),
            BVHNode::Branch { left, right, bbox } => if bbox.hit(ray, t_min, t_max) {
                exists|near: Option<HitRecord>, far: Option<HitRecord>|
                    left.may_hit(ray, t_min, t_max, near) && right.may_hit(ray, t_min, t_max, far)
                        && r == #[trigger] spec_closer(near, far)
            } else {
                r.is_none()
            },
        }
    }

    /// The box that covers everything below the node, whatever the time
    /// interval.
    pub open spec fn spec_bounding_box(&self, t0: Scalar, t1: Scalar) -> Option<AABB> {
        Some(self.bbox())
    }

    /// Builds the hierarchy over `objects` for the time interval
    /// `[time0, time1]`. One object makes a leaf. More are ordered by the
    /// lower corner of their boxes along an axis drawn at random for this
    /// node and split at the middle; each half is built in the same way.
    ///
    /// It fails on an empty list, and on a list with an object that has no
    /// bounding box.
    pub fn new(objects: Vec<Hittable>, time0: Scalar, time1: Scalar, sampler: &mut Sampler) -> (r:
        Result<BVHNode, BVHError>)
        ensures
            r == Err::<BVHNode, BVHError>(BVHError::Empty) <==> objects@.len() == 0,
            r == Err::<BVHNode, BVHError>(BVHError::Unbounded) <==> objects@.len() > 0 && !all_bounded(
                objects@,
                time0,
                time1,
            ),
            r matches Ok(node) ==> node.wf(time0, time1) && node.leaves().to_multiset()
                == objects@.to_multiset() && node.leaves().len() == objects@.len(),
            r matches Ok(node) ==> node == build_of(
                objects@,
                time0,
                time1,
                old(sampler).words(),
                objects@.len(),
            ).0 && final(sampler).follows(
                *old(sampler),
                build_of(objects@, time0, time1, old(sampler).words(), objects@.len()).1,
            ),
            r is Err ==> final(sampler).follows(*old(sampler), 0),
        decreases objects@.len(),
    {
        proof {
            lemma_skip_none(old(sampler).words());
        }
        if objects.len() == 0 {
            return Err(BVHError::Empty);
        }
        if !check_bounded(&objects, time0, time1) {
            return Err(BVHError::Unbounded);
        }
        Ok(Self::build(objects, time0, time1, sampler))
    }

    /// Builds the hierarchy over a list that is not empty and whose objects
    /// all have boxes.
    pub(crate) fn build(objects: Vec<Hittable>, time0: Scalar, time1: Scalar, sampler: &mut Sampler) -> (node:
        BVHNode)
        requires
            objects@.len() > 0,
            all_bounded(objects@, time0, time1),
        ensures
            node == build_of(objects@, time0, time1, old(sampler).words(), objects@.len()).0,
            final(sampler).follows(
                *old(sampler),
                build_of(objects@, time0, time1, old(sampler).words(), objects@.len()).1,
            ),
            node.wf(time0, time1),
            node.leaves().to_multiset() == objects@.to_multiset(),
            node.leaves().len() == objects@.len(),
        decreases objects@.len(),
    {
        let ghost start = old(sampler).words();
        proof {
            lemma_skip_none(start);
        }
        broadcast use vstd::seq_lib::group_to_multiset_ensures;

        let ghost given = objects@;
        let mut objects = objects;
        let n = objects.len();
        if n == 1 {
            let object = objects.pop().unwrap();
            let bbox = object.bounding_box(time0, time1).unwrap();
            let node = BVHNode::Leaf { object, bbox };
            assert(node.leaves() =~= given);
            return node;
        }
        let axis = axis_of(sampler.below(3));
        let mut low = sorted_by_key(objects, axis, time0, time1);
        let ghost sorted = low@;
        let high = low.split_off(n / 2);
        proof {
            assert(sorted =~= low@ + high@);
            vstd::seq_lib::lemma_multiset_commutative(low@, high@);
        }
        let ghost low_objects = low@;
        let ghost high_objects = high@;
        let left = Self::build(low, time0, time1, sampler);
        let ghost used = build_of(low_objects, time0, time1, skip(start, 1), low_objects.len()).1;
        let ghost left_over = sampler.words();
        let right = Self::build(high, time0, time1, sampler);
        proof {
            lemma_skip_adds(start, 1, used);
            lemma_skip_adds(
                start,
                1 + used,
                build_of(high_objects, time0, time1, left_over, high_objects.len()).1,
            );
        }
        let bbox = AABB::surrounding_box(left.bounding_box(time0, time1).unwrap(),
            right.bounding_box(time0, time1).unwrap());
        proof {
            vstd::seq_lib::lemma_multiset_commutative(left.leaves(), right.leaves());
            lemma_keys_split_permuted(
                low_objects,
                high_objects,
                left.leaves(),
                right.leaves(),
                axis,
                time0,
                time1,
            );
        }
        BVHNode::Branch { left: Box::new(left), right: Box::new(right), bbox }
    }

    /// Tests the box first, then both subtrees, and keeps the nearer hit.
    pub fn hit<'a>(
        &'a self,
        ray: &Ray,
        t_min: Scalar,
        t_max: Scalar,
        sampler: &mut Sampler,
    ) -> (r: Option<HitRecord<'a>>)
        ensures
            r == self.hit_from(ray, t_min, t_max, old(sampler).words()).0,
            final(sampler).follows(
                *old(sampler),
                self.hit_from(ray, t_min, t_max, old(sampler).words()).1,
            ),
            self.may_hit(ray, t_min, t_max, r),
            self.deterministic() ==> r == self.spec_hit(ray, t_min, t_max),
            self.deterministic() ==> final(sampler).follows(*old(sampler), 0),
            r matches Some(rec) ==> t_min@ < rec.t@ < t_max@,
        decreases self,
    {
        match self {
            BVHNode::Leaf { object, bbox } => object.hit(ray, t_min, t_max, sampler),
            BVHNode::Branch { left, right, bbox } => {
                if bbox.hit(ray, t_min, t_max) {
                    let near = left.hit(ray, t_min, t_max, sampler);
                    let ghost left_over = sampler.words();
                    let far = right.hit(ray, t_min, t_max, sampler);
                    proof {
                        lemma_skip_adds(
                            old(sampler).words(),
                            left.hit_from(ray, t_min, t_max, old(sampler).words()).1,
                            right.hit_from(ray, t_min, t_max, left_over).1,
                        );
                        lemma_skip_adds(old(sampler).words(), 0, 0);
                    }
                    closer(near, far)
                } else {
                    proof {
                        lemma_skip_none(old(sampler).words());
                    }
                    None
                }
            },
        }
    }

    /// The box that covers everything below the node, whatever the time
    /// interval.
    #[verifier::when_used_as_spec(spec_bounding_box)]
    pub fn bounding_box(&self, t0: Scalar, t1: Scalar) -> (r: Option<AABB>)
        ensures
            r == self.spec_bounding_box(t0, t1),
    {
        match self {
            BVHNode::Leaf { object, bbox } => Some(*bbox),
            BVHNode::Branch { left, right, bbox } => Some(*bbox),
        }
    }
}

/// Two sequences that split the keys still do so after each is rearranged.
proof fn lemma_keys_split_permuted(
    low: Seq<Hittable>,
    high: Seq<Hittable>,
    low2: Seq<Hittable>,
    high2: Seq<Hittable>,
    axis: Axis,
    t0: Scalar,
    t1: Scalar,
)
    requires
        keys_split(low, high, axis, t0, t1),
        low2.to_multiset() == low.to_multiset(),
        high2.to_multiset() == high.to_multiset(),
    ensures
        keys_split(low2, high2, axis, t0, t1),
{
    broadcast use vstd::seq_lib::group_to_multiset_ensures;

    assert forall|i: int, j: int| 0 <= i < low2.len() && 0 <= j < high2.len() implies box_key(
        #[trigger] low2[i],
        axis,
        t0,
        t1,
    ) <= box_key(#[trigger] high2[j], axis, t0, t1) by {
        assert(low.to_multiset().count(low2[i]) > 0);
        let a = choose|a: int| 0 <= a < low.len() && low[a] == low2[i];
        assert(high.to_multiset().count(high2[j]) > 0);
        let b = choose|b: int| 0 <= b < high.len() && high[b] == high2[j];
        assert(box_key(low[a], axis, t0, t1) <= box_key(high[b], axis, t0, t1));
    }
}

} // verus!
