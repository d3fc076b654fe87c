//! Matching detected marker corners to their known world corners.
//!
//! The image points are generic: the library only moves them, in order, from
//! the detections into the flat list handed to the pose solver.

use vstd::prelude::*;

use crate::error::TrackingError;
use crate::registry::{corners_for, corners_of, is_registered, Point3};

verus! {

/// One marker found in the current frame: its identifier and its corners
/// as the detector returned them.
#[derive(Debug)]
pub struct Detection<P> {
    pub id: i32,
    pub corners: Vec<P>,
}

/// Order-matched world and image points: `world[i]` is the known position of
/// the marker corner observed at `image[i]`.
#[derive(Debug)]
pub struct Correspondences<P> {
    pub world: Vec<Point3>,
    pub image: Vec<P>,
}

/// The image corners of the registered detections, concatenated in detection
/// order; unregistered detections contribute nothing.
pub open spec fn matched_image<P>(dets: Seq<Detection<P>>) -> Seq<P>
    decreases dets.len(),
{
    if dets.len() == 0 {
        Seq::empty()
    } else {
        let d = dets.last();
        matched_image(dets.drop_last()) + if is_registered(d.id) {
            d.corners@
        } else {
            Seq::empty()
        }
    }
}

/// The world corners of the registered detections, concatenated in detection
/// order; unregistered detections contribute nothing.
pub open spec fn matched_world<P>(dets: Seq<Detection<P>>) -> Seq<Point3>
    decreases dets.len(),
{
    if dets.len() == 0 {
        Seq::empty()
    } else {
        let d = dets.last();
        matched_world(dets.drop_last()) + if is_registered(d.id) {
            corners_of(d.id)
        } else {
            Seq::empty()
        }
    }
}

/// How many detections name a registered marker.
pub open spec fn registered_count<P>(dets: Seq<Detection<P>>) -> nat
    decreases dets.len(),
{
    if dets.len() == 0 {
        0
    } else {
        registered_count(dets.drop_last()) + if is_registered(dets.last().id) {
            1nat
        } else {
            0nat
        }
    }
}

/// The outcome that the builder owes for a batch of detections.
pub open spec fn correspondence_outcome<P>(dets: Seq<Detection<P>>) -> Result<(), TrackingError> {
    if matched_world(dets).len() == 0 {
        Err(TrackingError::NoTargets)
    } else if matched_world(dets).len() != matched_image(dets).len() {
        Err(TrackingError::CorrespondenceMismatch)
    } else {
        Ok(())
    }
}

/// Builds the order-matched world and image point lists for one frame.
///
/// Detections of unregistered markers are dropped whole before flattening.
/// The result is `NoTargets` when nothing is left, `CorrespondenceMismatch`
/// when the kept detections do not carry exactly as many corners as their
/// markers have, and otherwise at least four aligned pairs.
pub fn build_correspondences<P: Copy>(detections: &Vec<Detection<P>>) -> (r: Result<
    Correspondences<P>,
    TrackingError,
>)
    ensures
        match r {
            Ok(c) => {
                &&& correspondence_outcome(detections@) == Ok::<(), TrackingError>(())
                &&& c.world@ == matched_world(detections@)
                &&& c.image@ == matched_image(detections@)
                &&& c.world@.len() == c.image@.len()
                &&& c.world@.len() >= 4
            },
            Err(e) => correspondence_outcome(detections@) == Err::<(), TrackingError>(e),
        },
{
    let mut world: Vec<Point3> = Vec::new();
    let mut image: Vec<P> = Vec::new();
    let mut i: usize = 0;
    while i < detections.len()
        invariant
            0 <= i <= detections@.len(),
            world@ == matched_world(detections@.subrange(0, i as int)),
            image@ == matched_image(detections@.subrange(0, i as int)),
        decreases detections.len() - i,
    {
        let d = &detections[i];
        proof {
            let pre = detections@.subrange(0, i as int + 1);
            assert(pre.drop_last() =~= detections@.subrange(0, i as int));
            assert(pre.last() == detections@[i as int]);
        }
        match corners_for(d.id) {
            Some(c) => {
                let mut k: usize = 0;
                let ghost w0 = world@;
                while k < 4
                    invariant
                        0 <= k <= 4,
                        world@ == w0 + c@.subrange(0, k as int),
                    decreases 4 - k,
                {
                    world.push(c[k]);
                    proof {
                        assert(world@ =~= w0 + c@.subrange(0, k as int + 1));
                    }
                    k = k + 1;
                }
                assert(c@.subrange(0, 4) =~= c@);
                let ghost m0 = image@;
                let mut j: usize = 0;
                while j < d.corners.len()
                    invariant
                        0 <= j <= d.corners@.len(),
                        d == detections@[i as int],
                        image@ == m0 + d.corners@.subrange(0, j as int),
                    decreases d.corners.len() - j,
                {
                    image.push(d.corners[j]);
                    proof {
                        assert(image@ =~= m0 + d.corners@.subrange(0, j as int + 1));
                    }
                    j = j + 1;
                }
                assert(d.corners@.subrange(0, d.corners@.len() as int) =~= d.corners@);
            },
            None => {
                assert(world@ =~= world@ + Seq::<Point3>::empty());
                assert(image@ =~= image@ + Seq::<P>::empty());
            },
        }
        i = i + 1;
    }
    proof {
        assert(detections@.subrange(0, detections@.len() as int) =~= detections@);
        lemma_matched_world_len(detections@);
    }
    if world.len() == 0 {
        Err(TrackingError::NoTargets)
    } else if world.len() != image.len() {
        Err(TrackingError::CorrespondenceMismatch)
    } else {
        Ok(Correspondences { world, image })
    }
}

/// Each registered detection contributes exactly four world points.
pub proof fn lemma_matched_world_len<P>(dets: Seq<Detection<P>>)
    ensures
        matched_world(dets).len() == 4 * registered_count(dets),
    decreases dets.len(),
{
    if dets.len() > 0 {
        lemma_matched_world_len(dets.drop_last());
    }
}

/// Matching distributes over concatenation of detection batches.
pub proof fn lemma_matched_concat<P>(a: Seq<Detection<P>>, b: Seq<Detection<P>>)
    ensures
        matched_image(a + b) == matched_image(a) + matched_image(b),
        matched_world(a + b) == matched_world(a) + matched_world(b),
    decreases b.len(),
{
    if b.len() == 0 {
        assert(a + b =~= a);
        assert(matched_image(a) + matched_image(b) =~= matched_image(a));
        assert(matched_world(a) + matched_world(b) =~= matched_world(a));
    } else {
        lemma_matched_concat(a, b.drop_last());
        assert((a + b).drop_last() =~= a + b.drop_last());
        assert((a + b).last() == b.last());
        assert(matched_image(a + b) =~= matched_image(a) + matched_image(b));
        assert(matched_world(a + b) =~= matched_world(a) + matched_world(b));
    }
}

/// A detection of an unregistered marker, wherever it stands in the batch,
/// leaves both point lists, and so the builder's outcome, as they would be
/// without it.
pub proof fn lemma_unregistered_detection_excluded<P>(
    before: Seq<Detection<P>>,
    d: Detection<P>,
    after: Seq<Detection<P>>,
)
    requires
        !is_registered(d.id),
    ensures
        matched_image(before + seq![d] + after) == matched_image(before + after),
        matched_world(before + seq![d] + after) == matched_world(before + after),
        correspondence_outcome(before + seq![d] + after) == correspondence_outcome(before + after),
{
    let one = seq![d];
    lemma_matched_concat(before, one);
    lemma_matched_concat(before + one, after);
    lemma_matched_concat(before, after);
    assert(one.drop_last() =~= Seq::<Detection<P>>::empty());
    assert(one.last() == d);
    assert(matched_image(one.drop_last()) == Seq::<P>::empty());
    assert(matched_world(one.drop_last()) == Seq::<Point3>::empty());
    assert(matched_image(one) =~= Seq::<P>::empty());
    assert(matched_world(one) =~= Seq::<Point3>::empty());
    assert(matched_image(before) + matched_image(one) =~= matched_image(before));
    assert(matched_world(before) + matched_world(one) =~= matched_world(before));
}

/// When every registered detection carries four corners, the matched image
/// and world lists have the same length.
pub proof fn lemma_four_corner_detections_align<P>(dets: Seq<Detection<P>>)
    requires
        forall|i: int|
            0 <= i < dets.len() && is_registered(#[trigger] dets[i].id) ==> dets[i].corners@.len() == 4,
    ensures
        matched_image(dets).len() == matched_world(dets).len(),
    decreases dets.len(),
{
    if dets.len() > 0 {
        let rest = dets.drop_last();
        assert forall|i: int|
            0 <= i < rest.len() && is_registered(#[trigger] rest[i].id) implies rest[i].corners@.len() == 4 by {
            assert(rest[i] == dets[i]);
        }
        lemma_four_corner_detections_align(rest);
        assert(dets.last() == dets[dets.len() - 1]);
    }
}

} // verus!
