//! The request counter: the marker `request.count` of a `dipstick` bucket.

use vstd::prelude::*;
use dipstick::{AtomicBucket, Marker};
use crate::journal::{Effect, Journal};

verus! {

/// `AtomicBucket` of `dipstick`, carried as it is: the proofs see nothing
/// inside it.
#[verifier::external_type_specification]
#[verifier::external_body]
pub struct ExAtomicBucket(dipstick::AtomicBucket);

/// `Marker` of `dipstick`, carried as it is: the proofs see nothing inside
/// it.
#[verifier::external_type_specification]
#[verifier::external_body]
pub struct ExMarker(dipstick::Marker);

/// `InputScope::marker` of `dipstick`, called on an `AtomicBucket`: the
/// bucket's marker of that name, made first if the bucket has none. The
/// crate asserts that a name is not empty, so the empty name is left out.
/// Nothing is claimed of the marker.
#[verifier::external_body]
fn bucket_marker(bucket: &AtomicBucket, name: &str) -> (marker: Marker)
    requires
        name@.len() > 0,
{
    dipstick::InputScope::marker(bucket, name)
}

/// `Marker::mark` of `dipstick`: records one occurrence. It returns nothing,
/// and nothing is claimed of it.
pub assume_specification[ Marker::mark ](marker: &Marker);

/// Counts one request in `metrics`: marks the bucket's marker
/// `request.count` once.
pub fn count_request(metrics: &AtomicBucket, journal: &mut Journal)
    ensures
        final(journal)@ == old(journal)@.push(Effect::RequestCounted),
{
    proof {
        reveal_strlit("request.count");
    }
    let marker = bucket_marker(metrics, "request.count");
    marker.mark();
    journal.note(Ghost(Effect::RequestCounted));
}

} // verus!
