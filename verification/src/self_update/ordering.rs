//! The release order as `std::cmp::Ordering`.
use vstd::prelude::*;

use crate::self_update::versioning::{compare_versions, release_order, VersionOrder};
use std::cmp::Ordering;

verus! {

/// The std ordering that corresponds to a version order.
pub open spec fn std_order(o: VersionOrder) -> Ordering {
    match o {
        VersionOrder::Less => Ordering::Less,
        VersionOrder::Equal => Ordering::Equal,
        VersionOrder::Greater => Ordering::Greater,
    }
}

/// Compares two release tags (`v0.1.9` above `v0.1.8`; a release above its pre-releases).
pub fn compare_release_versions(left: &str, right: &str) -> (r: Ordering)
    ensures
        r == std_order(release_order(left@, right@)),
{
    match compare_versions(left, right) {
        VersionOrder::Less => Ordering::Less,
        VersionOrder::Equal => Ordering::Equal,
        VersionOrder::Greater => Ordering::Greater,
    }
}

} // verus!
