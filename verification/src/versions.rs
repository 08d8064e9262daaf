//! The order of versions, as semantic versioning has it.

use core::cmp::Ordering;
use semver::Version;
use vstd::prelude::*;

verus! {

/// How the semver crate orders the version `left` against the version
/// `right`: -1 where `left` is the lower one, 0 where they are equal, 1 where
/// it is the higher one; `None` where one of the two texts is no version.
pub uninterp spec fn semver_order(left: Seq<char>, right: Seq<char>) -> Option<i8>;

/// Reads both texts with semver's `Version::parse` and compares the versions
/// with their `Ord::cmp`. Trusted: the result is the order that the semver
/// crate gives, which depends on the two texts alone.
#[verifier::external_body]
pub(crate) fn version_order(left: &str, right: &str) -> (order: Option<i8>)
    ensures
        order == semver_order(left@, right@),
{
    let left = Version::parse(left).ok()?;
    let right = Version::parse(right).ok()?;
    Some(
        match left.cmp(&right) {
            Ordering::Less => -1,
            Ordering::Equal => 0,
            Ordering::Greater => 1,
        },
    )
}

/// Whether a version that compares as `order` against the latest so far takes
/// its place: both are versions, and the new one is not the lower one.
pub open spec fn spec_takes_over(order: Option<i8>) -> bool {
    order matches Some(order) && order >= 0
}

/// Whether a version that compares as `order` against the latest so far takes
/// its place.
#[verifier::when_used_as_spec(spec_takes_over)]
pub fn takes_over(order: Option<i8>) -> (takes: bool)
    ensures
        takes == spec_takes_over(order),
{
    match order {
        Some(order) => order >= 0,
        None => false,
    }
}

/// Whether `candidate` takes the place of `best` as the latest version.
pub open spec fn supersedes(candidate: Seq<char>, best: Seq<char>) -> bool {
    spec_takes_over(semver_order(candidate, best))
}

/// Where the latest of `versions` stands: going through them in order, a
/// version takes the place of the latest so far unless it is lower, or one of
/// the two is no version. For no versions at all, 0.
pub open spec fn latest(versions: Seq<Seq<char>>) -> int
    decreases versions.len(),
{
    if versions.len() <= 1 {
        0
    } else {
        let best = latest(versions.drop_last());
        if supersedes(versions.last(), versions[best]) {
            versions.len() - 1
        } else {
            best
        }
    }
}

/// The latest of some versions stands among them.
pub proof fn lemma_latest_in_range(versions: Seq<Seq<char>>)
    requires
        versions.len() > 0,
    ensures
        0 <= latest(versions) < versions.len(),
    decreases versions.len(),
{
    if versions.len() > 1 {
        lemma_latest_in_range(versions.drop_last());
    }
}

/// Finds where the latest of `versions` stands; `None` where there are none.
pub fn latest_version(versions: &Vec<String>) -> (at: Option<usize>)
    ensures
        at is Some <==> versions.len() > 0,
        at matches Some(at) ==> at == latest(versions.deep_view()) && at < versions.len(),
{
    if versions.len() == 0 {
        return None;
    }
    let mut best: usize = 0;
    let mut i: usize = 1;
    assert(versions.deep_view().take(1).len() == 1);
    while i < versions.len()
        invariant
            1 <= i <= versions.len(),
            best < i,
            best == latest(versions.deep_view().take(i as int)),
        decreases versions.len() - i,
    {
        proof {
            let all = versions.deep_view();
            assert(all.take(i + 1).drop_last() =~= all.take(i as int));
            assert(all.take(i + 1).last() == versions@[i as int]@);
            assert(all.take(i + 1)[best as int] == versions@[best as int]@);
            assert(all.take(i as int)[best as int] == versions@[best as int]@);
        }
        if takes_over(version_order(versions[i].as_str(), versions[best].as_str())) {
            best = i;
        }
        i += 1;
    }
    assert(versions.deep_view().take(versions.len() as int) =~= versions.deep_view());
    Some(best)
}

} // verus!
