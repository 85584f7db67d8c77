//! Byte accounting of deployment plans.

use vstd::prelude::*;
use crate::model::{DeploymentItem, DeploymentPlan};

verus! {

/// Sum of the byte sizes of the first `n` items.
pub open spec fn prefix_bytes(items: Seq<DeploymentItem>, n: int) -> int
    decreases n,
{
    if n <= 0 {
        0
    } else {
        prefix_bytes(items, n - 1) + items[n - 1].bytes
    }
}

/// Sum of the byte sizes of all items.
pub open spec fn sum_bytes(items: Seq<DeploymentItem>) -> int {
    prefix_bytes(items, items.len() as int)
}

/// The plan's totals agree with its items.
pub open spec fn plan_accounted(plan: DeploymentPlan) -> bool {
    &&& plan.total_files == plan.items@.len()
    &&& plan.total_bytes == sum_bytes(plan.items@)
}

pub proof fn lemma_prefix_bytes_monotone(items: Seq<DeploymentItem>, a: int, b: int)
    requires
        0 <= a <= b <= items.len(),
    ensures
        prefix_bytes(items, a) <= prefix_bytes(items, b),
    decreases b - a,
{
    if a < b {
        lemma_prefix_bytes_monotone(items, a, b - 1);
    }
}

/// Sums the byte sizes of `items`, or `None` where the sum exceeds `u64`.
pub fn total_bytes_of(items: &Vec<DeploymentItem>) -> (r: Option<u64>)
    ensures
        r is Some <==> sum_bytes(items@) <= u64::MAX,
        r is Some ==> r->0 == sum_bytes(items@),
{
    let mut acc: u64 = 0;
    let mut i: usize = 0;
    while i < items.len()
        invariant
            i <= items@.len(),
            acc == prefix_bytes(items@, i as int),
        decreases items@.len() - i,
    {
        let b = items[i].bytes;
        if acc > u64::MAX - b {
            proof {
                lemma_prefix_bytes_monotone(items@, i as int + 1, items@.len() as int);
            }
            return None;
        }
        acc = acc + b;
        i = i + 1;
    }
    Some(acc)
}

/// Whether the plan's file and byte totals agree with its items.
pub fn is_accounted(plan: &DeploymentPlan) -> (r: bool)
    ensures
        r == plan_accounted(*plan),
{
    if plan.total_files != plan.items.len() as u64 {
        return false;
    }
    match total_bytes_of(&plan.items) {
        Some(t) => t == plan.total_bytes,
        None => false,
    }
}

} // verus!
