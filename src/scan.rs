use vstd::prelude::*;

verus! {

/// Keeps at most `max` of the access points that one scan reported, in the order reported.
pub fn cap_scan_results<T>(results: Vec<T>, max: usize) -> (r: Vec<T>)
    ensures
        r.len() <= max,
        results.len() <= max ==> r@ == results@,
        results.len() > max ==> r@ == results@.take(max as int),
{
    let mut kept = results;
    kept.truncate(max);
    kept
}

} // verus!
