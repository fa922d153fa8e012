use vstd::prelude::*;

verus! {

/// The rows of the first series of a query result, or `None` when the result
/// holds no series.
pub fn first_series_values<T>(series: Vec<Vec<T>>) -> (values: Option<Vec<T>>)
    ensures
        values is None <==> series@.len() == 0,
        values matches Some(v) ==> v@ == series@[0]@,
{
    let mut series = series;
    if series.len() == 0 {
        None
    } else {
        Some(series.remove(0))
    }
}

} // verus!
