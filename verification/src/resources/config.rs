use vstd::prelude::*;

verus! {

/// The first preset that is larger than the current value, as its index. The values are
/// order keys: integers ordered as the time scales that they stand for.
pub fn faster_preset(presets: &Vec<i64>, current: i64) -> (res: Option<usize>)
    ensures
        match res {
            Some(i) => i < presets@.len() && presets@[i as int] > current && forall|j: int|
                0 <= j < i ==> presets@[j] <= current,
            None => forall|j: int| 0 <= j < presets@.len() ==> presets@[j] <= current,
        },
{
    let mut i: usize = 0;
    while i < presets.len()
        invariant
            i <= presets@.len(),
            forall|j: int| 0 <= j < i ==> presets@[j] <= current,
        decreases presets@.len() - i,
    {
        if presets[i] > current {
            return Some(i);
        }
        i = i + 1;
    }
    None
}

/// The last preset that is smaller than the current value, as its index.
pub fn slower_preset(presets: &Vec<i64>, current: i64) -> (res: Option<usize>)
    ensures
        match res {
            Some(i) => i < presets@.len() && presets@[i as int] < current && forall|j: int|
                i < j < presets@.len() ==> presets@[j] >= current,
            None => forall|j: int| 0 <= j < presets@.len() ==> presets@[j] >= current,
        },
{
    let mut i: usize = presets.len();
    while i > 0
        invariant
            i <= presets@.len(),
            forall|j: int| i <= j < presets@.len() ==> presets@[j] >= current,
        decreases i,
    {
        if presets[i - 1] < current {
            return Some(i - 1);
        }
        i = i - 1;
    }
    None
}

} // verus!
