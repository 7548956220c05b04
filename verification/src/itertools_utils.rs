//! A search that may fail.

use vstd::prelude::*;

verus! {

/// The first of `items` of which `predicate` says yes. The search ends with
/// the error of the first item that `predicate` cannot judge, if that comes
/// before any yes; no item behind it is judged.
pub fn try_find<'a, T, E, P>(items: &'a Vec<T>, predicate: P) -> (res: Result<Option<&'a T>, E>) where
    P: Fn(&T) -> Result<bool, E>,

    requires
        forall|i: int| 0 <= i < items.len() ==> call_requires(predicate, (&#[trigger] items@[i],)),
    ensures
        match res {
            Ok(Some(found)) => exists|i: int|
                0 <= i < items.len() && *found == #[trigger] items@[i] && call_ensures(
                    predicate,
                    (&items@[i],),
                    Ok::<bool, E>(true),
                ) && forall|j: int|
                    0 <= j < i ==> call_ensures(
                        predicate,
                        (&#[trigger] items@[j],),
                        Ok::<bool, E>(false),
                    ),
            Ok(None) => forall|j: int|
                0 <= j < items.len() ==> call_ensures(
                    predicate,
                    (&#[trigger] items@[j],),
                    Ok::<bool, E>(false),
                ),
            Err(e) => exists|i: int|
                0 <= i < items.len() && call_ensures(
                    predicate,
                    (&#[trigger] items@[i],),
                    Err::<bool, E>(e),
                ) && forall|j: int|
                    0 <= j < i ==> call_ensures(
                        predicate,
                        (&#[trigger] items@[j],),
                        Ok::<bool, E>(false),
                    ),
        },
{
    let mut i: usize = 0;
    while i < items.len()
        invariant
            i <= items.len(),
            forall|k: int| 0 <= k < items.len() ==> call_requires(predicate, (&#[trigger] items@[k],)),
            forall|j: int|
                0 <= j < i ==> call_ensures(predicate, (&#[trigger] items@[j],), Ok::<bool, E>(false)),
        decreases items.len() - i,
    {
        match predicate(&items[i]) {
            Ok(true) => {
                return Ok(Some(&items[i]));
            },
            Ok(false) => {},
            Err(e) => {
                return Err(e);
            },
        }
        i += 1;
    }
    Ok(None)
}

} // verus!
