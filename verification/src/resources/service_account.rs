//! Attaching a credential's secret to a service account.
use vstd::prelude::*;

verus! {

/// The references of a service account after a secret is attached: the existing
/// ones, if any, then the new reference when `attach` is set.
pub fn with_reference<T>(existing: Option<Vec<T>>, reference: T, attach: bool) -> (res: Vec<T>)
    ensures
        res@ == match existing {
            Some(v) => v@,
            None => Seq::<T>::empty(),
        } + if attach {
            seq![reference]
        } else {
            Seq::<T>::empty()
        },
{
    let ghost r = reference;
    let mut res = match existing {
        Some(v) => v,
        None => Vec::new(),
    };
    let ghost base = res@;
    if attach {
        res.push(reference);
    }
    assert(res@ =~= base + if attach {
        seq![r]
    } else {
        Seq::<T>::empty()
    });
    res
}

} // verus!
