//! Multisampling and deferred rendering.

use vstd::prelude::*;

use crate::view::Msaa;

verus! {

/// Whether `places` has, in order, exactly the places in `views` where multisampling is on.
pub open spec fn are_multisampled(places: Seq<usize>, views: Seq<Msaa>) -> bool {
    &&& forall|j: int, k: int| 0 <= j < k < places.len() ==> places[j] < places[k]
    &&& forall|j: int|
        0 <= j < places.len() ==> (#[trigger] places[j]) < views.len() && views[places[j] as int]
            != Msaa::Off
    &&& forall|i: int|
        0 <= i < views.len() && #[trigger] views[i] != Msaa::Off ==> places.contains(i as usize)
}

/// Switches multisampling off for the views, which all use deferred rendering: the two are
/// incompatible. Gives the places of the views for which it was on, so that the user can be
/// warned of each.
pub fn check_msaa(deferred_views: &mut Vec<Msaa>) -> (disabled: Vec<usize>)
    ensures
        final(deferred_views)@ == Seq::new(old(deferred_views)@.len(), |i: int| Msaa::Off),
        are_multisampled(disabled@, old(deferred_views)@),
        forall|i: usize| #[trigger]
            disabled@.contains(i) <==> i < old(deferred_views)@.len() && old(
                deferred_views,
            )@[i as int] != Msaa::Off,
        forall|j: int, k: int| 0 <= j < k < disabled@.len() ==> disabled@[j] < disabled@[k],
{
    let mut disabled: Vec<usize> = Vec::new();
    let ghost before = deferred_views@;
    let len: usize = deferred_views.len();
    for i in 0..len
        invariant
            len == before.len(),
            deferred_views@.len() == before.len(),
            forall|j: int| 0 <= j < i ==> deferred_views@[j] == Msaa::Off,
            forall|j: int| i <= j < before.len() ==> deferred_views@[j] == before[j],
            are_multisampled(disabled@, before.take(i as int)),
    {
        let ghost done = disabled@;
        match deferred_views[i] {
            Msaa::Off => {},
            _ => {
                deferred_views.set(i, Msaa::Off);
                disabled.push(i);
            },
        }
        proof {
            let now = before.take(i + 1);
            assert forall|j: int| 0 <= j < now.len() && #[trigger] now[j] != Msaa::Off implies disabled@.contains(
            j as usize) by {
                if j < i {
                    assert(before.take(i as int)[j] == now[j]);
                    assert(done.contains(j as usize));
                    let k = choose|k: int| 0 <= k < done.len() && done[k] == j as usize;
                    assert(disabled@[k] == j as usize);
                } else {
                    assert(disabled@[done.len() as int] == i);
                }
            }
        }
    }
    assert(before.take(before.len() as int) =~= before);
    assert(deferred_views@ =~= Seq::new(before.len(), |i: int| Msaa::Off));
    assert forall|i: usize| #[trigger] disabled@.contains(i) <==> i < before.len()
        && before[i as int] != Msaa::Off by {
        if disabled@.contains(i) {
            let k = disabled@.index_of(i);
            assert(disabled@[k] == i);
        }
        if i < before.len() && before[i as int] != Msaa::Off {
            assert(disabled@.contains(i as int as usize));
        }
    }
    disabled
}

/// Nothing is left to switch off afterwards: the places are none exactly when multisampling is
/// off everywhere.
pub proof fn nothing_is_multisampled_when_all_are_off(places: Seq<usize>, views: Seq<Msaa>)
    requires
        are_multisampled(places, views),
        views.len() <= usize::MAX,
    ensures
        places.len() == 0 <==> (forall|i: int| 0 <= i < views.len() ==> views[i] == Msaa::Off),
{
    if places.len() == 0 {
        assert forall|i: int| 0 <= i < views.len() implies views[i] == Msaa::Off by {
            if views[i] != Msaa::Off {
                assert(places.contains(i as usize));
            }
        }
    } else {
        let i = places[0];
        assert(views[i as int] != Msaa::Off);
    }
}

} // verus!
