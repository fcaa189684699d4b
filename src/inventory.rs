//! The backpack: which item to sell when it is full.

use crate::scorer::{best_index, inverted, is_first_lowest, select_lowest};
use crate::snapshot::Item;
use vstd::prelude::*;

verus! {

/// Sorting key of a backpack slot: its item's price, free slots last.
pub open spec fn price_key(entry: Option<Item>) -> u64 {
    match entry {
        Some(item) => item.price as u64,
        None => u64::MAX,
    }
}

pub open spec fn price_keys(backpack: Seq<Option<Item>>) -> Seq<u64> {
    backpack.map_values(|e: Option<Item>| price_key(e))
}

/// The slot of the cheapest item, the earliest among equals; `None` when the
/// backpack holds no item.
pub open spec fn worst_item(backpack: Seq<Option<Item>>) -> Option<usize> {
    let i = best_index(inverted(price_keys(backpack)));
    if backpack.len() == 0 || backpack[i] is None {
        None
    } else {
        Some(i as usize)
    }
}

/// Picks the backpack item to sell: the cheapest, the earliest among equal
/// prices. `None` when the backpack holds no item.
pub fn sell_the_worst_item(backpack: &Vec<Option<Item>>) -> (r: Option<usize>)
    ensures
        r == worst_item(backpack@),
        r is None <==> forall|j: int| 0 <= j < backpack@.len() ==> backpack@[j] is None,
        r matches Some(i) ==> {
            &&& i < backpack@.len()
            &&& backpack@[i as int] matches Some(item) && {
                &&& forall|j: int|
                    0 <= j < backpack@.len() && backpack@[j] is Some ==> item.price
                        <= backpack@[j]->0.price
                &&& forall|j: int|
                    0 <= j < i && backpack@[j] is Some ==> item.price < backpack@[j]->0.price
            }
        },
{
    let mut keys: Vec<u64> = Vec::new();
    let mut i: usize = 0;
    while i < backpack.len()
        invariant
            i <= backpack@.len(),
            keys@ == price_keys(backpack@.take(i as int)),
        decreases backpack@.len() - i,
    {
        let key: u64 = match backpack[i] {
            Some(item) => item.price as u64,
            None => u64::MAX,
        };
        keys.push(key);
        proof {
            assert(backpack@.take(i + 1) == backpack@.take(i as int).push(backpack@[i as int]));
        }
        i += 1;
        assert(keys@ =~= price_keys(backpack@.take(i as int)));
    }
    assert(backpack@.take(i as int) =~= backpack@);
    match select_lowest(&keys) {
        None => None,
        Some(b) => {
            proof {
                assert(is_first_lowest(keys@, b as int));
                assert forall|j: int| 0 <= j < backpack@.len() && backpack@[j] is Some implies keys@[j]
                    == backpack@[j]->0.price by {}
            }
            if backpack[b].is_none() {
                proof {
                    assert forall|j: int| 0 <= j < backpack@.len() implies backpack@[j] is None by {
                        assert(keys@[b as int] <= keys@[j]);
                    }
                }
                None
            } else {
                proof {
                    let item = backpack@[b as int]->0;
                    assert forall|j: int|
                        0 <= j < backpack@.len() && backpack@[j] is Some implies item.price
                        <= backpack@[j]->0.price by {
                        assert(keys@[b as int] <= keys@[j]);
                    }
                    assert forall|j: int|
                        0 <= j < b && backpack@[j] is Some implies item.price
                        < backpack@[j]->0.price by {
                        assert(keys@[b as int] < keys@[j]);
                    }
                }
                Some(b)
            }
        },
    }
}

} // verus!
