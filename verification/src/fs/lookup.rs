//! Searching and walking the ordered maps that hold listings and tables.

use vstd::prelude::*;
use vstd::std_specs::cmp::OrdSpec;
use vstd::std_specs::iter::IteratorSpec;
use std::collections::BTreeMap;
use crate::fs::model::{ascending, is_first_named, keys_below, named};

verus! {

/// A listing as the contracts see it: each identifier with the characters of
/// its name.
pub open spec fn names_of(listing: Map<i32, String>) -> Map<i32, Seq<char>> {
    listing.map_values(|name: String| name@)
}

/// Each element of `keys` is smaller than the next.
pub open spec fn strictly_increasing(keys: Seq<i32>) -> bool {
    forall|i: int, j: int| 0 <= i < j < keys.len() ==> keys[i] < keys[j]
}

/// An increasing sequence that holds exactly the identifiers of `dom` below
/// `hi` is the sequence that `keys_below` names.
pub proof fn lemma_increasing_is_keys_below(keys: Seq<i32>, dom: Set<i32>, hi: int)
    requires
        strictly_increasing(keys),
        forall|i: int| 0 <= i < keys.len() ==> dom.contains(#[trigger] keys[i]) && keys[i] < hi,
        forall|k: i32| dom.contains(k) && k < hi ==> keys.contains(k),
        hi <= i32::MAX + 1,
    ensures
        keys == keys_below(dom, hi),
    decreases hi - i32::MIN,
{
    if hi <= i32::MIN {
        if keys.len() > 0 {
            assert(keys[0] < hi);
        }
    } else {
        let top = (hi - 1) as i32;
        if dom.contains(top) {
            let at = choose|i: int| 0 <= i < keys.len() && keys[i] == top;
            if at < keys.len() - 1 {
                assert(keys[at] < keys[keys.len() - 1]);
            }
            let rest = keys.drop_last();
            assert forall|k: i32| dom.contains(k) && k < hi - 1 implies rest.contains(k) by {
                let j = choose|j: int| 0 <= j < keys.len() && keys[j] == k;
                assert(rest[j] == k);
            }
            lemma_increasing_is_keys_below(rest, dom, hi - 1);
        } else {
            lemma_increasing_is_keys_below(keys, dom, hi - 1);
        }
    }
}

/// The identifier under which `listing` holds `name`: the least one, should
/// there be several.
pub fn find_named(listing: &BTreeMap<i32, String>, name: &str) -> (r: Option<i32>)
    ensures
        r == named(names_of(listing@), name@),
{
    let wanted = name.to_owned();
    let mut found: Option<i32> = None;
    let ghost names = names_of(listing@);
    let entries = listing.iter();
    proof {
        let keys = entries.remaining().map_values(|kv: (&i32, &String)| *kv.0);
        assert forall|i: int, j: int| 0 <= i < j < keys.len() implies keys[i] < keys[j] by {
            assert(keys[i].cmp_spec(&keys[j]) is Less);
        }
    }
    for entry in it: entries
        invariant
            wanted@ == name@,
            names == names_of(listing@),
            strictly_increasing(it.seq().map_values(|kv: (&i32, &String)| *kv.0)),
            forall|i: int|
                0 <= i < it.seq().len() ==> listing@.contains_key(*(#[trigger] it.seq()[i]).0)
                    && listing@[*it.seq()[i].0] == *it.seq()[i].1,
            forall|k: i32| #[trigger]
                listing@.contains_key(k) ==> exists|i: int|
                    0 <= i < it.seq().len() && *(#[trigger] it.seq()[i]).0 == k,
            match found {
                Some(k) => is_first_named(names, name@, k),
                None => forall|i: int|
                    0 <= i < it.index() ==> (#[trigger] it.seq()[i]).1@ != name@,
            },
    {
        if found.is_none() && *entry.1 == wanted {
            found = Some(*entry.0);
            proof {
                let at = it.index();
                let keys = it.seq().map_values(|kv: (&i32, &String)| *kv.0);
                assert forall|j: i32| names.contains_key(j) && names[j] == name@ implies *entry.0
                    <= j by {
                    let i = choose|i: int| 0 <= i < it.seq().len() && *(#[trigger] it.seq()[i]).0 == j;
                    if i > at {
                        assert(keys[at] < keys[i]);
                    }
                }
            }
        }
    }
    proof {
        if found is None {
            assert forall|k: i32| names.contains_key(k) implies names[k] != name@ by {}
        }
    }
    found
}

/// The identifiers of `table`, in increasing order.
pub fn ordered_keys<V>(table: &BTreeMap<i32, V>) -> (r: Vec<i32>)
    ensures
        r@ == ascending(table@.dom()),
        forall|i: int| 0 <= i < r@.len() ==> table@.contains_key(#[trigger] r@[i]),
{
    let mut out: Vec<i32> = Vec::new();
    let entries = table.iter();
    proof {
        let keys = entries.remaining().map_values(|kv: (&i32, &V)| *kv.0);
        assert forall|i: int, j: int| 0 <= i < j < keys.len() implies keys[i] < keys[j] by {
            assert(keys[i].cmp_spec(&keys[j]) is Less);
        }
    }
    for entry in it: entries
        invariant
            strictly_increasing(it.seq().map_values(|kv: (&i32, &V)| *kv.0)),
            forall|i: int|
                0 <= i < it.seq().len() ==> table@.contains_key(*(#[trigger] it.seq()[i]).0),
            forall|k: i32| #[trigger]
                table@.contains_key(k) ==> exists|i: int|
                    0 <= i < it.seq().len() && *(#[trigger] it.seq()[i]).0 == k,
            out@.len() == it.index(),
            forall|i: int|
                #![trigger out@[i]]
                #![trigger it.seq()[i]]
                0 <= i < out@.len() ==> out@[i] == *it.seq()[i].0,
            strictly_increasing(out@),
            forall|i: int| 0 <= i < out@.len() ==> table@.contains_key(#[trigger] out@[i]),
    {
        proof {
            let keys = it.seq().map_values(|kv: (&i32, &V)| *kv.0);
            assert forall|i: int| 0 <= i < out@.len() implies out@[i] < *entry.0 by {
                assert(keys[i] < keys[it.index()]);
            }
        }
        out.push(*entry.0);
    }
    proof {
        assert forall|k: i32| table@.dom().contains(k) implies out@.contains(k) by {}
        lemma_increasing_is_keys_below(out@, table@.dom(), i32::MAX + 1);
    }
    out
}

} // verus!
