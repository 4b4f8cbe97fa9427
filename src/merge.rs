use vstd::prelude::*;

use crate::codec::{distinct_keys, Entry};
use crate::error::Error;

verus! {

/// The value that a fragment gives a field: that of its first entry with the
/// field's name, if any.
pub open spec fn lookup(frag: Seq<Entry>, key: Seq<char>) -> Option<figment::value::Value>
    decreases frag.len(),
{
    if frag.len() == 0 {
        None
    } else {
        match lookup(frag.drop_last(), key) {
            Some(v) => Some(v),
            None => if frag.last().0@ == key {
                Some(frag.last().1)
            } else {
                None
            },
        }
    }
}

/// The value that a stack of fragments, highest priority first, gives a
/// field: that of the earliest fragment that defines it.
pub open spec fn resolve(layers: Seq<Seq<Entry>>, key: Seq<char>) -> Option<figment::value::Value>
    decreases layers.len(),
{
    if layers.len() == 0 {
        None
    } else {
        match resolve(layers.drop_last(), key) {
            Some(v) => Some(v),
            None => lookup(layers.last(), key),
        }
    }
}

/// The fragments of a list of sources, every one of which was read.
pub open spec fn fragments(layers: Seq<Result<Vec<Entry>, Error>>) -> Seq<Seq<Entry>> {
    layers.map_values(|r: Result<Vec<Entry>, Error>| r->Ok_0@)
}

/// Every source of the list was read.
pub open spec fn all_read(layers: Seq<Result<Vec<Entry>, Error>>) -> bool {
    forall|i: int| 0 <= i < layers.len() ==> (#[trigger] layers[i]) is Ok
}

/// The source at `i` is the first of the list that could not be read.
pub open spec fn first_failure(layers: Seq<Result<Vec<Entry>, Error>>, i: int) -> bool {
    &&& 0 <= i < layers.len()
    &&& layers[i] is Err
    &&& all_read(layers.take(i))
}

/// A fragment defines a field exactly when one of its entries has the field's name.
pub proof fn lemma_lookup_defined(frag: Seq<Entry>, key: Seq<char>)
    ensures
        lookup(frag, key) is Some <==> exists|i: int| 0 <= i < frag.len() && frag[i].0@ == key,
    decreases frag.len(),
{
    if frag.len() > 0 {
        lemma_lookup_defined(frag.drop_last(), key);
        if lookup(frag, key) is Some && lookup(frag.drop_last(), key) is None {
            assert(frag[frag.len() - 1].0@ == key);
        }
        if exists|i: int| 0 <= i < frag.len() && frag[i].0@ == key {
            let i = choose|i: int| 0 <= i < frag.len() && frag[i].0@ == key;
            if i < frag.len() - 1 {
                assert(frag.drop_last()[i] == frag[i]);
            }
        }
    }
}

/// A stack of fragments none of which defines a field leaves it undefined.
pub proof fn lemma_resolve_undefined(layers: Seq<Seq<Entry>>, key: Seq<char>)
    requires
        forall|h: int| 0 <= h < layers.len() ==> lookup(#[trigger] layers[h], key) is None,
    ensures
        resolve(layers, key) is None,
    decreases layers.len(),
{
    if layers.len() > 0 {
        let rest = layers.drop_last();
        assert forall|h: int| 0 <= h < rest.len() implies lookup(#[trigger] rest[h], key) is None by {
            assert(rest[h] == layers[h]);
        }
        lemma_resolve_undefined(rest, key);
        assert(lookup(layers[layers.len() - 1], key) is None);
    }
}

/// Precedence: where sources `i` and `j`, with `i` listed earlier, both define
/// a field and no source before `i` does, the field takes the value of source
/// `i`, whatever source `j` or any other later source holds.
pub proof fn lemma_earlier_source_wins(layers: Seq<Seq<Entry>>, i: int, j: int, key: Seq<char>)
    requires
        0 <= i < j < layers.len(),
        lookup(layers[i], key) is Some,
        lookup(layers[j], key) is Some,
        forall|h: int| 0 <= h < i ==> lookup(#[trigger] layers[h], key) is None,
    ensures
        resolve(layers, key) == lookup(layers[i], key),
{
    lemma_first_definition(layers, i, key);
}

/// The earliest fragment that defines a field gives the field its value.
proof fn lemma_first_definition(layers: Seq<Seq<Entry>>, i: int, key: Seq<char>)
    requires
        0 <= i < layers.len(),
        lookup(layers[i], key) is Some,
        forall|h: int| 0 <= h < i ==> lookup(#[trigger] layers[h], key) is None,
    ensures
        resolve(layers, key) == lookup(layers[i], key),
    decreases layers.len(),
{
    let rest = layers.drop_last();
    if i == layers.len() - 1 {
        assert forall|h: int| 0 <= h < rest.len() implies lookup(#[trigger] rest[h], key) is None by {
            assert(rest[h] == layers[h]);
        }
        lemma_resolve_undefined(rest, key);
    } else {
        assert(rest[i] == layers[i]);
        assert forall|h: int| 0 <= h < i implies lookup(#[trigger] rest[h], key) is None by {
            assert(rest[h] == layers[h]);
        }
        lemma_first_definition(rest, i, key);
    }
}

/// Merges the fragments of a list of sources, highest priority first, into one
/// fragment. Each field takes its value from the earliest source that defines
/// it. A source that could not be read fails the merge: the error of the first
/// such source is returned.
///
/// Precedence is per top-level field: a field that an earlier source gives as
/// a table replaces the whole table of a later source; tables are not merged
/// key by key.
pub fn merge_layers(layers: Vec<Result<Vec<Entry>, Error>>) -> (r: Result<
    Vec<Entry>,
    Error,
>)
    ensures
        r is Ok <==> all_read(layers@),
        r is Ok ==> distinct_keys(r->Ok_0@),
        r is Ok ==> forall|key: Seq<char>|
            #[trigger] lookup(r->Ok_0@, key) == resolve(fragments(layers@), key),
        r is Err ==> exists|i: int| first_failure(layers@, i) && r->Err_0 == layers@[i]->Err_0,
{
    let ghost all = layers@;
    assert(all.len() == layers.len());
    let mut merged: Vec<Entry> = Vec::new();
    let mut n: usize = 0;
    for layer in it: layers.into_iter()
        invariant
            it.seq() == all,
            all.len() <= usize::MAX,
            n == it.index(),
            all_read(all.take(n as int)),
            distinct_keys(merged@),
            forall|key: Seq<char>|
                #[trigger] lookup(merged@, key) == resolve(fragments(all.take(n as int)), key),
    {
        assert(all[n as int] == layer);
        let frag = match layer {
            Ok(frag) => frag,
            Err(e) => {
                assert(first_failure(all, n as int));
                return Err(e);
            },
        };
        let ghost done = fragments(all.take(n as int));
        let ghost fv = frag@;
        assert(fv.len() == frag.len());
        let mut m: usize = 0;
        for entry in et: frag.into_iter()
            invariant
                et.seq() == fv,
                fv.len() <= usize::MAX,
                m == et.index(),
                distinct_keys(merged@),
                forall|key: Seq<char>|
                    #[trigger] lookup(merged@, key) == match resolve(done, key) {
                        Some(v) => Some(v),
                        None => lookup(fv.take(m as int), key),
                    },
        {
            let mut found = false;
            let mut j: usize = 0;
            while j < merged.len()
                invariant
                    j <= merged.len(),
                    found <==> exists|i: int| 0 <= i < j && merged@[i].0@ == entry.0@,
                decreases merged.len() - j,
            {
                if merged[j].0 == entry.0 {
                    found = true;
                }
                j = j + 1;
            }
            proof {
                lemma_lookup_defined(merged@, entry.0@);
                assert(fv.take(m + 1).drop_last() =~= fv.take(m as int));
                assert(fv[m as int] == entry);
            }
            if !found {
                let ghost before = merged@;
                merged.push(entry);
                assert(merged@.drop_last() =~= before);
            }
            m = m + 1;
        }
        proof {
            assert(fv.take(m as int) =~= fv);
            assert(all.take(n + 1).drop_last() =~= all.take(n as int));
            assert(fragments(all.take(n + 1)).drop_last() =~= done);
        }
        n = n + 1;
    }
    assert(all.take(n as int) =~= all);
    Ok(merged)
}

} // verus!
