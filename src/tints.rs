//! The stored form of a palette: an ordered map from tint label to color,
//! held in an `indexmap::IndexMap`.
use vstd::prelude::*;

use crate::domain::Tint;

verus! {

#[verifier::external_type_specification]
#[verifier::external_body]
#[verifier::reject_recursive_types(K)]
#[verifier::reject_recursive_types(V)]
#[verifier::reject_recursive_types(S)]
pub struct ExIndexMap<K, V, S>(indexmap::IndexMap<K, V, S>);

/// The label-to-color pairs of a tint map, in the map's order.
pub uninterp spec fn tint_entries(m: indexmap::IndexMap<String, String>) -> Seq<(Seq<char>, Seq<char>)>;

/// The entries after inserting `(k, v)`: an existing key keeps its place and
/// takes the new value; a new key goes last.
pub open spec fn entries_after_insert(
    entries: Seq<(Seq<char>, Seq<char>)>,
    k: Seq<char>,
    v: Seq<char>,
) -> Seq<(Seq<char>, Seq<char>)> {
    if exists|i: int| 0 <= i < entries.len() && (#[trigger] entries[i]).0 == k {
        let i = choose|i: int| 0 <= i < entries.len() && (#[trigger] entries[i]).0 == k;
        entries.update(i, (k, v))
    } else {
        entries.push((k, v))
    }
}

/// Relies on `IndexMap::new`: a new map is empty.
#[verifier::external_body]
fn new_tint_map() -> (r: indexmap::IndexMap<String, String>)
    ensures
        tint_entries(r) == Seq::<(Seq<char>, Seq<char>)>::empty(),
{
    indexmap::IndexMap::new()
}

/// Relies on `IndexMap::insert`: an existing key keeps its place in the
/// order and takes the new value; a new key is inserted last.
#[verifier::external_body]
fn insert_tint(m: &mut indexmap::IndexMap<String, String>, k: String, v: String)
    ensures
        tint_entries(*final(m)) == entries_after_insert(tint_entries(*old(m)), k@, v@),
{
    m.insert(k, v);
}

/// Relies on `IndexMap::iter`: the key-value pairs in the map's order.
#[verifier::external_body]
fn tint_pairs(m: &indexmap::IndexMap<String, String>) -> (r: Vec<(String, String)>)
    ensures
        r@.len() == tint_entries(*m).len(),
        forall|i: int|
            0 <= i < r@.len() ==> (#[trigger] r@[i]).0@ == tint_entries(*m)[i].0 && r@[i].1@
                == tint_entries(*m)[i].1,
{
    m.iter().map(|(k, v)| (k.clone(), v.clone())).collect()
}

/// The entries of a map built by inserting each tint in turn.
pub open spec fn entries_of_tints(tints: Seq<Tint>) -> Seq<(Seq<char>, Seq<char>)>
    decreases tints.len(),
{
    if tints.len() == 0 {
        Seq::empty()
    } else {
        entries_after_insert(
            entries_of_tints(tints.drop_last()),
            tints.last().label@,
            tints.last().color@,
        )
    }
}

/// A palette as stored: labels mapped to colors, in order.
pub struct TintsFile(pub indexmap::IndexMap<String, String>);

impl TintsFile {
    /// The stored form of `tints`: each label mapped to its color, in the
    /// order of first appearance; a repeated label keeps its first place and
    /// takes the last color given to it.
    pub fn from(tints: &Vec<Tint>) -> (r: TintsFile)
        ensures
            tint_entries(r.0) == entries_of_tints(tints@),
    {
        let mut map = new_tint_map();
        let mut i: usize = 0;
        while i < tints.len()
            invariant
                i <= tints@.len(),
                tint_entries(map) == entries_of_tints(tints@.subrange(0, i as int)),
            decreases tints.len() - i,
        {
            insert_tint(&mut map, tints[i].label.clone(), tints[i].color.clone());
            assert(tints@.subrange(0, i + 1).drop_last() =~= tints@.subrange(0, i as int));
            i = i + 1;
        }
        assert(tints@.subrange(0, tints@.len() as int) =~= tints@);
        TintsFile(map)
    }

    /// The tints of a stored palette, in the stored order.
    pub fn to(tints_file: &TintsFile) -> (r: Vec<Tint>)
        ensures
            r@.len() == tint_entries(tints_file.0).len(),
            forall|i: int|
                0 <= i < r@.len() ==> (#[trigger] r@[i]).label@ == tint_entries(tints_file.0)[i].0
                    && r@[i].color@ == tint_entries(tints_file.0)[i].1,
    {
        let pairs = tint_pairs(&tints_file.0);
        let mut out: Vec<Tint> = Vec::new();
        let mut i: usize = 0;
        while i < pairs.len()
            invariant
                i <= pairs@.len(),
                out@.len() == i,
                forall|t: int|
                    0 <= t < i ==> (#[trigger] out@[t]).label@ == pairs@[t].0@ && out@[t].color@
                        == pairs@[t].1@,
            decreases pairs.len() - i,
        {
            out.push(Tint { label: pairs[i].0.clone(), color: pairs[i].1.clone() });
            i = i + 1;
        }
        out
    }
}

/// Labels pairwise distinct.
pub open spec fn distinct_labels(tints: Seq<Tint>) -> bool {
    forall|i: int, j: int| 0 <= i < j < tints.len() ==> tints[i].label@ != tints[j].label@
}

/// With distinct labels, storing a palette keeps every tint, in order.
pub proof fn lemma_tints_round_trip(tints: Seq<Tint>)
    requires
        distinct_labels(tints),
    ensures
        entries_of_tints(tints).len() == tints.len(),
        forall|i: int|
            0 <= i < tints.len() ==> (#[trigger] entries_of_tints(tints)[i]) == (
                tints[i].label@,
                tints[i].color@,
            ),
    decreases tints.len(),
{
    if tints.len() > 0 {
        let prev = tints.drop_last();
        lemma_tints_round_trip(prev);
        let es = entries_of_tints(prev);
        let k = tints.last().label@;
        assert(!(exists|i: int| 0 <= i < es.len() && (#[trigger] es[i]).0 == k)) by {
            if exists|i: int| 0 <= i < es.len() && (#[trigger] es[i]).0 == k {
                let i = choose|i: int| 0 <= i < es.len() && (#[trigger] es[i]).0 == k;
                assert(es[i] == (prev[i].label@, prev[i].color@));
                assert(tints[i].label@ != tints[tints.len() - 1].label@);
            }
        }
    }
}

} // verus!
