//! Building the tower catalogue from the definitions that were read.

use vstd::prelude::*;
use vstd::string::StringExecFns;
use crate::tower::TowerDB;

verus! {

/// The catalogue that a list of definitions amounts to: each goes under its
/// id in turn, so that of two with one id the later stays.
pub open spec fn catalog_of<D>(entries: Seq<(String, D)>) -> Map<Seq<char>, D>
    decreases entries.len(),
{
    if entries.len() == 0 {
        Map::empty()
    } else {
        catalog_of(entries.drop_last()).insert(entries.last().0@, entries.last().1)
    }
}

/// Builds the catalogue from the definitions of the towers file, in the
/// file's order.
pub fn build_tower_db_once<D>(entries: Vec<(String, D)>) -> (db: TowerDB<D>)
    ensures
        db.wf(),
        db@ == catalog_of(entries@),
{
    let mut db = TowerDB::new();
    let ghost all = entries@;
    for entry in it: entries
        invariant
            it.seq() == all,
            db.wf(),
            db@ == catalog_of(all.take(it.index() as int)),
    {
        let ghost n = it.index() as int;
        assert(all.take(n + 1).drop_last() =~= all.take(n));
        assert(all.take(n + 1).last() == all[n]);
        let (id, def) = entry;
        db.insert(id, def);
    }
    assert(all.take(all.len() as int) =~= all);
    db
}

/// The catalogue of a list holds exactly the ids of the list, and under each
/// the definition that comes last with it.
pub proof fn later_definition_stays<D>(entries: Seq<(String, D)>)
    ensures
        forall|id: Seq<char>| #[trigger]
            catalog_of(entries).dom().contains(id) <==> exists|i: int|
                0 <= i < entries.len() && (#[trigger] entries[i]).0@ == id,
        forall|i: int|
            0 <= i < entries.len() && (forall|j: int|
                i < j < entries.len() ==> (#[trigger] entries[j]).0@ != entries[i].0@)
                ==> catalog_of(entries)[(#[trigger] entries[i]).0@] == entries[i].1,
    decreases entries.len(),
{
    if entries.len() > 0 {
        let shorter = entries.drop_last();
        let last = entries.len() - 1;
        later_definition_stays(shorter);
        assert(forall|i: int| 0 <= i < last ==> shorter[i] == entries[i]);
        assert forall|id: Seq<char>| #[trigger]
            catalog_of(entries).dom().contains(id) <==> exists|i: int|
                0 <= i < entries.len() && (#[trigger] entries[i]).0@ == id by {
            if catalog_of(shorter).dom().contains(id) {
                let i = choose|i: int| 0 <= i < shorter.len() && (#[trigger] shorter[i]).0@ == id;
                assert(entries[i].0@ == id);
            }
            if id == entries[last].0@ {
                assert(entries[last].0@ == id);
            }
            if exists|i: int| 0 <= i < entries.len() && (#[trigger] entries[i]).0@ == id {
                let i = choose|i: int| 0 <= i < entries.len() && (#[trigger] entries[i]).0@ == id;
                if i < last {
                    assert(shorter[i].0@ == id);
                }
            }
        }
        assert forall|i: int|
            0 <= i < entries.len() && (forall|j: int|
                i < j < entries.len() ==> (#[trigger] entries[j]).0@ != entries[i].0@) implies catalog_of(
            entries,
        )[(#[trigger] entries[i]).0@] == entries[i].1 by {
            if i < last {
                assert(entries[last].0@ != entries[i].0@);
                assert forall|j: int| i < j < shorter.len() implies (#[trigger] shorter[j]).0@
                    != shorter[i].0@ by {
                    assert(entries[j].0@ != entries[i].0@);
                }
                assert(catalog_of(shorter)[shorter[i].0@] == shorter[i].1);
            }
        }
    }
}

/// Whether the towers file can be turned into the catalogue: it was asked
/// for (`handle` is there) and has arrived (`handle` holds `true`).
pub fn towers_json_ready(handle: Option<bool>) -> (ready: bool)
    ensures
        ready == (handle == Some(true)),
{
    match handle {
        Some(loaded) => loaded,
        None => false,
    }
}

/// The asset label of the first scene in the model file at `path`.
pub fn scene_label(path: &str) -> (label: String)
    ensures
        label@ == path@ + "#Scene0"@,
{
    String::from_str(path).concat("#Scene0")
}

} // verus!
