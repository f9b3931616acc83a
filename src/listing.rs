use vstd::prelude::*;

use crate::decode::{utf8_text_lossy, lossy_text};
use crate::error::AgcError;

verus! {

/// The bytes of each entry of a copied foreign list; `None` marks a null entry.
pub open spec fn entry_bytes(entries: Seq<Option<Vec<u8>>>) -> Seq<Option<Seq<u8>>> {
    entries.map_values(|o: Option<Vec<u8>>|
        match o {
            Some(v) => Some(v@),
            None => None,
        })
}

/// The present entries of a list, in order; null entries are skipped.
pub open spec fn present_entries(entries: Seq<Option<Seq<u8>>>) -> Seq<Seq<u8>>
    decreases entries.len(),
{
    if entries.len() == 0 {
        seq![]
    } else {
        let rest = present_entries(entries.drop_last());
        match entries.last() {
            Some(b) => rest.push(b),
            None => rest,
        }
    }
}

/// The names a list yields: each present entry, decoded lossily.
pub open spec fn listed_names(entries: Seq<Option<Seq<u8>>>) -> Seq<Seq<char>> {
    present_entries(entries).map_values(|b: Seq<u8>| lossy_text(b))
}

/// Turns a listing copied out of the engine into owned names.
///
/// `None` stands for the null array by which the engine signals failure.
/// Otherwise each present entry becomes one name, in the engine's order, and
/// null entries are skipped.
pub fn collect_names(list: Option<Vec<Option<Vec<u8>>>>) -> (r: Result<Vec<String>, AgcError>)
    ensures
        list is None ==> (r matches Err(e) && e is ListFailed),
        list matches Some(entries) ==> (r matches Ok(names) && names@.map_values(|s: String| s@)
            == listed_names(entry_bytes(entries@))),
{
    let entries = match list {
        None => {
            return Err(AgcError::ListFailed);
        },
        Some(entries) => entries,
    };
    let ghost all = entry_bytes(entries@);
    let mut names: Vec<String> = Vec::new();
    let mut i: usize = 0;
    while i < entries.len()
        invariant
            all == entry_bytes(entries@),
            i <= entries@.len(),
            names@.map_values(|s: String| s@) =~= listed_names(all.take(i as int)),
        decreases entries.len() - i,
    {
        let ghost before = names@;
        assert(all.take(i + 1).drop_last() =~= all.take(i as int));
        match &entries[i] {
            Some(b) => {
                assert(all[i as int] == Some(b@));
                let t = utf8_text_lossy(b.as_slice());
                names.push(t);
                assert(present_entries(all.take(i + 1)) == present_entries(all.take(i as int)).push(
                    b@,
                ));
                assert(names@.map_values(|s: String| s@) =~= before.map_values(|s: String| s@).push(
                    t@,
                ));
                assert(listed_names(all.take(i + 1)) =~= listed_names(all.take(i as int)).push(
                    lossy_text(b@),
                ));
            },
            None => {
                assert(all[i as int] is None);
                assert(present_entries(all.take(i + 1)) == present_entries(all.take(i as int)));
            },
        }
        i = i + 1;
    }
    assert(all.take(entries@.len() as int) =~= all);
    Ok(names)
}

} // verus!

verus! {

/// A listing yields at most one name per entry the engine reported, and
/// exactly one per entry when none of them is null.
pub proof fn lemma_listing_count(entries: Seq<Option<Seq<u8>>>)
    ensures
        listed_names(entries).len() <= entries.len(),
        (forall|i: int| 0 <= i < entries.len() ==> (#[trigger] entries[i]) is Some)
            ==> listed_names(entries).len() == entries.len(),
    decreases entries.len(),
{
    if entries.len() > 0 {
        let rest = entries.drop_last();
        lemma_listing_count(rest);
        if forall|i: int| 0 <= i < entries.len() ==> (#[trigger] entries[i]) is Some {
            assert(forall|i: int| 0 <= i < rest.len() ==> rest[i] == entries[i]);
            assert(entries[entries.len() - 1] is Some);
        }
    }
}

/// Two listings whose entries hold the same bytes give the same names,
/// whichever handle, and whichever prefetch mode, produced them.
pub proof fn lemma_listing_depends_on_bytes(a: Seq<Option<Vec<u8>>>, b: Seq<Option<Vec<u8>>>)
    requires
        entry_bytes(a) == entry_bytes(b),
    ensures
        listed_names(entry_bytes(a)) == listed_names(entry_bytes(b)),
{
}

} // verus!
