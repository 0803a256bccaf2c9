//! Key-value metadata attached to an agent.
use vstd::prelude::*;
use crate::bytes::{copy_bytes, same_bytes};

verus! {

/// What a metadata entry is: a key and the value stored under it.
pub struct MetadataEntryView {
    pub key: Seq<u8>,
    pub value: Seq<u8>,
}

/// One key-value pair of an agent's metadata.
#[derive(Debug, PartialEq, Eq)]
pub struct MetadataEntry {
    pub key: Vec<u8>,
    pub value: Vec<u8>,
}

impl View for MetadataEntry {
    type V = MetadataEntryView;

    open spec fn view(&self) -> MetadataEntryView {
        MetadataEntryView { key: self.key@, value: self.value@ }
    }
}

impl Clone for MetadataEntry {
    fn clone(&self) -> (e: MetadataEntry)
        ensures
            e@ == self@,
    {
        MetadataEntry { key: copy_bytes(self.key.as_slice()), value: copy_bytes(self.value.as_slice()) }
    }
}

/// The entries of a metadata list, in order.
pub open spec fn entry_views(entries: Seq<MetadataEntry>) -> Seq<MetadataEntryView> {
    Seq::new(entries.len(), |i: int| entries[i]@)
}

/// A copy of a metadata list.
pub fn copy_entries(entries: &Vec<MetadataEntry>) -> (r: Vec<MetadataEntry>)
    ensures
        entry_views(r@) == entry_views(entries@),
{
    let mut out: Vec<MetadataEntry> = Vec::new();
    let mut i: usize = 0;
    while i < entries.len()
        invariant
            i <= entries@.len(),
            out@.len() == i,
            forall|j: int| 0 <= j < i ==> out@[j]@ == entries@[j]@,
        decreases entries@.len() - i,
    {
        out.push(entries[i].clone());
        i += 1;
    }
    assert(entry_views(out@) =~= entry_views(entries@));
    out
}

/// Whether some entry of the list is stored under `key`.
pub open spec fn has_key(entries: Seq<MetadataEntryView>, key: Seq<u8>) -> bool {
    exists|i: int| 0 <= i < entries.len() && entries[i].key == key
}

/// The list after writing `entry` into it: every entry stored under the same
/// key is replaced by `entry`; when there is none, `entry` is added at the end.
pub open spec fn upsert(entries: Seq<MetadataEntryView>, entry: MetadataEntryView) -> Seq<
    MetadataEntryView,
> {
    let replaced = Seq::new(
        entries.len(),
        |i: int|
            if entries[i].key == entry.key {
                entry
            } else {
                entries[i]
            },
    );
    if has_key(entries, entry.key) {
        replaced
    } else {
        replaced.push(entry)
    }
}

/// The list after writing each of `updates` into it, first to last.
pub open spec fn upsert_all(entries: Seq<MetadataEntryView>, updates: Seq<MetadataEntryView>) -> Seq<
    MetadataEntryView,
>
    decreases updates.len(),
{
    if updates.len() == 0 {
        entries
    } else {
        upsert(upsert_all(entries, updates.drop_last()), updates.last())
    }
}

/// The value of the first entry stored under `key`.
pub open spec fn first_value(entries: Seq<MetadataEntryView>, key: Seq<u8>) -> Option<Seq<u8>>
    decreases entries.len(),
{
    if entries.len() == 0 {
        None
    } else if entries[0].key == key {
        Some(entries[0].value)
    } else {
        first_value(entries.drop_first(), key)
    }
}

/// Writes one entry into a metadata list.
pub fn upsert_entry(entries: &Vec<MetadataEntry>, entry: &MetadataEntry) -> (r: Vec<MetadataEntry>)
    ensures
        entry_views(r@) == upsert(entry_views(entries@), entry@),
{
    let ghost old_views = entry_views(entries@);
    let mut out: Vec<MetadataEntry> = Vec::new();
    let mut found = false;
    let mut i: usize = 0;
    while i < entries.len()
        invariant
            i <= entries@.len(),
            out@.len() == i,
            old_views == entry_views(entries@),
            found == (exists|j: int| 0 <= j < i && old_views[j].key == entry@.key),
            forall|j: int|
                0 <= j < i ==> out@[j]@ == (if old_views[j].key == entry@.key {
                    entry@
                } else {
                    old_views[j]
                }),
        decreases entries@.len() - i,
    {
        assert(old_views[i as int] == entries@[i as int]@);
        if same_bytes(entries[i].key.as_slice(), entry.key.as_slice()) {
            out.push(entry.clone());
            found = true;
        } else {
            out.push(entries[i].clone());
        }
        i += 1;
    }
    assert(found == has_key(old_views, entry@.key));
    if !found {
        out.push(entry.clone());
    }
    assert(entry_views(out@) =~= upsert(old_views, entry@));
    out
}

/// Writes a list of entries into a metadata list, first to last.
pub fn merge_entries(entries: &Vec<MetadataEntry>, updates: &Vec<MetadataEntry>) -> (r: Vec<
    MetadataEntry,
>)
    ensures
        entry_views(r@) == upsert_all(entry_views(entries@), entry_views(updates@)),
{
    let mut out = copy_entries(entries);
    let mut i: usize = 0;
    while i < updates.len()
        invariant
            i <= updates@.len(),
            entry_views(out@) == upsert_all(
                entry_views(entries@),
                entry_views(updates@).subrange(0, i as int),
            ),
        decreases updates@.len() - i,
    {
        out = upsert_entry(&out, &updates[i]);
        proof {
            let all = entry_views(updates@);
            assert(all.subrange(0, i + 1).drop_last() =~= all.subrange(0, i as int));
            assert(all.subrange(0, i + 1).last() == updates@[i as int]@);
        }
        i += 1;
    }
    assert(entry_views(updates@).subrange(0, updates@.len() as int) =~= entry_views(updates@));
    out
}

/// Looks up the value of the first entry stored under `key`.
pub fn find_value(entries: &Vec<MetadataEntry>, key: &[u8]) -> (r: Option<Vec<u8>>)
    ensures
        match r {
            Some(v) => first_value(entry_views(entries@), key@) == Some(v@),
            None => first_value(entry_views(entries@), key@).is_none(),
        },
{
    let ghost all = entry_views(entries@);
    assert(all.subrange(0, all.len() as int) =~= all);
    let mut i: usize = 0;
    while i < entries.len()
        invariant
            i <= entries@.len(),
            all == entry_views(entries@),
            first_value(all, key@) == first_value(all.subrange(i as int, all.len() as int), key@),
        decreases entries@.len() - i,
    {
        let ghost rest = all.subrange(i as int, all.len() as int);
        assert(rest[0] == entries@[i as int]@);
        if same_bytes(entries[i].key.as_slice(), key) {
            return Some(copy_bytes(entries[i].value.as_slice()));
        }
        assert(rest.drop_first() =~= all.subrange(i + 1, all.len() as int));
        i += 1;
    }
    None
}

} // verus!
