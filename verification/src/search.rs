//! The rows of the search database and how they become list entries;
//! the special-kind test that the database queries use. The database
//! itself is the caller's part.
use vstd::prelude::*;
use crate::item::{Ident, ItemLinkForSerde, ItemListEntry, ItemListEntryList, SpecialKinds};

verus! {

/// An item as a row of the search database.
pub struct ItemRow {
    pub ident: Ident,
    pub item_type: String,
    /// the item's description
    pub name: String,
    pub open: bool,
    pub ready: bool,
    pub parent: Option<String>,
    pub sort: String,
    pub classify: String,
    /// the item's special kinds, as a bit field
    pub special: i32,
    pub targeted: bool,
}

/// A row of the hierarchical view: an item row with its level in the
/// hierarchy of parents.
pub struct ItemHierRow {
    pub level: i32,
    pub row: ItemRow,
}

/// The row for an item with the given fields.
pub fn item_row(
    ident: Ident,
    item_type: String,
    description: String,
    open: bool,
    ready: bool,
    parent: Option<String>,
    sort: String,
    classify: String,
    specials: SpecialKinds,
    targeted: bool,
) -> (r: ItemRow)
    ensures
        r.ident == ident,
        r.item_type == item_type,
        r.name == description,
        r.open == open,
        r.ready == ready,
        r.parent == parent,
        r.sort == sort,
        r.classify == classify,
        r.special == specials@ as i32,
        r.targeted == targeted,
{
    ItemRow {
        ident,
        item_type,
        name: description,
        open,
        ready,
        parent,
        sort,
        classify,
        special: specials.val() as i32,
        targeted,
    }
}

/// The list entry for a row: a link to the item, described by its name.
pub fn entry_from_row(row: ItemRow) -> (r: ItemListEntry)
    ensures
        r.link.ident == row.ident,
        r.descr == row.name,
        !r.selected,
        !r.special,
        r.level == 0,
        r.level_shift_before@.len() == 0,
        !r.is_parent,
{
    ItemListEntry { link: ItemLinkForSerde::new(row.ident), descr: row.name, ..ItemListEntry::default() }
}

/// The list entry for a row of the hierarchy: also at the row's level
/// (kept to its low eight bits, as a cast to `i8` does).
pub fn entry_from_hier_row(hrow: ItemHierRow) -> (r: ItemListEntry)
    ensures
        r.link.ident == hrow.row.ident,
        r.descr == hrow.row.name,
        r.level == hrow.level as i8,
        !r.selected,
        !r.special,
        r.level_shift_before@.len() == 0,
        !r.is_parent,
{
    let level = hrow.level as i8;
    let mut e = entry_from_row(hrow.row);
    e.level = level;
    e
}

/// The list of entries for the rows, in order.
pub fn list_from_rows(rows: Vec<ItemRow>) -> (r: ItemListEntryList)
    ensures
        r.entries@.len() == rows@.len(),
        forall|i: int|
            0 <= i < rows@.len() ==> (#[trigger] r.entries@[i]).link.ident == rows@[i].ident && r.entries@[i].descr
                == rows@[i].name && r.entries@[i].level == 0,
        r.final_adjust_level@.len() == 0,
{
    let ghost orig = rows@;
    let mut rest = rows;
    let total = rest.len();
    let mut entries: Vec<ItemListEntry> = Vec::new();
    let mut i: usize = 0;
    while rest.len() > 0
        invariant
            i + rest.len() == total,
            total == orig.len(),
            rest@ == orig.subrange(i as int, total as int),
            entries@.len() == i,
            forall|k: int|
                0 <= k < i ==> (#[trigger] entries@[k]).link.ident == orig[k].ident && entries@[k].descr
                    == orig[k].name && entries@[k].level == 0,
        decreases rest.len(),
    {
        let row = rest.remove(0);
        entries.push(entry_from_row(row));
        i = i + 1;
        proof {
            assert(rest@ =~= orig.subrange(i as int, total as int));
        }
    }
    ItemListEntryList::from_vec(entries)
}

/// The list of entries for the rows of the hierarchy, in order.
pub fn list_from_hier_rows(rows: Vec<ItemHierRow>) -> (r: ItemListEntryList)
    ensures
        r.entries@.len() == rows@.len(),
        forall|i: int|
            0 <= i < rows@.len() ==> (#[trigger] r.entries@[i]).link.ident == rows@[i].row.ident
                && r.entries@[i].descr == rows@[i].row.name && r.entries@[i].level == rows@[i].level as i8,
        r.final_adjust_level@.len() == 0,
{
    let ghost orig = rows@;
    let mut rest = rows;
    let total = rest.len();
    let mut entries: Vec<ItemListEntry> = Vec::new();
    let mut i: usize = 0;
    while rest.len() > 0
        invariant
            i + rest.len() == total,
            total == orig.len(),
            rest@ == orig.subrange(i as int, total as int),
            entries@.len() == i,
            forall|k: int|
                0 <= k < i ==> (#[trigger] entries@[k]).link.ident == orig[k].row.ident && entries@[k].descr
                    == orig[k].row.name && entries@[k].level == orig[k].level as i8,
        decreases rest.len(),
    {
        let hrow = rest.remove(0);
        entries.push(entry_from_hier_row(hrow));
        i = i + 1;
        proof {
            assert(rest@ =~= orig.subrange(i as int, total as int));
        }
    }
    ItemListEntryList::from_vec(entries)
}

/// The test behind the database function `has_special`: whether the bit
/// field `skk` holds the special kind numbered `sk` (bit `sk`).
pub fn has_special(skk: i32, sk: i32) -> (r: bool)
    requires
        0 <= sk < 8,
    ensures
        r == ((skk & (1i32 << sk)) != 0),
{
    let mask: i32 = 1i32 << (sk as u32);
    (skk & mask) != 0
}

} // verus!
