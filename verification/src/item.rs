//! Items: their common (base) fields, their special kinds, and the lists
//! of items shown to the user.
use vstd::prelude::*;
use crate::shared::{FanlingError, NullResult};
use crate::convert::{parse_naive_millis, parsed_naive_millis};
use crate::text::{repeat_seq, repeat_str};

verus! {

/// An identifier (actually a string).
pub type Ident = String;

/// The different ways in which an item can be "special".
pub enum SpecialKind {
    /// it can be the parent of another item
    Parent,
    /// it can be the "context" of an item
    Context,
}

impl SpecialKind {
    /// The bit that stands for the kind in a set of special kinds.
    pub open spec fn mask(self) -> u8 {
        match self {
            SpecialKind::Parent => 1u8,
            SpecialKind::Context => 2u8,
        }
    }

    /// The set that holds this kind alone.
    pub fn as_bitmap(self) -> (r: SpecialKinds)
        ensures
            r@ == self.mask(),
    {
        let mut skk = SpecialKinds::default();
        skk.add(self);
        proof {
            let m = self.mask();
            assert(0u8 | m == m) by (bit_vector);
        }
        skk
    }
}

/// Whether the set of special kinds `v` holds the kind with bit `mask`.
pub open spec fn has_mask(v: u8, mask: u8) -> bool {
    v & mask != 0
}

/// A set of special kinds, held as a bit field indexed by [`SpecialKind`].
#[derive(PartialEq, Eq, Structural, Clone, Copy)]
pub struct SpecialKinds(u8);

impl View for SpecialKinds {
    type V = u8;

    closed spec fn view(&self) -> u8 {
        self.0
    }
}

impl Default for SpecialKinds {
    fn default() -> (r: Self)
        ensures
            r@ == 0u8,
    {
        SpecialKinds(0)
    }
}

impl SpecialKinds {
    /// The bits of the set.
    pub fn val(self) -> (r: u8)
        ensures
            r == self@,
    {
        self.0
    }

    /// Whether the set holds `sk`.
    pub fn has(self, sk: SpecialKind) -> (r: bool)
        ensures
            r == has_mask(self@, sk.mask()),
    {
        let m: u8 = match sk {
            SpecialKind::Parent => 1,
            SpecialKind::Context => 2,
        };
        self.0 & m != 0
    }

    /// The set with the given bits.
    pub fn new(skk: u8) -> (r: Self)
        ensures
            r@ == skk,
    {
        Self(skk)
    }

    /// The bits of the empty set.
    pub fn default_val() -> (r: u8)
        ensures
            r == 0,
    {
        0
    }

    /// Add `sk` to the set.
    pub fn add(&mut self, sk: SpecialKind)
        ensures
            final(self)@ == old(self)@ | sk.mask(),
    {
        let m: u8 = match sk {
            SpecialKind::Parent => 1,
            SpecialKind::Context => 2,
        };
        self.0 = self.0 | m;
    }

    /// A copy of the set.
    pub fn copy(&self) -> (r: Self)
        ensures
            r@ == self@,
    {
        SpecialKinds(self.0)
    }
}

/// After adding a kind to a set, the set holds that kind, and it holds
/// another kind exactly when it held it before.
pub proof fn lemma_add_special(v: u8, sk: SpecialKind, other: SpecialKind)
    ensures
        has_mask(v | sk.mask(), sk.mask()),
        sk != other ==> (has_mask(v | sk.mask(), other.mask()) == has_mask(v, other.mask())),
{
    let m = sk.mask();
    let o = other.mask();
    assert((v | m) & m != 0) by (bit_vector)
        requires
            m == 1u8 || m == 2u8,
    ;
    if sk != other {
        assert(((v | m) & o != 0) == (v & o != 0)) by (bit_vector)
            requires
                (m == 1u8 && o == 2u8) || (m == 2u8 && o == 1u8),
        ;
    }
}

/// The set made from one kind holds exactly that kind.
pub proof fn lemma_bitmap_holds_one(sk: SpecialKind, other: SpecialKind)
    ensures
        has_mask(sk.mask(), other.mask()) == (sk == other),
{
    let m = sk.mask();
    let o = other.mask();
    if sk == other {
        assert(m & m != 0) by (bit_vector)
            requires
                m == 1u8 || m == 2u8,
        ;
    } else {
        assert(m & o == 0) by (bit_vector)
            requires
                (m == 1u8 && o == 2u8) || (m == 2u8 && o == 1u8),
        ;
    }
}

/// The kinds of item.
#[derive(PartialEq, Eq, Structural, Clone, Copy)]
pub enum ItemKind {
    Simple,
    Task,
}

impl ItemKind {
    /// The name of the kind.
    pub open spec fn spec_name(self) -> Seq<char> {
        match self {
            ItemKind::Simple => "Simple"@,
            ItemKind::Task => "Task"@,
        }
    }

    /// The name of the kind (also the name of its item type).
    pub fn name(&self) -> (r: String)
        ensures
            r@ == self.spec_name(),
    {
        match self {
            ItemKind::Simple => "Simple".to_owned(),
            ItemKind::Task => "Task".to_owned(),
        }
    }
}

/// An item link in a form suitable for (de)serialisation: the identifier.
pub struct ItemLinkForSerde {
    /// the identifier as a string
    pub ident: String,
}

impl ItemLinkForSerde {
    /// The link to the item `ident`.
    pub fn new(ident: Ident) -> (r: Self)
        ensures
            r.ident == ident,
    {
        Self { ident }
    }
}

/// An entry in a list of items.
pub struct ItemListEntry {
    /// link to the item
    pub link: ItemLinkForSerde,
    /// description of the item
    pub descr: String,
    /// whether the item is selected (eg for HTML)
    pub selected: bool,
    /// special entry such as a null link
    pub special: bool,
    /// level in the hierarchy
    pub level: i8,
    /// shift in level before (HTML)
    pub level_shift_before: String,
    /// whether this is a parent (non-leaf) node (HTML)
    pub is_parent: bool,
}

impl Default for ItemListEntry {
    fn default() -> (r: Self)
        ensures
            r.link.ident@ == Seq::<char>::empty(),
            r.descr@ == Seq::<char>::empty(),
            !r.selected,
            !r.special,
            r.level == 0,
            r.level_shift_before@ == Seq::<char>::empty(),
            !r.is_parent,
    {
        Self {
            link: ItemLinkForSerde::new(String::new()),
            descr: String::new(),
            selected: false,
            special: false,
            level: 0,
            level_shift_before: String::new(),
            is_parent: false,
        }
    }
}

impl ItemListEntry {
    /// Make the entry "special".
    pub fn set_special(&mut self)
        ensures
            *final(self) == (ItemListEntry { special: true, ..*old(self) }),
    {
        self.special = true;
    }

    /// A "special" entry with the description `d` (such as "no parent").
    pub fn make_special(d: &str) -> (r: Self)
        ensures
            r.descr@ == d@,
            r.special,
            r.link.ident@ == Seq::<char>::empty(),
            !r.selected,
            r.level == 0,
            r.level_shift_before@ == Seq::<char>::empty(),
            !r.is_parent,
    {
        let mut r = Self::default();
        r.descr = d.to_owned();
        r.special = true;
        r
    }

    /// A copy of the entry.
    pub fn copy(&self) -> (r: Self)
        ensures
            r == *self,
    {
        ItemListEntry {
            link: ItemLinkForSerde { ident: self.link.ident.clone() },
            descr: self.descr.clone(),
            selected: self.selected,
            special: self.special,
            level: self.level,
            level_shift_before: self.level_shift_before.clone(),
            is_parent: self.is_parent,
        }
    }
}

/// The opening of a nested HTML list.
pub open spec fn open_list() -> Seq<char> {
    "<ul class=nested>"@
}

/// The closing of an HTML list.
pub open spec fn close_list() -> Seq<char> {
    "</ul>"@
}

/// The HTML that moves from a list entry at level `prev` to one at level `level`.
pub open spec fn shift_between(prev: i8, level: i8) -> Seq<char> {
    if level > prev {
        repeat_seq(open_list(), (level - prev) as nat)
    } else if level == prev {
        Seq::empty()
    } else {
        repeat_seq(close_list(), (prev - level) as nat)
    }
}

/// The level of the entry before entry `i` (0 before the first).
pub open spec fn level_before(entries: Seq<ItemListEntry>, i: int) -> i8 {
    if i == 0 { 0 } else { entries[i - 1].level }
}

/// The level of the entry after entry `i` (0 after the last).
pub open spec fn level_after(entries: Seq<ItemListEntry>, i: int) -> i8 {
    if i + 1 < entries.len() { entries[i + 1].level } else { 0 }
}

/// A selectable list of items.
pub struct ItemListEntryList {
    /// the entries
    pub entries: Vec<ItemListEntry>,
    /// HTML to go after the list to fix the level
    pub final_adjust_level: String,
}

impl ItemListEntryList {
    /// The list with the given entries.
    pub fn from_vec(ilev: Vec<ItemListEntry>) -> (r: Self)
        ensures
            r.entries == ilev,
            r.final_adjust_level@ == Seq::<char>::empty(),
    {
        Self { entries: ilev, final_adjust_level: String::new() }
    }

    /// Select the entries that link to `ident`, and unselect the others.
    pub fn select(&mut self, ident: Ident)
        ensures
            final(self).entries.len() == old(self).entries.len(),
            forall|i: int|
                0 <= i < old(self).entries.len() ==> #[trigger] final(self).entries@[i] == (ItemListEntry {
                    selected: old(self).entries@[i].link.ident@ == ident@,
                    ..old(self).entries@[i]
                }),
            final(self).final_adjust_level == old(self).final_adjust_level,
    {
        let mut i: usize = 0;
        while i < self.entries.len()
            invariant
                i <= self.entries.len(),
                self.entries.len() == old(self).entries.len(),
                forall|j: int|
                    0 <= j < i ==> #[trigger] self.entries@[j] == (ItemListEntry {
                        selected: old(self).entries@[j].link.ident@ == ident@,
                        ..old(self).entries@[j]
                    }),
                forall|j: int| i <= j < self.entries.len() ==> #[trigger] self.entries@[j] == old(self).entries@[j],
                self.final_adjust_level == old(self).final_adjust_level,
            decreases self.entries.len() - i,
        {
            let mut e = self.entries[i].copy();
            e.selected = e.link.ident == ident;
            self.entries.set(i, e);
            i = i + 1;
        }
    }

    /// Add an entry to the end of the list.
    pub fn add(&mut self, ile: ItemListEntry)
        ensures
            final(self).entries@ == old(self).entries@.push(ile),
            final(self).final_adjust_level == old(self).final_adjust_level,
    {
        self.entries.push(ile);
    }

    /// Add an entry to the start of the list.
    pub fn prepend(&mut self, ile: ItemListEntry)
        ensures
            final(self).entries@ == seq![ile] + old(self).entries@,
            final(self).final_adjust_level == old(self).final_adjust_level,
    {
        self.entries.insert(0, ile);
        proof {
            assert(self.entries@ =~= seq![ile] + old(self).entries@);
        }
    }

    /// Calculate the level changes for showing the list as nested HTML
    /// lists: each entry is a parent when the next entry is at a deeper
    /// level, and is preceded by the HTML that moves from the previous
    /// level to its own; the final adjustment closes the last entry's level.
    pub fn set_level_changes(&mut self)
        requires
            forall|i: int| 0 <= i < old(self).entries.len() ==> #[trigger] old(self).entries@[i].level >= 0,
        ensures
            final(self).entries.len() == old(self).entries.len(),
            forall|i: int|
                0 <= i < old(self).entries.len() ==> #[trigger] final(self).entries@[i] == (ItemListEntry {
                    is_parent: level_after(old(self).entries@, i) > old(self).entries@[i].level,
                    level_shift_before: final(self).entries@[i].level_shift_before,
                    ..old(self).entries@[i]
                }),
            forall|i: int|
                0 <= i < old(self).entries.len() ==> (#[trigger] final(self).entries@[i]).level_shift_before@
                    == shift_between(level_before(old(self).entries@, i), old(self).entries@[i].level),
            final(self).final_adjust_level@ == if old(self).entries.len() == 0 {
                old(self).final_adjust_level@
            } else {
                repeat_seq(close_list(), old(self).entries@.last().level as nat)
            },
    {
        let ghost orig = self.entries@;
        let n = self.entries.len();
        let mut prev_level: i8 = 0;
        let mut k: usize = n;
        while k > 0
            invariant
                k <= n,
                n == orig.len(),
                self.entries.len() == n,
                prev_level == level_after(orig, k - 1),
                forall|j: int| 0 <= j < n ==> (#[trigger] self.entries@[j]).level == orig[j].level,
                forall|j: int| 0 <= j < k ==> #[trigger] self.entries@[j] == orig[j],
                forall|j: int|
                    k <= j < n ==> #[trigger] self.entries@[j] == (ItemListEntry {
                        is_parent: level_after(orig, j) > orig[j].level,
                        ..orig[j]
                    }),
                self.final_adjust_level == old(self).final_adjust_level,
            decreases k,
        {
            k = k - 1;
            let mut e = self.entries[k].copy();
            e.is_parent = prev_level > e.level;
            prev_level = e.level;
            self.entries.set(k, e);
        }
        let mut prev_level: i8 = 0;
        let mut i: usize = 0;
        while i < n
            invariant
                i <= n,
                n == orig.len(),
                self.entries.len() == n,
                prev_level == level_before(orig, i as int),
                forall|j: int| 0 <= j < n ==> #[trigger] orig[j].level >= 0,
                forall|j: int|
                    0 <= j < n ==> #[trigger] self.entries@[j] == (ItemListEntry {
                        is_parent: level_after(orig, j) > orig[j].level,
                        level_shift_before: self.entries@[j].level_shift_before,
                        ..orig[j]
                    }),
                forall|j: int| i <= j < n ==> (#[trigger] self.entries@[j]).level_shift_before == orig[j].level_shift_before,
                forall|j: int|
                    0 <= j < i ==> (#[trigger] self.entries@[j]).level_shift_before@ == shift_between(
                        level_before(orig, j),
                        orig[j].level,
                    ),
                self.final_adjust_level@ == if i == 0 {
                    old(self).final_adjust_level@
                } else {
                    repeat_seq(close_list(), orig[i - 1].level as nat)
                },
            decreases n - i,
        {
            let mut e = self.entries[i].copy();
            let level = e.level;
            assert(level >= 0);
            e.level_shift_before = if level > prev_level {
                repeat_str("<ul class=nested>", (level - prev_level) as usize)
            } else if level == prev_level {
                String::new()
            } else {
                repeat_str("</ul>", (prev_level - level) as usize)
            };
            prev_level = level;
            self.final_adjust_level = repeat_str("</ul>", level as usize);
            self.entries.set(i, e);
            i = i + 1;
        }
        proof {
            reveal_strlit("<ul class=nested>");
            reveal_strlit("</ul>");
        }
    }

    /// Whether the list has any entries.
    pub fn has_entries(&self) -> (r: bool)
        ensures
            r == (self.entries.len() > 0),
    {
        self.entries.len() > 0
    }

    /// The number of entries.
    pub fn num_entries(&self) -> (r: usize)
        ensures
            r == self.entries.len(),
    {
        self.entries.len()
    }
}

/// How many nested lists the move from level `prev` to level `level` opens.
pub open spec fn opens_between(prev: i8, level: i8) -> int {
    if level > prev { level - prev } else { 0 }
}

/// How many lists the move from level `prev` to level `level` closes.
pub open spec fn closes_between(prev: i8, level: i8) -> int {
    if level < prev { prev - level } else { 0 }
}

/// The lists opened less the lists closed by the shifts before the first
/// `k` entries of a list.
pub open spec fn depth_before(entries: Seq<ItemListEntry>, k: int) -> int
    decreases k,
{
    if k <= 0 {
        0
    } else {
        depth_before(entries, k - 1) + opens_between(level_before(entries, k - 1), entries[k - 1].level)
            - closes_between(level_before(entries, k - 1), entries[k - 1].level)
    }
}

/// The HTML nesting that [`ItemListEntryList::set_level_changes`] writes is
/// balanced: each shift is that many openings of a nested list followed by
/// that many closings (one of the two counts being zero); before each entry
/// the lists opened so far outnumber those closed by the entry's level, so
/// no prefix closes more lists than it opened; and the final adjustment,
/// which closes as many lists as the last entry's level, closes all that
/// remain open.
pub proof fn lemma_level_changes_balanced(entries: Seq<ItemListEntry>)
    requires
        forall|j: int| 0 <= j < entries.len() ==> #[trigger] entries[j].level >= 0,
    ensures
        forall|i: int|
            0 <= i < entries.len() ==> shift_between(level_before(entries, i), #[trigger] entries[i].level) == repeat_seq(
                open_list(),
                opens_between(level_before(entries, i), entries[i].level) as nat,
            ) + repeat_seq(close_list(), closes_between(level_before(entries, i), entries[i].level) as nat),
        forall|k: int| 0 <= k <= entries.len() ==> #[trigger] depth_before(entries, k) == level_before(entries, k),
        forall|k: int| 0 <= k <= entries.len() ==> #[trigger] depth_before(entries, k) >= 0,
        entries.len() > 0 ==> depth_before(entries, entries.len() as int) - entries.last().level == 0,
{
    assert forall|i: int| 0 <= i < entries.len() implies shift_between(
        level_before(entries, i),
        #[trigger] entries[i].level,
    ) == repeat_seq(open_list(), opens_between(level_before(entries, i), entries[i].level) as nat) + repeat_seq(
        close_list(),
        closes_between(level_before(entries, i), entries[i].level) as nat,
    ) by {
        let prev = level_before(entries, i);
        let level = entries[i].level;
        if level > prev {
            assert(repeat_seq(close_list(), 0) =~= Seq::<char>::empty());
            assert(repeat_seq(open_list(), (level - prev) as nat) + Seq::<char>::empty() =~= repeat_seq(open_list(), (level - prev) as nat));
        } else if level == prev {
            assert(repeat_seq(close_list(), 0) =~= Seq::<char>::empty());
            assert(repeat_seq(open_list(), 0) =~= Seq::<char>::empty());
            assert(Seq::<char>::empty() + Seq::<char>::empty() =~= Seq::<char>::empty());
        } else {
            assert(repeat_seq(open_list(), 0) =~= Seq::<char>::empty());
            assert(Seq::<char>::empty() + repeat_seq(close_list(), (prev - level) as nat) =~= repeat_seq(close_list(), (prev - level) as nat));
        }
    }
    lemma_depth_is_level(entries, entries.len() as int);
    assert forall|k: int| 0 <= k <= entries.len() implies #[trigger] depth_before(entries, k) == level_before(entries, k) by {
        lemma_depth_is_level(entries, k);
    }
    assert forall|k: int| 0 <= k <= entries.len() implies #[trigger] depth_before(entries, k) >= 0 by {
        lemma_depth_is_level(entries, k);
        if k > 0 {
            assert(entries[k - 1].level >= 0);
        }
    }
}

/// The nested lists opened by the shifts before the first `k` entries.
pub open spec fn opens_before(entries: Seq<ItemListEntry>, k: int) -> int
    decreases k,
{
    if k <= 0 {
        0
    } else {
        opens_before(entries, k - 1) + opens_between(level_before(entries, k - 1), entries[k - 1].level)
    }
}

/// The lists closed by the shifts before the first `k` entries.
pub open spec fn closes_before(entries: Seq<ItemListEntry>, k: int) -> int
    decreases k,
{
    if k <= 0 {
        0
    } else {
        closes_before(entries, k - 1) + closes_between(level_before(entries, k - 1), entries[k - 1].level)
    }
}

/// The markup that [`ItemListEntryList::set_level_changes`] writes for a
/// list (`after`, made from the entries `before`) is balanced: each
/// entry's shift is a run of openings `<ul class=nested>` followed by a run
/// of closings `</ul>` (one of them empty); up to each entry the closings
/// never outnumber the openings, the difference being the previous entry's
/// level; and with the final adjustment, a run of as many closings as the
/// last entry's level, the openings and closings of the whole list are
/// equal in number.
pub proof fn lemma_list_nesting_balanced(before: Seq<ItemListEntry>, after: ItemListEntryList)
    requires
        forall|j: int| 0 <= j < before.len() ==> #[trigger] before[j].level >= 0,
        before.len() > 0,
        after.entries@.len() == before.len(),
        forall|i: int|
            0 <= i < before.len() ==> (#[trigger] after.entries@[i]).level_shift_before@ == shift_between(
                level_before(before, i),
                before[i].level,
            ),
        after.final_adjust_level@ == repeat_seq(close_list(), before.last().level as nat),
    ensures
        forall|i: int|
            0 <= i < before.len() ==> (#[trigger] after.entries@[i]).level_shift_before@ == repeat_seq(
                open_list(),
                opens_between(level_before(before, i), before[i].level) as nat,
            ) + repeat_seq(close_list(), closes_between(level_before(before, i), before[i].level) as nat),
        forall|k: int|
            0 <= k <= before.len() ==> #[trigger] closes_before(before, k) <= opens_before(before, k)
                && opens_before(before, k) - closes_before(before, k) == level_before(before, k),
        opens_before(before, before.len() as int) == closes_before(before, before.len() as int) + before.last().level,
{
    lemma_level_changes_balanced(before);
    assert forall|i: int| 0 <= i < before.len() implies (#[trigger] after.entries@[i]).level_shift_before@
        == repeat_seq(open_list(), opens_between(level_before(before, i), before[i].level) as nat) + repeat_seq(
        close_list(),
        closes_between(level_before(before, i), before[i].level) as nat,
    ) by {
        assert(shift_between(level_before(before, i), before[i].level) == repeat_seq(
            open_list(),
            opens_between(level_before(before, i), before[i].level) as nat,
        ) + repeat_seq(close_list(), closes_between(level_before(before, i), before[i].level) as nat));
    }
    assert forall|k: int| 0 <= k <= before.len() implies #[trigger] closes_before(before, k) <= opens_before(before, k)
        && opens_before(before, k) - closes_before(before, k) == level_before(before, k) by {
        lemma_depth_splits(before, k);
        assert(depth_before(before, k) == level_before(before, k));
        assert(depth_before(before, k) >= 0);
    }
    lemma_depth_splits(before, before.len() as int);
    assert(depth_before(before, before.len() as int) == level_before(before, before.len() as int));
}

/// The depth before entry `k` is the openings less the closings before it.
proof fn lemma_depth_splits(entries: Seq<ItemListEntry>, k: int)
    requires
        0 <= k <= entries.len(),
    ensures
        depth_before(entries, k) == opens_before(entries, k) - closes_before(entries, k),
    decreases k,
{
    if k > 0 {
        lemma_depth_splits(entries, k - 1);
    }
}

/// The lists left open before entry `k` number its predecessor's level.
proof fn lemma_depth_is_level(entries: Seq<ItemListEntry>, k: int)
    requires
        0 <= k <= entries.len(),
    ensures
        depth_before(entries, k) == level_before(entries, k),
    decreases k,
{
    if k > 0 {
        lemma_depth_is_level(entries, k - 1);
    }
}

/// Whether an identifier may be used for an item: it is not empty and does
/// not start with `-` or `?`.
pub open spec fn valid_ident(ident: Seq<char>) -> bool {
    ident.len() > 0 && ident[0] != '-' && ident[0] != '?'
}

/// Attributes of an item that are the same for all kinds of item.
pub struct ItemBase {
    /// the identifier
    pub ident: Ident,
    /// the kind of the item (which selects its item type)
    pub item_kind: ItemKind,
    /// the identifier of the parent, if any
    pub parent: Option<Ident>,
    /// sort key
    pub sort: String,
    /// a classification for the item, or "normal"
    pub classify: String,
    /// the special kinds of the item
    pub special: SpecialKinds,
    /// whether the item is targeted for searching (not saved to the repo)
    pub targeted: bool,
    /// when the item was created (milliseconds since the epoch)
    pub when_created: i64,
    /// when the item was last modified (milliseconds since the epoch)
    pub when_modified: i64,
}

/// All the fields of an item base, in a form for (de)serialisation.
pub struct ItemBaseForSerde {
    /// the identifier
    pub ident: Ident,
    /// the type name
    pub type_ident: String,
    /// the identifier of the parent, if any
    pub parent: Option<String>,
    /// whether the item can be a parent
    pub can_be_parent: bool,
    /// whether the item can be a context
    pub can_be_context: bool,
    /// sort key
    pub sort: String,
    /// the classification
    pub classify: String,
    /// whether the item is targeted (not serialised)
    pub targeted: bool,
    /// when the item was created (milliseconds since the epoch)
    pub when_created: i64,
    /// when the item was most recently modified (milliseconds since the epoch)
    pub when_modified: i64,
    /// do not use
    pub closed: bool,
}

/// The view of an optional string.
pub open spec fn opt_seq(o: Option<String>) -> Option<Seq<char>> {
    match o {
        Some(s) => Some(s@),
        None => None,
    }
}

/// The parent that a serialised parent field denotes: none when it is
/// absent or empty.
pub open spec fn parent_from_serde(p: Option<String>) -> Option<Seq<char>> {
    match p {
        Some(s) => if s@.len() == 0 { None } else { Some(s@) },
        None => None,
    }
}

/// The special kinds given by the two flags.
pub open spec fn specials_from_flags(can_be_parent: bool, can_be_context: bool) -> u8 {
    (if can_be_parent { 1u8 } else { 0u8 }) | (if can_be_context { 2u8 } else { 0u8 })
}

/// The special kinds given by two flags: the parent kind exactly when the
/// first is set, the context kind exactly when the second is; built up by
/// adding the kinds one after the other to the empty set.
pub proof fn lemma_specials_from_flags(p: bool, c: bool)
    ensures
        has_mask(specials_from_flags(p, c), SpecialKind::Parent.mask()) == p,
        has_mask(specials_from_flags(p, c), SpecialKind::Context.mask()) == c,
        specials_from_flags(p, c) == (if c { (if p { 0u8 | 1u8 } else { 0u8 }) | 2u8 } else if p { 0u8 | 1u8 } else { 0u8 }),
{
    assert(0u8 | 0u8 == 0u8 && 1u8 | 0u8 == 1u8 && 0u8 | 2u8 == 2u8 && 1u8 | 2u8 == 3u8) by (bit_vector);
    assert(0u8 | 1u8 == 1u8 && (0u8 | 1u8) | 2u8 == 3u8) by (bit_vector);
    assert(0u8 & 1u8 == 0u8 && 1u8 & 1u8 == 1u8 && 2u8 & 1u8 == 0u8 && 3u8 & 1u8 == 1u8) by (bit_vector);
    assert(0u8 & 2u8 == 0u8 && 1u8 & 2u8 == 0u8 && 2u8 & 2u8 == 2u8 && 3u8 & 2u8 == 2u8) by (bit_vector);
}

impl ItemBase {
    /// The base of a new item of kind `item_kind`, created at `now`: its
    /// identifier is "??", it has no parent, no sort key, the
    /// classification "normal" and no special kinds.
    pub fn new(item_kind: ItemKind, now: i64) -> (r: Self)
        ensures
            r.ident@ == "??"@,
            r.item_kind == item_kind,
            r.parent.is_none(),
            r.sort@ == Seq::<char>::empty(),
            r.classify@ == "normal"@,
            r.special@ == 0u8,
            !r.targeted,
            r.when_created == now,
            r.when_modified == now,
    {
        Self {
            ident: "??".to_owned(),
            item_kind,
            parent: None,
            sort: String::new(),
            classify: "normal".to_owned(),
            special: SpecialKinds(0),
            targeted: false,
            when_created: now,
            when_modified: now,
        }
    }

    /// The identifier.
    pub fn get_ident(&self) -> (r: Ident)
        ensures
            r@ == self.ident@,
    {
        self.ident.clone()
    }

    /// The classification.
    pub fn get_classify(&self) -> (r: String)
        ensures
            r@ == self.classify@,
    {
        self.classify.clone()
    }

    /// The special kinds.
    pub fn get_specials(&self) -> (r: SpecialKinds)
        ensures
            r@ == self.special@,
    {
        self.special.copy()
    }

    /// Whether the item can be a parent.
    pub fn can_be_parent(&self) -> (r: bool)
        ensures
            r == has_mask(self.special@, SpecialKind::Parent.mask()),
    {
        self.special.copy().has(SpecialKind::Parent)
    }

    /// Whether the item can be a context.
    pub fn can_be_context(&self) -> (r: bool)
        ensures
            r == has_mask(self.special@, SpecialKind::Context.mask()),
    {
        self.special.copy().has(SpecialKind::Context)
    }

    /// Whether the item has the special kind `sk`.
    pub fn get_special(&self, sk: SpecialKind) -> (r: bool)
        ensures
            r == has_mask(self.special@, sk.mask()),
    {
        self.special.copy().has(sk)
    }

    /// Whether the item is targeted.
    pub fn get_targeted(&self) -> (r: bool)
        ensures
            r == self.targeted,
    {
        self.targeted
    }

    /// The sort key.
    pub fn get_sort(&self) -> (r: String)
        ensures
            r@ == self.sort@,
    {
        self.sort.clone()
    }

    /// Whether the item has a parent.
    pub fn has_parent(&self) -> (r: bool)
        ensures
            r == self.parent.is_some(),
    {
        self.parent.is_some()
    }

    /// Set the parent.
    pub fn set_parent(&mut self, parent: Option<Ident>)
        ensures
            *final(self) == (ItemBase { parent, ..*old(self) }),
    {
        self.parent = parent;
    }

    /// Set the base fields from their serialised form: the identifier (when
    /// one is given), the parent (none when absent or empty), the sort key,
    /// the classification and the special kinds; `targeted` and the times are
    /// not copied. It is an error when the item would have no identifier.
    pub fn set_from_serde(&mut self, base: &ItemBaseForSerde) -> (r: NullResult)
        requires
            base.ident@.len() > 0 ==> valid_ident(base.ident@),
            base.ident@.len() == 0 && old(self).ident@.len() > 0 ==> valid_ident(old(self).ident@),
        ensures
            r is Err <==> (base.ident@.len() == 0 && old(self).ident@.len() == 0),
            r is Err ==> *final(self) == *old(self),
            r matches Err(e) ==> e matches FanlingError::FanlingError(m) && m@ == "ident should not be empty"@,
            r is Ok ==> {
                &&& final(self).ident@ == (if base.ident@.len() > 0 { base.ident@ } else { old(self).ident@ })
                &&& opt_seq(final(self).parent) == parent_from_serde(base.parent)
                &&& final(self).sort@ == base.sort@
                &&& final(self).classify@ == base.classify@
                &&& final(self).special@ == specials_from_flags(base.can_be_parent, base.can_be_context)
                &&& final(self).item_kind == old(self).item_kind
                &&& final(self).targeted == old(self).targeted
                &&& final(self).when_created == old(self).when_created
                &&& final(self).when_modified == old(self).when_modified
            },
    {
        let parent = match &base.parent {
            None => None,
            Some(id) => {
                if id.as_str().is_empty() {
                    None
                } else {
                    Some(id.clone())
                }
            },
        };
        if base.ident.as_str().is_empty() && self.ident.as_str().is_empty() {
            return Err(FanlingError::new("ident should not be empty"));
        }
        if !base.ident.as_str().is_empty() {
            self.ident = base.ident.clone();
        }
        self.parent = parent;
        self.sort = base.sort.clone();
        self.classify = base.classify.clone();
        let mut special = SpecialKinds::new(0);
        if base.can_be_parent {
            special.add(SpecialKind::Parent);
        }
        if base.can_be_context {
            special.add(SpecialKind::Context);
        }
        self.special = special;
        proof {
            lemma_specials_from_flags(base.can_be_parent, base.can_be_context);
        }
        Ok(())
    }

    /// Copy everything but the identifier from another base.
    pub fn clone_from(&mut self, other: &Self)
        ensures
            final(self).ident == old(self).ident,
            final(self).item_kind == other.item_kind,
            final(self).parent == other.parent,
            final(self).sort == other.sort,
            final(self).classify == other.classify,
            final(self).special@ == other.special@,
            final(self).targeted == other.targeted,
            final(self).when_created == other.when_created,
            final(self).when_modified == other.when_modified,
    {
        self.item_kind = other.item_kind;
        self.parent = match &other.parent {
            Some(p) => Some(p.clone()),
            None => None,
        };
        self.sort = other.sort.clone();
        self.classify = other.classify.clone();
        self.special = other.special.copy();
        self.targeted = other.targeted;
        self.when_created = other.when_created;
        self.when_modified = other.when_modified;
    }
}

impl ItemBaseForSerde {
    /// The default classification: "normal".
    pub fn default_classify() -> (r: String)
        ensures
            r@ == "normal"@,
    {
        "normal".to_owned()
    }

    /// Whether the bits are those of no special kinds.
    pub fn is_default_special_val(skk: &u8) -> (r: bool)
        ensures
            r == (*skk == 0),
    {
        *skk == 0
    }

    /// Whether the classification is "normal".
    pub fn is_normal(s: &str) -> (r: bool)
        ensures
            r == (s@ == "normal"@),
    {
        let a = s.to_owned();
        let b = "normal".to_owned();
        a == b
    }

    /// The value false.
    pub fn say_false() -> (r: bool)
        ensures
            !r,
    {
        false
    }

    /// The default serialised base at time `now`: identifier and type "??",
    /// no parent, not special, no sort key, classification "normal".
    pub fn default_at(now: i64) -> (r: Self)
        ensures
            r.ident@ == "??"@,
            r.type_ident@ == "??"@,
            r.parent.is_none(),
            !r.can_be_parent,
            !r.can_be_context,
            r.sort@ == Seq::<char>::empty(),
            r.classify@ == "normal"@,
            !r.targeted,
            r.when_created == now,
            r.when_modified == now,
            !r.closed,
    {
        Self {
            ident: "??".to_owned(),
            type_ident: "??".to_owned(),
            parent: None,
            can_be_parent: false,
            can_be_context: false,
            sort: String::new(),
            classify: "normal".to_owned(),
            targeted: false,
            when_created: now,
            when_modified: now,
            closed: false,
        }
    }

    /// The serialised form of a base, modified at time `now`.
    pub fn from_base(ib: &ItemBase, now: i64) -> (r: Self)
        ensures
            r.ident@ == ib.ident@,
            r.type_ident@ == ib.item_kind.spec_name(),
            opt_seq(r.parent) == opt_seq(ib.parent),
            r.can_be_parent == has_mask(ib.special@, SpecialKind::Parent.mask()),
            r.can_be_context == has_mask(ib.special@, SpecialKind::Context.mask()),
            r.sort@ == ib.sort@,
            r.classify@ == ib.classify@,
            r.targeted == ib.targeted,
            r.when_created == ib.when_created,
            r.when_modified == now,
            !r.closed,
    {
        Self {
            ident: ib.ident.clone(),
            type_ident: ib.item_kind.name(),
            parent: match &ib.parent {
                Some(p) => Some(p.clone()),
                None => None,
            },
            can_be_parent: ib.special.copy().has(SpecialKind::Parent),
            can_be_context: ib.special.copy().has(SpecialKind::Context),
            sort: ib.sort.clone(),
            classify: ib.classify.clone(),
            targeted: ib.targeted,
            when_created: ib.when_created,
            when_modified: now,
            closed: false,
        }
    }
}

/// Template data for modifying the base fields.
pub struct NewBaseTemplate {
    pub next_op: String,
    pub next_op_name: String,
    pub has_ident: bool,
    pub ident: String,
    pub parent: ItemListEntryList,
    pub can_be_parent: bool,
    pub sort: String,
    pub can_be_context: bool,
}

impl NewBaseTemplate {
    /// The template data for editing `base` (an update when
    /// `is_for_update`, otherwise a creation), offering the parents `parents`.
    pub fn from_base(base: &ItemBase, is_for_update: bool, parents: ItemListEntryList) -> (r: Self)
        ensures
            r.next_op@ == (if is_for_update { "Update"@ } else { "Create"@ }),
            r.next_op_name@ == r.next_op@,
            r.has_ident == is_for_update,
            r.ident@ == (if is_for_update { base.ident@ } else { Seq::<char>::empty() }),
            r.parent == parents,
            r.can_be_parent == has_mask(base.special@, SpecialKind::Parent.mask()),
            r.sort@ == base.sort@,
            r.can_be_context == has_mask(base.special@, SpecialKind::Context.mask()),
    {
        let op_name = if is_for_update { "Update" } else { "Create" };
        let ident = if is_for_update { base.get_ident() } else { String::new() };
        NewBaseTemplate {
            next_op: op_name.to_owned(),
            next_op_name: op_name.to_owned(),
            has_ident: is_for_update,
            ident,
            parent: parents,
            can_be_parent: base.can_be_parent(),
            sort: base.get_sort(),
            can_be_context: base.can_be_context(),
        }
    }
}

/// Template data for showing the base fields.
pub struct ShowBaseTemplate {
    pub ident: String,
    pub parent: ItemListEntry,
    pub can_be_parent: bool,
    pub sort: String,
    pub children: ItemListEntryList,
    pub has_children: bool,
    pub can_be_context: bool,
}

impl ShowBaseTemplate {
    /// The template data for showing `base` with its parent entry and its children.
    pub fn from_base(base: &ItemBase, parent: ItemListEntry, children: ItemListEntryList) -> (r: Self)
        ensures
            r.ident@ == base.ident@,
            r.parent == parent,
            r.can_be_parent == has_mask(base.special@, SpecialKind::Parent.mask()),
            r.sort@ == base.sort@,
            r.has_children == (children.entries.len() > 0),
            r.children == children,
            r.can_be_context == has_mask(base.special@, SpecialKind::Context.mask()),
    {
        let has_children = children.entries.len() > 0;
        ShowBaseTemplate {
            ident: base.get_ident(),
            parent,
            can_be_parent: base.can_be_parent(),
            sort: base.get_sort(),
            children,
            has_children,
            can_be_context: base.can_be_context(),
        }
    }
}


/// The formats in which a stored item's times are read, tried in order.
pub open spec fn item_time_formats() -> Seq<Seq<char>> {
    seq![
        "%Y-%m-%d %H:%M:%S"@,
        "%Y-%m-%dT%H:%M:%S%.fZ"@,
        "%Y-%m-%dT%H:%M:%S%.f%:z"@,
        "%Y-%m-%dT%H:%M:%S%.f"@,
        "%Y-%m-%dT%H:%M:%S%Z"@,
    ]
}

/// The time that a stored time text denotes in the first of `formats` in
/// which it can be read, if any.
pub open spec fn first_time(text: Seq<char>, formats: Seq<Seq<char>>) -> Option<i64>
    decreases formats.len(),
{
    if formats.len() == 0 {
        None
    } else {
        match parsed_naive_millis(text, formats[0]) {
            Some(t) => Some(t),
            None => first_time(text, formats.drop_first()),
        }
    }
}

impl ItemBaseForSerde {
    /// Read a stored time (creation or modification), trying each of the
    /// item time formats in turn: the first that reads it gives the time;
    /// `None` when none does.
    pub fn parse_time(text: &str) -> (r: Option<i64>)
        ensures
            r == first_time(text@, item_time_formats()),
    {
        let formats = ["%Y-%m-%d %H:%M:%S", "%Y-%m-%dT%H:%M:%S%.fZ", "%Y-%m-%dT%H:%M:%S%.f%:z", "%Y-%m-%dT%H:%M:%S%.f", "%Y-%m-%dT%H:%M:%S%Z"];
        let ghost fs = item_time_formats();
        assert(formats@.map_values(|f: &str| f@) =~= fs);
        assert(fs.subrange(0, 5) =~= fs);
        let mut i: usize = 0;
        while i < 5
            invariant
                i <= 5,
                formats@.len() == 5,
                formats@.map_values(|f: &str| f@) == fs,
                fs == item_time_formats(),
                fs.len() == 5,
                first_time(text@, fs) == first_time(text@, fs.subrange(i as int, 5)),
            decreases 5 - i,
        {
            let fmt = formats[i];
            proof {
                assert(fs[i as int] == fmt@);
                assert(fs.subrange(i as int, 5)[0] == fmt@);
                assert(fs.subrange(i as int, 5).drop_first() =~= fs.subrange(i + 1, 5));
            }
            match parse_naive_millis(text, fmt) {
                Some(t) => {
                    assert(first_time(text@, fs.subrange(i as int, 5)) == Some(t));
                    return Some(t);
                },
                None => {},
            }
            i = i + 1;
        }
        None
    }
}

} // verus!
