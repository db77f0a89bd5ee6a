//! The store: which items are known, which changes are waiting to be
//! written to the repository, how identifiers are made and how repository
//! paths and identifiers correspond.
use vstd::prelude::*;
use crate::convert::{decimal, decimal_string, digit_char, digits_value};
use crate::item::Ident;
use crate::repo_shared::{Change, EntryDescr, ObjectOperation};
use crate::shared::{FLResult, FanlingError, NullResult};
use crate::text::strings_view;

verus! {

/// Declares `regex::Regex` so that a compiled pattern can be held.
#[verifier::external_type_specification]
#[verifier::external_body]
pub struct ExRegex(regex::Regex);

/// Whether `regex::Regex::new` accepts the pattern.
pub uninterp spec fn valid_regex(src: Seq<char>) -> bool;

/// Calls `regex::Regex::new`: the compiled pattern, or the text of the
/// error when the pattern is refused. Whether it is refused is named by
/// `valid_regex`, a function of the pattern alone.
#[verifier::external_body]
fn compile_regex(src: &str) -> (r: Result<regex::Regex, String>)
    ensures
        r is Ok <==> valid_regex(src@),
{
    match regex::Regex::new(src) {
        Ok(re) => Ok(re),
        Err(e) => Err(e.to_string()),
    }
}

/// A compiled regular expression together with the text it was compiled
/// from. Only [`Pattern::new`] makes one, from the result of compiling that
/// very text, so the two always agree.
pub struct Pattern {
    re: regex::Regex,
    source: String,
}

impl Pattern {
    /// The text that the pattern was compiled from.
    pub closed spec fn source(&self) -> Seq<char> {
        self.source@
    }

    /// Compile `src`; the error text when the regex crate refuses it.
    pub fn new(src: &str) -> (r: Result<Pattern, String>)
        ensures
            r is Ok <==> valid_regex(src@),
            r matches Ok(p) ==> p.source() == src@,
    {
        match compile_regex(src) {
            Ok(re) => Ok(Pattern { re, source: src.to_owned() }),
            Err(e) => Err(e),
        }
    }
}

/// The pattern of runs of characters that may not stand in an identifier.
pub open spec fn unallowed_source() -> Seq<char> {
    "[^0-9a-zA-Z]+"@
}

/// The pattern of repository paths that hold an item.
pub open spec fn item_path_source() -> Seq<char> {
    "^([^.]*)[.](item|page)$"@
}

/// Whether `c` is an ASCII letter or digit.
pub open spec fn is_alnum(c: char) -> bool {
    let n = c as u32;
    (48 <= n && n <= 57) || (65 <= n && n <= 90) || (97 <= n && n <= 122)
}

/// `s` with each maximal run of characters other than ASCII letters and
/// digits replaced by `rep`.
pub open spec fn runs_replaced(s: Seq<char>, rep: Seq<char>) -> Seq<char>
    decreases s.len(),
{
    if s.len() == 0 {
        s
    } else {
        let prev = runs_replaced(s.drop_last(), rep);
        if is_alnum(s.last()) {
            prev.push(s.last())
        } else if s.len() >= 2 && !is_alnum(s[s.len() - 2]) {
            prev
        } else {
            prev + rep
        }
    }
}

/// Calls `regex::Regex::replace_all` with a pattern compiled from
/// `[^0-9a-zA-Z]+` and a replacement without `$` (so taken literally):
/// each maximal run of characters that are not ASCII letters or digits is
/// replaced by `rep`.
#[verifier::external_body]
fn replace_unallowed_runs(p: &Pattern, text: &str, rep: &str) -> (r: String)
    requires
        p.source() == unallowed_source(),
        !rep@.contains('$'),
    ensures
        r@ == runs_replaced(text@, rep@),
{
    p.re.replace_all(text, rep).into_owned()
}

/// The identifier that a repository path holds: the path must be a stem
/// without `.` followed by `.item` or `.page`.
pub open spec fn item_path_ident(path: Seq<char>) -> Option<Seq<char>> {
    let n = path.len();
    if n >= 5 && (path.subrange(n - 5, n as int) == ".item"@ || path.subrange(n - 5, n as int) == ".page"@)
        && !path.subrange(0, n - 5).contains('.') {
        Some(path.subrange(0, n - 5))
    } else {
        None
    }
}

/// Calls `regex::Regex::captures` with a pattern compiled from
/// `^([^.]*)[.](item|page)$` and takes group 1: `None` when the path does
/// not match, else the text of the group (which always takes part in a
/// match), that is the stem before `.item` or `.page`.
#[verifier::external_body]
fn item_path_captures(p: &Pattern, path: &str) -> (r: Option<Option<String>>)
    requires
        p.source() == item_path_source(),
    ensures
        match r {
            None => item_path_ident(path@) is None,
            Some(g) => g matches Some(s) && item_path_ident(path@) == Some(s@),
        },
{
    p.re.captures(path).map(|c| c.get(1).map(|m| m.as_str().to_string()))
}

/// The repository path of an item.
pub open spec fn path_of(ident: Seq<char>) -> Seq<char> {
    ident + ".page"@
}

/// The longest identifier stem kept from an item's description.
pub const MAX_STEM_LEN: usize = 20;

/// The identifier made from a description, a prefix and a number: the
/// description with each run of other characters than ASCII letters and
/// digits replaced by `-`, cut to at most 20 characters, then `-`, the
/// prefix and the number.
pub open spec fn identifier_for(pfx: Seq<char>, name: Seq<char>, num: nat) -> Seq<char> {
    let tidy = runs_replaced(name, "-"@);
    let stem = if tidy.len() < 20 { tidy } else { tidy.subrange(0, 20) };
    stem + "-"@ + pfx + decimal(num)
}

/// Maps identifiers to items, and holds the changes not yet written.
pub struct Store {
    known: Vec<Ident>,
    pending_changes: Vec<Change>,
    unallowed_chars: Pattern,
    next_ident_num: u64,
    item_path_re: Pattern,
}

impl Store {
    /// The store's invariant: no identifier is known twice and the two
    /// patterns are the ones the store was made with.
    pub closed spec fn wf(&self) -> bool {
        &&& strings_view(self.known@).no_duplicates()
        &&& self.unallowed_chars.source() == unallowed_source()
        &&& self.item_path_re.source() == item_path_source()
    }

    /// The identifiers of the known items.
    pub closed spec fn known_set(&self) -> Set<Seq<char>> {
        strings_view(self.known@).to_set()
    }

    /// The changes waiting to be written.
    pub closed spec fn pending(&self) -> Seq<Change> {
        self.pending_changes@
    }

    /// The number of the last identifier made.
    pub closed spec fn ident_num(&self) -> nat {
        self.next_ident_num as nat
    }

    /// A store with no known items and no pending changes. Fails when a
    /// pattern is refused by the regex crate.
    pub fn new() -> (r: FLResult<Store>)
        ensures
            r is Ok <==> valid_regex(unallowed_source()) && valid_regex(item_path_source()),
            r matches Ok(s) ==> {
                &&& s.wf()
                &&& s.known_set().is_empty()
                &&& s.pending().len() == 0
                &&& s.ident_num() == 0
            },
            r matches Err(e) ==> e is Regex,
    {
        let unallowed_chars = match Pattern::new("[^0-9a-zA-Z]+") {
            Ok(p) => p,
            Err(e) => {
                return Err(FanlingError::Regex(e));
            },
        };
        let item_path_re = match Pattern::new("^([^.]*)[.](item|page)$") {
            Ok(p) => p,
            Err(e) => {
                return Err(FanlingError::Regex(e));
            },
        };
        let s = Store { known: Vec::new(), pending_changes: Vec::new(), unallowed_chars, next_ident_num: 0, item_path_re };
        proof {
            assert(strings_view(s.known@) =~= Seq::<Seq<char>>::empty());
        }
        Ok(s)
    }

    /// The position of `ident` among the known identifiers.
    fn find_known(&self, ident: &str) -> (r: Option<usize>)
        ensures
            match r {
                Some(i) => i < self.known@.len() && self.known@[i as int]@ == ident@,
                None => !self.known_set().contains(ident@),
            },
    {
        let mut i: usize = 0;
        while i < self.known.len()
            invariant
                i <= self.known.len(),
                forall|j: int| 0 <= j < i ==> self.known@[j]@ != ident@,
            decreases self.known.len() - i,
        {
            if crate::text::str_eq(self.known[i].as_str(), ident) {
                return Some(i);
            }
            i = i + 1;
        }
        proof {
            if strings_view(self.known@).to_set().contains(ident@) {
                let k = choose|k: int| 0 <= k < strings_view(self.known@).len() && strings_view(self.known@)[k] == ident@;
                assert(self.known@[k]@ == ident@);
            }
        }
        None
    }

    /// Whether the item `ident` is known.
    pub fn is_known(&self, ident: &str) -> (r: bool)
        ensures
            r == self.known_set().contains(ident@),
    {
        match self.find_known(ident) {
            Some(i) => {
                proof {
                    assert(strings_view(self.known@)[i as int] == ident@);
                }
                true
            },
            None => false,
        }
    }

    /// Forget all known items.
    pub fn clear_known(&mut self)
        requires
            old(self).wf(),
        ensures
            final(self).wf(),
            final(self).known_set().is_empty(),
            final(self).pending() == old(self).pending(),
            final(self).ident_num() == old(self).ident_num(),
    {
        self.known.clear();
        proof {
            assert(strings_view(self.known@) =~= Seq::<Seq<char>>::empty());
        }
    }

    /// The path within the repository of the item `ident`.
    pub fn path_from_ident(&self, ident: &str) -> (r: String)
        ensures
            r@ == path_of(ident@),
    {
        let mut r = ident.to_owned();
        r.append(".page");
        r
    }

    /// The identifier of the item that the repository path holds, if it
    /// holds one.
    pub fn ident_from_path(&self, path: &str) -> (r: Option<Ident>)
        requires
            self.wf(),
        ensures
            match r {
                Some(i) => item_path_ident(path@) == Some(i@),
                None => item_path_ident(path@) is None,
            },
    {
        match item_path_captures(&self.item_path_re, path) {
            None => None,
            Some(g) => match g {
                Some(s) => Some(s),
                None => Some(String::new()),
            },
        }
    }

    /// Whether the repository path holds an item.
    pub fn path_has_ident(&self, path: &str) -> (r: bool)
        requires
            self.wf(),
        ensures
            r == item_path_ident(path@) is Some,
    {
        item_path_captures(&self.item_path_re, path).is_some()
    }

    /// The entries of a repository listing whose paths hold items, in order.
    pub fn list_all_items(&self, all: Vec<EntryDescr>) -> (r: Vec<EntryDescr>)
        requires
            self.wf(),
        ensures
            r@ == all@.filter(|e: EntryDescr| item_path_ident(e.path@) is Some),
    {
        let mut r: Vec<EntryDescr> = Vec::new();
        let ghost all_s = all@;
        let n = all.len();
        let mut rest = all;
        let mut i: usize = 0;
        while rest.len() > 0
            invariant
                self.wf(),
                all_s.len() <= usize::MAX,
                i + rest.len() == all_s.len(),
                rest@ =~= all_s.subrange(i as int, all_s.len() as int),
                r@ == all_s.subrange(0, i as int).filter(|e: EntryDescr| item_path_ident(e.path@) is Some),
            decreases rest.len(),
        {
            let e = rest.remove(0);
            proof {
                assert(e == all_s[i as int]);
                assert(all_s.subrange(0, i + 1).drop_last() =~= all_s.subrange(0, i as int));
                reveal(Seq::filter);
            }
            if self.path_has_ident(e.path.as_str()) {
                r.push(e);
            }
            i = i + 1;
        }
        proof {
            assert(all_s.subrange(0, i as int) =~= all_s);
        }
        r
    }

    /// Record that a new item `ident` with serialised form `blob` is to be
    /// added. Fails, changing nothing, when `ident` is already known.
    pub fn add_item(&mut self, ident: &str, blob: String) -> (r: NullResult)
        requires
            old(self).wf(),
        ensures
            final(self).wf(),
            final(self).ident_num() == old(self).ident_num(),
            r is Ok <==> !old(self).known_set().contains(ident@),
            r is Ok ==> {
                &&& final(self).known_set() == old(self).known_set().insert(ident@)
                &&& final(self).pending() == old(self).pending().push(Change {
                    op: ObjectOperation::Add(blob),
                    path: final(self).pending().last().path,
                    descr: final(self).pending().last().descr,
                })
                &&& final(self).pending().last().path@ == path_of(ident@)
                &&& final(self).pending().last().descr@ == "add "@ + ident@
            },
            r is Err ==> {
                &&& final(self).known_set() == old(self).known_set()
                &&& final(self).pending() == old(self).pending()
                &&& r matches Err(e) && e is FanlingError
            },
    {
        if self.is_known(ident) {
            let mut msg = "duplicate ident '".to_owned();
            msg.append(ident);
            msg.append("'");
            return Err(FanlingError::FanlingError(msg));
        }
        let ghost before = strings_view(self.known@);
        self.known.push(ident.to_owned());
        proof {
            assert(strings_view(self.known@) =~= before.push(ident@));
            assert(!before.contains(ident@));
            before.lemma_push_to_set_commute(ident@);
        }
        let mut descr = "add ".to_owned();
        descr.append(ident);
        let path = self.path_from_ident(ident);
        self.pending_changes.push(Change::new(ObjectOperation::Add(blob), path, descr));
        Ok(())
    }

    /// Record that the known item `ident` now has serialised form `blob`.
    /// Fails, changing nothing, when `ident` is not known.
    pub fn mark_item_modified(&mut self, ident: &str, blob: String) -> (r: NullResult)
        requires
            old(self).wf(),
        ensures
            final(self).wf(),
            final(self).ident_num() == old(self).ident_num(),
            final(self).known_set() == old(self).known_set(),
            r is Ok <==> old(self).known_set().contains(ident@),
            r is Ok ==> {
                &&& final(self).pending() == old(self).pending().push(Change {
                    op: ObjectOperation::Modify(blob),
                    path: final(self).pending().last().path,
                    descr: final(self).pending().last().descr,
                })
                &&& final(self).pending().last().path@ == path_of(ident@)
                &&& final(self).pending().last().descr@ == "modify "@ + ident@
            },
            r is Err ==> final(self).pending() == old(self).pending(),
    {
        if !self.is_known(ident) {
            let mut msg = "missing ident ".to_owned();
            msg.append(ident);
            return Err(FanlingError::FanlingError(msg));
        }
        let mut descr = "modify ".to_owned();
        descr.append(ident);
        let path = self.path_from_ident(ident);
        self.pending_changes.push(Change::new(ObjectOperation::Modify(blob), path, descr));
        Ok(())
    }

    /// Forget the item `ident` and record that it is to be deleted. Fails,
    /// changing nothing, when `ident` is not known.
    pub fn mark_item_deleted(&mut self, ident: &str) -> (r: NullResult)
        requires
            old(self).wf(),
        ensures
            final(self).wf(),
            final(self).ident_num() == old(self).ident_num(),
            r is Ok <==> old(self).known_set().contains(ident@),
            r is Ok ==> {
                &&& final(self).known_set() == old(self).known_set().remove(ident@)
                &&& final(self).pending().len() == old(self).pending().len() + 1
                &&& final(self).pending().drop_last() == old(self).pending()
                &&& final(self).pending().last().op == ObjectOperation::Delete
                &&& final(self).pending().last().path@ == path_of(ident@)
                &&& final(self).pending().last().descr@ == "delete "@ + ident@
            },
            r is Err ==> {
                &&& final(self).known_set() == old(self).known_set()
                &&& final(self).pending() == old(self).pending()
            },
    {
        match self.find_known(ident) {
            None => {
                let mut msg = "missing ident ".to_owned();
                msg.append(ident);
                Err(FanlingError::FanlingError(msg))
            },
            Some(i) => {
                let ghost before = strings_view(self.known@);
                let _ = self.known.remove(i);
                proof {
                    assert(strings_view(self.known@) =~= before.remove(i as int));
                    lemma_remove_distinct(before, i as int);
                }
                let mut descr = "delete ".to_owned();
                descr.append(ident);
                let path = self.path_from_ident(ident);
                let ghost pend = self.pending_changes@;
                self.pending_changes.push(Change::new(ObjectOperation::Delete, path, descr));
                proof {
                    assert(self.pending_changes@.drop_last() =~= pend);
                }
                Ok(())
            },
        }
    }

    /// Record that `ident` is known, as when an item is read from the
    /// repository; whether it was known already.
    pub fn make_known(&mut self, ident: &str) -> (r: bool)
        requires
            old(self).wf(),
        ensures
            final(self).wf(),
            r == old(self).known_set().contains(ident@),
            final(self).known_set() == old(self).known_set().insert(ident@),
            final(self).pending() == old(self).pending(),
            final(self).ident_num() == old(self).ident_num(),
    {
        if self.is_known(ident) {
            proof {
                assert(self.known_set().insert(ident@) =~= self.known_set());
            }
            true
        } else {
            let ghost before = strings_view(self.known@);
            self.known.push(ident.to_owned());
            proof {
                assert(strings_view(self.known@) =~= before.push(ident@));
                before.lemma_push_to_set_commute(ident@);
            }
            false
        }
    }

    /// Hand over the changes waiting to be written, leaving none.
    pub fn take_pending_changes(&mut self) -> (r: Vec<Change>)
        requires
            old(self).wf(),
        ensures
            final(self).wf(),
            r@ == old(self).pending(),
            final(self).pending().len() == 0,
            final(self).known_set() == old(self).known_set(),
            final(self).ident_num() == old(self).ident_num(),
    {
        let mut r: Vec<Change> = Vec::new();
        std::mem::swap(&mut r, &mut self.pending_changes);
        r
    }

    /// Set the number of the last identifier made.
    pub fn set_next_ident_num(&mut self, next_ident_num: i64)
        requires
            old(self).wf(),
            next_ident_num >= 0,
        ensures
            final(self).wf(),
            final(self).ident_num() == next_ident_num,
            final(self).known_set() == old(self).known_set(),
            final(self).pending() == old(self).pending(),
    {
        self.next_ident_num = next_ident_num as u64;
    }

    /// The number of the last identifier made.
    pub fn get_next_ident_num(&self) -> (r: i64)
        requires
            self.ident_num() <= i64::MAX,
        ensures
            r == self.ident_num(),
    {
        self.next_ident_num as i64
    }

    /// Make a new identifier from the prefix unique to this instance and
    /// the item's description, counting one more identifier made.
    pub fn make_identifier(&mut self, uniq_pfx: &str, name: &str) -> (r: Ident)
        requires
            old(self).wf(),
            old(self).ident_num() < u64::MAX,
        ensures
            final(self).wf(),
            final(self).ident_num() == old(self).ident_num() + 1,
            r@ == identifier_for(uniq_pfx@, name@, final(self).ident_num()),
            final(self).known_set() == old(self).known_set(),
            final(self).pending() == old(self).pending(),
    {
        proof {
            reveal_strlit("-");
        }
        let tidy = replace_unallowed_runs(&self.unallowed_chars, name, "-");
        let n = tidy.as_str().unicode_len();
        let mut r = if n < MAX_STEM_LEN {
            tidy
        } else {
            tidy.as_str().substring_char(0, MAX_STEM_LEN).to_owned()
        };
        self.next_ident_num = self.next_ident_num + 1;
        r.append("-");
        r.append(uniq_pfx);
        let num = decimal_string(self.next_ident_num);
        r.append(num.as_str());
        r
    }
}

/// Removing an element of a sequence without duplicates removes exactly
/// that element from its set of elements.
proof fn lemma_remove_distinct(s: Seq<Seq<char>>, i: int)
    requires
        s.no_duplicates(),
        0 <= i < s.len(),
    ensures
        s.remove(i).no_duplicates(),
        s.remove(i).to_set() == s.to_set().remove(s[i]),
{
    let t = s.remove(i);
    assert forall|a: int, b: int| 0 <= a < b < t.len() implies t[a] != t[b] by {
        let sa = if a < i { a } else { a + 1 };
        let sb = if b < i { b } else { b + 1 };
        assert(t[a] == s[sa] && t[b] == s[sb]);
    }
    assert forall|x: Seq<char>| t.to_set().contains(x) <==> s.to_set().remove(s[i]).contains(x) by {
        if t.to_set().contains(x) {
            let k = choose|k: int| 0 <= k < t.len() && t[k] == x;
            let sk = if k < i { k } else { k + 1 };
            assert(s[sk] == x);
        }
        if s.to_set().remove(s[i]).contains(x) {
            let k = choose|k: int| 0 <= k < s.len() && s[k] == x;
            assert(k != i);
            let tk = if k < i { k } else { k - 1 };
            assert(t[tk] == x);
        }
    }
    assert(t.to_set() =~= s.to_set().remove(s[i]));
}

/// The identifier of an item is recovered from its repository path,
/// provided it holds no `.`.
pub proof fn lemma_ident_path_round_trip(ident: Seq<char>)
    requires
        !ident.contains('.'),
    ensures
        item_path_ident(path_of(ident)) == Some(ident),
{
    reveal_strlit(".page");
    let p = path_of(ident);
    let n = p.len();
    assert(p.subrange(n - 5, n as int) =~= ".page"@);
    assert(p.subrange(0, n - 5) =~= ident);
}

/// Deleting an item just added leaves the known items as they were.
pub proof fn lemma_delete_undoes_add(known: Set<Seq<char>>, ident: Seq<char>)
    requires
        !known.contains(ident),
    ensures
        known.insert(ident).remove(ident) == known,
{
    assert(known.insert(ident).remove(ident) =~= known);
}


/// Every character of a tidied description is an ASCII letter or digit or `-`.
pub proof fn lemma_runs_replaced_chars(s: Seq<char>)
    ensures
        forall|i: int| 0 <= i < runs_replaced(s, "-"@).len() ==> is_alnum(#[trigger] runs_replaced(s, "-"@)[i])
            || runs_replaced(s, "-"@)[i] == '-',
    decreases s.len(),
{
    reveal_strlit("-");
    if s.len() > 0 {
        lemma_runs_replaced_chars(s.drop_last());
        let prev = runs_replaced(s.drop_last(), "-"@);
        let r = runs_replaced(s, "-"@);
        assert forall|i: int| 0 <= i < r.len() implies is_alnum(#[trigger] r[i]) || r[i] == '-' by {
            if i < prev.len() {
                assert(r[i] == prev[i]);
            }
        }
    }
}

/// The decimal digits of a number are digits.
pub proof fn lemma_decimal_digits(n: nat)
    ensures
        forall|i: int| 0 <= i < decimal(n).len() ==> is_alnum(#[trigger] decimal(n)[i]),
    decreases n,
{
    assert forall|d: nat| d < 10 implies is_alnum(#[trigger] digit_char(d)) by {
        assert('0' as u32 == 48 && '9' as u32 == 57);
    }
    if n >= 10 {
        lemma_decimal_digits(n / 10);
        let prev = decimal(n / 10);
        assert forall|i: int| 0 <= i < decimal(n).len() implies is_alnum(#[trigger] decimal(n)[i]) by {
            if i < prev.len() {
                assert(decimal(n)[i] == prev[i]);
            } else {
                assert(decimal(n)[i] == digit_char(n % 10));
            }
        }
    } else {
        assert(decimal(n)[0] == digit_char(n));
    }
}

/// An identifier made by the store from a prefix without `.` holds no
/// `.`, so it is recovered from the path where its item is stored.
pub proof fn lemma_made_identifier_round_trip(pfx: Seq<char>, name: Seq<char>, num: nat)
    requires
        !pfx.contains('.'),
    ensures
        item_path_ident(path_of(identifier_for(pfx, name, num))) == Some(identifier_for(pfx, name, num)),
{
    reveal_strlit("-");
    let tidy = runs_replaced(name, "-"@);
    let stem = if tidy.len() < 20 { tidy } else { tidy.subrange(0, 20) };
    let id = identifier_for(pfx, name, num);
    lemma_runs_replaced_chars(name);
    lemma_decimal_digits(num);
    assert(id == stem + "-"@ + pfx + decimal(num));
    assert forall|i: int| 0 <= i < id.len() implies id[i] != '.' by {
        if i < stem.len() {
            assert(stem[i] == tidy[i]);
        } else if i < stem.len() + 1 {
        } else if i < stem.len() + 1 + pfx.len() {
            assert(id[i] == pfx[i - stem.len() - 1]);
        } else {
            assert(id[i] == decimal(num)[i - stem.len() - 1 - pfx.len()]);
        }
    }
    lemma_ident_path_round_trip(id);
}


/// The decimal digits of a number denote that number.
pub proof fn lemma_decimal_value(n: nat)
    ensures
        digits_value(decimal(n)) == n,
        decimal(n).len() > 0,
    decreases n,
{
    assert forall|d: nat| d < 10 implies (#[trigger] digit_char(d)) as int - '0' as int == d by {
        assert('0' as int == 48 && '1' as int == 49 && '2' as int == 50 && '3' as int == 51 && '4' as int == 52);
        assert('5' as int == 53 && '6' as int == 54 && '7' as int == 55 && '8' as int == 56 && '9' as int == 57);
    }
    if n >= 10 {
        lemma_decimal_value(n / 10);
        let d = decimal(n);
        assert(d.drop_last() == decimal(n / 10));
        assert(d.last() == digit_char(n % 10));
        assert(digit_char((n % 10) as nat) as int - '0' as int == n % 10);
        assert(digits_value(d) == digits_value(d.drop_last()) * 10 + (d.last() as int - '0' as int));
        assert(n == (n / 10) * 10 + n % 10);
    } else {
        let d = decimal(n);
        assert(d.drop_last() =~= Seq::<char>::empty());
        assert(d.last() == digit_char(n));
        assert(digit_char(n) as int - '0' as int == n);
        assert(digits_value(d) == digits_value(d.drop_last()) * 10 + (d.last() as int - '0' as int));
    }
}

/// The number of characters at the end of `s` after its last `-` (all of
/// them when it has none).
pub open spec fn trailing(s: Seq<char>) -> nat
    decreases s.len(),
{
    if s.len() == 0 {
        0
    } else if s.last() == '-' {
        0
    } else {
        trailing(s.drop_last()) + 1
    }
}

/// What follows the last `-` of `x + y` lies in `y` when `y` holds a `-`.
proof fn lemma_trailing_with_dash(x: Seq<char>, y: Seq<char>)
    requires
        y.contains('-'),
    ensures
        trailing(x + y) == trailing(y),
    decreases y.len(),
{
    assert((x + y).last() == y.last());
    if y.last() != '-' {
        assert(y.drop_last().contains('-')) by {
            let k = choose|k: int| 0 <= k < y.len() && y[k] == '-';
            assert(k < y.len() - 1);
            assert(y.drop_last()[k] == '-');
        }
        lemma_trailing_with_dash(x, y.drop_last());
        assert((x + y).drop_last() =~= x + y.drop_last());
    }
}

/// Characters other than `-` added at the end all follow the last `-`.
proof fn lemma_trailing_without_dash(x: Seq<char>, y: Seq<char>)
    requires
        !y.contains('-'),
    ensures
        trailing(x + y) == trailing(x) + y.len(),
    decreases y.len(),
{
    if y.len() == 0 {
        assert(x + y =~= x);
    } else {
        assert(y.last() != '-') by {
            assert(y[y.len() - 1] == y.last());
        }
        assert(!y.drop_last().contains('-')) by {
            if y.drop_last().contains('-') {
                let k = choose|k: int| 0 <= k < y.drop_last().len() && y.drop_last()[k] == '-';
                assert(y[k] == '-');
            }
        }
        lemma_trailing_without_dash(x, y.drop_last());
        assert((x + y).drop_last() =~= x + y.drop_last());
        assert((x + y).last() == y.last());
    }
}

/// Identifiers made by a store from different numbers differ, whatever the
/// prefix and the descriptions: as the store counts one more identifier each
/// time it makes one, it never makes the same identifier twice.
pub proof fn lemma_identifiers_differ(pfx: Seq<char>, name1: Seq<char>, n1: nat, name2: Seq<char>, n2: nat)
    requires
        n1 != n2,
    ensures
        identifier_for(pfx, name1, n1) != identifier_for(pfx, name2, n2),
{
    reveal_strlit("-");
    let t1 = runs_replaced(name1, "-"@);
    let t2 = runs_replaced(name2, "-"@);
    let s1 = if t1.len() < 20 { t1 } else { t1.subrange(0, 20) };
    let s2 = if t2.len() < 20 { t2 } else { t2.subrange(0, 20) };
    let d1 = decimal(n1);
    let d2 = decimal(n2);
    let a = identifier_for(pfx, name1, n1);
    let b = identifier_for(pfx, name2, n2);
    let tail = "-"@ + pfx;
    assert(tail.contains('-')) by {
        assert(tail[0] == '-');
    }
    assert(a =~= s1 + (tail + d1));
    assert(b =~= s2 + (tail + d2));
    lemma_decimal_value(n1);
    lemma_decimal_value(n2);
    lemma_decimal_digits(n1);
    lemma_decimal_digits(n2);
    assert(!d1.contains('-')) by {
        if d1.contains('-') {
            let k = choose|k: int| 0 <= k < d1.len() && d1[k] == '-';
            assert(is_alnum(d1[k]));
        }
    }
    assert(!d2.contains('-')) by {
        if d2.contains('-') {
            let k = choose|k: int| 0 <= k < d2.len() && d2[k] == '-';
            assert(is_alnum(d2[k]));
        }
    }
    assert((tail + d1).contains('-')) by {
        assert((tail + d1)[0] == '-');
    }
    assert((tail + d2).contains('-')) by {
        assert((tail + d2)[0] == '-');
    }
    lemma_trailing_with_dash(s1, tail + d1);
    lemma_trailing_with_dash(s2, tail + d2);
    lemma_trailing_without_dash(tail, d1);
    lemma_trailing_without_dash(tail, d2);
    if a == b {
        assert(d1.len() == d2.len());
        assert(d1 =~= a.subrange(a.len() - d1.len(), a.len() as int));
        assert(d2 =~= b.subrange(b.len() - d2.len(), b.len() as int));
        assert(false);
    }
}

} // verus!
