//! The category table of a podcast: category keys with their names, each key once.

use crate::text::{decimal, decimal_text, lemma_decimal_injective};
use vstd::prelude::*;

verus! {

/// A category table as a list of (key, name) pairs.
pub type CategoryList = Seq<(Seq<char>, Seq<char>)>;

/// No key stands at two places of the list.
pub open spec fn keys_distinct(list: CategoryList) -> bool {
    forall|i: int, j: int|
        0 <= i < list.len() && 0 <= j < list.len() && i != j ==> #[trigger] list[i].0
            != #[trigger] list[j].0
}

/// The first place at or after `from` that holds `key`, or the list's length.
pub open spec fn position_from(list: CategoryList, key: Seq<char>, from: int) -> int
    decreases list.len() - from,
{
    if from < 0 || from >= list.len() {
        list.len() as int
    } else if list[from].0 == key {
        from
    } else {
        position_from(list, key, from + 1)
    }
}

/// The first place that holds `key`, or the list's length where no place does.
pub open spec fn position(list: CategoryList, key: Seq<char>) -> int {
    position_from(list, key, 0)
}

/// The name that the list gives for `key`.
pub open spec fn lookup(list: CategoryList, key: Seq<char>) -> Option<Seq<char>> {
    if position(list, key) < list.len() {
        Some(list[position(list, key)].1)
    } else {
        None
    }
}

/// The list after `key` has been given `name`: the pair replaces the one that held
/// the key, at its place, or goes to the end.
pub open spec fn upsert(list: CategoryList, key: Seq<char>, name: Seq<char>) -> CategoryList {
    if position(list, key) < list.len() {
        list.update(position(list, key), (key, name))
    } else {
        list.push((key, name))
    }
}

/// The list that numbers `names` by position: the key of a name is the decimal
/// numeral of its index.
pub open spec fn numbered(names: Seq<Seq<char>>) -> CategoryList {
    Seq::new(names.len(), |i: int| (decimal(i as nat), names[i]))
}

/// Every pair of `a` is found in `b` under the same key.
pub open spec fn included(a: CategoryList, b: CategoryList) -> bool {
    forall|i: int| 0 <= i < a.len() ==> lookup(b, #[trigger] a[i].0) == Some(a[i].1)
}

/// The two lists give the same names for the same keys, in whatever order.
pub open spec fn same_mapping(a: CategoryList, b: CategoryList) -> bool {
    included(a, b) && included(b, a)
}

/// The mapping that a list stands for: each key to the name that the list gives it.
pub open spec fn as_map(list: CategoryList) -> Map<Seq<char>, Seq<char>> {
    Map::new(
        |key: Seq<char>| lookup(list, key) is Some,
        |key: Seq<char>| lookup(list, key)->0,
    )
}

/// `position_from` stays within the list and finds the key where it says so.
pub proof fn lemma_position_from(list: CategoryList, key: Seq<char>, from: int)
    requires
        0 <= from <= list.len(),
    ensures
        from <= position_from(list, key, from) <= list.len(),
        position_from(list, key, from) < list.len() ==> list[position_from(list, key, from)].0
            == key,
        forall|k: int| from <= k < position_from(list, key, from) ==> (#[trigger] list[k]).0 != key,
    decreases list.len() - from,
{
    if from < list.len() && list[from].0 != key {
        lemma_position_from(list, key, from + 1);
    }
}

/// A list without repeated keys gives each of its pairs back under its key.
pub proof fn lemma_lookup_own_pair(list: CategoryList, i: int)
    requires
        keys_distinct(list),
        0 <= i < list.len(),
    ensures
        position(list, list[i].0) == i,
        lookup(list, list[i].0) == Some(list[i].1),
{
    lemma_position_from(list, list[i].0, 0);
}

/// Lists without repeated keys are the same mapping exactly when they stand for the
/// same map, whatever the order of their pairs.
pub proof fn lemma_same_mapping(a: CategoryList, b: CategoryList)
    requires
        keys_distinct(a),
        keys_distinct(b),
    ensures
        same_mapping(a, b) <==> as_map(a) == as_map(b),
{
    if same_mapping(a, b) {
        assert forall|key: Seq<char>| lookup(a, key) == lookup(b, key) by {
            lemma_position_from(a, key, 0);
            lemma_position_from(b, key, 0);
        }
        assert(as_map(a) =~= as_map(b));
    }
    if as_map(a) == as_map(b) {
        assert forall|key: Seq<char>| lookup(a, key) == lookup(b, key) by {
            assert(as_map(a).dom().contains(key) == as_map(b).dom().contains(key));
            assert(as_map(a).dom().contains(key) ==> as_map(a)[key] == as_map(b)[key]);
        }
        assert forall|i: int| 0 <= i < a.len() implies lookup(b, #[trigger] a[i].0) == Some(
            a[i].1,
        ) by {
            lemma_lookup_own_pair(a, i);
        }
        assert forall|i: int| 0 <= i < b.len() implies lookup(a, #[trigger] b[i].0) == Some(
            b[i].1,
        ) by {
            lemma_lookup_own_pair(b, i);
        }
    }
}

/// Numbering gives every name a key of its own.
pub proof fn lemma_numbered_distinct(names: Seq<Seq<char>>)
    ensures
        keys_distinct(numbered(names)),
{
    let list = numbered(names);
    assert forall|i: int, j: int|
        0 <= i < list.len() && 0 <= j < list.len() && i != j implies #[trigger] list[i].0
        != #[trigger] list[j].0 by {
        if decimal(i as nat) == decimal(j as nat) {
            lemma_decimal_injective(i as nat, j as nat);
        }
    }
}

/// Numbering keeps the names in their order: the pair at place `i` is the numeral of
/// `i` with the name at `i`, and looking that numeral up gives that name.
pub proof fn lemma_numbered_lookup(names: Seq<Seq<char>>, i: int)
    requires
        0 <= i < names.len(),
    ensures
        numbered(names).len() == names.len(),
        numbered(names)[i] == (decimal(i as nat), names[i]),
        lookup(numbered(names), decimal(i as nat)) == Some(names[i]),
{
    lemma_numbered_distinct(names);
    lemma_lookup_own_pair(numbered(names), i);
}

/// Giving a key a name keeps the keys of the list distinct.
pub proof fn lemma_upsert_distinct(list: CategoryList, key: Seq<char>, name: Seq<char>)
    requires
        keys_distinct(list),
    ensures
        keys_distinct(upsert(list, key, name)),
        lookup(upsert(list, key, name), key) == Some(name),
{
    lemma_position_from(list, key, 0);
    let next = upsert(list, key, name);
    assert(keys_distinct(next));
    lemma_lookup_own_pair(next, position(list, key));
}

/// Giving a key a name is an insertion into the map that the list stands for: the
/// key gets the name, every other key keeps its own.
pub proof fn lemma_upsert_is_insert(list: CategoryList, key: Seq<char>, name: Seq<char>)
    requires
        keys_distinct(list),
    ensures
        as_map(upsert(list, key, name)) == as_map(list).insert(key, name),
{
    let next = upsert(list, key, name);
    lemma_upsert_distinct(list, key, name);
    lemma_position_from(list, key, 0);
    assert forall|other: Seq<char>| other != key implies lookup(next, other) == lookup(
        list,
        other,
    ) by {
        lemma_position_from(list, other, 0);
        lemma_position_from(next, other, 0);
        let a = position(list, other);
        if a < list.len() {
            assert(next[a] == list[a]);
        }
    }
}

/// The category table of a podcast. A key occurs once; the pairs keep the order in
/// which their keys first came.
#[derive(Debug)]
pub struct Categories {
    entries: Vec<(String, String)>,
}

impl View for Categories {
    type V = CategoryList;

    closed spec fn view(&self) -> CategoryList {
        Seq::new(self.entries@.len(), |i: int| (self.entries@[i].0@, self.entries@[i].1@))
    }
}

impl DeepView for Categories {
    type V = CategoryList;

    open spec fn deep_view(&self) -> CategoryList {
        self@
    }
}

impl Categories {
    #[verifier::type_invariant]
    spec fn keys_once(self) -> bool {
        keys_distinct(self@)
    }

    /// The empty table.
    pub fn new() -> (r: Self)
        ensures
            r@ == CategoryList::empty(),
    {
        Categories { entries: Vec::new() }
    }

    /// The number of keys. No key occurs twice, as in every table.
    pub fn len(&self) -> (r: usize)
        ensures
            r == self@.len(),
            keys_distinct(self@),
    {
        proof {
            use_type_invariant(self);
        }
        self.entries.len()
    }

    /// Whether the table has no key.
    pub fn is_empty(&self) -> (r: bool)
        ensures
            r == (self@.len() == 0),
    {
        self.entries.len() == 0
    }

    /// The place of `key` in the table, or the table's length.
    fn find(&self, key: &String) -> (r: usize)
        ensures
            r == position(self@, key@),
            r <= self@.len(),
    {
        let mut i: usize = 0;
        while i < self.entries.len()
            invariant
                i <= self.entries@.len(),
                position(self@, key@) == position_from(self@, key@, i as int),
            decreases self.entries@.len() - i,
        {
            if self.entries[i].0 == *key {
                return i;
            }
            i += 1;
        }
        i
    }

    /// The name under `key`.
    pub fn get(&self, key: &str) -> (r: Option<&String>)
        ensures
            r.deep_view() == lookup(self@, key@),
    {
        let owned = key.to_owned();
        let at = self.find(&owned);
        if at < self.entries.len() {
            Some(&self.entries[at].1)
        } else {
            None
        }
    }

    /// Whether the table has `key`.
    pub fn contains_key(&self, key: &str) -> (r: bool)
        ensures
            r == lookup(self@, key@).is_some(),
    {
        let owned = key.to_owned();
        self.find(&owned) < self.entries.len()
    }

    /// The key at place `i`.
    pub fn key_at(&self, i: usize) -> (r: &String)
        requires
            i < self@.len(),
        ensures
            r@ == self@[i as int].0,
    {
        &self.entries[i].0
    }

    /// The name at place `i`.
    pub fn name_at(&self, i: usize) -> (r: &String)
        requires
            i < self@.len(),
        ensures
            r@ == self@[i as int].1,
    {
        &self.entries[i].1
    }

    /// Gives `key` the name `name`, in place of the name it had, if any.
    pub fn insert(&mut self, key: String, name: String)
        ensures
            final(self)@ == upsert(old(self)@, key@, name@),
    {
        proof {
            use_type_invariant(&*self);
            lemma_upsert_distinct(self@, key@, name@);
        }
        let at = self.find(&key);
        let ghost before = self@;
        let mut taken = Categories::new();
        core::mem::swap(self, &mut taken);
        let Categories { entries } = taken;
        let mut entries = entries;
        if at < entries.len() {
            entries.set(at, (key, name));
        } else {
            entries.push((key, name));
        }
        let ghost list = Seq::new(entries@.len(), |k: int| (entries@[k].0@, entries@[k].1@));
        assert(list =~= upsert(before, key@, name@));
        *self = Categories { entries };
    }

    /// The table that numbers `names` by position, from `"0"`.
    pub fn from_names(names: Vec<String>) -> (r: Self)
        ensures
            r@ == numbered(names.deep_view()),
    {
        let mut entries: Vec<(String, String)> = Vec::new();
        let mut i: usize = 0;
        while i < names.len()
            invariant
                i <= names@.len(),
                entries@.len() == i,
                forall|k: int|
                    0 <= k < i ==> (#[trigger] entries@[k]).0@ == decimal(k as nat) && entries@[k].1@
                        == names@[k]@,
            decreases names@.len() - i,
        {
            entries.push((decimal_text(i), names[i].clone()));
            i += 1;
        }
        proof {
            lemma_numbered_distinct(names.deep_view());
        }
        let ghost list = Seq::new(entries@.len(), |k: int| (entries@[k].0@, entries@[k].1@));
        assert(list =~= numbered(names.deep_view()));
        Categories { entries }
    }
}

impl Categories {
    /// Whether every pair of this table is found in `other` under the same key.
    pub fn included_in(&self, other: &Categories) -> (r: bool)
        ensures
            r == included(self@, other@),
    {
        let mut i: usize = 0;
        while i < self.entries.len()
            invariant
                i <= self.entries@.len(),
                forall|k: int|
                    0 <= k < i ==> lookup(other@, (#[trigger] self@[k]).0) == Some(self@[k].1),
            decreases self.entries@.len() - i,
        {
            let at = other.find(&self.entries[i].0);
            if at >= other.entries.len() || !(other.entries[at].1 == self.entries[i].1) {
                assert(lookup(other@, self@[i as int].0) != Some(self@[i as int].1));
                return false;
            }
            i += 1;
        }
        true
    }
}

impl Clone for Categories {
    fn clone(&self) -> (r: Self)
        ensures
            r@ == self@,
    {
        proof {
            use_type_invariant(self);
        }
        let mut entries: Vec<(String, String)> = Vec::new();
        let mut i: usize = 0;
        while i < self.entries.len()
            invariant
                i <= self.entries@.len(),
                entries@.len() == i,
                forall|k: int|
                    0 <= k < i ==> (#[trigger] entries@[k]).0@ == self.entries@[k].0@
                        && entries@[k].1@ == self.entries@[k].1@,
            decreases self.entries@.len() - i,
        {
            entries.push((self.entries[i].0.clone(), self.entries[i].1.clone()));
            i += 1;
        }
        let ghost list = Seq::new(entries@.len(), |k: int| (entries@[k].0@, entries@[k].1@));
        assert(list =~= self@);
        Categories { entries }
    }
}

impl PartialEq for Categories {
    fn eq(&self, other: &Self) -> (r: bool) {
        self.included_in(other) && other.included_in(self)
    }
}

impl vstd::std_specs::cmp::PartialEqSpecImpl for Categories {
    open spec fn obeys_eq_spec() -> bool {
        true
    }

    open spec fn eq_spec(&self, other: &Self) -> bool {
        same_mapping(self@, other@)
    }
}

} // verus!
