//! The snapshot cache: one partition per language, each a keyed list of
//! snapshots, and the filter that searches a partition.

use crate::db::github::{copy_records, lemma_views_push, lemma_views_take_next, views};
use crate::db::github::{Repository, RepositoryView};
use crate::text::{contains, eq_ignoring_case, lowercase, lowercase_of, occurs_in};
use crate::text::same_ignoring_case;
use vstd::prelude::*;

verus! {

/// Name of the cache database.
pub const DB_NAME: &'static str = "WaffleDB";

/// Schema version of the cache database.
pub const DB_VERSION: u32 = 1;

/// The names of the supported languages, in display order.
pub open spec fn supported_languages() -> Seq<Seq<char>> {
    seq!["Rust"@, "Python"@, "Javascript"@]
}

/// The supported languages; each has a partition of its own in the cache.
pub fn languages() -> (names: Vec<String>)
    ensures
        names.deep_view() == supported_languages(),
{
    let mut names: Vec<String> = Vec::new();
    names.push(String::from_str("Rust"));
    names.push(String::from_str("Python"));
    names.push(String::from_str("Javascript"));
    assert(names.deep_view() =~= supported_languages());
    names
}

/// The key under which the snapshot of a language is stored.
pub open spec fn snapshot_key_of(language: Seq<char>) -> Seq<char> {
    "latest_"@ + lowercase_of(language)
}

/// The key under which the snapshot of `language` is stored: `latest_`
/// followed by the language in lowercase.
pub fn snapshot_key(language: &str) -> (key: String)
    ensures
        key@ == snapshot_key_of(language@),
{
    let lowered = lowercase(language);
    String::from_str("latest_").concat(lowered.as_str())
}

/// The text of an optional field, empty when the field is absent.
pub open spec fn text_or_empty(t: Option<Seq<char>>) -> Seq<char> {
    match t {
        Some(s) => s,
        None => Seq::empty(),
    }
}

/// True when the record's language is `category`, letter case aside.
pub open spec fn in_category(r: RepositoryView, category: Seq<char>) -> bool {
    r.language is Some && same_ignoring_case(r.language.unwrap(), category)
}

/// True when `query` is empty or occurs, letter case aside, in the record's
/// full name or in its description.
pub open spec fn mentions(r: RepositoryView, query: Seq<char>) -> bool {
    ||| query.len() == 0
    ||| occurs_in(lowercase_of(text_or_empty(r.full_name)), lowercase_of(query))
    ||| occurs_in(lowercase_of(text_or_empty(r.description)), lowercase_of(query))
}

/// The filter's rule for one record.
pub open spec fn record_matches(r: RepositoryView, category: Seq<char>, query: Seq<char>) -> bool {
    in_category(r, category) && mentions(r, query)
}

/// The records of `items` that the filter keeps, in the order in which they stand.
pub open spec fn matching(items: Seq<RepositoryView>, category: Seq<char>, query: Seq<char>) -> Seq<
    RepositoryView,
> {
    items.filter(|r: RepositoryView| record_matches(r, category, query))
}

/// Filter correctness, one way: every record that the filter keeps is a
/// record of the partition, is of the category, and mentions the query.
pub proof fn lemma_filter_sound(
    items: Seq<RepositoryView>,
    category: Seq<char>,
    query: Seq<char>,
    i: int,
)
    requires
        0 <= i < matching(items, category, query).len(),
    ensures
        items.contains(matching(items, category, query)[i]),
        in_category(matching(items, category, query)[i], category),
        mentions(matching(items, category, query)[i], query),
{
    let keep = |r: RepositoryView| record_matches(r, category, query);
    let kept = matching(items, category, query);
    items.lemma_filter_pred(keep, i);
    assert(kept.contains(kept[i]));
    items.lemma_filter_contains_rev(keep, kept[i]);
}

/// Filter correctness, the other way: every record of the partition that is
/// of the category and mentions the query is kept.
pub proof fn lemma_filter_complete(
    items: Seq<RepositoryView>,
    category: Seq<char>,
    query: Seq<char>,
    i: int,
)
    requires
        0 <= i < items.len(),
        record_matches(items[i], category, query),
    ensures
        matching(items, category, query).contains(items[i]),
{
    let keep = |r: RepositoryView| record_matches(r, category, query);
    items.lemma_filter_contains(keep, i);
}

/// An empty query keeps every record of the category.
pub proof fn lemma_empty_query_keeps_category(
    items: Seq<RepositoryView>,
    category: Seq<char>,
    query: Seq<char>,
)
    requires
        query.len() == 0,
    ensures
        matching(items, category, query) == items.filter(
            |r: RepositoryView| in_category(r, category),
        ),
    decreases items.len(),
{
    reveal(Seq::filter);
    if items.len() > 0 {
        lemma_empty_query_keeps_category(items.drop_last(), category, query);
    }
}

/// The text of an optional field, empty when the field is absent.
fn field_text(field: &Option<String>) -> (t: &str)
    ensures
        t@ == text_or_empty(field.deep_view()),
{
    match field {
        Some(s) => s.as_str(),
        None => {
            proof {
                reveal_strlit("");
            }
            assert(""@ =~= Seq::<char>::empty());
            ""
        },
    }
}

/// Decides whether the filter keeps `record` for `category` and `query`.
pub fn is_match(record: &Repository, category: &str, query: &str) -> (keep: bool)
    ensures
        keep == record_matches(record@, category@, query@),
{
    let same_category = match &record.language {
        Some(language) => eq_ignoring_case(language.as_str(), category),
        None => false,
    };
    if !same_category {
        return false;
    }
    if query.is_empty() {
        return true;
    }
    let wanted = lowercase(query);
    let name = lowercase(field_text(&record.full_name));
    if contains(name.as_str(), wanted.as_str()) {
        return true;
    }
    let description = lowercase(field_text(&record.description));
    contains(description.as_str(), wanted.as_str())
}

/// Keeps the records of `category` that mention `query`, in order.
pub fn filter_records(records: &Vec<Repository>, category: &str, query: &str) -> (found: Vec<
    Repository,
>)
    ensures
        views(found@) == matching(views(records@), category@, query@),
{
    let mut found: Vec<Repository> = Vec::new();
    let mut i: usize = 0;
    assert(views(records@.take(0)) =~= Seq::<RepositoryView>::empty());
    assert(matching(Seq::<RepositoryView>::empty(), category@, query@) =~= Seq::<
        RepositoryView,
    >::empty()) by {
        reveal(Seq::filter);
    }
    while i < records.len()
        invariant
            i <= records.len(),
            views(found@) == matching(views(records@.take(i as int)), category@, query@),
        decreases records.len() - i,
    {
        proof {
            lemma_views_take_next(records@, i as int);
            views(records@.take(i as int)).lemma_filter_push(
                records[i as int]@,
                |r: RepositoryView| record_matches(r, category@, query@),
            );
        }
        if is_match(&records[i], category, query) {
            let copy = records[i].clone();
            proof {
                lemma_views_push(found@, copy);
            }
            found.push(copy);
        }
        i += 1;
    }
    assert(records@.take(records.len() as int) =~= records@);
    found
}

/// Why a cache operation failed.
#[derive(Debug, Clone, Copy, PartialEq, Eq, Structural)]
pub enum Error {
    /// The database has no partition of the given name.
    ObjectStoreNotFound,
}

impl Error {
    /// The failure in words.
    pub fn message(&self) -> (text: String)
        ensures
            text@ == "object store not found"@,
    {
        String::from_str("object store not found")
    }
}

/// Why the host's cache could not do what it was asked; the text is the
/// host's own account.
#[derive(Debug)]
pub enum CacheFailure {
    /// The cache could not be opened.
    Open(String),
    /// The cache was open and the operation failed.
    Access(String),
}

/// One stored snapshot with its key, as mathematical values.
pub struct EntryView {
    pub key: Seq<char>,
    pub value: Seq<RepositoryView>,
}

/// True when no key occurs twice.
pub open spec fn distinct_keys(entries: Seq<EntryView>) -> bool {
    forall|i: int, j: int|
        0 <= i < entries.len() && 0 <= j < entries.len() && i != j ==> entries[i].key
            != entries[j].key
}

/// True when some entry has the key.
pub open spec fn has_key(entries: Seq<EntryView>, key: Seq<char>) -> bool {
    exists|i: int| 0 <= i < entries.len() && #[trigger] entries[i].key == key
}

/// The place of the entry that has the key, where there is one.
pub open spec fn position_of(entries: Seq<EntryView>, key: Seq<char>) -> int {
    choose|i: int| 0 <= i < entries.len() && #[trigger] entries[i].key == key
}

/// The snapshot stored under the key, if any.
pub open spec fn stored(entries: Seq<EntryView>, key: Seq<char>) -> Option<Seq<RepositoryView>> {
    if has_key(entries, key) {
        Some(entries[position_of(entries, key)].value)
    } else {
        None
    }
}

/// The partition after `value` is stored under `key`: an entry with that key
/// is overwritten in place, a new key is appended.
pub open spec fn with_entry(
    entries: Seq<EntryView>,
    key: Seq<char>,
    value: Seq<RepositoryView>,
) -> Seq<EntryView> {
    if has_key(entries, key) {
        entries.update(position_of(entries, key), EntryView { key, value })
    } else {
        entries.push(EntryView { key, value })
    }
}

/// The partition after the entry under `key`, if any, is deleted.
pub open spec fn without_key(entries: Seq<EntryView>, key: Seq<char>) -> Seq<EntryView> {
    if has_key(entries, key) {
        entries.remove(position_of(entries, key))
    } else {
        entries
    }
}

/// Every record of the partition: the snapshots one after another, in the
/// order of their entries.
pub open spec fn all_records(entries: Seq<EntryView>) -> Seq<RepositoryView> {
    entries.map_values(|e: EntryView| e.value).flatten()
}

/// An entry found at a place is the entry that `position_of` names.
proof fn lemma_position(entries: Seq<EntryView>, key: Seq<char>, i: int)
    requires
        distinct_keys(entries),
        0 <= i < entries.len(),
        entries[i].key == key,
    ensures
        has_key(entries, key),
        position_of(entries, key) == i,
{
    assert(entries[i].key == key);
    let p = position_of(entries, key);
    assert(entries[p].key == entries[i].key);
}

/// Reading a key after storing under it gives exactly what was stored,
/// whatever the partition held before; its keys stay distinct.
pub proof fn lemma_get_after_put(
    entries: Seq<EntryView>,
    key: Seq<char>,
    value: Seq<RepositoryView>,
)
    requires
        distinct_keys(entries),
    ensures
        distinct_keys(with_entry(entries, key, value)),
        stored(with_entry(entries, key, value), key) == Some(value),
{
    let after = with_entry(entries, key, value);
    if has_key(entries, key) {
        let p = position_of(entries, key);
        assert(after[p].key == key);
        assert forall|a: int, b: int|
            0 <= a < after.len() && 0 <= b < after.len() && a != b implies after[a].key
            != after[b].key by {
            assert(entries[a].key != entries[b].key);
        }
        lemma_position(after, key, p);
    } else {
        let p = entries.len() as int;
        assert(after[p].key == key);
        assert forall|a: int, b: int|
            0 <= a < after.len() && 0 <= b < after.len() && a != b implies after[a].key
            != after[b].key by {
            if a < p && b < p {
                assert(entries[a].key != entries[b].key);
            } else if a < p {
                assert(entries[a].key == entries[a].key);
            } else {
                assert(entries[b].key == entries[b].key);
            }
        }
        lemma_position(after, key, p);
    }
}

/// Storing under one key leaves what is stored under every other key.
pub proof fn lemma_put_keeps_others(
    entries: Seq<EntryView>,
    key: Seq<char>,
    value: Seq<RepositoryView>,
    other: Seq<char>,
)
    requires
        distinct_keys(entries),
        other != key,
    ensures
        stored(with_entry(entries, key, value), other) == stored(entries, other),
{
    let after = with_entry(entries, key, value);
    lemma_get_after_put(entries, key, value);
    if has_key(entries, other) {
        let q = position_of(entries, other);
        assert(after[q].key == other);
        lemma_position(after, other, q);
    } else if has_key(after, other) {
        let q = position_of(after, other);
        if q < entries.len() {
            assert(entries[q].key == other);
        }
    }
}

/// After a delete nothing is stored under the key; the partition's keys stay
/// distinct.
pub proof fn lemma_get_after_delete(entries: Seq<EntryView>, key: Seq<char>)
    requires
        distinct_keys(entries),
    ensures
        distinct_keys(without_key(entries, key)),
        stored(without_key(entries, key), key) is None,
{
    let after = without_key(entries, key);
    if has_key(entries, key) {
        let p = position_of(entries, key);
        assert forall|a: int| 0 <= a < after.len() implies #[trigger] after[a].key != key by {
            let a0 = if a < p { a } else { a + 1 };
            assert(entries[a0].key != entries[p].key);
        }
        assert forall|a: int, b: int|
            0 <= a < after.len() && 0 <= b < after.len() && a != b implies after[a].key
            != after[b].key by {
            let a0 = if a < p { a } else { a + 1 };
            let b0 = if b < p { b } else { b + 1 };
            assert(entries[a0].key != entries[b0].key);
        }
    }
}

/// Deleting a key leaves what is stored under every other key.
pub proof fn lemma_delete_keeps_others(entries: Seq<EntryView>, key: Seq<char>, other: Seq<char>)
    requires
        distinct_keys(entries),
        other != key,
    ensures
        stored(without_key(entries, key), other) == stored(entries, other),
{
    let after = without_key(entries, key);
    lemma_get_after_delete(entries, key);
    if has_key(entries, key) {
        let p = position_of(entries, key);
        if has_key(entries, other) {
            let q = position_of(entries, other);
            let q1 = if q < p { q } else { q - 1 };
            assert(after[q1].key == other);
            lemma_position(after, other, q1);
        } else if has_key(after, other) {
            let q = position_of(after, other);
            let q0 = if q < p { q } else { q + 1 };
            assert(entries[q0].key == other);
        }
    }
}

/// Deleting a key a second time changes nothing.
pub proof fn lemma_delete_twice(entries: Seq<EntryView>, key: Seq<char>)
    requires
        distinct_keys(entries),
    ensures
        without_key(without_key(entries, key), key) == without_key(entries, key),
{
    lemma_get_after_delete(entries, key);
}

/// A partition without entries holds no record, so a search of it finds
/// none.
pub proof fn lemma_empty_partition_has_no_records(
    entries: Seq<EntryView>,
    category: Seq<char>,
    query: Seq<char>,
)
    requires
        entries.len() == 0,
    ensures
        all_records(entries).len() == 0,
        matching(all_records(entries), category, query).len() == 0,
{
    reveal(Seq::filter);
    assert(entries.map_values(|e: EntryView| e.value) =~= Seq::<Seq<RepositoryView>>::empty());
}

/// Every record of a stored snapshot is among the records of its
/// partition.
pub proof fn lemma_snapshot_in_records(entries: Seq<EntryView>, p: int, j: int)
    requires
        0 <= p < entries.len(),
        0 <= j < entries[p].value.len(),
    ensures
        all_records(entries).contains(entries[p].value[j]),
    decreases entries.len(),
{
    let value_of = |e: EntryView| e.value;
    let values = entries.map_values(value_of);
    assert(values.first() == entries[0].value);
    assert(values.drop_first() =~= entries.drop_first().map_values(value_of));
    if p == 0 {
        assert(all_records(entries)[j] == entries[p].value[j]);
    } else {
        lemma_snapshot_in_records(entries.drop_first(), p - 1, j);
        let rest = all_records(entries.drop_first());
        let k = choose|k: int| 0 <= k < rest.len() && rest[k] == entries[p].value[j];
        assert(all_records(entries)[values.first().len() + k] == rest[k]);
    }
}

/// Opening the cache a second time for the same languages changes nothing.
pub proof fn lemma_open_twice(m: Map<Seq<char>, Seq<EntryView>>, names: Seq<Seq<char>>)
    ensures
        opened(opened(m, names), names) == opened(m, names),
{
    assert(opened(opened(m, names), names) =~= opened(m, names));
}

/// Opening the cache keeps every snapshot that it holds.
pub proof fn lemma_open_keeps(m: Map<Seq<char>, Seq<EntryView>>, names: Seq<Seq<char>>, name: Seq<char>)
    requires
        m.contains_key(name),
    ensures
        opened(m, names).contains_key(name),
        opened(m, names)[name] == m[name],
{
}

/// One stored snapshot with its key.
struct Entry {
    key: String,
    value: Vec<Repository>,
}

impl View for Entry {
    type V = EntryView;

    closed spec fn view(&self) -> EntryView {
        EntryView { key: self.key@, value: views(self.value@) }
    }
}

/// The views of a list of entries, in order.
spec fn entry_views(entries: Seq<Entry>) -> Seq<EntryView> {
    entries.map_values(|e: Entry| e@)
}

/// One partition: the snapshots of one language.
struct ObjectStore {
    name: String,
    entries: Vec<Entry>,
}

/// The cache: a set of named partitions, each a list of keyed snapshots.
/// No two partitions share a name and no two entries of a partition share a
/// key.
pub struct Database {
    stores: Vec<ObjectStore>,
}

impl View for Database {
    type V = Map<Seq<char>, Seq<EntryView>>;

    /// The partitions by name, each with its entries in stored order.
    closed spec fn view(&self) -> Map<Seq<char>, Seq<EntryView>> {
        Map::new(
            |name: Seq<char>| self.names_store(name),
            |name: Seq<char>| entry_views(self.stores[self.place_of(name)].entries@),
        )
    }
}

impl Database {
    spec fn names_store(&self, name: Seq<char>) -> bool {
        exists|i: int| 0 <= i < self.stores.len() && #[trigger] self.stores[i].name@ == name
    }

    spec fn place_of(&self, name: Seq<char>) -> int {
        choose|i: int| 0 <= i < self.stores.len() && #[trigger] self.stores[i].name@ == name
    }

    /// The invariant of the cache: partition names are distinct, and so are
    /// the keys inside each partition.
    pub closed spec fn wf(&self) -> bool {
        &&& forall|i: int, j: int|
            0 <= i < self.stores.len() && 0 <= j < self.stores.len() && i != j
                ==> self.stores[i].name@ != self.stores[j].name@
        &&& forall|i: int|
            0 <= i < self.stores.len() ==> distinct_keys(
                #[trigger] entry_views(self.stores[i].entries@),
            )
    }

    /// In a well-formed cache every partition holds distinct keys.
    pub proof fn lemma_partitions_distinct(&self, name: Seq<char>)
        requires
            self.wf(),
            self@.contains_key(name),
        ensures
            distinct_keys(self@[name]),
    {
        let i = self.place_of(name);
        assert(distinct_keys(entry_views(self.stores[i].entries@)));
    }

    proof fn lemma_view_at(&self, i: int)
        requires
            self.wf(),
            0 <= i < self.stores.len(),
        ensures
            self@.contains_key(self.stores[i].name@),
            self@[self.stores[i].name@] == entry_views(self.stores[i].entries@),
    {
        let name = self.stores[i].name@;
        assert(self.names_store(name));
        assert(self.place_of(name) == i);
    }

    proof fn lemma_view_absent(&self, name: Seq<char>)
        requires
            forall|i: int| 0 <= i < self.stores.len() ==> self.stores[i].name@ != name,
        ensures
            !self@.contains_key(name),
    {
    }

    /// A cache without partitions.
    pub fn new() -> (db: Database)
        ensures
            db.wf(),
            db@ == Map::<Seq<char>, Seq<EntryView>>::empty(),
    {
        let db = Database { stores: Vec::new() };
        assert(db@ =~= Map::<Seq<char>, Seq<EntryView>>::empty());
        db
    }

    /// The place of the partition called `name`, if there is one.
    fn find_store(&self, name: &String) -> (place: Option<usize>)
        requires
            self.wf(),
        ensures
            match place {
                Some(i) => i < self.stores.len() && self.stores[i as int].name@ == name@,
                None => !self@.contains_key(name@),
            },
    {
        let mut i: usize = 0;
        while i < self.stores.len()
            invariant
                i <= self.stores.len(),
                forall|k: int| 0 <= k < i ==> self.stores[k].name@ != name@,
            decreases self.stores.len() - i,
        {
            if self.stores[i].name == *name {
                return Some(i);
            }
            i += 1;
        }
        proof {
            self.lemma_view_absent(name@);
        }
        None
    }

    /// Replacing the entries of one partition changes the view at that
    /// partition's name alone.
    proof fn lemma_replaced(before: Database, after: Database, i: int)
        requires
            before.wf(),
            0 <= i < before.stores.len(),
            after.stores.len() == before.stores.len(),
            forall|k: int|
                0 <= k < before.stores.len() && k != i ==> after.stores[k] == before.stores[k],
            after.stores[i].name@ == before.stores[i].name@,
            distinct_keys(entry_views(after.stores[i].entries@)),
        ensures
            after.wf(),
            after@ == before@.insert(
                before.stores[i].name@,
                entry_views(after.stores[i].entries@),
            ),
    {
        assert forall|k: int| 0 <= k < after.stores.len() implies #[trigger] after.stores[k].name@
            == before.stores[k].name@ by {}
        assert(after.wf()) by {
            assert forall|k: int| 0 <= k < after.stores.len() implies distinct_keys(
                #[trigger] entry_views(after.stores[k].entries@),
            ) by {
                if k != i {
                    assert(distinct_keys(entry_views(before.stores[k].entries@)));
                }
            }
        }
        let target = before@.insert(
            before.stores[i].name@,
            entry_views(after.stores[i].entries@),
        );
        assert forall|name: Seq<char>| after@.contains_key(name) <==> target.contains_key(
            name,
        ) by {
            if after@.contains_key(name) {
                let k = after.place_of(name);
                before.lemma_view_at(k);
            }
            if before@.contains_key(name) {
                let k = before.place_of(name);
                after.lemma_view_at(k);
            }
            after.lemma_view_at(i);
        }
        assert forall|name: Seq<char>| after@.contains_key(name) implies after@[name]
            == target[name] by {
            let k = after.place_of(name);
            after.lemma_view_at(k);
            before.lemma_view_at(k);
        }
        assert(after@ =~= target);
    }

    /// True when the cache has a partition called `name`.
    pub fn has_store(&self, name: &str) -> (found: bool)
        requires
            self.wf(),
        ensures
            found == self@.contains_key(name@),
    {
        let wanted = String::from_str(name);
        match self.find_store(&wanted) {
            Some(i) => {
                proof {
                    self.lemma_view_at(i as int);
                }
                true
            },
            None => false,
        }
    }
}

/// The place of the entry stored under `key`, if there is one.
fn find_entry(entries: &Vec<Entry>, key: &String) -> (place: Option<usize>)
    ensures
        match place {
            Some(j) => j < entries.len() && entries[j as int].key@ == key@,
            None => !has_key(entry_views(entries@), key@),
        },
{
    let mut j: usize = 0;
    while j < entries.len()
        invariant
            j <= entries.len(),
            forall|k: int| 0 <= k < j ==> entries[k].key@ != key@,
        decreases entries.len() - j,
    {
        if entries[j].key == *key {
            return Some(j);
        }
        j += 1;
    }
    assert forall|k: int| 0 <= k < entries.len() implies #[trigger] entry_views(
        entries@,
    )[k].key != key@ by {
        assert(entry_views(entries@)[k] == entries[k]@);
    }
    None
}

/// Stores `value` under the key of `entries`, overwriting what was there.
fn put_entry(entries: &mut Vec<Entry>, key: String, value: Vec<Repository>)
    requires
        distinct_keys(entry_views(old(entries)@)),
    ensures
        entry_views(final(entries)@) == with_entry(
            entry_views(old(entries)@),
            key@,
            views(value@),
        ),
        distinct_keys(entry_views(final(entries)@)),
{
    let ghost before = entry_views(entries@);
    let place = find_entry(entries, &key);
    let ghost fresh = EntryView { key: key@, value: views(value@) };
    match place {
        Some(j) => {
            proof {
                assert(before[j as int] == entries[j as int]@);
                assert(before[j as int].key == key@);
                assert(has_key(before, key@));
                assert(before[position_of(before, key@)].key == before[j as int].key);
            }
            entries.set(j, Entry { key, value });
            assert(entry_views(entries@) =~= before.update(j as int, fresh));
            assert(distinct_keys(before.update(j as int, fresh)));
        },
        None => {
            entries.push(Entry { key, value });
            assert(entry_views(entries@) =~= before.push(fresh));
            assert(distinct_keys(before.push(fresh))) by {
                assert forall|a: int, b: int|
                    0 <= a < before.len() + 1 && 0 <= b < before.len() + 1 && a != b implies before.push(
                        fresh,
                    )[a].key != before.push(fresh)[b].key by {
                    if a < before.len() {
                        assert(before[a].key == before[a].key);
                    }
                    if b < before.len() {
                        assert(before[b].key == before[b].key);
                    }
                }
            }
        },
    }
}

/// Deletes the entry under `key`, if there is one.
fn drop_entry(entries: &mut Vec<Entry>, key: &String)
    requires
        distinct_keys(entry_views(old(entries)@)),
    ensures
        entry_views(final(entries)@) == without_key(entry_views(old(entries)@), key@),
        distinct_keys(entry_views(final(entries)@)),
{
    let ghost before = entry_views(entries@);
    let place = find_entry(entries, key);
    match place {
        Some(j) => {
            proof {
                assert(before[j as int] == entries[j as int]@);
                assert(before[j as int].key == key@);
                assert(has_key(before, key@));
                assert(before[position_of(before, key@)].key == before[j as int].key);
            }
            let _ = entries.remove(j);
            assert(entry_views(entries@) =~= before.remove(j as int));
            assert(distinct_keys(before.remove(j as int))) by {
                assert forall|a: int, b: int|
                    0 <= a < before.len() - 1 && 0 <= b < before.len() - 1 && a != b implies before.remove(
                        j as int,
                    )[a].key != before.remove(j as int)[b].key by {
                    let a0 = if a < j { a } else { a + 1 };
                    let b0 = if b < j { b } else { b + 1 };
                    assert(before[a0].key != before[b0].key);
                }
            }
        },
        None => {},
    }
}

/// The map after a partition called `name` is made sure of: one that exists
/// stays as it is, a missing one is created empty.
pub open spec fn with_store(m: Map<Seq<char>, Seq<EntryView>>, name: Seq<char>) -> Map<
    Seq<char>,
    Seq<EntryView>,
> {
    if m.contains_key(name) {
        m
    } else {
        m.insert(name, Seq::empty())
    }
}

/// The map after every partition of `names` is made sure of.
pub open spec fn opened(m: Map<Seq<char>, Seq<EntryView>>, names: Seq<Seq<char>>) -> Map<
    Seq<char>,
    Seq<EntryView>,
> {
    Map::new(
        |n: Seq<char>| m.contains_key(n) || names.contains(n),
        |n: Seq<char>|
            if m.contains_key(n) {
                m[n]
            } else {
                Seq::empty()
            },
    )
}

/// Makes sure that the cache has a partition called `name`, creating an
/// empty one if it is missing.
pub fn create_object_store(db: &mut Database, name: &str)
    requires
        old(db).wf(),
    ensures
        final(db).wf(),
        final(db)@ == with_store(old(db)@, name@),
{
    let wanted = String::from_str(name);
    match db.find_store(&wanted) {
        Some(i) => {
            proof {
                db.lemma_view_at(i as int);
            }
        },
        None => {
            let ghost before = *db;
            db.stores.push(ObjectStore { name: wanted, entries: Vec::new() });
            proof {
                let last = before.stores.len() as int;
                assert(entry_views(db.stores[last].entries@) =~= Seq::<EntryView>::empty());
                assert forall|k: int| 0 <= k < before.stores.len() implies db.stores[k]
                    == before.stores[k] by {}
                assert forall|k: int| 0 <= k < before.stores.len() implies before.stores[k].name@
                    != name@ by {
                    before.lemma_view_at(k);
                }
                assert(db.wf()) by {
                    assert forall|k: int| 0 <= k < db.stores.len() implies distinct_keys(
                        #[trigger] entry_views(db.stores[k].entries@),
                    ) by {
                        if k < last {
                            assert(distinct_keys(entry_views(before.stores[k].entries@)));
                        }
                    }
                }
                let target = before@.insert(name@, Seq::<EntryView>::empty());
                assert forall|n: Seq<char>| db@.contains_key(n) <==> target.contains_key(n) by {
                    if db@.contains_key(n) {
                        let k = db.place_of(n);
                        if k < last {
                            before.lemma_view_at(k);
                        }
                    }
                    if before@.contains_key(n) {
                        let k = before.place_of(n);
                        db.lemma_view_at(k);
                    }
                    db.lemma_view_at(last);
                }
                assert forall|n: Seq<char>| db@.contains_key(n) implies db@[n] == target[n] by {
                    let k = db.place_of(n);
                    db.lemma_view_at(k);
                    if k < last {
                        before.lemma_view_at(k);
                    }
                }
                assert(db@ =~= target);
            }
        },
    }
}

/// Opens the cache for the given languages: every partition that is missing
/// is created empty, and what is stored stays as it is.
pub fn open_waffle_db_with_languages(db: &mut Database, names: &Vec<String>)
    requires
        old(db).wf(),
    ensures
        final(db).wf(),
        final(db)@ == opened(old(db)@, names.deep_view()),
{
    let ghost before = db@;
    let ghost all = names.deep_view();
    let mut i: usize = 0;
    assert(db@ =~= opened(before, all.take(0)));
    while i < names.len()
        invariant
            i <= names.len(),
            db.wf(),
            all == names.deep_view(),
            db@ == opened(before, all.take(i as int)),
        decreases names.len() - i,
    {
        let ghost so_far = db@;
        create_object_store(db, names[i].as_str());
        proof {
            let name = names[i as int]@;
            assert(all[i as int] == name);
            assert(all.take(i + 1) =~= all.take(i as int).push(name));
            assert forall|n: Seq<char>| all.take(i + 1).contains(n) <==> (all.take(
                i as int,
            ).contains(n) || n == name) by {
                if all.take(i as int).contains(n) {
                    let k = choose|k: int| 0 <= k < i && all.take(i as int)[k] == n;
                    assert(all.take(i + 1)[k] == n);
                }
                if n == name {
                    assert(all.take(i + 1)[i as int] == n);
                }
            }
            assert(with_store(so_far, name) =~= opened(before, all.take(i + 1)));
        }
        i += 1;
    }
    assert(all.take(names.len() as int) =~= all);
}

/// Opens the cache for the supported languages.
pub fn open_waffle_db(db: &mut Database)
    requires
        old(db).wf(),
    ensures
        final(db).wf(),
        final(db)@ == opened(old(db)@, supported_languages()),
{
    let names = languages();
    open_waffle_db_with_languages(db, &names);
}

/// Stores a copy of `value` under `key` in the partition of `language`,
/// overwriting what was stored under that key. Fails, and changes nothing,
/// when the cache has no such partition.
pub fn add_repo(db: &mut Database, language: &str, key: &str, value: &Vec<Repository>) -> (r:
    Result<(), Error>)
    requires
        old(db).wf(),
    ensures
        final(db).wf(),
        old(db)@.contains_key(language@) ==> r is Ok && final(db)@ == old(db)@.insert(
            language@,
            with_entry(old(db)@[language@], key@, views(value@)),
        ),
        old(db)@.contains_key(language@) ==> stored(final(db)@[language@], key@) == Some(
            views(value@),
        ),
        !old(db)@.contains_key(language@) ==> r == Err::<(), Error>(Error::ObjectStoreNotFound)
            && final(db)@ == old(db)@,
{
    let wanted = String::from_str(language);
    match db.find_store(&wanted) {
        Some(i) => {
            let ghost before = *db;
            proof {
                before.lemma_view_at(i as int);
            }
            let mut store = db.stores.remove(i);
            put_entry(&mut store.entries, String::from_str(key), copy_records(value));
            db.stores.insert(i, store);
            proof {
                Database::lemma_replaced(before, *db, i as int);
                before.lemma_partitions_distinct(language@);
                lemma_get_after_put(before@[language@], key@, views(value@));
            }
            Ok(())
        },
        None => Err(Error::ObjectStoreNotFound),
    }
}

/// Reads a copy of the snapshot stored under `key` in the partition of
/// `language`; `None` when nothing is stored there. Fails when the cache has
/// no such partition.
pub fn get_repo(db: &Database, language: &str, key: &str) -> (r: Result<
    Option<Vec<Repository>>,
    Error,
>)
    requires
        db.wf(),
    ensures
        match r {
            Ok(Some(found)) => db@.contains_key(language@) && stored(db@[language@], key@) == Some(
                views(found@),
            ),
            Ok(None) => db@.contains_key(language@) && stored(db@[language@], key@) is None,
            Err(e) => !db@.contains_key(language@) && e == Error::ObjectStoreNotFound,
        },
{
    let wanted = String::from_str(language);
    match db.find_store(&wanted) {
        Some(i) => {
            proof {
                db.lemma_view_at(i as int);
            }
            let entries = &db.stores[i].entries;
            let ghost shown = entry_views(entries@);
            match find_entry(entries, &String::from_str(key)) {
                Some(j) => {
                    proof {
                        assert(shown[j as int] == entries[j as int]@);
                        assert(shown[j as int].key == key@);
                        assert(has_key(shown, key@));
                        assert(shown[position_of(shown, key@)].key == shown[j as int].key);
                    }
                    Ok(Some(copy_records(&entries[j].value)))
                },
                None => Ok(None),
            }
        },
        None => Err(Error::ObjectStoreNotFound),
    }
}

/// Deletes what is stored under `key` in the partition of `language`; where
/// nothing is stored there, nothing changes. Fails when the cache has no
/// such partition.
pub fn delete_repo(db: &mut Database, language: &str, key: &str) -> (r: Result<(), Error>)
    requires
        old(db).wf(),
    ensures
        final(db).wf(),
        old(db)@.contains_key(language@) ==> r is Ok && final(db)@ == old(db)@.insert(
            language@,
            without_key(old(db)@[language@], key@),
        ),
        old(db)@.contains_key(language@) ==> stored(final(db)@[language@], key@) is None,
        !old(db)@.contains_key(language@) ==> r == Err::<(), Error>(Error::ObjectStoreNotFound)
            && final(db)@ == old(db)@,
{
    let wanted = String::from_str(language);
    match db.find_store(&wanted) {
        Some(i) => {
            let ghost before = *db;
            proof {
                before.lemma_view_at(i as int);
            }
            let mut store = db.stores.remove(i);
            drop_entry(&mut store.entries, &String::from_str(key));
            db.stores.insert(i, store);
            proof {
                Database::lemma_replaced(before, *db, i as int);
                before.lemma_partitions_distinct(language@);
                lemma_get_after_delete(before@[language@], key@);
            }
            Ok(())
        },
        None => Err(Error::ObjectStoreNotFound),
    }
}

/// Appends a copy of each record of `more` to `out`.
fn append_copies(out: &mut Vec<Repository>, more: &Vec<Repository>)
    ensures
        views(final(out)@) == views(old(out)@) + views(more@),
{
    let ghost base = views(out@);
    let mut k: usize = 0;
    assert(views(more@.take(0)) =~= Seq::<RepositoryView>::empty());
    assert(base + Seq::<RepositoryView>::empty() =~= base);
    while k < more.len()
        invariant
            k <= more.len(),
            views(out@) == base + views(more@.take(k as int)),
        decreases more.len() - k,
    {
        let copy = more[k].clone();
        proof {
            lemma_views_take_next(more@, k as int);
            lemma_views_push(out@, copy);
            assert((base + views(more@.take(k as int))).push(copy@) =~= base + views(
                more@.take(k as int),
            ).push(copy@));
        }
        out.push(copy);
        k += 1;
    }
    assert(more@.take(more.len() as int) =~= more@);
}

/// Reads every record of the partition of `language`: its snapshots one
/// after another, in the order of their entries. Fails when the cache has no
/// such partition.
pub fn get_all_repos(db: &Database, language: &str) -> (r: Result<Vec<Repository>, Error>)
    requires
        db.wf(),
    ensures
        match r {
            Ok(found) => db@.contains_key(language@) && views(found@) == all_records(
                db@[language@],
            ),
            Err(e) => !db@.contains_key(language@) && e == Error::ObjectStoreNotFound,
        },
{
    let wanted = String::from_str(language);
    match db.find_store(&wanted) {
        Some(i) => {
            proof {
                db.lemma_view_at(i as int);
            }
            let entries = &db.stores[i].entries;
            let ghost shown = entry_views(entries@);
            let ghost value_of = |e: EntryView| e.value;
            let mut found: Vec<Repository> = Vec::new();
            let mut j: usize = 0;
            assert(shown.take(0).map_values(value_of) =~= Seq::<Seq<RepositoryView>>::empty());
            assert(views(found@) =~= Seq::<RepositoryView>::empty());
            while j < entries.len()
                invariant
                    j <= entries.len(),
                    shown == entry_views(entries@),
                    value_of == |e: EntryView| e.value,
                    views(found@) == shown.take(j as int).map_values(value_of).flatten(),
                decreases entries.len() - j,
            {
                proof {
                    let sofar = shown.take(j as int).map_values(value_of);
                    assert(shown[j as int] == entries[j as int]@);
                    assert(shown.take(j + 1).map_values(value_of) =~= sofar.push(
                        views(entries[j as int].value@),
                    ));
                    sofar.lemma_flatten_push(views(entries[j as int].value@));
                }
                append_copies(&mut found, &entries[j].value);
                j += 1;
            }
            assert(shown.take(entries.len() as int) =~= shown);
            Ok(found)
        },
        None => Err(Error::ObjectStoreNotFound),
    }
}

/// Searches the partition of `language`: reads every record of it and keeps
/// those of that language that mention `query`. Fails when the cache has no
/// such partition.
pub fn filter_repos_in_idb(db: &Database, language: &str, query: &str) -> (r: Result<
    Vec<Repository>,
    Error,
>)
    requires
        db.wf(),
    ensures
        match r {
            Ok(found) => db@.contains_key(language@) && views(found@) == matching(
                all_records(db@[language@]),
                language@,
                query@,
            ),
            Err(e) => !db@.contains_key(language@) && e == Error::ObjectStoreNotFound,
        },
{
    match get_all_repos(db, language) {
        Ok(records) => Ok(filter_records(&records, language, query)),
        Err(e) => Err(e),
    }
}

} // verus!
