//! The cache work of the controller performed on a cache in memory, and
//! what the operations leave in the cache.

use crate::app::{completed, dispatched, followed, optional_views, presence_of, reload_of};
use crate::app::{slot_of, updated};
use crate::app::{Completion, Effect, EffectView, LoadingKind, LoadingStateView, TemplateAppView};
use crate::db::github::{licensed_only, snapshot_of, views, written, FetchOutcome};
use crate::db::github::{RepositoryView, SearchResponse};
use crate::db::github::Repository;
use crate::db::idb::{add_repo, delete_repo, filter_repos_in_idb, get_repo};
use crate::db::idb::{all_records, distinct_keys, in_category, matching, snapshot_key_of};
use crate::db::idb::{has_key, position_of, record_matches, stored};
use crate::db::idb::{lemma_empty_partition_has_no_records, lemma_filter_complete};
use crate::db::idb::lemma_snapshot_in_records;
use crate::erust::state::AppStateView;
use crate::erust::uiux::search::FilterRequestView;
use crate::db::idb::{lemma_get_after_delete, lemma_get_after_put};
use crate::db::idb::{with_entry, without_key, CacheFailure, Database, EntryView, Error};
use vstd::prelude::*;

verus! {

/// The cache after the host has performed the work: a store overwrites the
/// snapshot under its key, a delete removes it, and where the partition is
/// missing, or the work is not a write, the cache stays as it is.
pub open spec fn cache_after(m: Map<Seq<char>, Seq<EntryView>>, work: EffectView) -> Map<
    Seq<char>,
    Seq<EntryView>,
> {
    match work {
        EffectView::Store(write) => if m.contains_key(write.language) {
            m.insert(write.language, with_entry(m[write.language], write.key, write.records))
        } else {
            m
        },
        EffectView::Delete(place) => if m.contains_key(place.language) {
            m.insert(place.language, without_key(m[place.language], place.key))
        } else {
            m
        },
        _ => m,
    }
}

/// True when the failure says that the partition is missing.
pub open spec fn partition_missing(failure: CacheFailure) -> bool {
    failure matches CacheFailure::Access(why) && why@ == "object store not found"@
}

/// True when `answer` is what a read of the snapshot at `language` and
/// `key` gives on the cache `m`.
pub open spec fn read_answer(
    m: Map<Seq<char>, Seq<EntryView>>,
    language: Seq<char>,
    key: Seq<char>,
    answer: Result<Option<Vec<Repository>>, CacheFailure>,
) -> bool {
    match answer {
        Ok(found) => m.contains_key(language) && optional_views(found) == stored(m[language], key),
        Err(failure) => !m.contains_key(language) && partition_missing(failure),
    }
}

/// True when `answer` is what a write to the partition of `language` gives
/// on the cache `m`.
pub open spec fn write_answer(
    m: Map<Seq<char>, Seq<EntryView>>,
    language: Seq<char>,
    answer: Result<(), CacheFailure>,
) -> bool {
    match answer {
        Ok(()) => m.contains_key(language),
        Err(failure) => !m.contains_key(language) && partition_missing(failure),
    }
}

/// True when `done` is what the host reports of `work` performed on the
/// cache `m`. A fetch is not cache work, and nothing is reported of it.
pub open spec fn reported(
    m: Map<Seq<char>, Seq<EntryView>>,
    work: EffectView,
    done: Option<Completion>,
) -> bool {
    match work {
        EffectView::Fetch(_) => done is None,
        EffectView::Store(write) => done matches Some(Completion::Stored(answer)) && write_answer(
            m,
            write.language,
            answer,
        ),
        EffectView::Delete(place) => done matches Some(Completion::Deleted(answer))
            && write_answer(m, place.language, answer),
        EffectView::Load(place) => done matches Some(Completion::Loaded(answer)) && read_answer(
            m,
            place.language,
            place.key,
            answer,
        ),
        EffectView::CheckPresence(place) => done matches Some(Completion::PresenceChecked(answer))
            && read_answer(m, place.language, place.key, answer),
        EffectView::Filter(request) => done matches Some(Completion::Filtered(answer)) && (
        match answer {
            Ok(found) => m.contains_key(request.language) && views(found@) == matching(
                all_records(m[request.language]),
                request.language,
                request.query,
            ),
            Err(failure) => !m.contains_key(request.language) && partition_missing(failure),
        }),
    }
}

/// The host's account of a failure of the cache in memory.
fn failure_of(e: Error) -> (failure: CacheFailure)
    ensures
        partition_missing(failure),
{
    CacheFailure::Access(e.message())
}

/// Performs cache work on a cache in memory and reports how it ended.
/// A fetch is left to the caller: nothing is done and nothing reported.
pub fn perform(db: &mut Database, work: &Effect) -> (done: Option<Completion>)
    requires
        old(db).wf(),
    ensures
        final(db).wf(),
        final(db)@ == cache_after(old(db)@, work@),
        reported(old(db)@, work@, done),
{
    match work {
        Effect::Fetch(_) => None,
        Effect::Store(write) => {
            let answer = match add_repo(
                db,
                write.language.as_str(),
                write.key.as_str(),
                &write.records,
            ) {
                Ok(()) => Ok(()),
                Err(e) => Err(failure_of(e)),
            };
            Some(Completion::Stored(answer))
        },
        Effect::Delete(place) => {
            let answer = match delete_repo(db, place.language.as_str(), place.key.as_str()) {
                Ok(()) => Ok(()),
                Err(e) => Err(failure_of(e)),
            };
            Some(Completion::Deleted(answer))
        },
        Effect::Load(place) => {
            let answer = match get_repo(db, place.language.as_str(), place.key.as_str()) {
                Ok(found) => Ok(found),
                Err(e) => Err(failure_of(e)),
            };
            Some(Completion::Loaded(answer))
        },
        Effect::CheckPresence(place) => {
            let answer = match get_repo(db, place.language.as_str(), place.key.as_str()) {
                Ok(found) => Ok(found),
                Err(e) => Err(failure_of(e)),
            };
            Some(Completion::PresenceChecked(answer))
        },
        Effect::Filter(request) => {
            let answer = match filter_repos_in_idb(
                db,
                request.language.as_str(),
                request.query.as_str(),
            ) {
                Ok(found) => Ok(found),
                Err(e) => Err(failure_of(e)),
            };
            Some(Completion::Filtered(answer))
        },
    }
}

/// Snapshot replacement. When a fetch for the selected language gives
/// records, exactly one piece of work follows, and once the host has
/// performed it the snapshot of that language is exactly the licensed
/// records that came, whatever snapshot the cache held before.
pub proof fn lemma_sync_replaces_snapshot(
    s: TemplateAppView,
    answer: SearchResponse,
    m: Map<Seq<char>, Seq<EntryView>>,
)
    requires
        m.contains_key(s.db.language),
        distinct_keys(m[s.db.language]),
    ensures
        followed(s, Completion::Fetched(FetchOutcome::Parsed(answer))).len() == 1,
        stored(
            cache_after(m, followed(s, Completion::Fetched(FetchOutcome::Parsed(answer)))[0])[s.db.language],
            snapshot_key_of(s.db.language),
        ) == Some(licensed_only(views(answer.items@))),
{
    lemma_get_after_put(
        m[s.db.language],
        snapshot_key_of(s.db.language),
        licensed_only(views(answer.items@)),
    );
}

/// A fetch that gave no records leaves nothing to store: the cache keeps
/// the snapshot that it held.
pub proof fn lemma_failed_sync_writes_nothing(s: TemplateAppView, outcome: FetchOutcome)
    requires
        !(outcome is Parsed),
    ensures
        followed(s, Completion::Fetched(outcome)).len() == 0,
{
}

/// The work that the step of a loading cache clear dispatches: the delete
/// of the selected language's snapshot, and nothing else.
pub proof fn lemma_clear_dispatches_delete(s: TemplateAppView)
    requires
        s.loading_state matches LoadingStateView::Loading { kind, .. } && kind
            == LoadingKind::ClearCache,
    ensures
        dispatched(s) == seq![EffectView::Delete(snapshot_of(s.db.language))],
{
}

/// Idempotent clear. Once the host has performed the delete of a cache
/// clear, nothing is stored under the snapshot key of the language, and
/// performing the delete a second time leaves the cache as it is.
pub proof fn lemma_clear_twice(language: Seq<char>, m: Map<Seq<char>, Seq<EntryView>>)
    requires
        m.contains_key(language),
        distinct_keys(m[language]),
    ensures
        stored(
            cache_after(m, EffectView::Delete(snapshot_of(language)))[language],
            snapshot_key_of(language),
        ) is None,
        cache_after(
            cache_after(m, EffectView::Delete(snapshot_of(language))),
            EffectView::Delete(snapshot_of(language)),
        ) == cache_after(m, EffectView::Delete(snapshot_of(language))),
{
    let key = snapshot_key_of(language);
    let once = cache_after(m, EffectView::Delete(snapshot_of(language)));
    lemma_get_after_delete(m[language], key);
    assert(once[language] == without_key(m[language], key));
    assert(without_key(once[language], key) == once[language]);
    assert(cache_after(once, EffectView::Delete(snapshot_of(language))) =~= once);
}

/// The search that a reload of `language` asks for: every record of the
/// language, whatever it mentions.
pub open spec fn reload_search(language: Seq<char>) -> EffectView {
    EffectView::Filter(FilterRequestView { language, query: ""@ })
}

/// A switch to a language without data. The step of a loading switch
/// selects the language and dispatches its reload. Where the cache holds
/// nothing for that language, or has no partition for it, the frame after
/// the reload's answer displays an empty list, the data-presence state is
/// empty, and the prompt that asks for a first sync stays armed.
pub proof fn lemma_switch_to_language_without_data(
    s: TemplateAppView,
    language: Seq<char>,
    m: Map<Seq<char>, Seq<EntryView>>,
    reload: Result<Vec<Repository>, CacheFailure>,
    first: nat,
    second: nat,
)
    requires
        s.loading_state matches LoadingStateView::Loading { kind, pending_language, .. } && kind
            == LoadingKind::LanguageSwitch && pending_language == Some(language),
        m.contains_key(language) ==> m[language].len() == 0,
        reported(m, reload_search(language), Some(Completion::Filtered(reload))),
    ensures
        dispatched(s) == reload_of(language),
        reload_of(language)[1] == reload_search(language),
        updated(s, first).db.language == language,
        ({
            let shown = updated(
                completed(updated(s, first), Completion::Filtered(reload)),
                second,
            );
            &&& shown.db.language == language
            &&& shown.filtered_repos == Some(Seq::<RepositoryView>::empty())
            &&& shown.app_state == AppStateView::Empty
            &&& shown.show_welcome == s.show_welcome
        }),
{
    if m.contains_key(language) {
        lemma_empty_partition_has_no_records(m[language], language, ""@);
    }
    assert(slot_of(reload) =~= Seq::<RepositoryView>::empty());
}

/// The cache after the store that follows a fetch for `language` which
/// gave the records of `answer`.
pub open spec fn cache_after_sync(
    m: Map<Seq<char>, Seq<EntryView>>,
    language: Seq<char>,
    answer: SearchResponse,
) -> Map<Seq<char>, Seq<EntryView>> {
    cache_after(
        m,
        EffectView::Store(
            written(FetchOutcome::Parsed(answer), language, snapshot_key_of(language)).unwrap(),
        ),
    )
}

/// A sync that stores records ends with data. Let a fetch for `language`
/// give at least one licensed record, all of that language, and let the
/// host store them; let `reload` and `presence` be the host's answers to
/// the reload's search and to the data-presence check on the cache after
/// the store. Then both answers say that there is data, and whichever of
/// the two the controller takes last, in one frame or in two, the frame
/// that follows ends with the data-presence state normal.
pub proof fn lemma_sync_ends_with_data(
    t: TemplateAppView,
    language: Seq<char>,
    answer: SearchResponse,
    m: Map<Seq<char>, Seq<EntryView>>,
    reload: Result<Vec<Repository>, CacheFailure>,
    presence: Result<Option<Vec<Repository>>, CacheFailure>,
    first: nat,
    second: nat,
)
    requires
        m.contains_key(language),
        distinct_keys(m[language]),
        licensed_only(views(answer.items@)).len() > 0,
        forall|i: int|
            0 <= i < licensed_only(views(answer.items@)).len() ==> in_category(
                #[trigger] licensed_only(views(answer.items@))[i],
                language,
            ),
        reported(
            cache_after_sync(m, language, answer),
            reload_search(language),
            Some(Completion::Filtered(reload)),
        ),
        reported(
            cache_after_sync(m, language, answer),
            EffectView::CheckPresence(snapshot_of(language)),
            Some(Completion::PresenceChecked(presence)),
        ),
    ensures
        stored(cache_after_sync(m, language, answer)[language], snapshot_key_of(language)) == Some(
            licensed_only(views(answer.items@)),
        ),
        presence_of(presence) == AppStateView::Normal,
        slot_of(reload).len() > 0,
        updated(
            completed(
                completed(t, Completion::Filtered(reload)),
                Completion::PresenceChecked(presence),
            ),
            first,
        ).app_state == AppStateView::Normal,
        updated(
            completed(
                updated(completed(t, Completion::Filtered(reload)), first),
                Completion::PresenceChecked(presence),
            ),
            second,
        ).app_state == AppStateView::Normal,
        updated(
            completed(
                updated(completed(t, Completion::PresenceChecked(presence)), first),
                Completion::Filtered(reload),
            ),
            second,
        ).app_state == AppStateView::Normal,
{
    let key = snapshot_key_of(language);
    let kept = licensed_only(views(answer.items@));
    let after = cache_after_sync(m, language, answer);
    lemma_get_after_put(m[language], key, kept);
    assert(after[language] == with_entry(m[language], key, kept));
    let entries = after[language];
    let p = position_of(entries, key);
    assert(has_key(entries, key));
    assert(entries[p].value == kept);
    assert(presence_of(presence) == AppStateView::Normal) by {
        let found = presence->Ok_0;
        assert(optional_views(found) == Some(kept));
        assert(views(found->Some_0@).len() == found->Some_0@.len());
    }
    assert(slot_of(reload).len() > 0) by {
        reveal_strlit("");
        let records = all_records(entries);
        lemma_snapshot_in_records(entries, p, 0);
        let i = choose|i: int| 0 <= i < records.len() && records[i] == kept[0];
        assert(in_category(kept[0], language));
        assert(record_matches(records[i], language, ""@));
        lemma_filter_complete(records, language, ""@, i);
        let found = matching(records, language, ""@);
        let k = choose|k: int| 0 <= k < found.len() && found[k] == records[i];
    }
}

} // verus!
