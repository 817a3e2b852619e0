//! The import of a file played against the model of the store.
//!
//! A run is the sequence of outcomes that the driver reports, each one an
//! answer that the store could give to the work asked for. What a run leaves
//! in the store, and what the operator is told on the way, follows from the
//! states alone.

use vstd::prelude::*;
use crate::pipeline::{Dedup, ImportAction, ImportEvent, ImportState};
use crate::store::{lemma_lookup_counts, lemma_with_card, lemma_with_detail, lemma_without_details, StoreModel};

verus! {

/// The store after the work that `state` asked for, on the file at `path`,
/// ended in `event`. Work that failed leaves the store as it was.
pub open spec fn store_after(
    store: StoreModel,
    path: Seq<char>,
    state: ImportState,
    event: ImportEvent,
) -> StoreModel {
    match (state, event) {
        (ImportState::Deduped(Dedup::New), ImportEvent::HeaderStored { score_card_id }) => {
            store.with_card(score_card_id, path)
        },
        (ImportState::HeaderInserted { score_card_id }, ImportEvent::DetailsDeleted { .. }) => {
            store.without_details(score_card_id)
        },
        (ImportState::SchemaValidated { score_card_id, .. }, ImportEvent::RowStored) => {
            store.with_detail(score_card_id)
        },
        _ => store,
    }
}

/// Whether `event` is an outcome that the work asked for by `state` can
/// have while the store holds `store`: it reports on that work, a lookup
/// tells what the store holds, and a deletion counts what it deleted.
pub open spec fn answers(
    store: StoreModel,
    path: Seq<char>,
    state: ImportState,
    event: ImportEvent,
) -> bool {
    &&& state.expects(event)
    &&& state.has_room()
    &&& match (state, event) {
        (ImportState::MetadataDerived, ImportEvent::Looked { found }) => found == store.lookup(
            path,
        ),
        (ImportState::HeaderInserted { score_card_id }, ImportEvent::DetailsDeleted { count }) => {
            count == store.detail_count(score_card_id)
        },
        _ => true,
    }
}

/// Whether each of `events` answers the work asked for at its point of the
/// run that starts in `state` with the store holding `store`.
pub open spec fn consistent(
    store: StoreModel,
    path: Seq<char>,
    state: ImportState,
    events: Seq<ImportEvent>,
) -> bool
    decreases events.len(),
{
    events.len() == 0 || (answers(store, path, state, events[0]) && consistent(
        store_after(store, path, state, events[0]),
        path,
        state.advance_spec(events[0]),
        events.drop_first(),
    ))
}

/// The state in which the run of `events` from `state` ends.
pub open spec fn final_state(state: ImportState, events: Seq<ImportEvent>) -> ImportState
    decreases events.len(),
{
    if events.len() == 0 {
        state
    } else {
        final_state(state.advance_spec(events[0]), events.drop_first())
    }
}

/// What the store holds after the run of `events` from `state`.
pub open spec fn final_store(
    store: StoreModel,
    path: Seq<char>,
    state: ImportState,
    events: Seq<ImportEvent>,
) -> StoreModel
    decreases events.len(),
{
    if events.len() == 0 {
        store
    } else {
        final_store(
            store_after(store, path, state, events[0]),
            path,
            state.advance_spec(events[0]),
            events.drop_first(),
        )
    }
}

/// Clearing the detail rows of a card leaves none of them, whatever was
/// there: the store reports how many it deleted, the rows of other cards
/// stay, and the import goes on. Where the card had no detail rows the
/// report is 0 and the store is left as it was.
pub proof fn lemma_clear_details(
    store: StoreModel,
    path: Seq<char>,
    score_card_id: i32,
    event: ImportEvent,
    other: i32,
)
    requires
        answers(store, path, ImportState::HeaderInserted { score_card_id }, event),
        !(event is Failure),
    ensures
        event == (ImportEvent::DetailsDeleted { count: store.detail_count(score_card_id) as u64 }),
        store.detail_count(score_card_id) <= u64::MAX,
        (ImportState::HeaderInserted { score_card_id }).advance_spec(event) == (
        ImportState::DetailsCleared { score_card_id }),
        store_after(
            store,
            path,
            ImportState::HeaderInserted { score_card_id },
            event,
        ).detail_count(score_card_id) == 0,
        other != score_card_id ==> store_after(
            store,
            path,
            ImportState::HeaderInserted { score_card_id },
            event,
        ).detail_count(other) == store.detail_count(other),
        store.detail_count(score_card_id) == 0 ==> store_after(
            store,
            path,
            ImportState::HeaderInserted { score_card_id },
            event,
        ) == store,
{
    lemma_without_details(store, score_card_id, other);
}

/// Whether `action` is among the work that was asked for and done in the
/// run of `events` from `state`.
pub open spec fn asked(state: ImportState, events: Seq<ImportEvent>, action: ImportAction) -> bool
    decreases events.len(),
{
    events.len() > 0 && (state.action_spec() == action || asked(
        state.advance_spec(events[0]),
        events.drop_first(),
        action,
    ))
}

/// Whether `action` changes what the store holds.
pub open spec fn writes(action: ImportAction) -> bool {
    action is InsertHeader || action is ClearDetails || action is ImportRow
}

/// The states of an import that has found its file in the store, or that
/// will find it there, or that is over.
pub open spec fn on_skip_path(store: StoreModel, path: Seq<char>, state: ImportState) -> bool {
    match state {
        ImportState::Start => store.lookup(path) is Some,
        ImportState::MetadataDerived => store.lookup(path) is Some,
        ImportState::Deduped(Dedup::Skip { .. }) => true,
        ImportState::Done => true,
        ImportState::Failed(_) => true,
        _ => false,
    }
}

/// The import of a file that the store knows writes nothing: whatever the
/// outcomes, the store is left as it was and no work that writes is asked
/// for. Where the import ends well, the operator was told that the file was
/// imported before.
pub proof fn lemma_known_file_is_skipped(
    store: StoreModel,
    path: Seq<char>,
    state: ImportState,
    events: Seq<ImportEvent>,
)
    requires
        on_skip_path(store, path, state),
        consistent(store, path, state, events),
    ensures
        final_store(store, path, state, events) == store,
        forall|action: ImportAction| writes(action) ==> !asked(state, events, action),
        final_state(state, events) is Done && !(state is Done) ==> asked(
            state,
            events,
            ImportAction::NoticeAlreadyImported,
        ),
        on_skip_path(store, path, final_state(state, events)),
    decreases events.len(),
{
    if events.len() > 0 {
        let next = state.advance_spec(events[0]);
        let rest = events.drop_first();
        assert(store_after(store, path, state, events[0]) == store);
        lemma_known_file_is_skipped(store, path, next, rest);
        assert forall|action: ImportAction| writes(action) implies !asked(
            state,
            events,
            action,
        ) by {
            assert(!asked(next, rest, action));
        }
    }
}

/// What an import that found no card for its file has made of the store
/// by the time it is in `state`: up to the insertion nothing, from then on
/// one card for the path, and once the rows are counted, as many detail
/// rows for that card as were counted.
pub open spec fn on_import_path(
    before: StoreModel,
    store: StoreModel,
    path: Seq<char>,
    state: ImportState,
) -> bool {
    match state {
        ImportState::Start => store == before && before.lookup(path) is None,
        ImportState::MetadataDerived => store == before && before.lookup(path) is None,
        ImportState::Deduped(Dedup::New) => store == before && before.lookup(path) is None,
        ImportState::Deduped(Dedup::Skip { .. }) => false,
        ImportState::HeaderInserted { .. } => store.card_count(path) == 1,
        ImportState::DetailsCleared { score_card_id } => store.card_count(path) == 1
            && store.detail_count(score_card_id) == 0,
        ImportState::SchemaValidated { score_card_id, rows } => store.card_count(path) == 1
            && store.detail_count(score_card_id) == rows,
        ImportState::RowsImported { score_card_id, rows } => store.card_count(path) == 1
            && store.detail_count(score_card_id) == rows,
        ImportState::Done => store.card_count(path) == 1,
        ImportState::Failed(_) => store.card_count(path) <= 1,
    }
}

/// The import of a file that the store does not know keeps
/// `on_import_path` from step to step: it records at most one card for the
/// path, exactly one where it ends well, and the rows it counts are the
/// detail rows that the store holds for that card.
pub proof fn lemma_new_file_is_recorded(
    before: StoreModel,
    store: StoreModel,
    path: Seq<char>,
    state: ImportState,
    events: Seq<ImportEvent>,
)
    requires
        on_import_path(before, store, path, state),
        consistent(store, path, state, events),
    ensures
        on_import_path(
            before,
            final_store(store, path, state, events),
            path,
            final_state(state, events),
        ),
    decreases events.len(),
{
    if events.len() > 0 {
        let event = events[0];
        let next = state.advance_spec(event);
        let after = store_after(store, path, state, event);
        lemma_lookup_counts(before.cards, path);
        match (state, event) {
            (ImportState::Deduped(Dedup::New), ImportEvent::HeaderStored { score_card_id }) => {
                lemma_with_card(store, score_card_id, path, path);
            },
            (ImportState::HeaderInserted { score_card_id }, ImportEvent::DetailsDeleted { .. }) => {
                lemma_without_details(store, score_card_id, score_card_id);
            },
            (ImportState::SchemaValidated { score_card_id, .. }, ImportEvent::RowStored) => {
                lemma_with_detail(store, score_card_id, score_card_id);
            },
            _ => {},
        }
        lemma_new_file_is_recorded(before, after, path, next, events.drop_first());
    }
}

/// Importing a file twice is importing it once. Where the first import of
/// a file ends well, the store holds a card for its path; a second import
/// then leaves the store as the first one left it, cards and detail rows
/// alike, asks for no work that writes, and, where it ends well too, has
/// told the operator that the file was imported before. Where the store
/// held no card for the path at the outset, it holds exactly one after
/// both.
pub proof fn lemma_import_twice(
    store: StoreModel,
    path: Seq<char>,
    first: Seq<ImportEvent>,
    second: Seq<ImportEvent>,
)
    requires
        consistent(store, path, ImportState::Start, first),
        final_state(ImportState::Start, first) is Done,
        consistent(final_store(store, path, ImportState::Start, first), path, ImportState::Start, second),
    ensures
        final_store(store, path, ImportState::Start, first).lookup(path) is Some,
        final_store(
            final_store(store, path, ImportState::Start, first),
            path,
            ImportState::Start,
            second,
        ) == final_store(store, path, ImportState::Start, first),
        forall|action: ImportAction| writes(action) ==> !asked(ImportState::Start, second, action),
        final_state(ImportState::Start, second) is Done ==> asked(
            ImportState::Start,
            second,
            ImportAction::NoticeAlreadyImported,
        ),
        store.lookup(path) is None ==> final_store(store, path, ImportState::Start, first).card_count(
            path,
        ) == 1,
{
    let once = final_store(store, path, ImportState::Start, first);
    if store.lookup(path) is Some {
        lemma_known_file_is_skipped(store, path, ImportState::Start, first);
    } else {
        lemma_new_file_is_recorded(store, store, path, ImportState::Start, first);
        lemma_lookup_counts(once.cards, path);
    }
    lemma_known_file_is_skipped(once, path, ImportState::Start, second);
}

} // verus!
