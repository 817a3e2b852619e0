//! What the import expects of the store, as a model.
//!
//! The store itself is out of this crate's hands. The model says what its
//! two relations hold and what the four statements of the import do to
//! them; the import's own guarantees are stated against it.

use vstd::prelude::*;

verus! {

/// One recorded score card: its id and the path of its file.
pub struct CardRow {
    pub score_card_id: i32,
    pub file_path: Seq<char>,
}

/// The two relations of the store: the cards in the store's own order, and
/// for every detail row the id of the card that owns it.
pub struct StoreModel {
    pub cards: Seq<CardRow>,
    pub details: Seq<i32>,
}

/// The id of the first card recorded for `path`, if there is one.
pub open spec fn first_card(cards: Seq<CardRow>, path: Seq<char>) -> Option<i32>
    decreases cards.len(),
{
    if cards.len() == 0 {
        None
    } else if cards[0].file_path == path {
        Some(cards[0].score_card_id)
    } else {
        first_card(cards.drop_first(), path)
    }
}

/// How many cards are recorded for `path`.
pub open spec fn count_cards(cards: Seq<CardRow>, path: Seq<char>) -> nat
    decreases cards.len(),
{
    if cards.len() == 0 {
        0
    } else {
        count_cards(cards.drop_last(), path) + if cards.last().file_path == path {
            1nat
        } else {
            0nat
        }
    }
}

/// How many of the detail rows belong to the card `id`.
pub open spec fn count_owned(details: Seq<i32>, id: i32) -> nat
    decreases details.len(),
{
    if details.len() == 0 {
        0
    } else {
        count_owned(details.drop_last(), id) + if details.last() == id {
            1nat
        } else {
            0nat
        }
    }
}

/// The detail rows without those of the card `id`, the others in their
/// order.
pub open spec fn remove_owned(details: Seq<i32>, id: i32) -> Seq<i32>
    decreases details.len(),
{
    if details.len() == 0 {
        Seq::<i32>::empty()
    } else if details.last() == id {
        remove_owned(details.drop_last(), id)
    } else {
        remove_owned(details.drop_last(), id).push(details.last())
    }
}

impl StoreModel {
    /// What the lookup of `path` answers.
    pub open spec fn lookup(self, path: Seq<char>) -> Option<i32> {
        first_card(self.cards, path)
    }

    /// How many cards the store holds for `path`.
    pub open spec fn card_count(self, path: Seq<char>) -> nat {
        count_cards(self.cards, path)
    }

    /// How many detail rows the store holds for the card `id`.
    pub open spec fn detail_count(self, id: i32) -> nat {
        count_owned(self.details, id)
    }

    /// The store after a card for `path` was recorded under `id`.
    pub open spec fn with_card(self, id: i32, path: Seq<char>) -> StoreModel {
        StoreModel {
            cards: self.cards.push(CardRow { score_card_id: id, file_path: path }),
            ..self
        }
    }

    /// The store after the detail rows of the card `id` were deleted.
    pub open spec fn without_details(self, id: i32) -> StoreModel {
        StoreModel { details: remove_owned(self.details, id), ..self }
    }

    /// The store after one detail row was recorded for the card `id`.
    pub open spec fn with_detail(self, id: i32) -> StoreModel {
        StoreModel { details: self.details.push(id), ..self }
    }
}

/// A path has a first card exactly when at least one card is recorded for
/// it.
pub proof fn lemma_lookup_counts(cards: Seq<CardRow>, path: Seq<char>)
    ensures
        first_card(cards, path) is Some <==> count_cards(cards, path) > 0,
    decreases cards.len(),
{
    if cards.len() > 0 {
        lemma_count_cards_front(cards, path);
        lemma_lookup_counts(cards.drop_first(), path);
    }
}

/// Counting the cards of a path from the front gives what counting them
/// from the back gives.
pub proof fn lemma_count_cards_front(cards: Seq<CardRow>, path: Seq<char>)
    requires
        cards.len() > 0,
    ensures
        count_cards(cards, path) == count_cards(cards.drop_first(), path) + if cards[0].file_path
            == path {
            1nat
        } else {
            0nat
        },
    decreases cards.len(),
{
    if cards.len() == 1 {
        assert(cards.drop_first() =~= cards.drop_last());
    } else {
        lemma_count_cards_front(cards.drop_last(), path);
        assert(cards.drop_last().drop_first() =~= cards.drop_first().drop_last());
    }
}

/// Recording a card adds one to the count of its path and leaves the
/// counts of the other paths; the lookup of a path that had a card still
/// finds the same one, and the path of the new card is found from then on.
pub proof fn lemma_with_card(store: StoreModel, id: i32, path: Seq<char>, other: Seq<char>)
    ensures
        store.with_card(id, path).card_count(other) == store.card_count(other) + if other == path {
            1nat
        } else {
            0nat
        },
        store.lookup(other) is Some ==> store.with_card(id, path).lookup(other) == store.lookup(
            other,
        ),
        store.with_card(id, path).lookup(path) is Some,
        store.with_card(id, path).details == store.details,
{
    let row = CardRow { score_card_id: id, file_path: path };
    assert(store.cards.push(row).drop_last() =~= store.cards);
    lemma_first_card_push(store.cards, row, other);
    lemma_first_card_push(store.cards, row, path);
}

/// The first card of a path after one more card was recorded at the end.
pub proof fn lemma_first_card_push(cards: Seq<CardRow>, row: CardRow, path: Seq<char>)
    ensures
        first_card(cards.push(row), path) == if first_card(cards, path) is Some {
            first_card(cards, path)
        } else if row.file_path == path {
            Some(row.score_card_id)
        } else {
            None
        },
    decreases cards.len(),
{
    if cards.len() == 0 {
        assert(cards.push(row).drop_first() =~= cards);
    } else {
        assert(cards.push(row).drop_first() =~= cards.drop_first().push(row));
        lemma_first_card_push(cards.drop_first(), row, path);
    }
}

/// Deleting the detail rows of a card leaves none of them, and leaves
/// every other card as many as it had. Where the card had none, nothing is
/// deleted at all.
pub proof fn lemma_without_details(store: StoreModel, id: i32, other: i32)
    ensures
        store.without_details(id).detail_count(id) == 0,
        other != id ==> store.without_details(id).detail_count(other) == store.detail_count(
            other,
        ),
        store.detail_count(id) == 0 ==> store.without_details(id) == store,
        store.without_details(id).cards == store.cards,
        store.without_details(id).details.len() + store.detail_count(id) == store.details.len(),
{
    lemma_remove_owned(store.details, id, other);
}

/// What `remove_owned` leaves of a sequence of owners.
pub proof fn lemma_remove_owned(details: Seq<i32>, id: i32, other: i32)
    ensures
        count_owned(remove_owned(details, id), id) == 0,
        other != id ==> count_owned(remove_owned(details, id), other) == count_owned(
            details,
            other,
        ),
        count_owned(details, id) == 0 ==> remove_owned(details, id) == details,
        remove_owned(details, id).len() + count_owned(details, id) == details.len(),
    decreases details.len(),
{
    if details.len() > 0 {
        let rest = details.drop_last();
        lemma_remove_owned(rest, id, other);
        if details.last() != id {
            assert(remove_owned(rest, id).push(details.last()).drop_last() =~= remove_owned(
                rest,
                id,
            ));
            if count_owned(details, id) == 0 {
                assert(rest.push(details.last()) =~= details);
            }
        }
    } else {
        assert(remove_owned(details, id) =~= details);
    }
}

/// Recording a detail row adds one to the count of its card and leaves the
/// counts of the other cards.
pub proof fn lemma_with_detail(store: StoreModel, id: i32, other: i32)
    ensures
        store.with_detail(id).detail_count(other) == store.detail_count(other) + if other == id {
            1nat
        } else {
            0nat
        },
        store.with_detail(id).cards == store.cards,
{
    assert(store.details.push(id).drop_last() =~= store.details);
}

} // verus!
