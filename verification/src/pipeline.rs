//! The import of one file, step by step.
//!
//! The import alternates work on the outside (the file system, the store,
//! the operator's terminal) with decisions. The decisions are here: a state
//! names the work to do next, and the outcome of that work leads to the next
//! state. Whoever drives the import performs the work and reports back.

use vstd::prelude::*;
use crate::error::AppError;

verus! {

/// What the lookup of a file's path found.
#[derive(Clone, Copy, Debug, PartialEq, Eq, Structural)]
pub enum Dedup {
    /// The store holds a card for the path, under this id: nothing is
    /// imported.
    Skip { score_card_id: i32 },
    /// The store holds no card for the path.
    New,
}

/// How far the import of one file has come.
#[derive(Clone, Copy, Debug, PartialEq, Eq, Structural)]
pub enum ImportState {
    /// Nothing is known of the file but its path.
    Start,
    /// The draft of the score card exists.
    MetadataDerived,
    /// The store was asked for the path.
    Deduped(Dedup),
    /// The store recorded the card under this id.
    HeaderInserted { score_card_id: i32 },
    /// No detail row of the card is left in the store.
    DetailsCleared { score_card_id: i32 },
    /// The header row is the expected one, and `rows` data rows are in the
    /// store.
    SchemaValidated { score_card_id: i32, rows: u64 },
    /// The file had `rows` data rows and all of them are in the store.
    RowsImported { score_card_id: i32, rows: u64 },
    /// The import of the file ended well.
    Done,
    /// The import of the file was given up.
    Failed(AppError),
}

/// The work that a state asks for.
#[derive(Clone, Copy, Debug, PartialEq, Eq, Structural)]
pub enum ImportAction {
    /// Read the file's times and make the draft of its score card.
    DeriveMetadata,
    /// Ask the store for a card with the file's path.
    CheckExists,
    /// Tell the operator that the file was imported before.
    NoticeAlreadyImported,
    /// Record the card in the store.
    InsertHeader,
    /// Delete the detail rows that the store holds for the card.
    ClearDetails { score_card_id: i32 },
    /// Open the file, read its header row and verify it.
    ValidateSchema,
    /// Decode the next data row, record it for the card and report it to
    /// the operator as row `number`.
    ImportRow { score_card_id: i32, number: u64 },
    /// Tell the operator that the rows are in.
    ReportImported { rows: u64 },
    /// Tell the operator that the file was skipped, and go to the next one.
    ReportSkipped(AppError),
    /// Go to the next file.
    Proceed,
}

/// What came of the work that was asked for.
#[derive(Clone, Copy, Debug, PartialEq, Eq, Structural)]
pub enum ImportEvent {
    /// The draft of the score card was made.
    MetadataReady,
    /// The store answered the lookup: the id of the card it holds for the
    /// path, if any.
    Looked { found: Option<i32> },
    /// The store recorded the card under this id.
    HeaderStored { score_card_id: i32 },
    /// The store deleted this many detail rows.
    DetailsDeleted { count: u64 },
    /// The header row passed.
    HeadersAccepted,
    /// One more data row is in the store.
    RowStored,
    /// The file has no further row.
    RowsExhausted,
    /// The operator was told.
    Reported,
    /// The work failed.
    Failure(AppError),
}

impl ImportState {
    /// Whether the import of the file is over.
    pub open spec fn is_terminal(self) -> bool {
        self is Done || self is Failed
    }

    /// The work that this state asks for.
    pub open spec fn action_spec(self) -> ImportAction {
        match self {
            ImportState::Start => ImportAction::DeriveMetadata,
            ImportState::MetadataDerived => ImportAction::CheckExists,
            ImportState::Deduped(Dedup::Skip { .. }) => ImportAction::NoticeAlreadyImported,
            ImportState::Deduped(Dedup::New) => ImportAction::InsertHeader,
            ImportState::HeaderInserted { score_card_id } => ImportAction::ClearDetails {
                score_card_id,
            },
            ImportState::DetailsCleared { .. } => ImportAction::ValidateSchema,
            ImportState::SchemaValidated { score_card_id, rows } => ImportAction::ImportRow {
                score_card_id,
                number: (rows + 1) as u64,
            },
            ImportState::RowsImported { rows, .. } => ImportAction::ReportImported { rows },
            ImportState::Done => ImportAction::Proceed,
            ImportState::Failed(e) => ImportAction::ReportSkipped(e),
        }
    }

    /// Whether `event` reports on the work that this state asks for.
    pub open spec fn expects(self, event: ImportEvent) -> bool {
        match (self, event) {
            (ImportState::Start, ImportEvent::MetadataReady) => true,
            (ImportState::MetadataDerived, ImportEvent::Looked { .. }) => true,
            (ImportState::Deduped(Dedup::Skip { .. }), ImportEvent::Reported) => true,
            (ImportState::Deduped(Dedup::New), ImportEvent::HeaderStored { .. }) => true,
            (ImportState::HeaderInserted { .. }, ImportEvent::DetailsDeleted { .. }) => true,
            (ImportState::DetailsCleared { .. }, ImportEvent::HeadersAccepted) => true,
            (ImportState::SchemaValidated { .. }, ImportEvent::RowStored) => true,
            (ImportState::SchemaValidated { .. }, ImportEvent::RowsExhausted) => true,
            (ImportState::RowsImported { .. }, ImportEvent::Reported) => true,
            (_, ImportEvent::Failure(_)) => !self.is_terminal(),
            _ => false,
        }
    }

    /// The state that follows this one on `event`.
    ///
    /// A failure ends the import of the file from every state in which it is
    /// still under way. An event that does not report on the work asked for
    /// leaves the state as it is, and so does every event once the import is
    /// over.
    pub open spec fn advance_spec(self, event: ImportEvent) -> ImportState {
        if !self.expects(event) {
            self
        } else {
            match (self, event) {
                (_, ImportEvent::Failure(e)) => ImportState::Failed(e),
                (ImportState::Start, _) => ImportState::MetadataDerived,
                (ImportState::MetadataDerived, ImportEvent::Looked { found: Some(id) }) => {
                    ImportState::Deduped(Dedup::Skip { score_card_id: id })
                },
                (ImportState::MetadataDerived, _) => ImportState::Deduped(Dedup::New),
                (ImportState::Deduped(Dedup::Skip { .. }), _) => ImportState::Done,
                (ImportState::Deduped(Dedup::New), ImportEvent::HeaderStored { score_card_id }) => {
                    ImportState::HeaderInserted { score_card_id }
                },
                (ImportState::HeaderInserted { score_card_id }, _) => {
                    ImportState::DetailsCleared { score_card_id }
                },
                (ImportState::DetailsCleared { score_card_id }, _) => {
                    ImportState::SchemaValidated { score_card_id, rows: 0 }
                },
                (ImportState::SchemaValidated { score_card_id, rows }, ImportEvent::RowStored) => {
                    ImportState::SchemaValidated { score_card_id, rows: (rows + 1) as u64 }
                },
                (ImportState::SchemaValidated { score_card_id, rows }, _) => {
                    ImportState::RowsImported { score_card_id, rows }
                },
                (ImportState::RowsImported { .. }, _) => ImportState::Done,
                _ => self,
            }
        }
    }

    /// Whether one more row can be counted in this state.
    pub open spec fn has_room(self) -> bool {
        self matches ImportState::SchemaValidated { rows, .. } ==> rows < u64::MAX
    }

    /// The state in which the import of every file begins.
    pub fn start() -> (state: ImportState)
        ensures
            state == ImportState::Start,
    {
        ImportState::Start
    }

    /// Whether the import of the file is over, well or not.
    pub fn terminal(&self) -> (over: bool)
        ensures
            over == self.is_terminal(),
    {
        match self {
            ImportState::Done => true,
            ImportState::Failed(_) => true,
            _ => false,
        }
    }

    /// The work to do next.
    pub fn action(&self) -> (action: ImportAction)
        requires
            self.has_room(),
        ensures
            action == self.action_spec(),
    {
        match *self {
            ImportState::Start => ImportAction::DeriveMetadata,
            ImportState::MetadataDerived => ImportAction::CheckExists,
            ImportState::Deduped(Dedup::Skip { .. }) => ImportAction::NoticeAlreadyImported,
            ImportState::Deduped(Dedup::New) => ImportAction::InsertHeader,
            ImportState::HeaderInserted { score_card_id } => ImportAction::ClearDetails {
                score_card_id,
            },
            ImportState::DetailsCleared { .. } => ImportAction::ValidateSchema,
            ImportState::SchemaValidated { score_card_id, rows } => ImportAction::ImportRow {
                score_card_id,
                number: rows + 1,
            },
            ImportState::RowsImported { rows, .. } => ImportAction::ReportImported { rows },
            ImportState::Done => ImportAction::Proceed,
            ImportState::Failed(e) => ImportAction::ReportSkipped(e),
        }
    }

    /// Takes in the outcome of the work that was asked for.
    pub fn advance(self, event: ImportEvent) -> (next: ImportState)
        requires
            self.has_room(),
        ensures
            next == self.advance_spec(event),
    {
        match (self, event) {
            (ImportState::Done, _) => self,
            (ImportState::Failed(_), _) => self,
            (_, ImportEvent::Failure(e)) => ImportState::Failed(e),
            (ImportState::Start, ImportEvent::MetadataReady) => ImportState::MetadataDerived,
            (ImportState::MetadataDerived, ImportEvent::Looked { found }) => match found {
                Some(id) => ImportState::Deduped(Dedup::Skip { score_card_id: id }),
                None => ImportState::Deduped(Dedup::New),
            },
            (ImportState::Deduped(Dedup::Skip { .. }), ImportEvent::Reported) => ImportState::Done,
            (ImportState::Deduped(Dedup::New), ImportEvent::HeaderStored { score_card_id }) => {
                ImportState::HeaderInserted { score_card_id }
            },
            (ImportState::HeaderInserted { score_card_id }, ImportEvent::DetailsDeleted { .. }) => {
                ImportState::DetailsCleared { score_card_id }
            },
            (ImportState::DetailsCleared { score_card_id }, ImportEvent::HeadersAccepted) => {
                ImportState::SchemaValidated { score_card_id, rows: 0 }
            },
            (ImportState::SchemaValidated { score_card_id, rows }, ImportEvent::RowStored) => {
                ImportState::SchemaValidated { score_card_id, rows: rows + 1 }
            },
            (ImportState::SchemaValidated { score_card_id, rows }, ImportEvent::RowsExhausted) => {
                ImportState::RowsImported { score_card_id, rows }
            },
            (ImportState::RowsImported { .. }, ImportEvent::Reported) => ImportState::Done,
            _ => self,
        }
    }
}

} // verus!
