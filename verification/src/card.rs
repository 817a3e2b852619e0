//! The header entity: one imported source file.

use vstd::prelude::*;
use vstd::string::*;
use crate::codec::name_instant;
use crate::error::AppError;
use crate::time::PointInTime;

verus! {

/// What the file system knows of a file's age.
#[derive(Clone, Copy, Debug, PartialEq, Eq, Structural)]
pub struct FileTimes {
    pub created: PointInTime,
    pub modified: PointInTime,
}

/// One source file, before and after it is recorded in the store.
///
/// `score_card_id` and `import_time` are handed out by the store; both are
/// unset on a fresh value.
#[derive(Clone, Debug)]
pub struct ScoreCard {
    pub score_card_id: Option<i32>,
    pub file_path: String,
    pub base_file_name: String,
    pub parsed_name_date: PointInTime,
    pub file_create_time: PointInTime,
    pub file_modified_time: PointInTime,
    pub import_time: Option<PointInTime>,
}

/// A score card as plain values.
pub struct ScoreCardModel {
    pub score_card_id: Option<i32>,
    pub file_path: Seq<char>,
    pub base_file_name: Seq<char>,
    pub parsed_name_date: PointInTime,
    pub file_create_time: PointInTime,
    pub file_modified_time: PointInTime,
    pub import_time: Option<PointInTime>,
}

impl View for ScoreCard {
    type V = ScoreCardModel;

    open spec fn view(&self) -> ScoreCardModel {
        ScoreCardModel {
            score_card_id: self.score_card_id,
            file_path: self.file_path@,
            base_file_name: self.base_file_name@,
            parsed_name_date: self.parsed_name_date,
            file_create_time: self.file_create_time,
            file_modified_time: self.file_modified_time,
            import_time: self.import_time,
        }
    }
}

/// What the store hands back when it has recorded a score card.
#[derive(Clone, Copy, Debug, PartialEq, Eq, Structural)]
pub struct InsertReceipt {
    pub score_card_id: i32,
    pub import_time: PointInTime,
}

impl ScoreCard {
    /// Whether the value hangs together: the date is the one that the base
    /// file name stands for, and an import time is known only of a card
    /// that has its id.
    pub open spec fn well_formed(&self) -> bool {
        &&& name_instant(self.base_file_name@) == Ok::<PointInTime, AppError>(
            self.parsed_name_date,
        )
        &&& self.import_time is Some ==> self.score_card_id is Some
    }

    /// Makes the draft of a score card for the file at `file_path`, whose
    /// last path segment is `base_file_name` and of which the file system
    /// reported `times` (`None` where it could not).
    ///
    /// The name is judged first: a name without a date fails as the codec
    /// says, whatever the file system reported. A file without times fails
    /// with `Io`.
    pub fn new(file_path: &str, base_file_name: &str, times: Option<FileTimes>) -> (r: Result<
        ScoreCard,
        AppError,
    >)
        ensures
            match name_instant(base_file_name@) {
                Err(e) => r matches Err(x) && x == e,
                Ok(date) => match times {
                    None => r matches Err(x) && x == AppError::Io,
                    Some(t) => r matches Ok(card) && card@ == (ScoreCardModel {
                        score_card_id: None,
                        file_path: file_path@,
                        base_file_name: base_file_name@,
                        parsed_name_date: date,
                        file_create_time: t.created,
                        file_modified_time: t.modified,
                        import_time: None,
                    }),
                },
            },
            r matches Ok(card) ==> card.well_formed(),
    {
        let parsed_name_date = match Self::systime_from_file_name(base_file_name) {
            Ok(date) => date,
            Err(e) => {
                return Err(e);
            },
        };
        let times = match times {
            Some(t) => t,
            None => {
                return Err(AppError::Io);
            },
        };
        Ok(
            ScoreCard {
                score_card_id: None,
                file_path: file_path.to_owned(),
                base_file_name: base_file_name.to_owned(),
                parsed_name_date,
                file_create_time: times.created,
                file_modified_time: times.modified,
                import_time: None,
            },
        )
    }

    /// Takes in the store's reply to the lookup of this card's file path:
    /// the id of the first card recorded for that path, if there is one.
    ///
    /// A card that the store knows gets that id and the answer is `true`.
    /// Otherwise, and where the lookup failed, the card stays as it was.
    pub fn exists_in_store(&mut self, reply: Result<Option<i32>, AppError>) -> (r: Result<bool, AppError>)
        ensures
            r == match reply {
                Ok(found) => Ok::<bool, AppError>(found is Some),
                Err(e) => Err(e),
            },
            final(self)@ == match reply {
                Ok(Some(id)) => (ScoreCardModel { score_card_id: Some(id), ..old(self)@ }),
                _ => old(self)@,
            },
            old(self).well_formed() ==> final(self).well_formed(),
    {
        match reply {
            Ok(Some(id)) => {
                self.score_card_id = Some(id);
                Ok(true)
            },
            Ok(None) => Ok(false),
            Err(e) => Err(e),
        }
    }

    /// Takes in the store's reply to the insertion of this card: the id and
    /// the import time that the store gave it.
    ///
    /// Only a card without an id may be inserted. Where the insertion
    /// failed, the card stays as it was.
    pub fn insert(&mut self, reply: Result<InsertReceipt, AppError>) -> (r: Result<(), AppError>)
        requires
            old(self).score_card_id is None,
        ensures
            r == match reply {
                Ok(_) => Ok::<(), AppError>(()),
                Err(e) => Err(e),
            },
            final(self)@ == match reply {
                Ok(receipt) => (ScoreCardModel {
                    score_card_id: Some(receipt.score_card_id),
                    import_time: Some(receipt.import_time),
                    ..old(self)@
                }),
                Err(_) => old(self)@,
            },
            old(self).well_formed() ==> final(self).well_formed(),
    {
        match reply {
            Ok(receipt) => {
                self.score_card_id = Some(receipt.score_card_id);
                self.import_time = Some(receipt.import_time);
                Ok(())
            },
            Err(e) => Err(e),
        }
    }

    /// Names the card whose detail rows are to be deleted: this card's id.
    ///
    /// A card without an id has no detail rows to name.
    pub fn clear_score_card_detail(&self) -> (r: Result<i32, AppError>)
        ensures
            r == match self.score_card_id {
                Some(id) => Ok::<i32, AppError>(id),
                None => Err(AppError::MissingValue),
            },
    {
        match self.score_card_id {
            Some(id) => Ok(id),
            None => Err(AppError::MissingValue),
        }
    }
}

} // verus!
