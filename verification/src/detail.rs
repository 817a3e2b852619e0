//! The detail entity: one data row of a score file.

use vstd::prelude::*;
use vstd::string::*;
use crate::card::ScoreCard;
use crate::error::AppError;
use crate::time::PointInTime;

verus! {

/// A data row as it is decoded from a score file, one field per column.
#[allow(non_snake_case)]
#[derive(Clone, Debug)]
pub struct ScoreCardDetailCsv {
    pub RoundId: i32,
    pub PlayerId: i32,
    pub PlayerName: String,
    pub BallId: i32,
    pub Score: i16,
    pub HoleId: i16,
    pub HoleScore: i16,
    pub Start: PointInTime,
    pub End: PointInTime,
}

/// One data row of a score card, before and after it is recorded in the
/// store. `score_card_detail_id` is handed out by the store.
#[derive(Clone, Debug)]
pub struct ScoreCardDetail {
    pub score_card_detail_id: Option<i32>,
    pub score_card_id: i32,
    pub round_id: i32,
    pub player_id: i32,
    pub player_name: String,
    pub ball_id: i32,
    pub score: i16,
    pub hole_id: i16,
    pub hole_score: i16,
    pub start_time: PointInTime,
    pub end_time: PointInTime,
}

/// A detail row as plain values.
pub struct ScoreCardDetailModel {
    pub score_card_detail_id: Option<i32>,
    pub score_card_id: i32,
    pub round_id: i32,
    pub player_id: i32,
    pub player_name: Seq<char>,
    pub ball_id: i32,
    pub score: i16,
    pub hole_id: i16,
    pub hole_score: i16,
    pub start_time: PointInTime,
    pub end_time: PointInTime,
}

impl View for ScoreCardDetail {
    type V = ScoreCardDetailModel;

    open spec fn view(&self) -> ScoreCardDetailModel {
        ScoreCardDetailModel {
            score_card_detail_id: self.score_card_detail_id,
            score_card_id: self.score_card_id,
            round_id: self.round_id,
            player_id: self.player_id,
            player_name: self.player_name@,
            ball_id: self.ball_id,
            score: self.score,
            hole_id: self.hole_id,
            hole_score: self.hole_score,
            start_time: self.start_time,
            end_time: self.end_time,
        }
    }
}

impl ScoreCardDetail {
    /// Makes the draft of a detail row of the card `sc` from a decoded row:
    /// the payload is taken over as it stands. The card must have its id.
    pub fn new(sc: &ScoreCard, csv: &ScoreCardDetailCsv) -> (detail: ScoreCardDetail)
        requires
            sc.score_card_id is Some,
        ensures
            detail@ == (ScoreCardDetailModel {
                score_card_detail_id: None,
                score_card_id: sc.score_card_id->Some_0,
                round_id: csv.RoundId,
                player_id: csv.PlayerId,
                player_name: csv.PlayerName@,
                ball_id: csv.BallId,
                score: csv.Score,
                hole_id: csv.HoleId,
                hole_score: csv.HoleScore,
                start_time: csv.Start,
                end_time: csv.End,
            }),
    {
        let score_card_id = match sc.score_card_id {
            Some(id) => id,
            None => 0,
        };
        ScoreCardDetail {
            score_card_detail_id: None,
            score_card_id,
            round_id: csv.RoundId,
            player_id: csv.PlayerId,
            player_name: csv.PlayerName.clone(),
            ball_id: csv.BallId,
            score: csv.Score,
            hole_id: csv.HoleId,
            hole_score: csv.HoleScore,
            start_time: csv.Start,
            end_time: csv.End,
        }
    }

    /// Takes in the store's reply to the insertion of this row: the id that
    /// the store gave it. Where the insertion failed, the row stays as it
    /// was.
    pub fn insert(&mut self, reply: Result<i32, AppError>) -> (r: Result<(), AppError>)
        ensures
            r == match reply {
                Ok(_) => Ok::<(), AppError>(()),
                Err(e) => Err(e),
            },
            final(self)@ == match reply {
                Ok(id) => (ScoreCardDetailModel { score_card_detail_id: Some(id), ..old(self)@ }),
                Err(_) => old(self)@,
            },
    {
        match reply {
            Ok(id) => {
                self.score_card_detail_id = Some(id);
                Ok(())
            },
            Err(e) => Err(e),
        }
    }
}

} // verus!
