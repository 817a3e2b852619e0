use scorecard_import::card::{FileTimes, InsertReceipt, ScoreCard};
use scorecard_import::detail::{ScoreCardDetail, ScoreCardDetailCsv};
use scorecard_import::error::{AppError, NameFault};
use scorecard_import::time::PointInTime;

fn at(seconds: i64, nanos: u32) -> PointInTime {
    PointInTime { seconds, nanos }
}

fn times() -> FileTimes {
    FileTimes { created: at(1_623_700_000, 5), modified: at(1_623_710_000, 999_999_999) }
}

fn fresh_card() -> ScoreCard {
    ScoreCard::new("/data/score_card_210615.csv", "score_card_210615.csv", Some(times())).unwrap()
}

fn row() -> ScoreCardDetailCsv {
    ScoreCardDetailCsv {
        RoundId: 7,
        PlayerId: 42,
        PlayerName: String::from("Ada"),
        BallId: -3,
        Score: 71,
        HoleId: 18,
        HoleScore: 4,
        Start: at(1_623_740_400, 0),
        End: at(1_623_754_800, 250),
    }
}

#[test]
fn a_new_card_holds_what_it_was_given() {
    let card = fresh_card();
    assert_eq!(card.score_card_id, None);
    assert_eq!(card.file_path, "/data/score_card_210615.csv");
    assert_eq!(card.base_file_name, "score_card_210615.csv");
    assert_eq!(card.parsed_name_date, at(1_623_715_200, 0));
    assert_eq!(card.file_create_time, at(1_623_700_000, 5));
    assert_eq!(card.file_modified_time, at(1_623_710_000, 999_999_999));
    assert_eq!(card.import_time, None);
}

#[test]
fn a_card_needs_a_name_with_a_date() {
    let short = ScoreCard::new("/data/scores.csv", "scores.csv", Some(times()));
    assert_eq!(short.err(), Some(AppError::BadName(NameFault::TooShort)));
    let wrong = ScoreCard::new("/data/score_card_211315.csv", "score_card_211315.csv", Some(times()));
    assert_eq!(wrong.err(), Some(AppError::BadName(NameFault::InvalidDate)));
}

#[test]
fn a_card_needs_the_times_of_its_file() {
    let card = ScoreCard::new("/data/score_card_210615.csv", "score_card_210615.csv", None);
    assert_eq!(card.err(), Some(AppError::Io));
}

#[test]
fn a_bad_name_is_reported_before_missing_times() {
    let card = ScoreCard::new("/data/scores.csv", "scores.csv", None);
    assert_eq!(card.err(), Some(AppError::BadName(NameFault::TooShort)));
}

#[test]
fn the_date_comes_from_the_base_name_alone() {
    let card = ScoreCard::new("/d/210101/x", "score_card_210615.csv", Some(times())).unwrap();
    assert_eq!(card.parsed_name_date, at(1_623_715_200, 0));
    assert_eq!(card.file_path, "/d/210101/x");
}

#[test]
fn a_card_that_the_store_knows_takes_its_id() {
    let mut card = fresh_card();
    assert_eq!(card.exists_in_store(Ok(Some(12))), Ok(true));
    assert_eq!(card.score_card_id, Some(12));
    assert_eq!(card.import_time, None);
    assert_eq!(card.file_path, "/data/score_card_210615.csv");
    assert_eq!(card.base_file_name, "score_card_210615.csv");
}

#[test]
fn a_card_that_the_store_does_not_know_stays_as_it_was() {
    let mut card = fresh_card();
    assert_eq!(card.exists_in_store(Ok(None)), Ok(false));
    assert_eq!(card.score_card_id, None);
    assert_eq!(card.import_time, None);
}

#[test]
fn a_failed_lookup_leaves_the_card() {
    let mut card = fresh_card();
    assert_eq!(card.exists_in_store(Err(AppError::Store)), Err(AppError::Store));
    assert_eq!(card.score_card_id, None);
}

#[test]
fn an_inserted_card_takes_id_and_import_time() {
    let mut card = fresh_card();
    let receipt = InsertReceipt { score_card_id: 5, import_time: at(1_700_000_000, 123) };
    assert_eq!(card.insert(Ok(receipt)), Ok(()));
    assert_eq!(card.score_card_id, Some(5));
    assert_eq!(card.import_time, Some(at(1_700_000_000, 123)));
    assert_eq!(card.parsed_name_date, at(1_623_715_200, 0));
    assert_eq!(card.file_create_time, at(1_623_700_000, 5));
    assert_eq!(card.file_modified_time, at(1_623_710_000, 999_999_999));
}

#[test]
fn a_failed_insertion_leaves_the_card() {
    let mut card = fresh_card();
    assert_eq!(card.insert(Err(AppError::Store)), Err(AppError::Store));
    assert_eq!(card.score_card_id, None);
    assert_eq!(card.import_time, None);
}

#[test]
fn clearing_needs_the_id_of_the_card() {
    let card = fresh_card();
    assert_eq!(card.clear_score_card_detail(), Err(AppError::MissingValue));
}

#[test]
fn clearing_names_the_card_by_its_id() {
    let mut card = fresh_card();
    let receipt = InsertReceipt { score_card_id: 31, import_time: at(1, 0) };
    card.insert(Ok(receipt)).unwrap();
    assert_eq!(card.clear_score_card_detail(), Ok(31));
    let mut known = fresh_card();
    known.exists_in_store(Ok(Some(-8))).unwrap();
    assert_eq!(known.clear_score_card_detail(), Ok(-8));
}

#[test]
fn a_detail_takes_over_the_row_and_the_id_of_its_card() {
    let mut card = fresh_card();
    card.insert(Ok(InsertReceipt { score_card_id: 9, import_time: at(2, 0) })).unwrap();
    let detail = ScoreCardDetail::new(&card, &row());
    assert_eq!(detail.score_card_detail_id, None);
    assert_eq!(detail.score_card_id, 9);
    assert_eq!(detail.round_id, 7);
    assert_eq!(detail.player_id, 42);
    assert_eq!(detail.player_name, "Ada");
    assert_eq!(detail.ball_id, -3);
    assert_eq!(detail.score, 71);
    assert_eq!(detail.hole_id, 18);
    assert_eq!(detail.hole_score, 4);
    assert_eq!(detail.start_time, at(1_623_740_400, 0));
    assert_eq!(detail.end_time, at(1_623_754_800, 250));
}

#[test]
fn an_inserted_detail_takes_its_id() {
    let mut card = fresh_card();
    card.insert(Ok(InsertReceipt { score_card_id: 9, import_time: at(2, 0) })).unwrap();
    let mut detail = ScoreCardDetail::new(&card, &row());
    assert_eq!(detail.insert(Ok(1001)), Ok(()));
    assert_eq!(detail.score_card_detail_id, Some(1001));
    assert_eq!(detail.score_card_id, 9);
    assert_eq!(detail.player_name, "Ada");
}

#[test]
fn a_failed_insertion_leaves_the_detail() {
    let mut card = fresh_card();
    card.insert(Ok(InsertReceipt { score_card_id: 9, import_time: at(2, 0) })).unwrap();
    let mut detail = ScoreCardDetail::new(&card, &row());
    assert_eq!(detail.insert(Err(AppError::Store)), Err(AppError::Store));
    assert_eq!(detail.score_card_detail_id, None);
}

#[test]
fn error_kinds_have_their_tags() {
    assert_eq!(AppError::BadName(NameFault::TooShort).kind(), "bad_name");
    assert_eq!(AppError::BadName(NameFault::InvalidDate).kind(), "bad_name");
    assert_eq!(AppError::MissingValue.kind(), "missing_value");
    assert_eq!(AppError::Io.kind(), "io");
    assert_eq!(AppError::Store.kind(), "postgres");
    assert_eq!(AppError::Decode.kind(), "csv");
}
