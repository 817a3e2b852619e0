use csv::StringRecord;
use scorecard_import::card::ScoreCard;
use scorecard_import::error::{AppError, SchemaFault};
use scorecard_import::schema::{header_name, same_text};

const NAMES: [&str; 9] = [
    "RoundId",
    "PlayerId",
    "PlayerName",
    "BallId",
    "Score",
    "HoleId",
    "HoleScore",
    "Start",
    "End",
];

fn column(position: usize) -> Result<(), AppError> {
    Err(AppError::Schema(SchemaFault::Column { position }))
}

fn count(got: usize) -> Result<(), AppError> {
    Err(AppError::Schema(SchemaFault::Count { expected: 9, got }))
}

#[test]
fn the_expected_header_row_passes() {
    let headers = StringRecord::from(NAMES.to_vec());
    assert_eq!(ScoreCard::verify_headers(&headers), Ok(()));
}

#[test]
fn a_row_without_its_last_column_fails_for_its_count() {
    let headers = StringRecord::from(NAMES[..8].to_vec());
    assert_eq!(ScoreCard::verify_headers(&headers), count(8));
}

#[test]
fn a_row_with_a_column_too_many_fails_for_its_count() {
    let mut names = NAMES.to_vec();
    names.push("Extra");
    assert_eq!(ScoreCard::verify_headers(&StringRecord::from(names)), count(10));
}

#[test]
fn an_empty_row_fails_for_its_count() {
    assert_eq!(ScoreCard::verify_headers(&StringRecord::new()), count(0));
}

#[test]
fn the_count_is_judged_before_the_names() {
    let headers = StringRecord::from(vec!["wrong", "PlayerId"]);
    assert_eq!(ScoreCard::verify_headers(&headers), count(2));
}

#[test]
fn each_single_wrong_name_is_reported_at_its_position() {
    for position in 0..9 {
        let mut names = NAMES.to_vec();
        names[position] = "Other";
        let headers = StringRecord::from(names);
        assert_eq!(ScoreCard::verify_headers(&headers), column(position));
    }
}

#[test]
fn the_leftmost_wrong_name_is_reported() {
    let mut names = NAMES.to_vec();
    names[2] = "Name";
    names[5] = "Hole";
    names[8] = "Finish";
    assert_eq!(ScoreCard::verify_headers(&StringRecord::from(names)), column(2));
}

#[test]
fn two_swapped_names_are_reported_at_the_first_of_them() {
    let mut names = NAMES.to_vec();
    names.swap(7, 8);
    assert_eq!(ScoreCard::verify_headers(&StringRecord::from(names)), column(7));
}

#[test]
fn names_are_compared_to_the_letter() {
    let mut names = NAMES.to_vec();
    names[0] = "roundid";
    assert_eq!(ScoreCard::verify_headers(&StringRecord::from(names)), column(0));
    let mut names = NAMES.to_vec();
    names[4] = "Score ";
    assert_eq!(ScoreCard::verify_headers(&StringRecord::from(names)), column(4));
    let mut names = NAMES.to_vec();
    names[8] = "";
    assert_eq!(ScoreCard::verify_headers(&StringRecord::from(names)), column(8));
}

#[test]
fn verify_header_finds_a_name_in_its_place() {
    let headers = StringRecord::from(vec!["a", "b", "c"]);
    assert_eq!(ScoreCard::verify_header(&headers, "a", 0), Ok(()));
    assert_eq!(ScoreCard::verify_header(&headers, "b", 1), Ok(()));
    assert_eq!(ScoreCard::verify_header(&headers, "c", 2), Ok(()));
}

#[test]
fn verify_header_misses_a_name_out_of_place() {
    let headers = StringRecord::from(vec!["a", "b", "c"]);
    assert_eq!(ScoreCard::verify_header(&headers, "a", 1), column(1));
    assert_eq!(ScoreCard::verify_header(&headers, "B", 1), column(1));
    assert_eq!(ScoreCard::verify_header(&headers, "bb", 1), column(1));
}

#[test]
fn verify_header_misses_a_name_past_the_end() {
    let headers = StringRecord::from(vec!["a", "b", "c"]);
    assert_eq!(ScoreCard::verify_header(&headers, "c", 3), column(3));
    assert_eq!(ScoreCard::verify_header(&StringRecord::new(), "", 0), column(0));
}

#[test]
fn header_name_gives_the_nine_names_in_order() {
    for (position, name) in NAMES.iter().enumerate() {
        assert_eq!(header_name(position), Some(*name));
    }
    assert_eq!(header_name(9), None);
    assert_eq!(header_name(usize::MAX), None);
}

#[test]
fn header_name_names_the_column_of_a_fault() {
    let mut names = NAMES.to_vec();
    names[8] = "Stop";
    match ScoreCard::verify_headers(&StringRecord::from(names)) {
        Err(AppError::Schema(SchemaFault::Column { position })) => {
            assert_eq!(header_name(position), Some("End"));
        }
        other => panic!("unexpected verdict {:?}", other),
    }
}

#[test]
fn same_text_compares_whole_texts() {
    assert!(same_text("", ""));
    assert!(same_text("Start", "Start"));
    assert!(same_text("h\u{f4}le", "h\u{f4}le"));
    assert!(!same_text("Start", "start"));
    assert!(!same_text("Start", "Star"));
    assert!(!same_text("", "x"));
    assert!(!same_text("h\u{f4}le", "hole"));
}
