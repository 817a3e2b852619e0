use scorecard_import::card::ScoreCard;
use scorecard_import::error::{AppError, NameFault};
use scorecard_import::time::PointInTime;

fn midnight(seconds: i64) -> Result<PointInTime, AppError> {
    Ok(PointInTime { seconds, nanos: 0 })
}

#[test]
fn date_tag_is_the_six_bytes_from_offset_eleven() {
    let tag = ScoreCard::date_tag_from_file_name("score_card_210615.csv");
    assert_eq!(tag, Ok(String::from("210615")));
}

#[test]
fn date_tag_of_a_name_of_eighteen_bytes() {
    let name = "abcdefghijk210615z";
    assert_eq!(name.len(), 18);
    assert_eq!(ScoreCard::date_tag_from_file_name(name), Ok(String::from("210615")));
}

#[test]
fn date_tag_of_a_name_of_seventeen_bytes_is_too_short() {
    let name = "abcdefghijk210615";
    assert_eq!(name.len(), 17);
    assert_eq!(
        ScoreCard::date_tag_from_file_name(name),
        Err(AppError::BadName(NameFault::TooShort))
    );
}

#[test]
fn date_tag_of_short_names_is_too_short() {
    for name in ["", "a", "scores.csv", "0123456789abcdef"] {
        assert_eq!(
            ScoreCard::date_tag_from_file_name(name),
            Err(AppError::BadName(NameFault::TooShort))
        );
        assert_eq!(
            ScoreCard::systime_from_file_name(name),
            Err(AppError::BadName(NameFault::TooShort))
        );
    }
}

#[test]
fn date_tag_is_taken_as_it_stands() {
    assert_eq!(
        ScoreCard::date_tag_from_file_name("score_card_ab-d f.csv"),
        Ok(String::from("ab-d f"))
    );
}

#[test]
fn date_tag_counts_bytes_not_characters() {
    // Seventeen characters in eighteen bytes: long enough, and the tag
    // starts at the eleventh byte, which is the tenth character.
    let name = "\u{e9}bcdefghij210615z";
    assert_eq!(name.chars().count(), 17);
    assert_eq!(name.len(), 18);
    assert_eq!(ScoreCard::date_tag_from_file_name(name), Ok(String::from("210615")));
    assert_eq!(
        ScoreCard::systime_from_file_name(name),
        Ok(PointInTime { seconds: 1_623_715_200, nanos: 0 })
    );
}

#[test]
fn date_tag_that_cuts_a_character_is_no_date() {
    // Byte 11 is the second byte of a two-byte character.
    let front = "abcdefghij\u{e9}210615.csv";
    assert!(!front.is_char_boundary(11));
    assert_eq!(
        ScoreCard::date_tag_from_file_name(front),
        Err(AppError::BadName(NameFault::InvalidDate))
    );
    // Byte 17 is the second byte of a two-byte character.
    let back = "abcdefghijk21061\u{e9}.csv";
    assert!(back.is_char_boundary(11) && !back.is_char_boundary(17));
    assert_eq!(
        ScoreCard::date_tag_from_file_name(back),
        Err(AppError::BadName(NameFault::InvalidDate))
    );
}

#[test]
fn systime_is_midnight_utc_of_the_tagged_day() {
    assert_eq!(ScoreCard::systime_from_file_name("score_card_210615.csv"), midnight(1_623_715_200));
}

#[test]
fn systime_of_the_first_day_of_the_epoch() {
    assert_eq!(ScoreCard::systime_from_file_name("score_card_700101.csv"), midnight(0));
}

#[test]
fn systime_takes_years_below_seventy_for_the_two_thousands() {
    assert_eq!(ScoreCard::systime_from_file_name("score_card_000101.csv"), midnight(946_684_800));
    assert_eq!(ScoreCard::systime_from_file_name("score_card_691231.csv"), midnight(3_155_673_600));
}

#[test]
fn systime_takes_years_from_seventy_for_the_nineteen_hundreds() {
    assert_eq!(ScoreCard::systime_from_file_name("score_card_991231.csv"), midnight(946_598_400));
    assert_eq!(ScoreCard::systime_from_file_name("score_card_990101.csv"), midnight(915_148_800));
}

#[test]
fn systime_knows_leap_days() {
    assert_eq!(ScoreCard::systime_from_file_name("score_card_000229.csv"), midnight(951_782_400));
    assert_eq!(ScoreCard::systime_from_file_name("score_card_240229.csv"), midnight(1_709_164_800));
    assert_eq!(
        ScoreCard::systime_from_file_name("score_card_210229.csv"),
        Err(AppError::BadName(NameFault::InvalidDate))
    );
}

#[test]
fn systime_turns_down_days_that_do_not_exist() {
    for name in [
        "score_card_211301.csv",
        "score_card_210001.csv",
        "score_card_210100.csv",
        "score_card_210132.csv",
        "score_card_210431.csv",
        "score_card_210631.csv",
    ] {
        assert_eq!(
            ScoreCard::systime_from_file_name(name),
            Err(AppError::BadName(NameFault::InvalidDate))
        );
    }
}

#[test]
fn systime_turns_down_tags_that_are_no_numbers() {
    for name in ["score_card_abcdef.csv", "score_card_2021-6.csv", "score_card_______.csv"] {
        assert_eq!(
            ScoreCard::systime_from_file_name(name),
            Err(AppError::BadName(NameFault::InvalidDate))
        );
    }
}

#[test]
fn systime_of_every_month_end_of_a_common_year() {
    let ends = [
        ("230131", 1_675_123_200i64),
        ("230228", 1_677_542_400),
        ("230331", 1_680_220_800),
        ("230430", 1_682_812_800),
        ("230531", 1_685_491_200),
        ("230630", 1_688_083_200),
        ("230731", 1_690_761_600),
        ("230831", 1_693_440_000),
        ("230930", 1_696_032_000),
        ("231031", 1_698_710_400),
        ("231130", 1_701_302_400),
        ("231231", 1_703_980_800),
    ];
    for (tag, seconds) in ends {
        let name = format!("score_card_{}.csv", tag);
        assert_eq!(ScoreCard::systime_from_file_name(&name), midnight(seconds));
    }
}
