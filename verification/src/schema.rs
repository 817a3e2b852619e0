//! The header row that every score file must carry.

use vstd::prelude::*;
use vstd::string::*;
use vstd::utf8::*;
use crate::card::ScoreCard;
use crate::error::{AppError, SchemaFault};

verus! {

/// A decoded row of text fields, as the csv crate hands it out.
#[verifier::external_type_specification]
#[verifier::external_body]
pub struct ExStringRecord(csv::StringRecord);

/// The fields that a record holds, first to last.
pub uninterp spec fn record_fields(record: csv::StringRecord) -> Seq<Seq<char>>;

/// Calls csv's `StringRecord::len`.
///
/// Trusted, not proved: the result is the number of fields of the record.
#[verifier::external_body]
fn record_len(record: &csv::StringRecord) -> (n: usize)
    ensures
        n == record_fields(*record).len(),
{
    record.len()
}

/// Calls csv's `StringRecord::get`.
///
/// Trusted, not proved: the result is the field at `index`, counted from 0,
/// and `None` where the record has no such field.
#[verifier::external_body]
fn record_get(record: &csv::StringRecord, index: usize) -> (field: Option<&str>)
    ensures
        match field {
            Some(text) => index < record_fields(*record).len() && text@ == record_fields(
                *record,
            )[index as int],
            None => index >= record_fields(*record).len(),
        },
{
    record.get(index)
}

/// The number of columns of a score file.
pub const HEADER_COUNT: usize = 9;

/// The column names of a score file, in the order in which they must stand.
pub open spec fn expected_headers() -> Seq<Seq<char>> {
    seq![
        "RoundId"@,
        "PlayerId"@,
        "PlayerName"@,
        "BallId"@,
        "Score"@,
        "HoleId"@,
        "HoleScore"@,
        "Start"@,
        "End"@,
    ]
}

/// The name of the column that must stand at `position`, counted from 0.
pub fn header_name(position: usize) -> (name: Option<&'static str>)
    ensures
        match name {
            Some(text) => position < 9 && text@ == expected_headers()[position as int],
            None => position >= 9,
        },
{
    match position {
        0 => Some("RoundId"),
        1 => Some("PlayerId"),
        2 => Some("PlayerName"),
        3 => Some("BallId"),
        4 => Some("Score"),
        5 => Some("HoleId"),
        6 => Some("HoleScore"),
        7 => Some("Start"),
        8 => Some("End"),
        _ => None,
    }
}

/// Whether `fields` carries `name` at `position`.
pub open spec fn has_header(fields: Seq<Seq<char>>, name: Seq<char>, position: int) -> bool {
    0 <= position < fields.len() && fields[position] == name
}

/// The first position from `from` on at which `fields` does not carry the
/// name that `expected` has there, if there is one.
pub open spec fn first_mismatch(
    fields: Seq<Seq<char>>,
    expected: Seq<Seq<char>>,
    from: int,
) -> Option<int>
    decreases expected.len() - from,
{
    if from < 0 || from >= expected.len() {
        None
    } else if !has_header(fields, expected[from], from) {
        Some(from)
    } else {
        first_mismatch(fields, expected, from + 1)
    }
}

/// The verdict on a header row: the count is checked first, then the names
/// from left to right, and the first one out of place is reported.
pub open spec fn headers_verdict(fields: Seq<Seq<char>>) -> Result<(), AppError> {
    if fields.len() != 9 {
        Err(AppError::Schema(SchemaFault::Count { expected: 9, got: fields.len() as usize }))
    } else {
        match first_mismatch(fields, expected_headers(), 0) {
            Some(position) => Err(
                AppError::Schema(SchemaFault::Column { position: position as usize }),
            ),
            None => Ok(()),
        }
    }
}

/// Whether two texts are the same, byte for byte.
pub fn same_text(left: &str, right: &str) -> (same: bool)
    ensures
        same == (left@ == right@),
{
    broadcast use group_utf8_lib;

    let a = left.as_bytes();
    let b = right.as_bytes();
    if a.len() != b.len() {
        return false;
    }
    let mut i: usize = 0;
    while i < a.len()
        invariant
            i <= a.len(),
            a.len() == b.len(),
            a@ == left.spec_bytes(),
            b@ == right.spec_bytes(),
            forall|j: int| 0 <= j < i ==> a@[j] == b@[j],
        decreases a.len() - i,
    {
        if a[i] != b[i] {
            return false;
        }
        i += 1;
    }
    assert(a@ =~= b@);
    assert(decode_utf8(encode_utf8(left@)) == decode_utf8(encode_utf8(right@)));
    true
}

impl ScoreCard {
    /// Checks that the header row carries `header_name` at `header_index`.
    pub fn verify_header(headers: &csv::StringRecord, header_name: &str, header_index: usize) -> (r:
        Result<(), AppError>)
        ensures
            r == if has_header(record_fields(*headers), header_name@, header_index as int) {
                Ok::<(), AppError>(())
            } else {
                Err(AppError::Schema(SchemaFault::Column { position: header_index }))
            },
    {
        match record_get(headers, header_index) {
            Some(text) => {
                if same_text(text, header_name) {
                    Ok(())
                } else {
                    Err(AppError::Schema(SchemaFault::Column { position: header_index }))
                }
            },
            None => Err(AppError::Schema(SchemaFault::Column { position: header_index })),
        }
    }

    /// Checks a header row against the nine expected column names.
    ///
    /// A row of another length is turned down for its count. A row of nine
    /// names is turned down for the leftmost name that is out of place.
    pub fn verify_headers(headers: &csv::StringRecord) -> (r: Result<(), AppError>)
        ensures
            r == headers_verdict(record_fields(*headers)),
            r is Ok <==> record_fields(*headers) == expected_headers(),
    {
        let correct_headers: Vec<&str> = vec![
            "RoundId",
            "PlayerId",
            "PlayerName",
            "BallId",
            "Score",
            "HoleId",
            "HoleScore",
            "Start",
            "End",
        ];
        assert(correct_headers@.map_values(|s: &str| s@) =~= expected_headers());
        let num_headers = correct_headers.len();
        let got_num_headers = record_len(headers);
        if got_num_headers != HEADER_COUNT {
            return Err(
                AppError::Schema(
                    SchemaFault::Count { expected: num_headers, got: got_num_headers },
                ),
            );
        }
        let ghost fields = record_fields(*headers);
        let mut hdr_i: usize = 0;
        while hdr_i < num_headers
            invariant
                hdr_i <= num_headers == 9,
                fields == record_fields(*headers),
                fields.len() == 9,
                correct_headers@.len() == 9,
                correct_headers@.map_values(|s: &str| s@) =~= expected_headers(),
                first_mismatch(fields, expected_headers(), 0) == first_mismatch(
                    fields,
                    expected_headers(),
                    hdr_i as int,
                ),
            decreases num_headers - hdr_i,
        {
            assert(expected_headers()[hdr_i as int] == correct_headers@[hdr_i as int]@) by {
                assert(correct_headers@.map_values(|s: &str| s@)[hdr_i as int]
                    == correct_headers@[hdr_i as int]@);
            }
            match Self::verify_header(headers, correct_headers[hdr_i], hdr_i) {
                Ok(()) => {},
                Err(e) => {
                    return Err(e);
                },
            }
            hdr_i += 1;
        }
        proof {
            lemma_headers_verdict(fields);
        }
        Ok(())
    }
}

/// The verdict on every header row: a row of another length than nine fails
/// for its count; a row of nine names passes exactly when it is the expected
/// row, and otherwise fails for the leftmost position that is out of place.
pub proof fn lemma_headers_verdict(fields: Seq<Seq<char>>)
    ensures
        fields.len() != 9 ==> headers_verdict(fields) == Err::<(), AppError>(
            AppError::Schema(SchemaFault::Count { expected: 9, got: fields.len() as usize }),
        ),
        headers_verdict(fields) is Ok <==> fields == expected_headers(),
        headers_verdict(fields) matches Err(e) ==> e is Schema,
        headers_verdict(fields) matches Err(AppError::Schema(SchemaFault::Column { position }))
            ==> fields.len() == 9 && position < 9 && fields[position as int]
            != expected_headers()[position as int] && forall|j: int|
            0 <= j < position ==> fields[j] == #[trigger] expected_headers()[j],
{
    let expected = expected_headers();
    lemma_first_mismatch(fields, expected, 0);
    if headers_verdict(fields) is Ok {
        assert(fields =~= expected);
    }
}

/// What `first_mismatch` finds from `from` on: a position that is out of
/// place with none before it, or nothing where every position holds its
/// name.
pub proof fn lemma_first_mismatch(fields: Seq<Seq<char>>, expected: Seq<Seq<char>>, from: int)
    requires
        0 <= from <= expected.len(),
    ensures
        match first_mismatch(fields, expected, from) {
            Some(position) => from <= position < expected.len() && !has_header(
                fields,
                expected[position],
                position,
            ) && forall|j: int| from <= j < position ==> has_header(fields, #[trigger] expected[j], j),
            None => forall|j: int|
                from <= j < expected.len() ==> has_header(fields, #[trigger] expected[j], j),
        },
    decreases expected.len() - from,
{
    if from < expected.len() && has_header(fields, expected[from], from) {
        lemma_first_mismatch(fields, expected, from + 1);
    }
}

} // verus!
