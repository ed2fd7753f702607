//! Reading stored screen-time records out of a table of comma-separated
//! values.
//!
//! The text is first parsed into rows of fields by the csv crate, behind a
//! trusted wrapper; everything after that — locating the class, name and
//! time columns by the header row, reading the time field as a decimal
//! number, assembling the records — is verified code.

use vstd::prelude::*;
use vstd::string::StrSliceExecFns;
use crate::search::{find_column, first_match, lemma_first_match_is_unique};

verus! {

/// One stored observation: the focused window's class, its title, and the
/// time it was seen.
#[derive(Debug)]
pub struct Record {
    pub class: String,
    pub name: String,
    pub time: u64,
}

/// Model of `Record`, with text as character sequences.
pub struct RecordModel {
    pub class: Seq<char>,
    pub name: Seq<char>,
    pub time: u64,
}

impl View for Record {
    type V = RecordModel;

    open spec fn view(&self) -> RecordModel {
        RecordModel { class: self.class@, name: self.name@, time: self.time }
    }
}

impl DeepView for Record {
    type V = RecordModel;

    open spec fn deep_view(&self) -> RecordModel {
        self@
    }
}

/// Why no records could be read.
#[derive(Debug, Clone, Copy, PartialEq, Eq, Structural)]
pub enum RecordsError {
    /// The text is not a well-formed table.
    Syntax,
    /// The header row lacks the class, name or time column, or a row's time
    /// field is not a decimal number, or a row is shorter than the header
    /// promised.
    Shape,
}

/// Whether `c` is a decimal digit.
pub open spec fn is_decimal_digit(c: char) -> bool {
    48 <= c as u32 <= 57
}

/// Whether every character of `s` is a decimal digit.
pub open spec fn all_digits(s: Seq<char>) -> bool {
    forall|i: int| 0 <= i < s.len() ==> is_decimal_digit(#[trigger] s[i])
}

/// The number the digit string `s` writes in base ten.
pub open spec fn decimal_value(s: Seq<char>) -> int
    decreases s.len(),
{
    if s.len() == 0 {
        0
    } else {
        decimal_value(s.drop_last()) * 10 + (s.last() as u32 - 48)
    }
}

/// `s` with one leading plus sign stripped: the digits a decimal number is
/// read from.
pub open spec fn digits_part(s: Seq<char>) -> Seq<char> {
    if s.len() > 0 && s[0] == '+' {
        s.skip(1)
    } else {
        s
    }
}

/// What `s` denotes as an unsigned 64-bit decimal number: its digits' value,
/// after an optional leading plus sign, if they are nonempty, all digits,
/// and the value fits.
pub open spec fn parsed_u64(s: Seq<char>) -> Option<u64> {
    let d = digits_part(s);
    if d.len() > 0 && all_digits(d) && decimal_value(d) <= u64::MAX {
        Some(decimal_value(d) as u64)
    } else {
        None
    }
}

/// A string of digits denotes a number that is not negative.
proof fn lemma_decimal_value_nonneg(s: Seq<char>)
    requires
        all_digits(s),
    ensures
        decimal_value(s) >= 0,
    decreases s.len(),
{
    if s.len() > 0 {
        assert(all_digits(s.drop_last()));
        lemma_decimal_value_nonneg(s.drop_last());
    }
}

/// Appending digits never shrinks the denoted number.
proof fn lemma_decimal_value_mono(s: Seq<char>, k: int)
    requires
        all_digits(s),
        0 <= k <= s.len(),
    ensures
        decimal_value(s.take(k)) <= decimal_value(s),
    decreases s.len() - k,
{
    if k == s.len() {
        assert(s.take(k) =~= s);
    } else {
        assert(s.take(k + 1).drop_last() =~= s.take(k));
        assert(s.take(k + 1).last() == s[k]);
        assert(all_digits(s.take(k)));
        lemma_decimal_value_nonneg(s.take(k));
        assert(decimal_value(s.take(k)) <= decimal_value(s.take(k + 1)));
        lemma_decimal_value_mono(s, k + 1);
    }
}

/// The unsigned 64-bit number `s` writes in base ten, if it writes one.
pub fn parse_decimal_u64(s: &str) -> (r: Option<u64>)
    ensures
        r == parsed_u64(s@),
{
    let n = s.unicode_len();
    let start: usize = if n > 0 && s.get_char(0) == '+' {
        1
    } else {
        0
    };
    let ghost d = digits_part(s@);
    proof {
        if start == 0 {
            assert(d =~= s@.skip(0));
        }
        assert(d == s@.skip(start as int));
    }
    if start >= n {
        return None;
    }
    let mut val: u64 = 0;
    let mut i: usize = start;
    while i < n
        invariant
            start <= i <= n,
            n == s@.len(),
            start <= 1,
            d == s@.skip(start as int),
            d == digits_part(s@),
            all_digits(d.take(i - start)),
            val == decimal_value(d.take(i - start)),
        decreases n - i,
    {
        let c = s.get_char(i);
        let cu = c as u32;
        if cu < 48 || cu > 57 {
            assert(d[i - start] == s@[i as int]);
            assert(!all_digits(d));
            return None;
        }
        let digit: u64 = (cu - 48) as u64;
        proof {
            assert(d.take(i - start + 1).drop_last() =~= d.take(i - start));
            assert(d.take(i - start + 1).last() == s@[i as int]);
        }
        if val > 1844674407370955161u64 || (val == 1844674407370955161u64 && digit > 5) {
            proof {
                assert(decimal_value(d.take(i - start + 1)) > u64::MAX);
                if all_digits(d) {
                    lemma_decimal_value_mono(d, i - start + 1);
                }
            }
            return None;
        }
        val = val * 10 + digit;
        i = i + 1;
    }
    proof {
        assert(d.take(i - start) =~= d);
    }
    Some(val)
}

/// Which rows of fields a text parses into under the rules of
/// comma-separated values, or nothing where it does not parse.
pub uninterp spec fn csv_rows_of(text: Seq<char>) -> Option<Seq<Seq<Seq<char>>>>;

/// Relies on csv::ReaderBuilder and csv::Reader of the csv crate: the rows
/// of fields read out of a text (or the failure to read them) depend on the
/// text alone. Every row is returned, the first one being the header.
#[verifier::external_body]
fn csv_rows(text: &str) -> (r: Option<Vec<Vec<String>>>)
    ensures
        match r {
            Some(rows) => csv_rows_of(text@) == Some(rows.deep_view()),
            None => csv_rows_of(text@) is None,
        },
{
    let mut reader = csv::ReaderBuilder::new().has_headers(false).from_reader(text.as_bytes());
    let mut rows: Vec<Vec<String>> = Vec::new();
    for record in reader.records() {
        match record {
            Ok(fields) => rows.push(fields.iter().map(str::to_owned).collect()),
            Err(_) => return None,
        }
    }
    Some(rows)
}

/// The positions of the class, name and time columns in the header row, if
/// all three are present: each is the first column of its name.
pub open spec fn header_columns(header: Seq<Seq<char>>) -> Option<(int, int, int)> {
    if header.contains("class"@) && header.contains("name"@) && header.contains("time"@) {
        Some(
            (
                first_match(header, "class"@),
                first_match(header, "name"@),
                first_match(header, "time"@),
            ),
        )
    } else {
        None
    }
}

/// The record one data row yields under the given column positions, if the
/// row reaches all three columns and its time field writes a number.
pub open spec fn row_record(row: Seq<Seq<char>>, cols: (int, int, int)) -> Option<RecordModel> {
    if 0 <= cols.0 < row.len() && 0 <= cols.1 < row.len() && 0 <= cols.2 < row.len() {
        match parsed_u64(row[cols.2]) {
            Some(time) => Some(RecordModel { class: row[cols.0], name: row[cols.1], time }),
            None => None,
        }
    } else {
        None
    }
}

/// The records a table of rows yields: the first row names the columns, and
/// each later row yields one record. A table with no data rows yields no
/// records, whatever its header; otherwise a header without the three
/// columns, or a data row without a record, yields nothing.
pub open spec fn records_of(rows: Seq<Seq<Seq<char>>>) -> Option<Seq<RecordModel>> {
    if rows.len() <= 1 {
        Some(Seq::empty())
    } else {
        match header_columns(rows[0]) {
            None => None,
            Some(cols) => {
                if forall|k: int|
                    1 <= k < rows.len() ==> (#[trigger] row_record(rows[k], cols)) is Some {
                    Some(
                        Seq::new(
                            (rows.len() - 1) as nat,
                            |k: int| row_record(rows[k + 1], cols)->Some_0,
                        ),
                    )
                } else {
                    None
                }
            },
        }
    }
}

/// The records stored in a text of comma-separated values: rows of
/// class, name and time fields under a header row that names the columns.
pub fn get_records(contents: &str) -> (r: Result<Vec<Record>, RecordsError>)
    ensures
        match csv_rows_of(contents@) {
            None => r matches Err(e) && e == RecordsError::Syntax,
            Some(rows) => match records_of(rows) {
                None => r matches Err(e) && e == RecordsError::Shape,
                Some(models) => r matches Ok(v) && v.deep_view() == models,
            },
        },
{
    let rows = match csv_rows(contents) {
        None => { return Err(RecordsError::Syntax) },
        Some(rows) => rows,
    };
    let ghost rows_model = rows.deep_view();
    if rows.len() <= 1 {
        let out: Vec<Record> = Vec::new();
        assert(out.deep_view() =~= Seq::<RecordModel>::empty());
        return Ok(out);
    }
    let header = &rows[0];
    assert(header.deep_view() == rows_model[0]);
    let class_needle = "class".to_owned();
    let name_needle = "name".to_owned();
    let time_needle = "time".to_owned();
    let ci = match find_column(header, &class_needle) {
        None => { return Err(RecordsError::Shape) },
        Some(i) => i,
    };
    let ni = match find_column(header, &name_needle) {
        None => { return Err(RecordsError::Shape) },
        Some(i) => i,
    };
    let ti = match find_column(header, &time_needle) {
        None => { return Err(RecordsError::Shape) },
        Some(i) => i,
    };
    let ghost cols = (ci as int, ni as int, ti as int);
    proof {
        assert(header.deep_view().contains("class"@));
        assert(header.deep_view().contains("name"@));
        assert(header.deep_view().contains("time"@));
        lemma_first_match_is_unique(header.deep_view(), "class"@, ci as int);
        lemma_first_match_is_unique(header.deep_view(), "name"@, ni as int);
        lemma_first_match_is_unique(header.deep_view(), "time"@, ti as int);
        assert(header_columns(rows_model[0]) == Some(cols));
    }
    let mut out: Vec<Record> = Vec::new();
    let mut k: usize = 1;
    while k < rows.len()
        invariant
            1 <= k <= rows@.len(),
            rows_model == rows.deep_view(),
            rows_model.len() == rows@.len(),
            rows_model.len() > 1,
            csv_rows_of(contents@) == Some(rows_model),
            header_columns(rows_model[0]) == Some(cols),
            cols == (ci as int, ni as int, ti as int),
            out@.len() == k - 1,
            forall|j: int|
                1 <= j < k ==> (#[trigger] row_record(rows_model[j], cols)) is Some,
            forall|j: int|
                0 <= j < k - 1 ==> out.deep_view()[j] == row_record(
                    rows_model[j + 1],
                    cols,
                )->Some_0,
        decreases rows@.len() - k,
    {
        let row = &rows[k];
        assert(row.deep_view() == rows_model[k as int]);
        if ci >= row.len() || ni >= row.len() || ti >= row.len() {
            assert(row_record(rows_model[k as int], cols) is None);
            return Err(RecordsError::Shape);
        }
        assert(row.deep_view()[ti as int] == row@[ti as int]@);
        let time = match parse_decimal_u64(row[ti].as_str()) {
            None => {
                assert(row_record(rows_model[k as int], cols) is None);
                return Err(RecordsError::Shape);
            },
            Some(t) => t,
        };
        assert(row.deep_view()[ci as int] == row@[ci as int]@);
        assert(row.deep_view()[ni as int] == row@[ni as int]@);
        let rec = Record { class: row[ci].clone(), name: row[ni].clone(), time };
        assert(rec.deep_view() == row_record(rows_model[k as int], cols)->Some_0);
        let ghost prev = out.deep_view();
        out.push(rec);
        proof {
            assert(out.deep_view() =~= prev.push(row_record(rows_model[k as int], cols)->Some_0));
        }
        k = k + 1;
    }
    proof {
        let models = records_of(rows_model)->Some_0;
        assert(records_of(rows_model) is Some);
        assert(out.deep_view() =~= models);
    }
    Ok(out)
}

} // verus!
