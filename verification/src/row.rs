use crate::csv_line::{
    comma_free, csv_serialize, csv_write_record, field_views, join_fields, lemma_join_of_split,
    lemma_split_of_join, plain_field, record_line, split_fields, split_line, TERMINATOR,
};
use crate::decimal::{
    decimal_digits, decimal_value, is_decimal, lemma_digits_are_decimal, lemma_digits_of_value,
    lemma_value_of_digits, parse_decimal,
};
use crate::error::RaplError;
use crate::record::{Record, RecordView};
use crate::vendor::{ascii_bytes, Vendor};
use vstd::prelude::*;
use vstd::slice::slice_subrange;
use vstd::string::StringSliceAdditionalSpecFns;

verus! {

impl RecordView {
    /// The fields of the record's row: each number in decimal.
    pub open spec fn row_fields(self) -> Seq<Seq<u8>> {
        Seq::new(self.row_values().len(), |i: int| decimal_digits(self.row_values()[i]))
    }

    /// The row of the record in the output file.
    pub open spec fn row_line(self) -> Seq<u8> {
        record_line(self.row_fields())
    }
}

/// The fields of the header row of a family's output file.
pub open spec fn header_fields(vendor: Vendor) -> Seq<Seq<u8>> {
    Seq::new(vendor.spec_columns().len(), |i: int| ascii_bytes(vendor.spec_columns()[i]))
}

/// The header row of a family's output file.
pub open spec fn header_line(vendor: Vendor) -> Seq<u8> {
    record_line(header_fields(vendor))
}

/// The largest number that the column with a given index can hold: the two
/// timestamps have 128 bits, the readings 64.
pub open spec fn column_limit(column: int) -> nat {
    if column < 2 {
        u128::MAX as nat
    } else {
        u64::MAX as nat
    }
}

/// The record that a row denotes, if the row is one: a line feed at the end,
/// before it as many numbers in canonical decimal form as the family has
/// columns, with commas between them, the first two of at most 128 bits and
/// the others of at most 64.
pub open spec fn spec_parse_row(line: Seq<u8>, vendor: Vendor) -> Option<RecordView> {
    if line.len() > 0 && line.last() == 10 {
        let fields = split_fields(line.drop_last());
        if fields.len() == 2 + 2 * vendor.spec_domain_count() && (forall|i: int|
            0 <= i < fields.len() ==> is_decimal(#[trigger] fields[i])) && (forall|i: int|
            0 <= i < fields.len() ==> decimal_value(#[trigger] fields[i]) <= column_limit(i)) {
            Some(
                RecordView {
                    time_start: decimal_value(fields[0]) as u128,
                    time_end: decimal_value(fields[1]) as u128,
                    domains: Seq::new(
                        vendor.spec_domain_count(),
                        |k: int|
                            (
                                decimal_value(fields[2 + 2 * k]) as u64,
                                decimal_value(fields[3 + 2 * k]) as u64,
                            ),
                    ),
                },
            )
        } else {
            None
        }
    } else {
        None
    }
}

/// What an encoded line becomes for the caller: the bytes, or the
/// persistence error where the encoder failed.
pub fn encoded_line(encoded: Result<Vec<u8>, csv::Error>) -> (line: Result<Vec<u8>, RaplError>)
    ensures
        match encoded {
            Ok(bytes) => line == Ok::<Vec<u8>, RaplError>(bytes),
            Err(_) => line == Err::<Vec<u8>, RaplError>(RaplError::Persistence),
        },
{
    match encoded {
        Ok(bytes) => Ok(bytes),
        Err(_) => Err(RaplError::Persistence),
    }
}

/// The header row of a family's output file, as the bytes to write.
pub fn encode_header(vendor: Vendor) -> (line: Result<Vec<u8>, RaplError>)
    ensures
        line matches Ok(bytes) && bytes@ == header_line(vendor),
{
    let columns = vendor.columns();
    proof {
        lemma_columns_plain(vendor);
        assert forall|i: int| 0 <= i < columns.len() implies plain_field(
            #[trigger] columns[i].spec_bytes(),
        ) && columns[i].spec_bytes() == header_fields(vendor)[i] by {
            lemma_column_bytes(vendor, i, columns[i]);
        }
        assert(Seq::new(columns.len() as nat, |i: int| columns[i].spec_bytes()) =~= header_fields(
            vendor,
        ));
    }
    encoded_line(csv_write_record(&columns))
}

/// The row of a record, as the bytes to write.
pub fn encode_row(record: &Record) -> (line: Result<Vec<u8>, RaplError>)
    ensures
        line matches Ok(bytes) && bytes@ == record@.row_line(),
{
    let numbers = record.row_numbers();
    proof {
        assert(Seq::new(numbers.len() as nat, |i: int| decimal_digits(numbers[i] as nat))
            =~= record@.row_fields());
    }
    encoded_line(csv_serialize(&numbers))
}

/// Whether a field is the canonical decimal form of a number that its
/// column can hold.
spec fn field_is(field: Seq<u8>, column: int, number: u128) -> bool {
    is_decimal(field) && decimal_value(field) == number && number <= column_limit(column)
}

/// Whether the first `count` fields are the numbers given.
spec fn numbers_of(fields: Seq<Seq<u8>>, numbers: Seq<u128>, count: int) -> bool {
    forall|j: int| 0 <= j < count ==> field_is(#[trigger] fields[j], j, numbers[j])
}

/// Reads one data row of a family's output file back into a record.
/// Returns `None` where the line is not such a row.
pub fn parse_row(line: &[u8], vendor: Vendor) -> (record: Option<Record>)
    ensures
        match record {
            Some(found) => spec_parse_row(line@, vendor) == Some(found@),
            None => spec_parse_row(line@, vendor) is None,
        },
{
    let len = line.len();
    if len == 0 || line[len - 1] != TERMINATOR {
        return None;
    }
    let body = slice_subrange(line, 0, len - 1);
    let fields = split_line(body);
    let count = vendor.domain_count();
    if fields.len() != 2 + 2 * count {
        return None;
    }
    let ghost pieces = split_fields(line@.drop_last());
    let mut numbers: Vec<u128> = Vec::new();
    let mut i: usize = 0;
    while i < fields.len()
        invariant
            i <= fields@.len(),
            field_views(fields@) == pieces,
            pieces == split_fields(line@.drop_last()),
            line@.len() > 0 && line@.last() == 10,
            numbers@.len() == i,
            numbers_of(pieces, numbers@, i as int),
        decreases fields@.len() - i,
    {
        assert(pieces[i as int] == fields@[i as int]@);
        let ghost earlier = numbers@;
        match parse_decimal(fields[i].as_slice()) {
            None => {
                return None;
            },
            Some(number) => {
                if i >= 2 && number > u64::MAX as u128 {
                    return None;
                }
                numbers.push(number);
            },
        }
        assert(numbers_of(pieces, numbers@, i + 1)) by {
            assert forall|j: int| 0 <= j < i + 1 implies field_is(
                #[trigger] pieces[j],
                j,
                numbers@[j],
            ) by {
                if j < i {
                    assert(field_is(pieces[j], j, earlier[j]));
                }
            }
        }
        i += 1;
    }
    assert forall|j: int| 2 <= j < numbers@.len() implies #[trigger] numbers@[j]
        <= u64::MAX as u128 by {
        assert(field_is(pieces[j], j, numbers@[j]));
    }
    let mut domains: Vec<(u64, u64)> = Vec::new();
    let mut k: usize = 0;
    while k < count
        invariant
            k <= count,
            count as nat == vendor.spec_domain_count(),
            numbers@.len() == 2 + 2 * count,
            domains@.len() == k,
            forall|j: int| 2 <= j < numbers@.len() ==> #[trigger] numbers@[j] <= u64::MAX as u128,
            forall|j: int|
                0 <= j < k ==> #[trigger] domains@[j] == (
                    numbers@[2 + 2 * j] as u64,
                    numbers@[3 + 2 * j] as u64,
                ),
        decreases count - k,
    {
        domains.push((numbers[2 + 2 * k] as u64, numbers[3 + 2 * k] as u64));
        k += 1;
    }
    let record = Record { time_start: numbers[0], time_end: numbers[1], domains };
    proof {
        assert forall|j: int| 0 <= j < pieces.len() implies is_decimal(#[trigger] pieces[j])
            && decimal_value(pieces[j]) == numbers@[j] by {}
        let expected = Seq::new(
            vendor.spec_domain_count(),
            |k: int|
                (decimal_value(pieces[2 + 2 * k]) as u64, decimal_value(pieces[3 + 2 * k]) as u64),
        );
        assert(record.domains@ =~= expected);
    }
    Some(record)
}

/// A row that was written for a record reads back as that record: the same
/// two timestamps and, domain by domain, the same start and end readings.
pub proof fn lemma_parse_of_row(record: RecordView, vendor: Vendor)
    requires
        record.fits(vendor),
    ensures
        spec_parse_row(record.row_line(), vendor) == Some(record),
{
    let fields = record.row_fields();
    let values = record.row_values();
    let line = record.row_line();
    assert(line.drop_last() =~= join_fields(fields));
    assert forall|i: int| 0 <= i < fields.len() implies comma_free(#[trigger] fields[i])
        && is_decimal(fields[i]) && decimal_value(fields[i]) == values[i] by {
        lemma_digits_are_decimal(values[i]);
        lemma_value_of_digits(values[i]);
    }
    lemma_split_of_join(fields);
    assert(spec_parse_row(line, vendor)->0.domains =~= record.domains);
}

/// Where each column of a row stands: an even index from two on is the
/// start column of a domain, an odd one from three on is its end column.
proof fn lemma_column_of_index(i: int)
    requires
        i >= 2,
    ensures
        i % 2 == 0 ==> i == 2 + 2 * ((i - 2) / 2) && (i - 2) / 2 >= 0,
        i % 2 != 0 ==> i == 3 + 2 * ((i - 3) / 2) && (i - 3) / 2 >= 0,
{
}

/// Only rows that are written for a record read back as one: where a line
/// reads back as a record, it is that record's row, byte for byte.
pub proof fn lemma_row_of_parse(line: Seq<u8>, vendor: Vendor)
    requires
        spec_parse_row(line, vendor) is Some,
    ensures
        spec_parse_row(line, vendor)->0.fits(vendor),
        spec_parse_row(line, vendor)->0.row_line() == line,
{
    let record = spec_parse_row(line, vendor)->0;
    let pieces = split_fields(line.drop_last());
    let count = vendor.spec_domain_count();
    assert(record.time_start == decimal_value(pieces[0]) as u128);
    assert(record.time_end == decimal_value(pieces[1]) as u128);
    assert forall|k: int| 0 <= k < count implies #[trigger] record.domains[k] == (
        decimal_value(pieces[2 + 2 * k]) as u64,
        decimal_value(pieces[3 + 2 * k]) as u64,
    ) by {}
    let fields = record.row_fields();
    let values = record.row_values();
    assert forall|i: int| 0 <= i < pieces.len() implies fields[i] == pieces[i] by {
        assert(is_decimal(pieces[i]));
        lemma_digits_of_value(pieces[i]);
        if i >= 2 {
            lemma_column_of_index(i);
            if i % 2 == 0 {
                let k = (i - 2) / 2;
                assert(record.domains[k].0 == decimal_value(pieces[2 + 2 * k]) as u64);
            } else {
                let k = (i - 3) / 2;
                assert(record.domains[k].1 == decimal_value(pieces[3 + 2 * k]) as u64);
            }
        }
        assert(values[i] == decimal_value(pieces[i]));
    }
    assert(fields =~= pieces);
    lemma_join_of_split(line.drop_last());
}

/// Two records with the same row are the same record.
pub proof fn lemma_row_line_injective(first: RecordView, second: RecordView, vendor: Vendor)
    requires
        first.fits(vendor),
        second.fits(vendor),
        first.row_line() == second.row_line(),
    ensures
        first == second,
{
    lemma_parse_of_row(first, vendor);
    lemma_parse_of_row(second, vendor);
}

/// The row of a record that fits a family has as many fields as the
/// family's header row has columns: two timestamps, and two for each energy
/// domain.
pub proof fn lemma_row_matches_header(record: RecordView, vendor: Vendor)
    requires
        record.fits(vendor),
    ensures
        record.row_fields().len() == 2 + 2 * vendor.spec_domain_count(),
        header_fields(vendor).len() == 2 + 2 * vendor.spec_domain_count(),
{
}

/// Every column name is ASCII, is not empty and holds none of the bytes
/// that would have it quoted.
proof fn lemma_columns_plain(vendor: Vendor)
    ensures
        forall|i: int|
            0 <= i < header_fields(vendor).len() ==> plain_field(#[trigger] header_fields(vendor)[i]),
        forall|i: int|
            0 <= i < vendor.spec_columns().len() ==> vstd::utf8::is_ascii_chars(
                #[trigger] vendor.spec_columns()[i],
            ),
{
    reveal_strlit("TimeStart");
    reveal_strlit("TimeEnd");
    reveal_strlit("CoreStart");
    reveal_strlit("CoreEnd");
    reveal_strlit("PkgStart");
    reveal_strlit("PkgEnd");
    reveal_strlit("PP0Start");
    reveal_strlit("PP0End");
    reveal_strlit("PP1Start");
    reveal_strlit("PP1End");
    reveal_strlit("DramStart");
    reveal_strlit("DramEnd");
}

/// The bytes of a column name are the codes of its characters.
proof fn lemma_column_bytes(vendor: Vendor, i: int, name: &str)
    requires
        0 <= i < vendor.spec_columns().len(),
        name@ == vendor.spec_columns()[i],
    ensures
        name.spec_bytes() == header_fields(vendor)[i],
        plain_field(name.spec_bytes()),
{
    lemma_columns_plain(vendor);
    assert(vstd::string::is_ascii(name));
    vstd::string::is_ascii_spec_bytes(name);
}

} // verus!
