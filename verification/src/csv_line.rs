use crate::decimal::decimal_digits;
use vstd::prelude::*;
use vstd::string::StringSliceAdditionalSpecFns;

verus! {

/// The field separator, a comma.
pub const DELIMITER: u8 = 44;

/// The record terminator, a line feed.
pub const TERMINATOR: u8 = 10;

/// Whether a field is written to a line as it stands: it is not empty and
/// holds no comma, double quote, carriage return or line feed.
pub open spec fn plain_field(field: Seq<u8>) -> bool {
    &&& field.len() > 0
    &&& forall|i: int|
        0 <= i < field.len() ==> {
            let byte = #[trigger] field[i];
            byte != 44 && byte != 34 && byte != 13 && byte != 10
        }
}

/// Whether a text holds no comma.
pub open spec fn comma_free(text: Seq<u8>) -> bool {
    forall|i: int| 0 <= i < text.len() ==> #[trigger] text[i] != 44
}

/// The fields, with a comma between each two.
pub open spec fn join_fields(fields: Seq<Seq<u8>>) -> Seq<u8>
    decreases fields.len(),
{
    if fields.len() == 0 {
        Seq::empty()
    } else if fields.len() == 1 {
        fields[0]
    } else {
        join_fields(fields.drop_last()) + seq![44u8] + fields.last()
    }
}

/// One line of the output file: the fields with commas between them, and a
/// line feed at the end.
pub open spec fn record_line(fields: Seq<Seq<u8>>) -> Seq<u8> {
    join_fields(fields) + seq![10u8]
}

/// The pieces of a text between its commas. A text without a comma is one
/// piece; a text with `k` commas has `k + 1` pieces, some of them perhaps
/// empty.
pub open spec fn split_fields(text: Seq<u8>) -> Seq<Seq<u8>>
    decreases text.len(),
{
    if text.len() == 0 {
        seq![Seq::empty()]
    } else {
        let before = split_fields(text.drop_last());
        if text.last() == 44 {
            before.push(Seq::empty())
        } else {
            before.update(before.len() - 1, before.last().push(text.last()))
        }
    }
}

/// A text always has at least one piece.
proof fn lemma_split_nonempty(text: Seq<u8>)
    ensures
        split_fields(text).len() >= 1,
    decreases text.len(),
{
    if text.len() > 0 {
        lemma_split_nonempty(text.drop_last());
    }
}

/// A text without a comma, put behind another text, lengthens that text's
/// last piece and changes no other.
proof fn lemma_split_extend(text: Seq<u8>, tail: Seq<u8>)
    requires
        comma_free(tail),
    ensures
        split_fields(text + tail) == split_fields(text).update(
            split_fields(text).len() - 1,
            split_fields(text).last() + tail,
        ),
    decreases tail.len(),
{
    lemma_split_nonempty(text);
    if tail.len() > 0 {
        let shorter = tail.drop_last();
        lemma_split_extend(text, shorter);
        assert((text + tail).drop_last() =~= text + shorter);
        assert(split_fields(text + shorter).last().push(tail.last()) =~= split_fields(text).last()
            + tail);
    }
}

/// Splitting a line that was joined from fields without commas gives the
/// fields back.
pub proof fn lemma_split_of_join(fields: Seq<Seq<u8>>)
    requires
        fields.len() >= 1,
        forall|i: int| 0 <= i < fields.len() ==> comma_free(#[trigger] fields[i]),
    ensures
        split_fields(join_fields(fields)) == fields,
    decreases fields.len(),
{
    if fields.len() == 1 {
        lemma_split_extend(Seq::empty(), fields[0]);
    } else {
        let head = fields.drop_last();
        lemma_split_of_join(head);
        let stem = join_fields(head) + seq![44u8];
        assert(stem.drop_last() =~= join_fields(head));
        lemma_split_extend(stem, fields.last());
    }
}

/// Joining the pieces of a text gives the text back.
pub proof fn lemma_join_of_split(text: Seq<u8>)
    ensures
        join_fields(split_fields(text)) == text,
    decreases text.len(),
{
    if text.len() > 0 {
        let shorter = text.drop_last();
        lemma_join_of_split(shorter);
        lemma_split_nonempty(shorter);
        let before = split_fields(shorter);
        if text.last() == 44 {
            assert(before.push(Seq::empty()).drop_last() =~= before);
        } else if before.len() > 1 {
            let after = before.update(before.len() - 1, before.last().push(text.last()));
            assert(after.drop_last() =~= before.drop_last());
            assert(join_fields(after) =~= join_fields(before).push(text.last()));
        }
    }
}

/// The views of a list of byte strings.
pub open spec fn field_views(fields: Seq<Vec<u8>>) -> Seq<Seq<u8>> {
    Seq::new(fields.len(), |i: int| fields[i]@)
}

/// Cuts a text at its commas.
pub fn split_line(text: &[u8]) -> (fields: Vec<Vec<u8>>)
    ensures
        field_views(fields@) == split_fields(text@),
{
    let mut fields: Vec<Vec<u8>> = Vec::new();
    let mut current: Vec<u8> = Vec::new();
    let mut i: usize = 0;
    while i < text.len()
        invariant
            i <= text.len(),
            field_views(fields@).push(current@) == split_fields(text@.take(i as int)),
        decreases text.len() - i,
    {
        let byte = text[i];
        assert(text@.take(i + 1).drop_last() =~= text@.take(i as int));
        if byte == DELIMITER {
            fields.push(current);
            current = Vec::new();
        } else {
            current.push(byte);
        }
        i += 1;
    }
    assert(text@.take(i as int) =~= text@);
    fields.push(current);
    fields
}

/// `csv::Error`, the error of the encoder, carried as an opaque value.
#[verifier::external_type_specification]
#[verifier::external_body]
pub struct ExCsvError(csv::Error);

/// `csv::Writer::write_record` on a writer with the default settings over a
/// vector in memory that has written nothing yet, followed by `flush`: where
/// no field is empty or holds a comma, a double quote, a carriage return or
/// a line feed, the fields are written as they stand, with commas between
/// them and a line feed at the end. The call succeeds: writes to a vector do
/// not fail, and the first record of a writer passes the check of the
/// field count.
#[verifier::external_body]
pub(crate) fn csv_write_record(fields: &Vec<&'static str>) -> (encoded: Result<
    Vec<u8>,
    csv::Error,
>)
    requires
        fields.len() > 0,
        forall|i: int| 0 <= i < fields.len() ==> plain_field(#[trigger] fields[i].spec_bytes()),
    ensures
        encoded is Ok,
        encoded matches Ok(bytes) ==> bytes@ == record_line(
            Seq::new(fields.len() as nat, |i: int| fields[i].spec_bytes()),
        ),
{
    let mut writer = csv::WriterBuilder::new().from_writer(Vec::new());
    writer.write_record(fields.iter())?;
    writer.flush()?;
    Ok(writer.get_ref().clone())
}

/// `csv::Writer::serialize` of a list of integers on a writer with the
/// default settings over a vector in memory that has written nothing yet,
/// followed by `flush`: a list of integers has no field names, so no header
/// is written; each integer is written in decimal, with commas between them
/// and a line feed at the end. The call succeeds, for the same reasons as a
/// call of `write_record`.
#[verifier::external_body]
pub(crate) fn csv_serialize(values: &Vec<u128>) -> (encoded: Result<Vec<u8>, csv::Error>)
    requires
        values.len() > 0,
    ensures
        encoded is Ok,
        encoded matches Ok(bytes) ==> bytes@ == record_line(
            Seq::new(values.len() as nat, |i: int| decimal_digits(values[i] as nat)),
        ),
{
    let mut writer = csv::WriterBuilder::new().from_writer(Vec::new());
    writer.serialize(values)?;
    writer.flush()?;
    Ok(writer.get_ref().clone())
}

} // verus!
