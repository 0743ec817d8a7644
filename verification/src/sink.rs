use crate::decimal::{decimal_chars, decimal_string};
use crate::error::RaplError;
use crate::record::{Record, RecordView};
use crate::row::{encode_header, encode_row, header_line};
use crate::vendor::Vendor;
use vstd::prelude::*;
use vstd::string::StringExecFns;

verus! {

/// The record sink as a mathematical value: the family it writes for,
/// whether the output file has been opened, and whether the header row is
/// still to be written.
pub struct SinkView {
    pub vendor: Vendor,
    pub open: bool,
    pub header_due: bool,
}

/// The rows of some records, one after the other.
pub open spec fn rows_of(records: Seq<RecordView>) -> Seq<u8>
    decreases records.len(),
{
    if records.len() == 0 {
        Seq::empty()
    } else {
        rows_of(records.drop_last()) + records.last().row_line()
    }
}

impl SinkView {
    /// A sink whose file has not been opened.
    pub open spec fn closed(vendor: Vendor) -> SinkView {
        SinkView { vendor, open: false, header_due: false }
    }

    /// The sink after its file was opened. The header is due where the file
    /// did not exist before or is empty. A sink that is open stays as it is.
    pub open spec fn opened(self, existed: bool, length: u64) -> SinkView {
        if self.open {
            self
        } else {
            SinkView { vendor: self.vendor, open: true, header_due: !existed || length == 0 }
        }
    }

    /// The bytes that appending one record adds to the file: the header row
    /// if it is due, then the record's row.
    pub open spec fn output(self, record: RecordView) -> Seq<u8> {
        if self.header_due {
            header_line(self.vendor) + record.row_line()
        } else {
            record.row_line()
        }
    }

    /// The sink after one record was appended.
    pub open spec fn appended(self) -> SinkView {
        SinkView { vendor: self.vendor, open: self.open, header_due: false }
    }

    /// The bytes that appending some records, one after the other, adds to
    /// the file.
    pub open spec fn output_all(self, records: Seq<RecordView>) -> Seq<u8>
        decreases records.len(),
    {
        if records.len() == 0 {
            Seq::empty()
        } else {
            self.output_all(records.drop_last()) + self.after_all(records.drop_last()).output(
                records.last(),
            )
        }
    }

    /// The sink after some records were appended.
    pub open spec fn after_all(self, records: Seq<RecordView>) -> SinkView {
        if records.len() == 0 {
            self
        } else {
            self.appended()
        }
    }
}

/// The name of the output file: the family's name, an underscore, the
/// calibration constant in decimal, and the extension.
pub open spec fn spec_file_name(vendor: Vendor, power_units: u64) -> Seq<char> {
    vendor.spec_cpu_type() + "_"@ + decimal_chars(power_units as nat) + ".csv"@
}

/// Decides what is appended to the output file: the header row once, where
/// the file was new or empty when it was opened, and one row for each
/// record.
pub struct RecordSink {
    vendor: Vendor,
    open: bool,
    header_due: bool,
}

impl View for RecordSink {
    type V = SinkView;

    closed spec fn view(&self) -> SinkView {
        SinkView { vendor: self.vendor, open: self.open, header_due: self.header_due }
    }
}

impl RecordSink {
    /// A sink for a family's records, with no file opened yet.
    pub fn new(vendor: Vendor) -> (sink: RecordSink)
        ensures
            sink@ == SinkView::closed(vendor),
    {
        RecordSink { vendor, open: false, header_due: false }
    }

    /// Whether the output file has been opened.
    pub fn is_open(&self) -> (open: bool)
        ensures
            open == self@.open,
    {
        self.open
    }

    /// Whether the next record appended is preceded by the header row.
    pub fn header_due(&self) -> (due: bool)
        ensures
            due == self@.header_due,
    {
        self.header_due
    }

    /// The name of the output file for a calibration constant.
    pub fn file_name(&self, power_units: u64) -> (name: String)
        ensures
            name@ == spec_file_name(self@.vendor, power_units),
    {
        let digits = decimal_string(power_units);
        let name = String::from_str(self.vendor.get_cpu_type());
        let name = name.concat("_");
        let name = name.concat(digits.as_str());
        name.concat(".csv")
    }

    /// Takes note that the output file was opened for appending: whether it
    /// existed before, and its length in bytes. Only the first note counts.
    pub fn opened(&mut self, existed: bool, length: u64)
        ensures
            final(self)@ == old(self)@.opened(existed, length),
    {
        if !self.open {
            self.open = true;
            self.header_due = !existed || length == 0;
        }
    }

    /// The bytes to append to the output file for one record. It is a
    /// contract violation to call this before the file was opened, or with a
    /// record that has not one pair of readings for each domain of the
    /// family; the sink is then left as it is.
    pub fn write_to_csv(&mut self, record: &Record) -> (written: Result<Vec<u8>, RaplError>)
        ensures
            match written {
                Ok(bytes) => {
                    &&& old(self)@.open
                    &&& record@.fits(old(self)@.vendor)
                    &&& bytes@ == old(self)@.output(record@)
                    &&& final(self)@ == old(self)@.appended()
                },
                Err(error) => {
                    &&& !(old(self)@.open && record@.fits(old(self)@.vendor))
                    &&& error == RaplError::ContractViolation
                    &&& final(self)@ == old(self)@
                },
            },
    {
        if !self.open || record.domains.len() != self.vendor.domain_count() {
            return Err(RaplError::ContractViolation);
        }
        let mut row = match encode_row(record) {
            Ok(row) => row,
            Err(error) => {
                return Err(error);
            },
        };
        if self.header_due {
            let mut bytes = match encode_header(self.vendor) {
                Ok(header) => header,
                Err(error) => {
                    return Err(error);
                },
            };
            bytes.append(&mut row);
            self.header_due = false;
            Ok(bytes)
        } else {
            Ok(row)
        }
    }
}

/// Appending to a file that was populated when it was opened never writes
/// the header row: what is added is the records' rows and nothing else.
pub proof fn lemma_populated_file_gets_no_header(
    vendor: Vendor,
    length: u64,
    records: Seq<RecordView>,
)
    requires
        length > 0,
    ensures
        SinkView::closed(vendor).opened(true, length).output_all(records) == rows_of(records),
    decreases records.len(),
{
    if records.len() > 0 {
        lemma_populated_file_gets_no_header(vendor, length, records.drop_last());
    }
}

/// A file that was new or empty when it was opened gets the header row
/// exactly once, before the first record's row, however many records follow.
pub proof fn lemma_fresh_file_gets_one_header(
    vendor: Vendor,
    existed: bool,
    length: u64,
    records: Seq<RecordView>,
)
    requires
        !existed || length == 0,
        records.len() > 0,
    ensures
        SinkView::closed(vendor).opened(existed, length).output_all(records) == header_line(vendor)
            + rows_of(records),
    decreases records.len(),
{
    let sink = SinkView::closed(vendor).opened(existed, length);
    let head = records.drop_last();
    if head.len() == 0 {
        assert(sink.output_all(head) =~= Seq::<u8>::empty());
    } else {
        lemma_fresh_file_gets_one_header(vendor, existed, length, head);
    }
}

} // verus!
