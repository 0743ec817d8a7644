use crate::vendor::Vendor;
use vstd::prelude::*;

verus! {

/// The energy counters at one moment: the wall-clock time in milliseconds
/// since the epoch, and one raw reading for each energy domain.
#[derive(Clone, Debug, PartialEq, Eq)]
pub struct Snapshot {
    pub timestamp: u128,
    pub readings: Vec<u64>,
}

/// One measured run of the workload: when it started and ended, and for each
/// energy domain the counter at the start and at the end.
#[derive(Clone, Debug, PartialEq, Eq)]
pub struct Record {
    pub time_start: u128,
    pub time_end: u128,
    pub domains: Vec<(u64, u64)>,
}

/// A record as a mathematical value.
pub struct RecordView {
    pub time_start: u128,
    pub time_end: u128,
    pub domains: Seq<(u64, u64)>,
}

impl View for Record {
    type V = RecordView;

    open spec fn view(&self) -> RecordView {
        RecordView { time_start: self.time_start, time_end: self.time_end, domains: self.domains@ }
    }
}

/// A snapshot as a mathematical value.
pub struct SnapshotView {
    pub timestamp: u128,
    pub readings: Seq<u64>,
}

impl View for Snapshot {
    type V = SnapshotView;

    open spec fn view(&self) -> SnapshotView {
        SnapshotView { timestamp: self.timestamp, readings: self.readings@ }
    }
}

/// The record that a start and an end snapshot with equally many readings
/// make.
pub open spec fn paired(start: SnapshotView, end: SnapshotView) -> RecordView {
    RecordView {
        time_start: start.timestamp,
        time_end: end.timestamp,
        domains: Seq::new(start.readings.len(), |k: int| (start.readings[k], end.readings[k])),
    }
}

impl SnapshotView {
    /// Whether the snapshot has one reading for each energy domain of the
    /// family.
    pub open spec fn fits(self, vendor: Vendor) -> bool {
        self.readings.len() == vendor.spec_domain_count()
    }
}

impl RecordView {
    /// Whether the record has one pair of readings for each energy domain of
    /// the family.
    pub open spec fn fits(self, vendor: Vendor) -> bool {
        self.domains.len() == vendor.spec_domain_count()
    }

    /// The numbers of the record in column order: the two timestamps, then
    /// the start and the end reading of each domain.
    pub open spec fn row_values(self) -> Seq<nat> {
        Seq::new(
            2 + 2 * self.domains.len(),
            |i: int|
                if i == 0 {
                    self.time_start as nat
                } else if i == 1 {
                    self.time_end as nat
                } else if i % 2 == 0 {
                    self.domains[(i - 2) / 2].0 as nat
                } else {
                    self.domains[(i - 3) / 2].1 as nat
                },
        )
    }
}

impl Record {
    /// Pairs the snapshot taken at the start with the one taken at the end,
    /// reading by reading. There is no record where the two have not equally
    /// many readings.
    pub fn pair(start: &Snapshot, end: &Snapshot) -> (record: Option<Record>)
        ensures
            record is Some <==> start.readings@.len() == end.readings@.len(),
            record matches Some(made) ==> made@ == paired(start@, end@),
    {
        if start.readings.len() != end.readings.len() {
            return None;
        }
        let mut domains: Vec<(u64, u64)> = Vec::new();
        let mut k: usize = 0;
        while k < start.readings.len()
            invariant
                start.readings@.len() == end.readings@.len(),
                k <= start.readings@.len(),
                domains@.len() == k,
                forall|j: int|
                    0 <= j < k ==> #[trigger] domains@[j] == (
                        start.readings@[j],
                        end.readings@[j],
                    ),
            decreases start.readings@.len() - k,
        {
            domains.push((start.readings[k], end.readings[k]));
            k += 1;
        }
        assert(domains@ =~= paired(start@, end@).domains);
        Some(Record { time_start: start.timestamp, time_end: end.timestamp, domains })
    }

    /// The numbers of the record in column order.
    pub fn row_numbers(&self) -> (numbers: Vec<u128>)
        ensures
            numbers@.len() == self@.row_values().len(),
            forall|i: int|
                0 <= i < numbers@.len() ==> #[trigger] numbers@[i] as nat == self@.row_values()[i],
    {
        let mut numbers: Vec<u128> = Vec::new();
        numbers.push(self.time_start);
        numbers.push(self.time_end);
        let mut k: usize = 0;
        while k < self.domains.len()
            invariant
                k <= self.domains@.len(),
                numbers@.len() == 2 + 2 * k,
                forall|i: int|
                    0 <= i < numbers@.len() ==> #[trigger] numbers@[i] as nat
                        == self@.row_values()[i],
            decreases self.domains@.len() - k,
        {
            let (first, last) = self.domains[k];
            numbers.push(first as u128);
            numbers.push(last as u128);
            k += 1;
        }
        numbers
    }
}

} // verus!
