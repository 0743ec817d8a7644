use rapl_lib::error::RaplError;
use rapl_lib::record::{Record, Snapshot};
use rapl_lib::row::{encode_header, encode_row, encoded_line, parse_row};
use rapl_lib::vendor::Vendor;

fn amd_record() -> Record {
    Record { time_start: 1700000000000, time_end: 1700000000250, domains: vec![(10, 25), (300, 450)] }
}

fn intel_record() -> Record {
    Record {
        time_start: 1,
        time_end: 2,
        domains: vec![(3, 4), (5, 6), (7, 8), (9, 10)],
    }
}

#[test]
fn header_row_of_the_two_domain_family() {
    assert_eq!(
        encode_header(Vendor::Amd),
        Ok(b"TimeStart,TimeEnd,CoreStart,CoreEnd,PkgStart,PkgEnd\n".to_vec())
    );
}

#[test]
fn header_row_of_the_four_domain_family() {
    assert_eq!(
        encode_header(Vendor::Intel),
        Ok(
            b"TimeStart,TimeEnd,PP0Start,PP0End,PP1Start,PP1End,PkgStart,PkgEnd,DramStart,DramEnd\n"
                .to_vec()
        )
    );
}

#[test]
fn header_rows_have_two_columns_per_domain_and_two_timestamps() {
    for vendor in [Vendor::Amd, Vendor::Intel] {
        let header = encode_header(vendor).unwrap();
        let commas = header.iter().filter(|byte| **byte == b',').count();
        assert_eq!(commas + 1, 2 + 2 * vendor.domain_count());
        assert_eq!(header.last(), Some(&b'\n'));
    }
}

#[test]
fn row_of_a_record() {
    assert_eq!(encode_row(&amd_record()), Ok(b"1700000000000,1700000000250,10,25,300,450\n".to_vec()));
    assert_eq!(encode_row(&intel_record()), Ok(b"1,2,3,4,5,6,7,8,9,10\n".to_vec()));
}

#[test]
fn row_with_the_largest_values() {
    let record = Record { time_start: u128::MAX, time_end: 0, domains: vec![(u64::MAX, 0), (0, u64::MAX)] };
    assert_eq!(
        encode_row(&record),
        Ok(b"340282366920938463463374607431768211455,0,18446744073709551615,0,0,18446744073709551615\n"
            .to_vec())
    );
}

#[test]
fn row_numbers_are_in_column_order() {
    assert_eq!(amd_record().row_numbers(), vec![1700000000000, 1700000000250, 10, 25, 300, 450]);
    assert_eq!(intel_record().row_numbers(), vec![1, 2, 3, 4, 5, 6, 7, 8, 9, 10]);
    let bare = Record { time_start: 5, time_end: 6, domains: Vec::new() };
    assert_eq!(bare.row_numbers(), vec![5, 6]);
}

#[test]
fn pair_puts_start_and_end_side_by_side() {
    let start = Snapshot { timestamp: 100, readings: vec![1, 2] };
    let end = Snapshot { timestamp: 200, readings: vec![11, 22] };
    assert_eq!(
        Record::pair(&start, &end),
        Some(Record { time_start: 100, time_end: 200, domains: vec![(1, 11), (2, 22)] })
    );
    let empty = Snapshot { timestamp: 1, readings: Vec::new() };
    assert_eq!(
        Record::pair(&empty, &empty),
        Some(Record { time_start: 1, time_end: 1, domains: Vec::new() })
    );
}

#[test]
fn snapshots_of_different_sizes_make_no_record() {
    let start = Snapshot { timestamp: 100, readings: vec![1, 2] };
    let end = Snapshot { timestamp: 200, readings: vec![11, 22, 33, 44] };
    assert_eq!(Record::pair(&start, &end), None);
    assert_eq!(Record::pair(&end, &start), None);
}

#[test]
fn a_row_reads_back_as_the_record_it_was_written_for() {
    for (record, vendor) in [(amd_record(), Vendor::Amd), (intel_record(), Vendor::Intel)] {
        let row = encode_row(&record).unwrap();
        assert_eq!(parse_row(&row, vendor), Some(record));
    }
    let extreme = Record { time_start: u128::MAX, time_end: 0, domains: vec![(u64::MAX, 0), (0, u64::MAX)] };
    let row = encode_row(&extreme).unwrap();
    assert_eq!(parse_row(&row, Vendor::Amd), Some(extreme));
}

#[test]
fn a_row_reads_back_by_column_position_with_a_csv_reader() {
    let record = amd_record();
    let mut file = encode_header(Vendor::Amd).unwrap();
    file.extend(encode_row(&record).unwrap());
    let mut reader = csv::Reader::from_reader(file.as_slice());
    let rows: Vec<csv::StringRecord> = reader.records().map(|row| row.unwrap()).collect();
    assert_eq!(rows.len(), 1);
    let row = &rows[0];
    assert_eq!(row.len(), 6);
    assert_eq!(row[0].parse::<u128>().unwrap(), record.time_start);
    assert_eq!(row[1].parse::<u128>().unwrap(), record.time_end);
    assert_eq!(row[2].parse::<u64>().unwrap(), record.domains[0].0);
    assert_eq!(row[3].parse::<u64>().unwrap(), record.domains[0].1);
    assert_eq!(row[4].parse::<u64>().unwrap(), record.domains[1].0);
    assert_eq!(row[5].parse::<u64>().unwrap(), record.domains[1].1);
    let header = reader.headers().unwrap();
    assert_eq!(header.iter().collect::<Vec<&str>>(), Vendor::Amd.columns());
}

#[test]
fn parse_row_reads_a_plain_row() {
    assert_eq!(
        parse_row(b"1,2,3,4,5,6\n", Vendor::Amd),
        Some(Record { time_start: 1, time_end: 2, domains: vec![(3, 4), (5, 6)] })
    );
    assert_eq!(
        parse_row(b"0,0,0,0,0,0,0,0,0,0\n", Vendor::Intel),
        Some(Record { time_start: 0, time_end: 0, domains: vec![(0, 0); 4] })
    );
}

#[test]
fn parse_row_wants_the_family_s_column_count() {
    assert_eq!(parse_row(b"1,2,3,4,5,6\n", Vendor::Intel), None);
    assert_eq!(parse_row(b"1,2,3,4,5,6,7,8,9,10\n", Vendor::Amd), None);
    assert_eq!(parse_row(b"1,2,3,4,5\n", Vendor::Amd), None);
    assert_eq!(parse_row(b"1,2,3,4,5,6,7\n", Vendor::Amd), None);
}

#[test]
fn parse_row_wants_the_line_feed() {
    assert_eq!(parse_row(b"1,2,3,4,5,6", Vendor::Amd), None);
    assert_eq!(parse_row(b"", Vendor::Amd), None);
    assert_eq!(parse_row(b"\n", Vendor::Amd), None);
    assert_eq!(parse_row(b"1,2,3,4,5,6\r\n", Vendor::Amd), None);
    assert_eq!(parse_row(b"1,2,3,4,5,6\n\n", Vendor::Amd), None);
}

#[test]
fn parse_row_wants_canonical_numbers() {
    assert_eq!(parse_row(b"1,2,3,,5,6\n", Vendor::Amd), None);
    assert_eq!(parse_row(b"1,2,3,04,5,6\n", Vendor::Amd), None);
    assert_eq!(parse_row(b"1,2,3,x,5,6\n", Vendor::Amd), None);
    assert_eq!(parse_row(b"1,2,3, 4,5,6\n", Vendor::Amd), None);
    assert_eq!(parse_row(b"1,2,\"3\",4,5,6\n", Vendor::Amd), None);
    assert_eq!(parse_row(b"TimeStart,TimeEnd,CoreStart,CoreEnd,PkgStart,PkgEnd\n", Vendor::Amd), None);
}

#[test]
fn parse_row_holds_each_column_to_its_width() {
    assert_eq!(
        parse_row(b"18446744073709551616,2,3,4,5,6\n", Vendor::Amd),
        Some(Record { time_start: 18446744073709551616, time_end: 2, domains: vec![(3, 4), (5, 6)] })
    );
    assert_eq!(parse_row(b"1,2,18446744073709551616,4,5,6\n", Vendor::Amd), None);
    assert_eq!(parse_row(b"1,2,3,4,5,18446744073709551616\n", Vendor::Amd), None);
    assert_eq!(
        parse_row(b"1,2,3,4,5,18446744073709551615\n", Vendor::Amd),
        Some(Record { time_start: 1, time_end: 2, domains: vec![(3, 4), (5, u64::MAX)] })
    );
    assert_eq!(parse_row(b"340282366920938463463374607431768211456,2,3,4,5,6\n", Vendor::Amd), None);
}

#[test]
fn encoding_errors_are_persistence_errors() {
    let failure = csv::Error::from(std::io::Error::new(std::io::ErrorKind::Other, "disk full"));
    assert_eq!(encoded_line(Err(failure)), Err(RaplError::Persistence));
    assert_eq!(encoded_line(Ok(vec![1, 2, 3])), Ok(vec![1, 2, 3]));
}
