use rapl_lib::error::RaplError;
use rapl_lib::record::Record;
use rapl_lib::sink::RecordSink;
use rapl_lib::vendor::Vendor;

fn record(seed: u64) -> Record {
    Record {
        time_start: seed as u128,
        time_end: seed as u128 + 1,
        domains: vec![(seed, seed + 2), (seed + 3, seed + 4)],
    }
}

#[test]
fn file_name_holds_family_and_calibration_constant() {
    assert_eq!(RecordSink::new(Vendor::Amd).file_name(658947), "AMD_658947.csv");
    assert_eq!(RecordSink::new(Vendor::Intel).file_name(658947), "Intel_658947.csv");
    assert_eq!(RecordSink::new(Vendor::Intel).file_name(0), "Intel_0.csv");
    assert_eq!(
        RecordSink::new(Vendor::Amd).file_name(u64::MAX),
        "AMD_18446744073709551615.csv"
    );
}

#[test]
fn a_new_file_gets_the_header_once() {
    let mut sink = RecordSink::new(Vendor::Amd);
    assert!(!sink.is_open());
    sink.opened(false, 0);
    assert!(sink.is_open());
    assert!(sink.header_due());
    assert_eq!(
        sink.write_to_csv(&record(1)),
        Ok(b"TimeStart,TimeEnd,CoreStart,CoreEnd,PkgStart,PkgEnd\n1,2,1,3,4,5\n".to_vec())
    );
    assert!(!sink.header_due());
    assert_eq!(sink.write_to_csv(&record(10)), Ok(b"10,11,10,12,13,14\n".to_vec()));
    assert_eq!(sink.write_to_csv(&record(20)), Ok(b"20,21,20,22,23,24\n".to_vec()));
}

#[test]
fn an_empty_file_that_existed_gets_the_header() {
    let mut sink = RecordSink::new(Vendor::Amd);
    sink.opened(true, 0);
    assert!(sink.header_due());
    assert_eq!(
        sink.write_to_csv(&record(1)),
        Ok(b"TimeStart,TimeEnd,CoreStart,CoreEnd,PkgStart,PkgEnd\n1,2,1,3,4,5\n".to_vec())
    );
}

#[test]
fn a_populated_file_never_gets_the_header_again() {
    let mut sink = RecordSink::new(Vendor::Amd);
    sink.opened(true, 52);
    assert!(!sink.header_due());
    assert_eq!(sink.write_to_csv(&record(1)), Ok(b"1,2,1,3,4,5\n".to_vec()));
    assert_eq!(sink.write_to_csv(&record(10)), Ok(b"10,11,10,12,13,14\n".to_vec()));
    assert!(!sink.header_due());
}

#[test]
fn a_file_reported_new_with_a_length_gets_the_header() {
    let mut sink = RecordSink::new(Vendor::Amd);
    sink.opened(false, 17);
    assert!(sink.header_due());
}

#[test]
fn only_the_first_note_of_an_opening_counts() {
    let mut sink = RecordSink::new(Vendor::Amd);
    sink.opened(true, 52);
    sink.opened(false, 0);
    assert!(sink.is_open());
    assert!(!sink.header_due());
    let mut fresh = RecordSink::new(Vendor::Amd);
    fresh.opened(false, 0);
    assert_eq!(fresh.write_to_csv(&record(1)).unwrap().len(), 52 + 12);
    fresh.opened(false, 0);
    assert!(!fresh.header_due());
}

#[test]
fn writing_before_the_file_is_open_is_a_contract_violation() {
    let mut sink = RecordSink::new(Vendor::Amd);
    assert_eq!(sink.write_to_csv(&record(1)), Err(RaplError::ContractViolation));
    assert!(!sink.is_open());
}

#[test]
fn a_record_of_the_other_family_is_a_contract_violation() {
    let mut sink = RecordSink::new(Vendor::Intel);
    sink.opened(false, 0);
    assert_eq!(sink.write_to_csv(&record(1)), Err(RaplError::ContractViolation));
    assert!(sink.header_due());
    let four = Record { time_start: 1, time_end: 2, domains: vec![(3, 4), (5, 6), (7, 8), (9, 10)] };
    assert_eq!(
        sink.write_to_csv(&four),
        Ok(b"TimeStart,TimeEnd,PP0Start,PP0End,PP1Start,PP1End,PkgStart,PkgEnd,DramStart,DramEnd\n1,2,3,4,5,6,7,8,9,10\n"
            .to_vec())
    );
    let mut amd = RecordSink::new(Vendor::Amd);
    amd.opened(true, 1);
    assert_eq!(amd.write_to_csv(&four), Err(RaplError::ContractViolation));
}
