use rapl_lib::driver::{RegisterReader, SetupAction, SetupEvent};
use rapl_lib::error::RaplError;
use rapl_lib::msr::{AccessPath, ReadRequest};

#[test]
fn device_file_needs_no_setup() {
    let mut reader = RegisterReader::new(AccessPath::DeviceFile);
    assert_eq!(reader.path(), AccessPath::DeviceFile);
    assert_eq!(reader.request(0x606), Ok(ReadRequest::ReadAt { offset: 0x606 }));
    assert_eq!(reader.start_rapl_impl(), SetupAction::Proceed);
    assert_eq!(reader.start_rapl_impl(), SetupAction::Proceed);
    assert_eq!(reader.request(0x606), Ok(ReadRequest::ReadAt { offset: 0x606 }));
}

#[test]
fn device_file_takes_no_setup_reports() {
    let mut reader = RegisterReader::new(AccessPath::DeviceFile);
    assert_eq!(
        reader.step(SetupEvent::Privilege(Some(true))),
        SetupAction::Fail(RaplError::ContractViolation)
    );
    assert_eq!(
        reader.step(SetupEvent::Driver(true)),
        SetupAction::Fail(RaplError::ContractViolation)
    );
    assert_eq!(reader.start_rapl_impl(), SetupAction::Proceed);
}

#[test]
fn driver_is_opened_after_the_privilege_check() {
    let mut reader = RegisterReader::new(AccessPath::Driver);
    assert_eq!(reader.request(0x606), Err(RaplError::Access));
    assert_eq!(reader.start_rapl_impl(), SetupAction::CheckPrivilege);
    assert_eq!(reader.request(0x606), Err(RaplError::Access));
    assert_eq!(reader.step(SetupEvent::Privilege(Some(true))), SetupAction::OpenDriver);
    assert_eq!(reader.request(0x606), Err(RaplError::Access));
    assert_eq!(reader.step(SetupEvent::Driver(true)), SetupAction::Proceed);
    assert_eq!(
        reader.request(0x606),
        Ok(ReadRequest::DeviceControl { code: 0x9C402084, input: [0x06, 0x06, 0, 0] })
    );
    assert_eq!(reader.start_rapl_impl(), SetupAction::Proceed);
    assert_eq!(reader.start_rapl_impl(), SetupAction::Proceed);
}

#[test]
fn missing_privilege_is_fatal() {
    let mut reader = RegisterReader::new(AccessPath::Driver);
    assert_eq!(reader.start_rapl_impl(), SetupAction::CheckPrivilege);
    assert_eq!(
        reader.step(SetupEvent::Privilege(Some(false))),
        SetupAction::Fail(RaplError::Privilege)
    );
    assert_eq!(reader.start_rapl_impl(), SetupAction::Fail(RaplError::Privilege));
    assert_eq!(
        reader.step(SetupEvent::Driver(true)),
        SetupAction::Fail(RaplError::ContractViolation)
    );
    assert_eq!(reader.start_rapl_impl(), SetupAction::Fail(RaplError::Privilege));
    assert_eq!(reader.request(0x606), Err(RaplError::Access));
}

#[test]
fn failed_privilege_check_is_fatal() {
    let mut reader = RegisterReader::new(AccessPath::Driver);
    assert_eq!(reader.start_rapl_impl(), SetupAction::CheckPrivilege);
    assert_eq!(reader.step(SetupEvent::Privilege(None)), SetupAction::Fail(RaplError::Privilege));
    assert_eq!(reader.start_rapl_impl(), SetupAction::Fail(RaplError::Privilege));
}

#[test]
fn driver_that_does_not_open_is_fatal() {
    let mut reader = RegisterReader::new(AccessPath::Driver);
    assert_eq!(reader.start_rapl_impl(), SetupAction::CheckPrivilege);
    assert_eq!(reader.step(SetupEvent::Privilege(Some(true))), SetupAction::OpenDriver);
    assert_eq!(reader.step(SetupEvent::Driver(false)), SetupAction::Fail(RaplError::Access));
    assert_eq!(reader.start_rapl_impl(), SetupAction::Fail(RaplError::Access));
    assert_eq!(reader.request(0x606), Err(RaplError::Access));
}

#[test]
fn setup_reports_out_of_order_are_refused() {
    let mut reader = RegisterReader::new(AccessPath::Driver);
    assert_eq!(
        reader.step(SetupEvent::Driver(true)),
        SetupAction::Fail(RaplError::ContractViolation)
    );
    assert_eq!(
        reader.step(SetupEvent::Privilege(Some(true))),
        SetupAction::Fail(RaplError::ContractViolation)
    );
    assert_eq!(reader.start_rapl_impl(), SetupAction::CheckPrivilege);
    assert_eq!(reader.start_rapl_impl(), SetupAction::Fail(RaplError::ContractViolation));
    assert_eq!(reader.step(SetupEvent::Privilege(Some(true))), SetupAction::OpenDriver);
    assert_eq!(
        reader.step(SetupEvent::Privilege(Some(true))),
        SetupAction::Fail(RaplError::ContractViolation)
    );
    assert_eq!(reader.step(SetupEvent::Driver(true)), SetupAction::Proceed);
}
