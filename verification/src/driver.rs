use crate::error::RaplError;
use crate::msr::{AccessPath, ReadRequest, IOCTL_OLS_READ_MSR, le_value};
use vstd::prelude::*;

verus! {

/// How far the one-time setup of the access path has come.
#[derive(Clone, Copy, Debug, PartialEq, Eq, Structural)]
pub enum Setup {
    /// Nothing was done yet.
    Idle,
    /// The caller was asked whether the process has elevated privilege.
    AwaitingPrivilege,
    /// The caller was asked to open the driver.
    AwaitingDriver,
    /// Registers can be read.
    Ready,
    /// The setup failed with this error, for good.
    Failed(RaplError),
}

/// What the caller has to do next for the setup.
#[derive(Clone, Copy, Debug, PartialEq, Eq, Structural)]
pub enum SetupAction {
    /// Nothing: registers can be read.
    Proceed,
    /// Find out whether the process has elevated privilege, and report it.
    CheckPrivilege,
    /// Open the driver, and report whether that worked.
    OpenDriver,
    /// Give up with this error.
    Fail(RaplError),
}

/// What the caller reports to the setup.
#[derive(Clone, Copy, Debug, PartialEq, Eq, Structural)]
pub enum SetupEvent {
    /// A measurement is about to start.
    Start,
    /// The privilege check ended: with the answer, or without one.
    Privilege(Option<bool>),
    /// The attempt to open the driver ended, well or not.
    Driver(bool),
}

/// The setup of the device file path: there is none. The file is opened by
/// the first read.
pub open spec fn device_file_step(setup: Setup, event: SetupEvent) -> (Setup, SetupAction) {
    match event {
        SetupEvent::Start => (setup, SetupAction::Proceed),
        _ => (setup, SetupAction::Fail(RaplError::ContractViolation)),
    }
}

/// The setup of the driver path: first the privilege check, then, only with
/// elevated privilege, the driver is opened. Each happens once. A failure is
/// final: every later start fails with the same error.
pub open spec fn driver_step(setup: Setup, event: SetupEvent) -> (Setup, SetupAction) {
    match (setup, event) {
        (Setup::Idle, SetupEvent::Start) => (Setup::AwaitingPrivilege, SetupAction::CheckPrivilege),
        (Setup::Ready, SetupEvent::Start) => (Setup::Ready, SetupAction::Proceed),
        (Setup::Failed(error), SetupEvent::Start) => (Setup::Failed(error), SetupAction::Fail(error)),
        (Setup::AwaitingPrivilege, SetupEvent::Privilege(Some(true))) => (
            Setup::AwaitingDriver,
            SetupAction::OpenDriver,
        ),
        (Setup::AwaitingPrivilege, SetupEvent::Privilege(_)) => (
            Setup::Failed(RaplError::Privilege),
            SetupAction::Fail(RaplError::Privilege),
        ),
        (Setup::AwaitingDriver, SetupEvent::Driver(true)) => (Setup::Ready, SetupAction::Proceed),
        (Setup::AwaitingDriver, SetupEvent::Driver(false)) => (
            Setup::Failed(RaplError::Access),
            SetupAction::Fail(RaplError::Access),
        ),
        _ => (setup, SetupAction::Fail(RaplError::ContractViolation)),
    }
}

/// The next state of the setup and what the caller has to do, by path.
pub open spec fn setup_step(path: AccessPath, setup: Setup, event: SetupEvent) -> (
    Setup,
    SetupAction,
) {
    match path {
        AccessPath::DeviceFile => device_file_step(setup, event),
        AccessPath::Driver => driver_step(setup, event),
    }
}

/// Whether registers can be read: always over the device file, and over the
/// driver once it is open.
pub open spec fn can_read(path: AccessPath, setup: Setup) -> bool {
    match path {
        AccessPath::DeviceFile => true,
        AccessPath::Driver => setup == Setup::Ready,
    }
}

/// The register reader as a mathematical value.
pub struct ReaderView {
    pub path: AccessPath,
    pub setup: Setup,
}

/// The register reader: the access path and the state of its one-time
/// setup.
pub struct RegisterReader {
    path: AccessPath,
    setup: Setup,
}

impl View for RegisterReader {
    type V = ReaderView;

    closed spec fn view(&self) -> ReaderView {
        ReaderView { path: self.path, setup: self.setup }
    }
}

impl RegisterReader {
    /// A reader over a path, with nothing set up yet.
    pub fn new(path: AccessPath) -> (reader: RegisterReader)
        ensures
            reader@ == (ReaderView { path, setup: Setup::Idle }),
    {
        RegisterReader { path, setup: Setup::Idle }
    }

    /// The access path of the reader.
    pub fn path(&self) -> (path: AccessPath)
        ensures
            path == self@.path,
    {
        self.path
    }

    /// Takes one event of the setup and says what the caller has to do next.
    pub fn step(&mut self, event: SetupEvent) -> (action: SetupAction)
        ensures
            (final(self)@.setup, action) == setup_step(old(self)@.path, old(self)@.setup, event),
            final(self)@.path == old(self)@.path,
    {
        let (setup, action) = match self.path {
            AccessPath::DeviceFile => match event {
                SetupEvent::Start => (self.setup, SetupAction::Proceed),
                _ => (self.setup, SetupAction::Fail(RaplError::ContractViolation)),
            },
            AccessPath::Driver => match (self.setup, event) {
                (Setup::Idle, SetupEvent::Start) => (
                    Setup::AwaitingPrivilege,
                    SetupAction::CheckPrivilege,
                ),
                (Setup::Ready, SetupEvent::Start) => (Setup::Ready, SetupAction::Proceed),
                (Setup::Failed(error), SetupEvent::Start) => (
                    Setup::Failed(error),
                    SetupAction::Fail(error),
                ),
                (Setup::AwaitingPrivilege, SetupEvent::Privilege(Some(true))) => (
                    Setup::AwaitingDriver,
                    SetupAction::OpenDriver,
                ),
                (Setup::AwaitingPrivilege, SetupEvent::Privilege(_)) => (
                    Setup::Failed(RaplError::Privilege),
                    SetupAction::Fail(RaplError::Privilege),
                ),
                (Setup::AwaitingDriver, SetupEvent::Driver(true)) => (
                    Setup::Ready,
                    SetupAction::Proceed,
                ),
                (Setup::AwaitingDriver, SetupEvent::Driver(false)) => (
                    Setup::Failed(RaplError::Access),
                    SetupAction::Fail(RaplError::Access),
                ),
                _ => (self.setup, SetupAction::Fail(RaplError::ContractViolation)),
            },
        };
        self.setup = setup;
        action
    }

    /// Prepares the access path before a measurement starts. Over the
    /// device file there is nothing to prepare. Over the driver the first
    /// call asks for the privilege check; once the driver is open, later
    /// calls have nothing to do.
    pub fn start_rapl_impl(&mut self) -> (action: SetupAction)
        ensures
            (final(self)@.setup, action) == setup_step(
                old(self)@.path,
                old(self)@.setup,
                SetupEvent::Start,
            ),
            final(self)@.path == old(self)@.path,
    {
        self.step(SetupEvent::Start)
    }

    /// The request that reads a register, if registers can be read. Asking
    /// for one over a driver that is not open is an access error.
    pub fn request(&self, msr: u64) -> (request: Result<ReadRequest, RaplError>)
        ensures
            match request {
                Ok(ReadRequest::ReadAt { offset }) => self@.path == AccessPath::DeviceFile && offset
                    == msr,
                Ok(ReadRequest::DeviceControl { code, input }) => self@.path == AccessPath::Driver
                    && self@.setup == Setup::Ready && code == IOCTL_OLS_READ_MSR && le_value(input@)
                    == msr % 0x1_0000_0000,
                Err(error) => !can_read(self@.path, self@.setup) && error == RaplError::Access,
            },
    {
        match (self.path, self.setup) {
            (AccessPath::Driver, Setup::Ready) => Ok(self.path.request(msr)),
            (AccessPath::Driver, _) => Err(RaplError::Access),
            (AccessPath::DeviceFile, _) => Ok(self.path.request(msr)),
        }
    }
}

/// Once the setup has failed, it stays failed: whatever is reported later,
/// the state does not change and every start fails with the first error.
pub proof fn lemma_failed_setup_is_final(error: RaplError, event: SetupEvent)
    ensures
        driver_step(Setup::Failed(error), event).0 == Setup::Failed(error),
        driver_step(Setup::Failed(error), SetupEvent::Start).1 == SetupAction::Fail(error),
{
}

/// The driver is opened only after the privilege check has found elevated
/// privilege: the one event that leads to the request to open it is a
/// positive answer while that answer is waited for.
pub proof fn lemma_driver_opened_only_with_privilege(setup: Setup, event: SetupEvent)
    ensures
        driver_step(setup, event).1 == SetupAction::OpenDriver <==> setup
            == Setup::AwaitingPrivilege && event == SetupEvent::Privilege(Some(true)),
        driver_step(setup, event).0 == Setup::Ready ==> setup == Setup::Ready || (setup
            == Setup::AwaitingDriver && event == SetupEvent::Driver(true)),
{
}

} // verus!
