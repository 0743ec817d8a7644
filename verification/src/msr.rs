use crate::decimal::{decimal_chars, decimal_string};
use crate::error::RaplError;
use vstd::prelude::*;
use vstd::string::StringExecFns;

verus! {

/// The control code of the driver request that reads a register.
pub const IOCTL_OLS_READ_MSR: u32 = 0x9C402084;

/// The number that some bytes denote when the least significant comes first.
pub open spec fn le_value(bytes: Seq<u8>) -> nat
    decreases bytes.len(),
{
    if bytes.len() == 0 {
        0
    } else {
        bytes[0] as nat + 256 * le_value(bytes.drop_first())
    }
}

/// How the registers are reached: by positional reads on a per-core device
/// file, or by control requests to a kernel driver.
#[derive(Clone, Copy, Debug, PartialEq, Eq, Structural)]
pub enum AccessPath {
    DeviceFile,
    Driver,
}

/// What has to be asked of the operating system to read one register. The
/// answer is eight bytes either way.
#[derive(Clone, Copy, Debug, PartialEq, Eq)]
pub enum ReadRequest {
    /// Read eight bytes of the device file at this byte offset.
    ReadAt { offset: u64 },
    /// Send the driver this control code with these four bytes as input.
    DeviceControl { code: u32, input: [u8; 4] },
}

/// The path of the device file through which the registers of a core are
/// read.
pub open spec fn spec_msr_device_path(core: u32) -> Seq<char> {
    "/dev/cpu/"@ + decimal_chars(core as nat) + "/msr"@
}

/// The path of the device file through which the registers of a core are
/// read.
pub fn msr_device_path(core: u32) -> (path: String)
    ensures
        path@ == spec_msr_device_path(core),
{
    let digits = decimal_string(core as u64);
    let path = String::from_str("/dev/cpu/");
    let path = path.concat(digits.as_str());
    path.concat("/msr")
}

/// The register value in the answer to a read request: the eight bytes read
/// as a number, least significant byte first. An answer that did not come is
/// an access error.
pub fn read_msr(output_data: Option<[u8; 8]>) -> (value: Result<u64, RaplError>)
    ensures
        match output_data {
            Some(bytes) => value matches Ok(number) && number as nat == le_value(bytes@),
            None => value == Err::<u64, RaplError>(RaplError::Access),
        },
{
    match output_data {
        None => Err(RaplError::Access),
        Some(bytes) => {
            proof {
                reveal_with_fuel(le_value, 9);
            }
            let b0 = bytes[0] as u64;
            let b1 = bytes[1] as u64;
            let b2 = bytes[2] as u64;
            let b3 = bytes[3] as u64;
            let b4 = bytes[4] as u64;
            let b5 = bytes[5] as u64;
            let b6 = bytes[6] as u64;
            let b7 = bytes[7] as u64;
            Ok(
                b0 + b1 * 0x100 + b2 * 0x1_0000 + b3 * 0x100_0000 + b4 * 0x1_0000_0000 + b5
                    * 0x100_0000_0000 + b6 * 0x1_0000_0000_0000 + b7 * 0x100_0000_0000_0000,
            )
        },
    }
}

/// The driver request that reads a register, from its 32-bit number: the
/// read control code, with the number as four bytes, least significant
/// first.
pub fn read_msr_wrapper(msr: u32) -> (request: ReadRequest)
    ensures
        request matches ReadRequest::DeviceControl { code, input } && code == IOCTL_OLS_READ_MSR
            && le_value(input@) == msr,
{
    let b0 = (msr % 0x100) as u8;
    let b1 = ((msr / 0x100) % 0x100) as u8;
    let b2 = ((msr / 0x1_0000) % 0x100) as u8;
    let b3 = (msr / 0x100_0000) as u8;
    let input: [u8; 4] = [b0, b1, b2, b3];
    proof {
        reveal_with_fuel(le_value, 5);
    }
    ReadRequest::DeviceControl { code: IOCTL_OLS_READ_MSR, input }
}

impl AccessPath {
    /// The request that reads a register over this path. The device file is
    /// read at the register's address; the driver takes the low 32 bits of
    /// the address.
    pub fn request(&self, msr: u64) -> (request: ReadRequest)
        ensures
            match *self {
                AccessPath::DeviceFile => request == (ReadRequest::ReadAt { offset: msr }),
                AccessPath::Driver => request matches ReadRequest::DeviceControl { code, input }
                    && code == IOCTL_OLS_READ_MSR && le_value(input@) == msr % 0x1_0000_0000,
            },
    {
        match self {
            AccessPath::DeviceFile => ReadRequest::ReadAt { offset: msr },
            AccessPath::Driver => read_msr_wrapper((msr % 0x1_0000_0000) as u32),
        }
    }
}

/// Whether every answer in a list came.
pub open spec fn all_answered(answers: Seq<Option<[u8; 8]>>) -> bool {
    forall|i: int| 0 <= i < answers.len() ==> #[trigger] answers[i] is Some
}

/// The register values in the answers to the read requests of one snapshot,
/// in the order of the requests. One answer that did not come makes the
/// whole snapshot an access error.
pub fn read_rapl_registers(answers: &Vec<Option<[u8; 8]>>) -> (readings: Result<
    Vec<u64>,
    RaplError,
>)
    ensures
        match readings {
            Ok(values) => {
                &&& all_answered(answers@)
                &&& values@.len() == answers@.len()
                &&& forall|i: int|
                    0 <= i < values@.len() ==> #[trigger] values@[i] as nat == le_value(
                        answers@[i]->0@,
                    )
            },
            Err(error) => !all_answered(answers@) && error == RaplError::Access,
        },
{
    let mut values: Vec<u64> = Vec::new();
    let mut i: usize = 0;
    while i < answers.len()
        invariant
            i <= answers@.len(),
            values@.len() == i,
            forall|j: int| 0 <= j < i ==> #[trigger] answers@[j] is Some,
            forall|j: int|
                0 <= j < i ==> #[trigger] values@[j] as nat == le_value(answers@[j]->0@),
        decreases answers@.len() - i,
    {
        match read_msr(answers[i]) {
            Ok(value) => {
                values.push(value);
            },
            Err(error) => {
                return Err(error);
            },
        }
        i += 1;
    }
    Ok(values)
}

} // verus!
