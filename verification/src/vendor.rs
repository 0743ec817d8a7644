use vstd::prelude::*;

verus! {

/// AMD: the register that holds the power, energy and time units.
pub const AMD_MSR_RAPL_POWER_UNIT: u64 = 0xC0010299;

/// AMD: the energy counter of the core.
pub const AMD_MSR_CORE_ENERGY: u64 = 0xC001029A;

/// AMD: the energy counter of the whole socket.
pub const AMD_MSR_RAPL_PKG_ENERGY_STAT: u64 = 0xC001029B;

/// Intel: the register that holds the power, energy and time units.
pub const INTEL_MSR_RAPL_POWER_UNIT: u64 = 0x606;

/// Intel: the energy counter of the package.
pub const INTEL_MSR_RAPL_PKG_ENERGY_STAT: u64 = 0x611;

/// Intel: the energy counter of the DRAM.
pub const INTEL_MSR_RAPL_DRAM: u64 = 0x619;

/// Intel: the energy counter of power plane 0, the cores.
pub const INTEL_MSR_RAPL_PP0: u64 = 0x639;

/// Intel: the energy counter of power plane 1, the uncore.
pub const INTEL_MSR_RAPL_PP1: u64 = 0x641;

/// The CPU family, chosen once at startup. It fixes the register addresses,
/// the number of energy domains and the columns of the output file.
#[derive(Clone, Copy, Debug, PartialEq, Eq, Structural)]
pub enum Vendor {
    /// Two energy domains: core and package.
    Amd,
    /// Four energy domains: PP0, PP1, package and DRAM.
    Intel,
}

/// The bytes of a text that holds ASCII characters only.
pub open spec fn ascii_bytes(text: Seq<char>) -> Seq<u8> {
    Seq::new(text.len(), |i: int| text[i] as u8)
}

impl Vendor {
    /// The number of energy domains of the family.
    pub open spec fn spec_domain_count(self) -> nat {
        match self {
            Vendor::Amd => 2,
            Vendor::Intel => 4,
        }
    }

    /// The address of the power-unit register.
    pub open spec fn spec_power_unit_register(self) -> u64 {
        match self {
            Vendor::Amd => AMD_MSR_RAPL_POWER_UNIT,
            Vendor::Intel => INTEL_MSR_RAPL_POWER_UNIT,
        }
    }

    /// The addresses of the energy counters, in the order in which they are
    /// read and written out.
    pub open spec fn spec_domain_registers(self) -> Seq<u64> {
        match self {
            Vendor::Amd => seq![AMD_MSR_CORE_ENERGY, AMD_MSR_RAPL_PKG_ENERGY_STAT],
            Vendor::Intel => seq![
                INTEL_MSR_RAPL_PP0,
                INTEL_MSR_RAPL_PP1,
                INTEL_MSR_RAPL_PKG_ENERGY_STAT,
                INTEL_MSR_RAPL_DRAM,
            ],
        }
    }

    /// The name under which the family appears in the output file's name.
    pub open spec fn spec_cpu_type(self) -> Seq<char> {
        match self {
            Vendor::Amd => "AMD"@,
            Vendor::Intel => "Intel"@,
        }
    }

    /// The column names of the output file: the two timestamps, then a start
    /// and an end column for each energy domain.
    pub open spec fn spec_columns(self) -> Seq<Seq<char>> {
        match self {
            Vendor::Amd => seq![
                "TimeStart"@,
                "TimeEnd"@,
                "CoreStart"@,
                "CoreEnd"@,
                "PkgStart"@,
                "PkgEnd"@,
            ],
            Vendor::Intel => seq![
                "TimeStart"@,
                "TimeEnd"@,
                "PP0Start"@,
                "PP0End"@,
                "PP1Start"@,
                "PP1End"@,
                "PkgStart"@,
                "PkgEnd"@,
                "DramStart"@,
                "DramEnd"@,
            ],
        }
    }

    /// The family that a CPU's vendor identification string names, if it is
    /// one of the two supported.
    pub fn from_vendor_id(vendor_id: &str) -> (vendor: Option<Vendor>)
        ensures
            vendor == if vendor_id@ == "AuthenticAMD"@ {
                Some(Vendor::Amd)
            } else if vendor_id@ == "GenuineIntel"@ {
                Some(Vendor::Intel)
            } else {
                None
            },
    {
        let id = vendor_id.to_owned();
        if id == "AuthenticAMD".to_owned() {
            Some(Vendor::Amd)
        } else if id == "GenuineIntel".to_owned() {
            Some(Vendor::Intel)
        } else {
            None
        }
    }

    /// The number of energy domains of the family.
    pub fn domain_count(&self) -> (count: usize)
        ensures
            count as nat == self.spec_domain_count(),
            count == self.spec_domain_registers().len(),
    {
        match self {
            Vendor::Amd => 2,
            Vendor::Intel => 4,
        }
    }

    /// The address of the power-unit register.
    pub fn power_unit_register(&self) -> (address: u64)
        ensures
            address == self.spec_power_unit_register(),
    {
        match self {
            Vendor::Amd => AMD_MSR_RAPL_POWER_UNIT,
            Vendor::Intel => INTEL_MSR_RAPL_POWER_UNIT,
        }
    }

    /// The addresses of the energy counters, in reading order.
    pub fn domain_registers(&self) -> (addresses: Vec<u64>)
        ensures
            addresses@ == self.spec_domain_registers(),
    {
        let mut addresses: Vec<u64> = Vec::new();
        match self {
            Vendor::Amd => {
                addresses.push(AMD_MSR_CORE_ENERGY);
                addresses.push(AMD_MSR_RAPL_PKG_ENERGY_STAT);
            },
            Vendor::Intel => {
                addresses.push(INTEL_MSR_RAPL_PP0);
                addresses.push(INTEL_MSR_RAPL_PP1);
                addresses.push(INTEL_MSR_RAPL_PKG_ENERGY_STAT);
                addresses.push(INTEL_MSR_RAPL_DRAM);
            },
        }
        addresses
    }

    /// The name under which the family appears in the output file's name.
    pub fn get_cpu_type(&self) -> (name: &'static str)
        ensures
            name@ == self.spec_cpu_type(),
    {
        match self {
            Vendor::Amd => "AMD",
            Vendor::Intel => "Intel",
        }
    }

    /// The column names of the output file.
    pub fn columns(&self) -> (names: Vec<&'static str>)
        ensures
            names.deep_view() == self.spec_columns(),
    {
        let mut names: Vec<&'static str> = Vec::new();
        names.push("TimeStart");
        names.push("TimeEnd");
        match self {
            Vendor::Amd => {
                names.push("CoreStart");
                names.push("CoreEnd");
                names.push("PkgStart");
                names.push("PkgEnd");
            },
            Vendor::Intel => {
                names.push("PP0Start");
                names.push("PP0End");
                names.push("PP1Start");
                names.push("PP1End");
                names.push("PkgStart");
                names.push("PkgEnd");
                names.push("DramStart");
                names.push("DramEnd");
            },
        }
        names
    }
}

/// The header has two timestamp columns and two columns for each energy
/// domain, whatever the family.
pub proof fn lemma_column_count(vendor: Vendor)
    ensures
        vendor.spec_columns().len() == 2 + 2 * vendor.spec_domain_count(),
        vendor.spec_domain_registers().len() == vendor.spec_domain_count(),
{
}

} // verus!
