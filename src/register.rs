use vstd::prelude::*;

verus! {

/// Register addresses of the TPS65185.
#[derive(Debug, Clone, Copy, PartialEq, Eq, Structural)]
#[allow(non_camel_case_types)]
pub enum Register {
    /// Thermistor Readout
    TMST_VALUE,
    /// Enable
    ENABLE,
    /// Voltage Adjustment
    VADJ,
    /// VCOM1
    VCOM1,
    /// VCOM2
    VCOM2,
    /// Interrupt Enable 1
    INT_EN1,
    /// Interrupt Enable 2
    INT_EN2,
    /// Interrupt 1
    INT1,
    /// Interrupt 2
    INT2,
    /// Power-Up Sequence 0
    UPSEQ0,
    /// Power-Up Sequence 1
    UPSEQ1,
    /// Power-Down Sequence 0
    DWNSEQ0,
    /// Power-Down Sequence 1
    DWNSEQ1,
    /// Thermistor 1
    TMST1,
    /// Thermistor 2
    TMST2,
    /// Power Good Status
    PG,
    /// Revision and Version Control
    REVID,
}

/// The one-byte address of each register, as the data sheet gives it.
pub open spec fn address_of(r: Register) -> u8 {
    match r {
        Register::TMST_VALUE => 0x00,
        Register::ENABLE => 0x01,
        Register::VADJ => 0x02,
        Register::VCOM1 => 0x03,
        Register::VCOM2 => 0x04,
        Register::INT_EN1 => 0x05,
        Register::INT_EN2 => 0x06,
        Register::INT1 => 0x07,
        Register::INT2 => 0x08,
        Register::UPSEQ0 => 0x09,
        Register::UPSEQ1 => 0x0a,
        Register::DWNSEQ0 => 0x0b,
        Register::DWNSEQ1 => 0x0c,
        Register::TMST1 => 0x0d,
        Register::TMST2 => 0x0e,
        Register::PG => 0x0f,
        Register::REVID => 0x10,
    }
}

impl Register {
    pub fn addr(self) -> (a: u8)
        ensures
            a == address_of(self),
    {
        match self {
            Register::TMST_VALUE => 0x00,
            Register::ENABLE => 0x01,
            Register::VADJ => 0x02,
            Register::VCOM1 => 0x03,
            Register::VCOM2 => 0x04,
            Register::INT_EN1 => 0x05,
            Register::INT_EN2 => 0x06,
            Register::INT1 => 0x07,
            Register::INT2 => 0x08,
            Register::UPSEQ0 => 0x09,
            Register::UPSEQ1 => 0x0a,
            Register::DWNSEQ0 => 0x0b,
            Register::DWNSEQ1 => 0x0c,
            Register::TMST1 => 0x0d,
            Register::TMST2 => 0x0e,
            Register::PG => 0x0f,
            Register::REVID => 0x10,
        }
    }
}

/// Distinct registers have distinct addresses, and every address lies in 0x00..=0x10.
pub proof fn lemma_addresses_distinct(a: Register, b: Register)
    ensures
        address_of(a) <= 0x10,
        address_of(a) == address_of(b) ==> a == b,
{
}

/// Silicon revisions that the identity register can report.
#[derive(Debug, Clone, Copy, PartialEq, Eq, Structural)]
#[allow(non_camel_case_types)]
pub enum DeviceVersion {
    Tps65185_1p0,
    Tps65185_1p1,
    Tps65185_1p2,
    Tps651851_1p0,
}

/// The identity byte that each revision reports.
pub open spec fn version_byte(v: DeviceVersion) -> u8 {
    match v {
        DeviceVersion::Tps65185_1p0 => 0x45,
        DeviceVersion::Tps65185_1p1 => 0x55,
        DeviceVersion::Tps65185_1p2 => 0x65,
        DeviceVersion::Tps651851_1p0 => 0x66,
    }
}

/// The revision that an identity byte denotes, if it denotes one.
pub open spec fn version_of(b: u8) -> Option<DeviceVersion> {
    if b == 0x45 {
        Some(DeviceVersion::Tps65185_1p0)
    } else if b == 0x55 {
        Some(DeviceVersion::Tps65185_1p1)
    } else if b == 0x65 {
        Some(DeviceVersion::Tps65185_1p2)
    } else if b == 0x66 {
        Some(DeviceVersion::Tps651851_1p0)
    } else {
        None
    }
}

impl DeviceVersion {
    /// The identity byte of this revision.
    pub fn repr(self) -> (b: u8)
        ensures
            b == version_byte(self),
    {
        match self {
            DeviceVersion::Tps65185_1p0 => 0x45,
            DeviceVersion::Tps65185_1p1 => 0x55,
            DeviceVersion::Tps65185_1p2 => 0x65,
            DeviceVersion::Tps651851_1p0 => 0x66,
        }
    }

    /// Looks up the revision that an identity byte denotes.
    pub fn from_repr(b: u8) -> (r: Option<DeviceVersion>)
        ensures
            r == version_of(b),
            r is Some <==> (b == 0x45 || b == 0x55 || b == 0x65 || b == 0x66),
            r is Some ==> version_byte(r->Some_0) == b,
    {
        if b == 0x45 {
            Some(DeviceVersion::Tps65185_1p0)
        } else if b == 0x55 {
            Some(DeviceVersion::Tps65185_1p1)
        } else if b == 0x65 {
            Some(DeviceVersion::Tps65185_1p2)
        } else if b == 0x66 {
            Some(DeviceVersion::Tps651851_1p0)
        } else {
            None
        }
    }
}

/// Looking up a byte gives a revision exactly for the four known identity bytes, and
/// that revision reports the byte back; each revision's byte leads back to it.
pub proof fn lemma_identity_lookup(b: u8, v: DeviceVersion)
    ensures
        version_of(b) is Some <==> (b == 0x45 || b == 0x55 || b == 0x65 || b == 0x66),
        version_of(b) is Some ==> version_byte(version_of(b)->Some_0) == b,
        version_of(version_byte(v)) == Some(v),
{
}

} // verus!
