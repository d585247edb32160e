//! The sensor's command set and the 16-bit opcode of each command.

use vstd::prelude::*;

verus! {

/// Whether the sensor may hold the clock line low while it converts.
#[derive(Debug, Clone, Copy, PartialEq, Eq, Structural)]
pub enum ClockStretch {
    Enabled,
    Disabled,
}

/// Trade-off between measurement precision and duration.
#[derive(Debug, Clone, Copy, PartialEq, Eq, Structural)]
pub enum Repeatability {
    High,
    Medium,
    Low,
}

/// Periodic data acquisition rate.
#[allow(non_camel_case_types)]
#[derive(Debug, Clone, Copy, PartialEq, Eq, Structural)]
pub enum Rate {
    /// 0.5 measurements per second.
    R0_5,
    /// 1 measurement per second.
    R1,
    /// 2 measurements per second.
    R2,
    /// 4 measurements per second.
    R4,
    /// 10 measurements per second.
    R10,
}

/// A logical bus command.
#[derive(Debug, Clone, Copy, PartialEq, Eq, Structural)]
pub enum Command {
    SingleShot(ClockStretch, Repeatability),
    Periodic(Rate, Repeatability),
    FetchData,
    PeriodicWithART,
    Break,
    SoftReset,
    HeaterEnable,
    HeaterDisable,
    Status,
    ClearStatus,
}

impl Repeatability {
    /// Longest time a single-shot measurement takes, in milliseconds.
    pub open spec fn max_duration_ms(self) -> int {
        match self {
            Repeatability::Low => 4,
            Repeatability::Medium => 6,
            Repeatability::High => 15,
        }
    }

    /// Maximum measurement duration in milliseconds.
    pub fn max_duration(&self) -> (ms: u8)
        ensures
            ms == self.max_duration_ms(),
    {
        match *self {
            Repeatability::Low => 4,
            Repeatability::Medium => 6,
            Repeatability::High => 15,
        }
    }
}

/// Opcode of a single-shot measurement.
pub open spec fn single_shot_opcode(cs: ClockStretch, rpt: Repeatability) -> u16 {
    match (cs, rpt) {
        (ClockStretch::Enabled, Repeatability::High) => 0x2C06,
        (ClockStretch::Enabled, Repeatability::Medium) => 0x2C0D,
        (ClockStretch::Enabled, Repeatability::Low) => 0x2C10,
        (ClockStretch::Disabled, Repeatability::High) => 0x2400,
        (ClockStretch::Disabled, Repeatability::Medium) => 0x240B,
        (ClockStretch::Disabled, Repeatability::Low) => 0x2416,
    }
}

/// Opcode that starts periodic measurement.
pub open spec fn periodic_opcode(rate: Rate, rpt: Repeatability) -> u16 {
    match (rate, rpt) {
        (Rate::R0_5, Repeatability::High) => 0x2032,
        (Rate::R0_5, Repeatability::Medium) => 0x2024,
        (Rate::R0_5, Repeatability::Low) => 0x202F,
        (Rate::R1, Repeatability::High) => 0x2130,
        (Rate::R1, Repeatability::Medium) => 0x2126,
        (Rate::R1, Repeatability::Low) => 0x212D,
        (Rate::R2, Repeatability::High) => 0x2236,
        (Rate::R2, Repeatability::Medium) => 0x2220,
        (Rate::R2, Repeatability::Low) => 0x222B,
        (Rate::R4, Repeatability::High) => 0x2334,
        (Rate::R4, Repeatability::Medium) => 0x2322,
        (Rate::R4, Repeatability::Low) => 0x2329,
        (Rate::R10, Repeatability::High) => 0x2737,
        (Rate::R10, Repeatability::Medium) => 0x2721,
        (Rate::R10, Repeatability::Low) => 0x272A,
    }
}

impl Command {
    /// The opcode that the sensor's command reference assigns to this command.
    pub open spec fn opcode(self) -> u16 {
        match self {
            Command::SingleShot(cs, rpt) => single_shot_opcode(cs, rpt),
            Command::Periodic(rate, rpt) => periodic_opcode(rate, rpt),
            Command::FetchData => 0xE000,
            Command::PeriodicWithART => 0x2B32,
            Command::Break => 0x3093,
            Command::SoftReset => 0x30A2,
            Command::HeaterEnable => 0x306D,
            Command::HeaterDisable => 0x3066,
            Command::Status => 0xF32D,
            Command::ClearStatus => 0x3041,
        }
    }

    /// The two bytes sent on the bus for this command: the opcode, high
    /// byte first.
    pub open spec fn frame(self) -> [u8; 2] {
        [(self.opcode() / 256) as u8, (self.opcode() % 256) as u8]
    }

    /// Encodes the command as its 16-bit opcode.
    pub fn value(&self) -> (opcode: u16)
        ensures
            opcode == self.opcode(),
    {
        match *self {
            Command::SingleShot(ClockStretch::Enabled, Repeatability::High) => 0x2C06,
            Command::SingleShot(ClockStretch::Enabled, Repeatability::Medium) => 0x2C0D,
            Command::SingleShot(ClockStretch::Enabled, Repeatability::Low) => 0x2C10,
            Command::SingleShot(ClockStretch::Disabled, Repeatability::High) => 0x2400,
            Command::SingleShot(ClockStretch::Disabled, Repeatability::Medium) => 0x240B,
            Command::SingleShot(ClockStretch::Disabled, Repeatability::Low) => 0x2416,
            Command::Periodic(Rate::R0_5, Repeatability::High) => 0x2032,
            Command::Periodic(Rate::R0_5, Repeatability::Medium) => 0x2024,
            Command::Periodic(Rate::R0_5, Repeatability::Low) => 0x202F,
            Command::Periodic(Rate::R1, Repeatability::High) => 0x2130,
            Command::Periodic(Rate::R1, Repeatability::Medium) => 0x2126,
            Command::Periodic(Rate::R1, Repeatability::Low) => 0x212D,
            Command::Periodic(Rate::R2, Repeatability::High) => 0x2236,
            Command::Periodic(Rate::R2, Repeatability::Medium) => 0x2220,
            Command::Periodic(Rate::R2, Repeatability::Low) => 0x222B,
            Command::Periodic(Rate::R4, Repeatability::High) => 0x2334,
            Command::Periodic(Rate::R4, Repeatability::Medium) => 0x2322,
            Command::Periodic(Rate::R4, Repeatability::Low) => 0x2329,
            Command::Periodic(Rate::R10, Repeatability::High) => 0x2737,
            Command::Periodic(Rate::R10, Repeatability::Medium) => 0x2721,
            Command::Periodic(Rate::R10, Repeatability::Low) => 0x272A,
            Command::FetchData => 0xE000,
            Command::PeriodicWithART => 0x2B32,
            Command::Break => 0x3093,
            Command::SoftReset => 0x30A2,
            Command::HeaterEnable => 0x306D,
            Command::HeaterDisable => 0x3066,
            Command::Status => 0xF32D,
            Command::ClearStatus => 0x3041,
        }
    }

    /// Encodes the command as the two bytes written to the bus, high byte
    /// first.
    pub fn to_bytes(&self) -> (bytes: [u8; 2])
        ensures
            bytes == self.frame(),
    {
        let opcode: u16 = self.value();
        let high: u8 = (opcode >> 8) as u8;
        let low: u8 = (opcode & 0xff) as u8;
        assert(opcode >> 8 == opcode / 256 && opcode & 0xff == opcode % 256) by (bit_vector);
        [high, low]
    }
}

/// Every single-shot measurement has one of the six documented opcodes.
pub proof fn lemma_single_shot_opcode_documented(cs: ClockStretch, rpt: Repeatability)
    ensures
        ({
            let op = Command::SingleShot(cs, rpt).opcode();
            op == 0x2C06 || op == 0x2C0D || op == 0x2C10 || op == 0x2400 || op == 0x240B || op
                == 0x2416
        }),
{
}

/// Two single-shot measurements with the same opcode have the same
/// clock-stretch mode and the same repeatability.
pub proof fn lemma_single_shot_opcode_injective(
    cs1: ClockStretch,
    rpt1: Repeatability,
    cs2: ClockStretch,
    rpt2: Repeatability,
)
    requires
        single_shot_opcode(cs1, rpt1) == single_shot_opcode(cs2, rpt2),
    ensures
        cs1 == cs2,
        rpt1 == rpt2,
{
}

/// No two commands share an opcode.
pub proof fn lemma_opcode_injective(a: Command, b: Command)
    requires
        a.opcode() == b.opcode(),
    ensures
        a == b,
{
}

/// A command's frame determines the command: no two commands are sent as the
/// same bytes.
pub proof fn lemma_frame_injective(a: Command, b: Command)
    requires
        a.frame() == b.frame(),
    ensures
        a == b,
{
    let x = a.opcode();
    let y = b.opcode();
    assert(a.frame()[0] == b.frame()[0]);
    assert(a.frame()[1] == b.frame()[1]);
    assert(x == (x / 256) * 256 + x % 256);
    assert(y == (y / 256) * 256 + y % 256);
    lemma_opcode_injective(a, b);
}

} // verus!
