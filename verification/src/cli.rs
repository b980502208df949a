//! The command-line surface, as data: the parsed command tree, the byte
//! arguments accepted in decimal, `0x` hexadecimal or `0b` binary, and the
//! plan of host calls one invocation performs. The argument parser itself
//! and all transport live outside this crate; they hand a `Cli` value in
//! and perform the plan that comes out.

use vstd::prelude::*;

use crate::schema::{SpiPhase, SpiPolarity};
use vstd::string::{StrSliceExecFns, StringSliceAdditionalSpecFns};

verus! {

/// Why a byte argument was rejected.
#[derive(Debug, Clone, Copy, PartialEq, Eq, Structural)]
pub enum ParseByteError {
    /// No digits to parse.
    Empty,
    /// A character is no digit of the selected base.
    InvalidDigit,
    /// The number does not fit one byte.
    Overflow,
}

/// The value of an ASCII digit in base `radix`, where 2, 10 and 16 are the
/// bases in use; letters count only in base 16, in either case.
pub open spec fn spec_digit_value(c: u8, radix: u8) -> Option<u8> {
    if 0x30 <= c <= 0x39 && c - 0x30 < radix {
        Some((c - 0x30) as u8)
    } else if radix == 16 && 0x61 <= c <= 0x66 {
        Some((c - 0x61 + 10) as u8)
    } else if radix == 16 && 0x41 <= c <= 0x46 {
        Some((c - 0x41 + 10) as u8)
    } else {
        None
    }
}

/// Parsing the digits of `s` in base `radix` onto the partial value `acc`,
/// left to right: the first bad character rejects, and a value past one
/// byte overflows at the digit that pushes it past.
pub open spec fn spec_parse_digits(s: Seq<u8>, radix: u8, acc: u8) -> Result<u8, ParseByteError>
    decreases s.len(),
{
    if s.len() == 0 {
        Ok(acc)
    } else {
        match spec_digit_value(s[0], radix) {
            None => Err(ParseByteError::InvalidDigit),
            Some(d) => if acc * radix + d > 255 {
                Err(ParseByteError::Overflow)
            } else {
                spec_parse_digits(s.skip(1), radix, (acc * radix + d) as u8)
            },
        }
    }
}

/// What a byte argument parses to: after an optional `0x` or `0b` prefix
/// selecting the base, the remaining bytes as an unsigned number of at most
/// one byte, with nothing else accepted.
pub open spec fn spec_parse_byte(s: Seq<u8>) -> Result<u8, ParseByteError> {
    let (radix, digits): (u8, Seq<u8>) = if s.len() >= 2 && s[0] == 0x30 && s[1] == 0x78 {
        (16, s.skip(2))
    } else if s.len() >= 2 && s[0] == 0x30 && s[1] == 0x62 {
        (2, s.skip(2))
    } else {
        (10, s)
    };
    if digits.len() == 0 {
        Err(ParseByteError::Empty)
    } else {
        spec_parse_digits(digits, radix, 0)
    }
}

/// The value of one ASCII digit byte in base `radix`.
fn digit_value(c: u8, radix: u8) -> (r: Option<u8>)
    ensures
        r == spec_digit_value(c, radix),
{
    if 0x30 <= c && c <= 0x39 && c - 0x30 < radix {
        Some(c - 0x30)
    } else if radix == 16 && 0x61 <= c && c <= 0x66 {
        Some(c - 0x61 + 10)
    } else if radix == 16 && 0x41 <= c && c <= 0x46 {
        Some(c - 0x41 + 10)
    } else {
        None
    }
}

/// Parses the byte digits of `b` from `from` on, in base `radix`.
fn parse_digits(b: &Vec<u8>, from: usize, radix: u8) -> (r: Result<u8, ParseByteError>)
    requires
        from <= b@.len(),
        1 < radix <= 16,
    ensures
        r == spec_parse_digits(b@.skip(from as int), radix, 0),
{
    let mut acc: u8 = 0;
    let mut i: usize = from;
    while i < b.len()
        invariant
            from <= i <= b@.len(),
            1 < radix <= 16,
            spec_parse_digits(b@.skip(from as int), radix, 0) == spec_parse_digits(
                b@.skip(i as int),
                radix,
                acc,
            ),
        decreases b@.len() - i,
    {
        let ghost rem = b@.skip(i as int);
        proof {
            assert(rem[0] == b@[i as int]);
            assert(rem.skip(1) =~= b@.skip(i as int + 1));
        }
        match digit_value(b[i], radix) {
            None => {
                return Err(ParseByteError::InvalidDigit);
            },
            Some(d) => {
                proof {
                    assert(acc as int * radix as int <= 255 * 16) by (nonlinear_arith)
                        requires
                            acc <= 255,
                            radix <= 16,
                    ;
                }
                let wide: u16 = acc as u16 * radix as u16 + d as u16;
                if wide > 255 {
                    return Err(ParseByteError::Overflow);
                }
                acc = wide as u8;
            },
        }
        i = i + 1;
    }
    proof {
        assert(b@.skip(b@.len() as int).len() == 0);
    }
    Ok(acc)
}

/// Parses a byte argument: decimal, or hexadecimal after `0x`, or binary
/// after `0b`. Returns the value exactly when the text is such a number of
/// at most one byte, and says otherwise what was wrong.
pub fn parse_byte(s: &str) -> (r: Result<u8, ParseByteError>)
    ensures
        r == spec_parse_byte(s.spec_bytes()),
{
    let b = s.as_bytes_vec();
    let (radix, from): (u8, usize) = if b.len() >= 2 && b[0] == 0x30 && b[1] == 0x78 {
        (16, 2)
    } else if b.len() >= 2 && b[0] == 0x30 && b[1] == 0x62 {
        (2, 2)
    } else {
        (10, 0)
    };
    if b.len() - from == 0 {
        proof {
            assert(b@.skip(from as int).len() == 0);
        }
        Err(ParseByteError::Empty)
    } else {
        proof {
            assert(b@.skip(0) =~= b@);
        }
        parse_digits(&b, from, radix)
    }
}

// ---------------------------------------------------------------- commands

/// One top-level invocation: an optional serial number to pick one of
/// several attached devices, and the command to perform.
#[derive(Debug, PartialEq, Eq)]
pub struct Cli {
    pub serial_number: Option<String>,
    pub command: Option<Commands>,
}

/// The subcommands of the tool.
#[derive(Debug, PartialEq, Eq)]
pub enum Commands {
    Version,
    I2c { command: Option<I2cCommands> },
    Spi { command: Option<SpiCommands> },
    SetConfig {
        i2c_frequency: u32,
        spi_frequency: u32,
        spi_first_transition: bool,
        spi_idle_low: bool,
    },
}

/// The I2C subcommands.
#[derive(Debug, PartialEq, Eq)]
pub enum I2cCommands {
    Scan { reserved: bool },
    Read { address: u8, count: u16 },
    Write { address: u8, bytes: Vec<u8> },
    WriteRead { address: u8, bytes: Vec<u8>, count: u16 },
}

/// The SPI subcommands.
#[derive(Debug, PartialEq, Eq)]
pub enum SpiCommands {
    Read { count: u16 },
    Write { bytes: Vec<u8> },
    WriteRead { count: u16, bytes: Vec<u8> },
}

/// One host call of a plan.
#[derive(Debug, PartialEq, Eq)]
pub enum HostOp {
    Version,
    I2cScan { reserved: bool },
    I2cRead { address: u8, count: u16 },
    I2cWrite { address: u8, bytes: Vec<u8> },
    SpiRead { count: u16 },
    SpiWrite { bytes: Vec<u8> },
    SetConfig {
        i2c_frequency: u32,
        spi_frequency: u32,
        spi_phase: SpiPhase,
        spi_polarity: SpiPolarity,
    },
}

/// Mathematical form of one host call.
pub enum HostOpAbs {
    Version,
    I2cScan { reserved: bool },
    I2cRead { address: u8, count: u16 },
    I2cWrite { address: u8, bytes: Seq<u8> },
    SpiRead { count: u16 },
    SpiWrite { bytes: Seq<u8> },
    SetConfig {
        i2c_frequency: u32,
        spi_frequency: u32,
        spi_phase: SpiPhase,
        spi_polarity: SpiPolarity,
    },
}

impl View for HostOp {
    type V = HostOpAbs;

    open spec fn view(&self) -> HostOpAbs {
        match self {
            HostOp::Version => HostOpAbs::Version,
            HostOp::I2cScan { reserved } => HostOpAbs::I2cScan { reserved: *reserved },
            HostOp::I2cRead { address, count } => HostOpAbs::I2cRead {
                address: *address,
                count: *count,
            },
            HostOp::I2cWrite { address, bytes } => HostOpAbs::I2cWrite {
                address: *address,
                bytes: bytes@,
            },
            HostOp::SpiRead { count } => HostOpAbs::SpiRead { count: *count },
            HostOp::SpiWrite { bytes } => HostOpAbs::SpiWrite { bytes: bytes@ },
            HostOp::SetConfig { i2c_frequency, spi_frequency, spi_phase, spi_polarity } =>
                HostOpAbs::SetConfig {
                i2c_frequency: *i2c_frequency,
                spi_frequency: *spi_frequency,
                spi_phase: *spi_phase,
                spi_polarity: *spi_polarity,
            },
        }
    }
}

/// The SPI phase a `set-config` invocation selects.
pub open spec fn spec_phase_of_flag(spi_first_transition: bool) -> SpiPhase {
    if spi_first_transition {
        SpiPhase::CaptureOnFirstTransition
    } else {
        SpiPhase::CaptureOnSecondTransition
    }
}

/// The SPI polarity a `set-config` invocation selects.
pub open spec fn spec_polarity_of_flag(spi_idle_low: bool) -> SpiPolarity {
    if spi_idle_low {
        SpiPolarity::IdleLow
    } else {
        SpiPolarity::IdleHigh
    }
}

/// The host calls one invocation performs, in order. A write-then-read
/// subcommand performs the write first, then the read; a bare `i2c` or
/// `spi` with no subcommand performs nothing.
pub open spec fn spec_cli_plan(c: &Cli) -> Seq<HostOpAbs> {
    match &c.command {
        None => Seq::empty(),
        Some(Commands::Version) => seq![HostOpAbs::Version],
        Some(Commands::I2c { command }) => match command {
            None => Seq::empty(),
            Some(I2cCommands::Scan { reserved }) => seq![
                HostOpAbs::I2cScan { reserved: *reserved },
            ],
            Some(I2cCommands::Read { address, count }) => seq![
                HostOpAbs::I2cRead { address: *address, count: *count },
            ],
            Some(I2cCommands::Write { address, bytes }) => seq![
                HostOpAbs::I2cWrite { address: *address, bytes: bytes@ },
            ],
            Some(I2cCommands::WriteRead { address, bytes, count }) => seq![
                HostOpAbs::I2cWrite { address: *address, bytes: bytes@ },
                HostOpAbs::I2cRead { address: *address, count: *count },
            ],
        },
        Some(Commands::Spi { command }) => match command {
            None => Seq::empty(),
            Some(SpiCommands::Read { count }) => seq![HostOpAbs::SpiRead { count: *count }],
            Some(SpiCommands::Write { bytes }) => seq![HostOpAbs::SpiWrite { bytes: bytes@ }],
            Some(SpiCommands::WriteRead { count, bytes }) => seq![
                HostOpAbs::SpiWrite { bytes: bytes@ },
                HostOpAbs::SpiRead { count: *count },
            ],
        },
        Some(
            Commands::SetConfig { i2c_frequency, spi_frequency, spi_first_transition, spi_idle_low },
        ) => seq![
            HostOpAbs::SetConfig {
                i2c_frequency: *i2c_frequency,
                spi_frequency: *spi_frequency,
                spi_phase: spec_phase_of_flag(*spi_first_transition),
                spi_polarity: spec_polarity_of_flag(*spi_idle_low),
            },
        ],
    }
}

/// Copies a byte vector.
fn clone_bytes(v: &Vec<u8>) -> (r: Vec<u8>)
    ensures
        r@ == v@,
{
    let mut r: Vec<u8> = Vec::new();
    let mut i: usize = 0;
    while i < v.len()
        invariant
            i <= v@.len(),
            r@ == v@.take(i as int),
        decreases v@.len() - i,
    {
        r.push(v[i]);
        assert(r@ =~= v@.take(i as int + 1));
        i = i + 1;
    }
    assert(v@.take(v@.len() as int) =~= v@);
    r
}

impl Cli {
    /// The plan of host calls this invocation performs, in order.
    pub fn run(&self) -> (plan: Vec<HostOp>)
        ensures
            plan@.map_values(|op: HostOp| op@) == spec_cli_plan(self),
    {
        let mut plan: Vec<HostOp> = Vec::new();
        match &self.command {
            None => {},
            Some(Commands::Version) => {
                plan.push(HostOp::Version);
            },
            Some(Commands::I2c { command }) => match command {
                None => {},
                Some(I2cCommands::Scan { reserved }) => {
                    plan.push(HostOp::I2cScan { reserved: *reserved });
                },
                Some(I2cCommands::Read { address, count }) => {
                    plan.push(HostOp::I2cRead { address: *address, count: *count });
                },
                Some(I2cCommands::Write { address, bytes }) => {
                    plan.push(HostOp::I2cWrite { address: *address, bytes: clone_bytes(bytes) });
                },
                Some(I2cCommands::WriteRead { address, bytes, count }) => {
                    plan.push(HostOp::I2cWrite { address: *address, bytes: clone_bytes(bytes) });
                    plan.push(HostOp::I2cRead { address: *address, count: *count });
                },
            },
            Some(Commands::Spi { command }) => match command {
                None => {},
                Some(SpiCommands::Read { count }) => {
                    plan.push(HostOp::SpiRead { count: *count });
                },
                Some(SpiCommands::Write { bytes }) => {
                    plan.push(HostOp::SpiWrite { bytes: clone_bytes(bytes) });
                },
                Some(SpiCommands::WriteRead { count, bytes }) => {
                    plan.push(HostOp::SpiWrite { bytes: clone_bytes(bytes) });
                    plan.push(HostOp::SpiRead { count: *count });
                },
            },
            Some(
                Commands::SetConfig {
                    i2c_frequency,
                    spi_frequency,
                    spi_first_transition,
                    spi_idle_low,
                },
            ) => {
                let spi_phase = if *spi_first_transition {
                    SpiPhase::CaptureOnFirstTransition
                } else {
                    SpiPhase::CaptureOnSecondTransition
                };
                let spi_polarity = if *spi_idle_low {
                    SpiPolarity::IdleLow
                } else {
                    SpiPolarity::IdleHigh
                };
                plan.push(
                    HostOp::SetConfig {
                        i2c_frequency: *i2c_frequency,
                        spi_frequency: *spi_frequency,
                        spi_phase,
                        spi_polarity,
                    },
                );
            },
        }
        proof {
            assert(plan@.map_values(|op: HostOp| op@) =~= spec_cli_plan(self));
        }
        plan
    }
}

} // verus!
