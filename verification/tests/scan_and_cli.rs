//! The bus scan plan and the command-line pieces: reserved addresses,
//! cell texts, byte-argument parsing, hex rendering, and the plan of host
//! calls one invocation performs.

use pico_de_gallo::cli::{
    parse_byte, Cli, Commands, HostOp, I2cCommands, ParseByteError, SpiCommands,
};
use pico_de_gallo::scan::{is_reserved_address, scan_cell, scan_targets};
use pico_de_gallo::schema::{SpiPhase, SpiPolarity};
use pico_de_gallo::text::{chip_id_serial, hex_byte_string, hex_dump};

#[test]
fn scan_without_reserved_probes_exactly_the_unreserved_addresses() {
    // the low eight and high eight addresses are skipped without a probe
    let targets = scan_targets(false);
    assert_eq!(targets.len(), 112);
    assert_eq!(targets.first(), Some(&0x08));
    assert_eq!(targets.last(), Some(&0x77));
    for addr in 0x00u8..=0x07 {
        assert!(!targets.contains(&addr));
    }
    for addr in 0x78u8..=0x7f {
        assert!(!targets.contains(&addr));
    }
    for addr in 0x08u8..=0x77 {
        assert!(targets.contains(&addr));
    }
}

#[test]
fn scan_with_reserved_probes_all_addresses_in_order() {
    let targets = scan_targets(true);
    assert_eq!(targets.len(), 128);
    for (i, addr) in targets.iter().enumerate() {
        assert_eq!(*addr as usize, i);
    }
}

#[test]
fn reserved_addresses_are_the_low_and_high_eight() {
    for addr in 0u8..=0x7f {
        let expected = addr <= 0x07 || addr >= 0x78;
        assert_eq!(is_reserved_address(addr), expected, "address {addr:#04x}");
    }
}

#[test]
fn scan_cells_mark_skipped_found_and_silent_addresses() {
    // a reserved address is marked skipped when reserved probing is off
    assert_eq!(scan_cell(0x00, false, false), "RR");
    assert_eq!(scan_cell(0x7f, false, false), "RR");
    // a responding address shows itself in hexadecimal
    assert_eq!(scan_cell(0x48, false, true), "48");
    assert_eq!(scan_cell(0x0a, true, true), "0a");
    // a silent address shows the no-answer marker
    assert_eq!(scan_cell(0x48, false, false), "--");
    // with reserved probing on, a reserved address is probed like any other
    assert_eq!(scan_cell(0x00, true, true), "00");
    assert_eq!(scan_cell(0x00, true, false), "--");
}

#[test]
fn parse_byte_accepts_three_bases() {
    assert_eq!(parse_byte("0"), Ok(0));
    assert_eq!(parse_byte("10"), Ok(10));
    assert_eq!(parse_byte("255"), Ok(255));
    assert_eq!(parse_byte("0x10"), Ok(16));
    assert_eq!(parse_byte("0xff"), Ok(255));
    assert_eq!(parse_byte("0xAB"), Ok(0xab));
    assert_eq!(parse_byte("0b101"), Ok(5));
    assert_eq!(parse_byte("0b11111111"), Ok(255));
}

#[test]
fn parse_byte_rejects_what_is_no_byte() {
    assert_eq!(parse_byte(""), Err(ParseByteError::Empty));
    assert_eq!(parse_byte("0x"), Err(ParseByteError::Empty));
    assert_eq!(parse_byte("0b"), Err(ParseByteError::Empty));
    assert_eq!(parse_byte("256"), Err(ParseByteError::Overflow));
    assert_eq!(parse_byte("0x100"), Err(ParseByteError::Overflow));
    assert_eq!(parse_byte("0b100000000"), Err(ParseByteError::Overflow));
    assert_eq!(parse_byte("12a"), Err(ParseByteError::InvalidDigit));
    assert_eq!(parse_byte("0b2"), Err(ParseByteError::InvalidDigit));
    assert_eq!(parse_byte("0xgg"), Err(ParseByteError::InvalidDigit));
    assert_eq!(parse_byte("-1"), Err(ParseByteError::InvalidDigit));
}

#[test]
fn hex_rendering_is_exact() {
    assert_eq!(hex_byte_string(0x00), "00");
    assert_eq!(hex_byte_string(0x48), "48");
    assert_eq!(hex_byte_string(0xff), "ff");
    assert_eq!(chip_id_serial(0x0123_4567_89AB_CDEF), "0123456789ABCDEF");
    assert_eq!(chip_id_serial(0), "0000000000000000");
}

#[test]
fn hex_dump_wraps_every_sixteen_bytes() {
    assert_eq!(hex_dump(&Vec::new()), "\n");
    assert_eq!(hex_dump(&vec![0xab]), "ab \n");
    let bytes: Vec<u8> = (0u8..17).collect();
    let dump = hex_dump(&bytes);
    assert_eq!(
        dump,
        "00 01 02 03 04 05 06 07 08 09 0a 0b 0c 0d 0e 0f \n10 \n"
    );
}

#[test]
fn cli_plans_each_command() {
    let cli = Cli { serial_number: None, command: None };
    assert_eq!(cli.run(), Vec::<HostOp>::new());

    let cli = Cli { serial_number: None, command: Some(Commands::Version) };
    assert_eq!(cli.run(), vec![HostOp::Version]);

    let cli = Cli {
        serial_number: None,
        command: Some(Commands::I2c { command: Some(I2cCommands::Scan { reserved: false }) }),
    };
    assert_eq!(cli.run(), vec![HostOp::I2cScan { reserved: false }]);

    let cli = Cli {
        serial_number: None,
        command: Some(Commands::I2c { command: None }),
    };
    assert_eq!(cli.run(), Vec::<HostOp>::new());
}

#[test]
fn cli_write_read_performs_write_first() {
    let cli = Cli {
        serial_number: Some(String::from("0123456789ABCDEF")),
        command: Some(Commands::I2c {
            command: Some(I2cCommands::WriteRead {
                address: 0x48,
                bytes: vec![0x0f],
                count: 2,
            }),
        }),
    };
    assert_eq!(
        cli.run(),
        vec![
            HostOp::I2cWrite { address: 0x48, bytes: vec![0x0f] },
            HostOp::I2cRead { address: 0x48, count: 2 },
        ]
    );

    let cli = Cli {
        serial_number: None,
        command: Some(Commands::Spi {
            command: Some(SpiCommands::WriteRead { count: 4, bytes: vec![1, 2] }),
        }),
    };
    assert_eq!(
        cli.run(),
        vec![
            HostOp::SpiWrite { bytes: vec![1, 2] },
            HostOp::SpiRead { count: 4 },
        ]
    );
}

#[test]
fn cli_set_config_maps_the_flags() {
    let cli = Cli {
        serial_number: None,
        command: Some(Commands::SetConfig {
            i2c_frequency: 100_000,
            spi_frequency: 500_000,
            spi_first_transition: true,
            spi_idle_low: false,
        }),
    };
    assert_eq!(
        cli.run(),
        vec![HostOp::SetConfig {
            i2c_frequency: 100_000,
            spi_frequency: 500_000,
            spi_phase: SpiPhase::CaptureOnFirstTransition,
            spi_polarity: SpiPolarity::IdleHigh,
        }]
    );
}
