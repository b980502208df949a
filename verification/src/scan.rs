//! The I2C bus scan: which of the 128 seven-bit addresses are probed with a
//! one-byte read, which are skipped as reserved, and the cell text the scan
//! table shows for each address.

use vstd::prelude::*;

use crate::text::{hex_byte_string, spec_hex_byte};

verus! {

/// Number of seven-bit I2C addresses.
pub const ADDRESS_COUNT: u8 = 0x80;

/// True of the reserved seven-bit I2C addresses: the low eight and the high
/// eight of the address space.
pub open spec fn spec_is_reserved(addr: u8) -> bool {
    addr <= 0x07 || (0x78 <= addr && addr <= 0x7f)
}

/// True exactly of the reserved addresses.
pub fn is_reserved_address(addr: u8) -> (r: bool)
    ensures
        r == spec_is_reserved(addr),
{
    addr <= 0x07 || (0x78 <= addr && addr <= 0x7f)
}

/// Whether the scan skips `addr` without issuing a bus transaction: it does
/// so exactly for a reserved address when probing reserved addresses was
/// not asked for.
pub open spec fn spec_scan_skips(addr: u8, reserved: bool) -> bool {
    !reserved && spec_is_reserved(addr)
}

/// The addresses probed below `n`, in ascending order.
pub open spec fn spec_scan_targets_below(reserved: bool, n: int) -> Seq<u8>
    decreases n,
{
    if n <= 0 {
        Seq::empty()
    } else {
        spec_scan_targets_below(reserved, n - 1) + (if spec_scan_skips((n - 1) as u8, reserved) {
            Seq::empty()
        } else {
            seq![(n - 1) as u8]
        })
    }
}

/// The addresses a scan probes, in the order it probes them: one one-byte
/// read per address that is not skipped.
pub open spec fn spec_scan_targets(reserved: bool) -> Seq<u8> {
    spec_scan_targets_below(reserved, ADDRESS_COUNT as int)
}

/// The probe list, in order. Every entry is a seven-bit address; a reserved
/// address appears only when `reserved` asks for it; and the scan without
/// reserved addresses issues exactly 112 probes, the full one 128.
pub fn scan_targets(reserved: bool) -> (v: Vec<u8>)
    ensures
        v@ == spec_scan_targets(reserved),
{
    let mut v: Vec<u8> = Vec::new();
    let mut addr: u8 = 0;
    proof {
        assert(v@ =~= spec_scan_targets_below(reserved, 0));
    }
    while addr < ADDRESS_COUNT
        invariant
            addr <= ADDRESS_COUNT,
            v@ == spec_scan_targets_below(reserved, addr as int),
        decreases ADDRESS_COUNT - addr,
    {
        if !(!reserved && is_reserved_address(addr)) {
            v.push(addr);
        }
        proof {
            assert(v@ =~= spec_scan_targets_below(reserved, addr as int + 1));
        }
        addr = addr + 1;
    }
    v
}

/// What the probe list holds, exactly: every probed address is below the
/// address count, an address is probed exactly when the scan does not skip
/// it, and none is probed twice.
pub proof fn lemma_scan_targets_exact(reserved: bool)
    ensures
        forall|addr: u8|
            spec_scan_targets(reserved).contains(addr) <==> (addr < ADDRESS_COUNT
                && !spec_scan_skips(addr, reserved)),
        spec_scan_targets(reserved).no_duplicates(),
{
    lemma_scan_targets_below_exact(reserved, ADDRESS_COUNT as int);
}

/// Induction step of the probe-list facts, on the exclusive address bound.
proof fn lemma_scan_targets_below_exact(reserved: bool, n: int)
    requires
        0 <= n <= ADDRESS_COUNT,
    ensures
        forall|i: int|
            0 <= i < spec_scan_targets_below(reserved, n).len()
                ==> #[trigger] spec_scan_targets_below(reserved, n)[i] < n,
        forall|addr: u8|
            spec_scan_targets_below(reserved, n).contains(addr) <==> (addr < n
                && !spec_scan_skips(addr, reserved)),
        spec_scan_targets_below(reserved, n).no_duplicates(),
    decreases n,
{
    if n > 0 {
        lemma_scan_targets_below_exact(reserved, n - 1);
        let prev = spec_scan_targets_below(reserved, n - 1);
        let tail: Seq<u8> = if spec_scan_skips((n - 1) as u8, reserved) {
            Seq::empty()
        } else {
            seq![(n - 1) as u8]
        };
        let s = prev + tail;
        assert(forall|i: int|
            0 <= i < prev.len() ==> #[trigger] s[i] == prev[i]);
        assert(forall|i: int|
            prev.len() <= i < s.len() ==> #[trigger] s[i] == (n - 1) as u8);
        assert forall|addr: u8|
            s.contains(addr) <==> (addr < n && !spec_scan_skips(addr, reserved)) by {
            if s.contains(addr) {
                let i = choose|i: int| 0 <= i < s.len() && s[i] == addr;
                if i < prev.len() {
                    assert(prev[i] == addr);
                    assert(prev.contains(addr));
                }
            }
            if addr < n && !spec_scan_skips(addr, reserved) {
                if addr < n - 1 {
                    assert(prev.contains(addr));
                    let i = choose|i: int| 0 <= i < prev.len() && prev[i] == addr;
                    assert(s[i] == addr);
                } else {
                    assert(s[prev.len() as int] == addr);
                }
            }
        }
        assert forall|i: int, j: int|
            0 <= i < s.len() && 0 <= j < s.len() && i != j implies s[i] != s[j] by {
            if i < prev.len() && j < prev.len() {
                assert(prev[i] != prev[j]);
            } else if i < prev.len() {
                assert(s[i] < n - 1 && s[j] == (n - 1) as u8);
            } else if j < prev.len() {
                assert(s[j] < n - 1 && s[i] == (n - 1) as u8);
            }
        }
    }
}

/// The cell of the scan table at `addr`: `RR` for an address the scan
/// skipped as reserved, the address in hexadecimal when a device answered
/// the probe, and `--` when none did.
pub open spec fn spec_scan_cell(addr: u8, reserved: bool, responded: bool) -> Seq<char> {
    if spec_scan_skips(addr, reserved) {
        "RR"@
    } else if responded {
        spec_hex_byte(addr)
    } else {
        "--"@
    }
}

/// Renders one cell of the scan table.
pub fn scan_cell(addr: u8, reserved: bool, responded: bool) -> (s: String)
    ensures
        s@ == spec_scan_cell(addr, reserved, responded),
{
    if !reserved && is_reserved_address(addr) {
        let s = String::from_str("RR");
        s
    } else if responded {
        hex_byte_string(addr)
    } else {
        let s = String::from_str("--");
        s
    }
}

} // verus!
