//! The interrupt controller's arbitration rule: of the five sources, the
//! highest-priority bit set in both the interrupt-flag and interrupt-enable
//! registers wins, in the fixed order VBlank, LCD-status, timer, serial,
//! joypad. Each source has a fixed mask bit and a fixed vector address.

use vstd::prelude::*;

verus! {

/// Memory-mapped interrupt-flag register.
pub const IF_ADDR: u16 = 0xFF0F;

/// Memory-mapped interrupt-enable register.
pub const IE_ADDR: u16 = 0xFFFF;

/// Fixed cost of an interrupt dispatch, in cycles; no instruction is
/// fetched in a dispatching step.
pub const INTERRUPT_DISPATCH_CYCLES: u32 = 20;

/// Mask bit of interrupt source `k` (`0` = VBlank … `4` = joypad).
pub open spec fn int_mask(k: u8) -> u8 {
    if k == 0 {
        0x01
    } else if k == 1 {
        0x02
    } else if k == 2 {
        0x04
    } else if k == 3 {
        0x08
    } else {
        0x10
    }
}

/// Vector address of interrupt source `k`.
pub open spec fn int_vector(k: u8) -> u16 {
    if k == 0 {
        0x0040
    } else if k == 1 {
        0x0048
    } else if k == 2 {
        0x0050
    } else if k == 3 {
        0x0058
    } else {
        0x0060
    }
}

/// The highest-priority source pending in `iflag` and enabled in `ie`,
/// if any: VBlank first, joypad last.
pub open spec fn spec_pending(iflag: u8, ie: u8) -> Option<u8> {
    if iflag & 0x01 != 0 && ie & 0x01 != 0 {
        Some(0u8)
    } else if iflag & 0x02 != 0 && ie & 0x02 != 0 {
        Some(1u8)
    } else if iflag & 0x04 != 0 && ie & 0x04 != 0 {
        Some(2u8)
    } else if iflag & 0x08 != 0 && ie & 0x08 != 0 {
        Some(3u8)
    } else if iflag & 0x10 != 0 && ie & 0x10 != 0 {
        Some(4u8)
    } else {
        None
    }
}

pub fn pending_interrupt(iflag: u8, ie: u8) -> (r: Option<u8>)
    ensures
        r == spec_pending(iflag, ie),
{
    if iflag & 0x01 != 0 && ie & 0x01 != 0 {
        Some(0u8)
    } else if iflag & 0x02 != 0 && ie & 0x02 != 0 {
        Some(1u8)
    } else if iflag & 0x04 != 0 && ie & 0x04 != 0 {
        Some(2u8)
    } else if iflag & 0x08 != 0 && ie & 0x08 != 0 {
        Some(3u8)
    } else if iflag & 0x10 != 0 && ie & 0x10 != 0 {
        Some(4u8)
    } else {
        None
    }
}

pub fn interrupt_mask(k: u8) -> (r: u8)
    ensures
        r == int_mask(k),
{
    if k == 0 {
        0x01
    } else if k == 1 {
        0x02
    } else if k == 2 {
        0x04
    } else if k == 3 {
        0x08
    } else {
        0x10
    }
}

pub fn interrupt_vector(k: u8) -> (r: u16)
    ensures
        r == int_vector(k),
{
    if k == 0 {
        0x0040
    } else if k == 1 {
        0x0048
    } else if k == 2 {
        0x0050
    } else if k == 3 {
        0x0058
    } else {
        0x0060
    }
}

} // verus!
