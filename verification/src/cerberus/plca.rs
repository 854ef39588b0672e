//! PLCA set-up of the 10BASE-T1S PHY through its vendor-specific MMD registers.

use vstd::prelude::*;

verus! {

/// One station-management write: PHY address, register, value.
#[derive(Clone, Copy, PartialEq, Eq, Structural, Debug)]
pub struct SmiWrite {
    pub phy: u8,
    pub reg: u8,
    pub val: u16,
}

/// The four SMI writes that set vendor-specific register `reg` to `val`: select the vendor
/// MMD for an address write, write the address, select it again for a data write (bit 14),
/// then write the data.
pub fn setup_plca(reg: u16, val: u16) -> (writes: [SmiWrite; 4])
    ensures
        writes@[0] == (SmiWrite { phy: 0, reg: 0x0D, val: 0x1F }),
        writes@[1] == (SmiWrite { phy: 0, reg: 0x0E, val: reg }),
        writes@[2] == (SmiWrite { phy: 0, reg: 0x0D, val: 0x401F }),
        writes@[3] == (SmiWrite { phy: 0, reg: 0x0E, val: val }),
{
    let data_write: u16 = 0x1F | 1u16 << 14u16;
    assert(0x1Fu16 | 1u16 << 14u16 == 0x401F) by (bit_vector);
    [
        SmiWrite { phy: 0, reg: 0x0D, val: 0x1F },
        SmiWrite { phy: 0, reg: 0x0E, val: reg },
        SmiWrite { phy: 0, reg: 0x0D, val: data_write },
        SmiWrite { phy: 0, reg: 0x0E, val: val },
    ]
}

} // verus!
