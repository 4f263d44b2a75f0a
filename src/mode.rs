use vstd::prelude::*;

verus! {

/// The SPI mode flags of a device (clock phase and polarity, chip-select
/// polarity, bit order, wire modes), one bit per flag.
#[derive(Debug, Clone, Copy, PartialEq, Eq, Structural)]
pub struct SpiModeFlags {
    pub bits: u32,
}

/// The device call that writes a mode: the one-byte form that every kernel
/// knows, or the 32-bit form that later kernels added for the flags above
/// the low byte.
#[derive(Debug, Clone, Copy, PartialEq, Eq, Structural)]
pub enum ModeWrite {
    Narrow(u8),
    Wide(u32),
}

impl SpiModeFlags {
    /// The flags whose bits are `bits`.
    pub fn from_bits(bits: u32) -> (r: SpiModeFlags)
        ensures
            r.bits == bits,
    {
        SpiModeFlags { bits }
    }

    /// Whether a flag above the low byte is set.
    pub open spec fn needs_wide(self) -> bool {
        self.bits > 0xff
    }
}

/// Chooses how to write `mode`: the one-byte form unless a flag above the
/// low byte is set, so that kernels without the 32-bit call keep working.
pub fn mode_write(mode: SpiModeFlags) -> (r: ModeWrite)
    ensures
        mode.needs_wide() ==> r == ModeWrite::Wide(mode.bits),
        !mode.needs_wide() ==> r == ModeWrite::Narrow(mode.bits as u8),
{
    let bits = mode.bits;
    assert((bits & 0xFFFF_FF00u32) != 0 <==> bits > 0xff) by (bit_vector);
    if (bits & 0xFFFF_FF00u32) != 0 {
        ModeWrite::Wide(bits)
    } else {
        ModeWrite::Narrow(bits as u8)
    }
}

} // verus!
