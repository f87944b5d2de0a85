//! The PCI configuration-space codec: the 64-byte header decoded into
//! command/status registers, the layout body selected by the header type,
//! and the synthetic typed class field.  Decoding is bit exact: re-encoding
//! a decoded value restores the input bytes unchanged.

use vstd::prelude::*;
use crate::codec::{
    le16, le32, lemma_u16_le_roundtrip, lemma_u32_le_roundtrip, push_u16_le, push_u32_le,
    read_u16_le, read_u32_le, u16_le_bytes, u32_le_bytes, CodecError,
};
use crate::pci_class::PciDeviceClass;

verus! {

/// The serialized size of the decoded configuration region.
pub const PCI_CONFIG_SIZE: usize = 64;

/// DEVSEL timing, bits 10:9 of the status register.
#[derive(Debug, Clone, Copy, PartialEq, Eq, Structural)]
pub enum PciStatusDevSelTiming {
    Fast,
    Medium,
    Slow,
}

impl PciStatusDevSelTiming {
    pub open spec fn bits(self) -> u16 {
        match self {
            PciStatusDevSelTiming::Fast => 0,
            PciStatusDevSelTiming::Medium => 1,
            PciStatusDevSelTiming::Slow => 2,
        }
    }

    pub open spec fn known(b: u16) -> bool {
        b == 0 || b == 1 || b == 2
    }

    pub open spec fn spec_from_bits(b: u16) -> Self {
        if b == 0 {
            PciStatusDevSelTiming::Fast
        } else if b == 1 {
            PciStatusDevSelTiming::Medium
        } else {
            PciStatusDevSelTiming::Slow
        }
    }

    pub fn from_bits(b: u16) -> (r: Result<Self, CodecError>)
        ensures
            r == if Self::known(b) {
                Ok::<Self, CodecError>(Self::spec_from_bits(b))
            } else {
                Err::<Self, CodecError>(CodecError::UnknownDiscriminant)
            },
    {
        match b {
            0 => Ok(PciStatusDevSelTiming::Fast),
            1 => Ok(PciStatusDevSelTiming::Medium),
            2 => Ok(PciStatusDevSelTiming::Slow),
            _ => Err(CodecError::UnknownDiscriminant),
        }
    }
}

impl Default for PciStatusDevSelTiming {
    /// The reset value of the field.
    fn default() -> (r: Self)
        ensures
            r == PciStatusDevSelTiming::Slow,
    {
        PciStatusDevSelTiming::Slow
    }
}

/// The command register, offset 0x04.
#[derive(Debug, Clone, Copy, PartialEq, Eq, Structural)]
pub struct PciCommandRegister {
    pub io_space: bool,
    pub memory_space: bool,
    pub bus_master: bool,
    pub special_cycles: bool,
    pub memory_write_and_invalidate_enable: bool,
    pub vga_palette_snoop: bool,
    pub parity_error_response: bool,
    pub reserved_07: bool,
    pub serr_enable: bool,
    pub fast_back_to_back_enable: bool,
    pub interrupt_disable: bool,
    pub reserved_15_11: u8,
}

impl PciCommandRegister {
    pub open spec fn wf(self) -> bool {
        self.reserved_15_11 < 32
    }

    pub open spec fn to_raw_spec(self) -> u16 {
        (if self.io_space { 1u16 } else { 0u16 }) | (if self.memory_space {
            1u16 << 1
        } else {
            0u16
        }) | (if self.bus_master { 1u16 << 2 } else { 0u16 }) | (
        if self.special_cycles {
            1u16 << 3
        } else {
            0u16
        }) | (if self.memory_write_and_invalidate_enable { 1u16 << 4 } else { 0u16 }) | (
        if self.vga_palette_snoop {
            1u16 << 5
        } else {
            0u16
        }) | (if self.parity_error_response { 1u16 << 6 } else { 0u16 }) | (
        if self.reserved_07 {
            1u16 << 7
        } else {
            0u16
        }) | (if self.serr_enable { 1u16 << 8 } else { 0u16 }) | (
        if self.fast_back_to_back_enable {
            1u16 << 9
        } else {
            0u16
        }) | (if self.interrupt_disable { 1u16 << 10 } else { 0u16 }) | ((self.reserved_15_11
            as u16) << 11)
    }

    pub open spec fn spec_from_raw(v: u16) -> Self {
        PciCommandRegister {
            io_space: (v & 1) != 0,
            memory_space: ((v >> 1) & 1) != 0,
            bus_master: ((v >> 2) & 1) != 0,
            special_cycles: ((v >> 3) & 1) != 0,
            memory_write_and_invalidate_enable: ((v >> 4) & 1) != 0,
            vga_palette_snoop: ((v >> 5) & 1) != 0,
            parity_error_response: ((v >> 6) & 1) != 0,
            reserved_07: ((v >> 7) & 1) != 0,
            serr_enable: ((v >> 8) & 1) != 0,
            fast_back_to_back_enable: ((v >> 9) & 1) != 0,
            interrupt_disable: ((v >> 10) & 1) != 0,
            reserved_15_11: ((v >> 11) & 0x1f) as u8,
        }
    }

    /// Decode the command register; every 16-bit image is a valid value.
    pub fn from_raw(v: u16) -> (r: Self)
        ensures
            r == Self::spec_from_raw(v),
            r.wf(),
            r.to_raw_spec() == v,
    {
        proof {
            lemma_command_bits(v);
        }
        PciCommandRegister {
            io_space: (v & 1) != 0,
            memory_space: ((v >> 1) & 1) != 0,
            bus_master: ((v >> 2) & 1) != 0,
            special_cycles: ((v >> 3) & 1) != 0,
            memory_write_and_invalidate_enable: ((v >> 4) & 1) != 0,
            vga_palette_snoop: ((v >> 5) & 1) != 0,
            parity_error_response: ((v >> 6) & 1) != 0,
            reserved_07: ((v >> 7) & 1) != 0,
            serr_enable: ((v >> 8) & 1) != 0,
            fast_back_to_back_enable: ((v >> 9) & 1) != 0,
            interrupt_disable: ((v >> 10) & 1) != 0,
            reserved_15_11: ((v >> 11) & 0x1f) as u8,
        }
    }

    pub fn into_raw(self) -> (r: u16)
        requires
            self.wf(),
        ensures
            r == self.to_raw_spec(),
    {
        (if self.io_space { 1u16 } else { 0u16 }) | (if self.memory_space {
            1u16 << 1
        } else {
            0u16
        }) | (if self.bus_master { 1u16 << 2 } else { 0u16 }) | (
        if self.special_cycles {
            1u16 << 3
        } else {
            0u16
        }) | (if self.memory_write_and_invalidate_enable { 1u16 << 4 } else { 0u16 }) | (
        if self.vga_palette_snoop {
            1u16 << 5
        } else {
            0u16
        }) | (if self.parity_error_response { 1u16 << 6 } else { 0u16 }) | (
        if self.reserved_07 {
            1u16 << 7
        } else {
            0u16
        }) | (if self.serr_enable { 1u16 << 8 } else { 0u16 }) | (
        if self.fast_back_to_back_enable {
            1u16 << 9
        } else {
            0u16
        }) | (if self.interrupt_disable { 1u16 << 10 } else { 0u16 }) | ((self.reserved_15_11
            as u16) << 11)
    }
}

proof fn lemma_command_bits(v: u16)
    by (bit_vector)
    ensures
        ((v >> 11) & 0x1f) < 32,
        (if ((v & 1) != 0) { 1u16 } else { 0u16 }) | (if (((v >> 1) & 1) != 0) {
            1u16 << 1
        } else {
            0u16
        }) | (if (((v >> 2) & 1) != 0) { 1u16 << 2 } else { 0u16 }) | (
        if (((v >> 3) & 1) != 0) {
            1u16 << 3
        } else {
            0u16
        }) | (if (((v >> 4) & 1) != 0) { 1u16 << 4 } else { 0u16 }) | (
        if (((v >> 5) & 1) != 0) {
            1u16 << 5
        } else {
            0u16
        }) | (if (((v >> 6) & 1) != 0) { 1u16 << 6 } else { 0u16 }) | (
        if (((v >> 7) & 1) != 0) {
            1u16 << 7
        } else {
            0u16
        }) | (if (((v >> 8) & 1) != 0) { 1u16 << 8 } else { 0u16 }) | (
        if (((v >> 9) & 1) != 0) {
            1u16 << 9
        } else {
            0u16
        }) | (if (((v >> 10) & 1) != 0) { 1u16 << 10 } else { 0u16 }) | ((((v >> 11) & 0x1f) as u8
            as u16) << 11) == v,
{
}

/// Decoding any command image and re-encoding it restores the image.
pub proof fn lemma_command_raw_roundtrip(v: u16)
    ensures
        PciCommandRegister::spec_from_raw(v).to_raw_spec() == v,
        PciCommandRegister::spec_from_raw(v).wf(),
{
    lemma_command_bits(v);
}

/// The status register, offset 0x06.
#[derive(Debug, Clone, Copy, PartialEq, Eq, Structural)]
pub struct PciStatusRegister {
    pub reserved_02_00: u8,
    pub interrupt_status: bool,
    pub capabilities_list: bool,
    pub capable_66mhz: bool,
    pub reserved_06: bool,
    pub fast_back_to_back_capable: bool,
    pub master_data_parity_error: bool,
    pub devsel_timing: PciStatusDevSelTiming,
    pub signalled_target_abort: bool,
    pub received_target_abort: bool,
    pub received_master_abort: bool,
    pub signalled_system_error: bool,
    pub detected_parity_error: bool,
}

impl PciStatusRegister {
    pub open spec fn wf(self) -> bool {
        self.reserved_02_00 < 8
    }

    pub open spec fn to_raw_spec(self) -> u16 {
        (self.reserved_02_00 as u16) | (if self.interrupt_status { 1u16 << 3 } else { 0u16 }) | (
        if self.capabilities_list {
            1u16 << 4
        } else {
            0u16
        }) | (if self.capable_66mhz { 1u16 << 5 } else { 0u16 }) | (
        if self.reserved_06 {
            1u16 << 6
        } else {
            0u16
        }) | (if self.fast_back_to_back_capable { 1u16 << 7 } else { 0u16 }) | (
        if self.master_data_parity_error {
            1u16 << 8
        } else {
            0u16
        }) | (self.devsel_timing.bits() << 9) | (
        if self.signalled_target_abort {
            1u16 << 11
        } else {
            0u16
        }) | (if self.received_target_abort { 1u16 << 12 } else { 0u16 }) | (
        if self.received_master_abort {
            1u16 << 13
        } else {
            0u16
        }) | (if self.signalled_system_error { 1u16 << 14 } else { 0u16 }) | (
        if self.detected_parity_error {
            1u16 << 15
        } else {
            0u16
        })
    }

    pub open spec fn spec_from_raw(v: u16) -> Result<Self, CodecError> {
        if PciStatusDevSelTiming::known((v >> 9) & 3) {
            Ok(
                PciStatusRegister {
                    reserved_02_00: (v & 7) as u8,
                    interrupt_status: ((v >> 3) & 1) != 0,
                    capabilities_list: ((v >> 4) & 1) != 0,
                    capable_66mhz: ((v >> 5) & 1) != 0,
                    reserved_06: ((v >> 6) & 1) != 0,
                    fast_back_to_back_capable: ((v >> 7) & 1) != 0,
                    master_data_parity_error: ((v >> 8) & 1) != 0,
                    devsel_timing: PciStatusDevSelTiming::spec_from_bits((v >> 9) & 3),
                    signalled_target_abort: ((v >> 11) & 1) != 0,
                    received_target_abort: ((v >> 12) & 1) != 0,
                    received_master_abort: ((v >> 13) & 1) != 0,
                    signalled_system_error: ((v >> 14) & 1) != 0,
                    detected_parity_error: ((v >> 15) & 1) != 0,
                },
            )
        } else {
            Err(CodecError::UnknownDiscriminant)
        }
    }

    /// Decode the status register; fails only on the undefined DEVSEL
    /// timing.
    pub fn from_raw(v: u16) -> (r: Result<Self, CodecError>)
        ensures
            r == Self::spec_from_raw(v),
            r matches Ok(s) ==> s.wf() && s.to_raw_spec() == v,
    {
        let devsel_timing = match PciStatusDevSelTiming::from_bits((v >> 9) & 3) {
            Ok(x) => x,
            Err(e) => {
                return Err(e);
            },
        };
        let s = PciStatusRegister {
            reserved_02_00: (v & 7) as u8,
            interrupt_status: ((v >> 3) & 1) != 0,
            capabilities_list: ((v >> 4) & 1) != 0,
            capable_66mhz: ((v >> 5) & 1) != 0,
            reserved_06: ((v >> 6) & 1) != 0,
            fast_back_to_back_capable: ((v >> 7) & 1) != 0,
            master_data_parity_error: ((v >> 8) & 1) != 0,
            devsel_timing,
            signalled_target_abort: ((v >> 11) & 1) != 0,
            received_target_abort: ((v >> 12) & 1) != 0,
            received_master_abort: ((v >> 13) & 1) != 0,
            signalled_system_error: ((v >> 14) & 1) != 0,
            detected_parity_error: ((v >> 15) & 1) != 0,
        };
        proof {
            lemma_status_bits(v);
            assert(s.to_raw_spec() == v);
        }
        Ok(s)
    }

    pub fn into_raw(self) -> (r: u16)
        requires
            self.wf(),
        ensures
            r == self.to_raw_spec(),
    {
        let devsel_b: u16 = match self.devsel_timing {
            PciStatusDevSelTiming::Fast => 0,
            PciStatusDevSelTiming::Medium => 1,
            PciStatusDevSelTiming::Slow => 2,
        };
        (self.reserved_02_00 as u16) | (if self.interrupt_status { 1u16 << 3 } else { 0u16 }) | (
        if self.capabilities_list {
            1u16 << 4
        } else {
            0u16
        }) | (if self.capable_66mhz { 1u16 << 5 } else { 0u16 }) | (
        if self.reserved_06 {
            1u16 << 6
        } else {
            0u16
        }) | (if self.fast_back_to_back_capable { 1u16 << 7 } else { 0u16 }) | (
        if self.master_data_parity_error {
            1u16 << 8
        } else {
            0u16
        }) | (devsel_b << 9) | (if self.signalled_target_abort { 1u16 << 11 } else { 0u16 }) | (
        if self.received_target_abort {
            1u16 << 12
        } else {
            0u16
        }) | (if self.received_master_abort { 1u16 << 13 } else { 0u16 }) | (
        if self.signalled_system_error {
            1u16 << 14
        } else {
            0u16
        }) | (if self.detected_parity_error { 1u16 << 15 } else { 0u16 })
    }
}

proof fn lemma_status_bits(v: u16)
    by (bit_vector)
    ensures
        (v & 7) < 8 && ((v >> 9) & 3) < 4,
        ((v & 7) as u8 as u16) | (if (((v >> 3) & 1) != 0) { 1u16 << 3 } else { 0u16 }) | (
        if (((v >> 4) & 1) != 0) {
            1u16 << 4
        } else {
            0u16
        }) | (if (((v >> 5) & 1) != 0) { 1u16 << 5 } else { 0u16 }) | (
        if (((v >> 6) & 1) != 0) {
            1u16 << 6
        } else {
            0u16
        }) | (if (((v >> 7) & 1) != 0) { 1u16 << 7 } else { 0u16 }) | (
        if (((v >> 8) & 1) != 0) {
            1u16 << 8
        } else {
            0u16
        }) | (((v >> 9) & 3) << 9) | (if (((v >> 11) & 1) != 0) { 1u16 << 11 } else { 0u16 }) | (
        if (((v >> 12) & 1) != 0) {
            1u16 << 12
        } else {
            0u16
        }) | (if (((v >> 13) & 1) != 0) { 1u16 << 13 } else { 0u16 }) | (
        if (((v >> 14) & 1) != 0) {
            1u16 << 14
        } else {
            0u16
        }) | (if (((v >> 15) & 1) != 0) { 1u16 << 15 } else { 0u16 }) == v,
{
}

/// Re-encoding a successfully decoded status image restores the image.
pub proof fn lemma_status_raw_roundtrip(v: u16)
    ensures
        PciStatusRegister::spec_from_raw(v) matches Ok(r) ==> r.to_raw_spec() == v && r.wf(),
{
    lemma_status_bits(v);
}

/// Built-in self test, offset 0x0F.
#[derive(Debug, Clone, Copy, PartialEq, Eq, Structural)]
pub struct PciBIST {
    pub supported: bool,
    pub start_test: bool,
    pub reserved_05_04: u8,
    pub failure_code: u8,
}

impl PciBIST {
    pub open spec fn wf(self) -> bool {
        self.reserved_05_04 < 4 && self.failure_code < 16
    }

    pub open spec fn to_raw_spec(self) -> u8 {
        (if self.supported { 1u8 << 7 } else { 0u8 }) | (if self.start_test {
            1u8 << 6
        } else {
            0u8
        }) | (self.reserved_05_04 << 4) | self.failure_code
    }

    pub open spec fn spec_from_raw(v: u8) -> Self {
        PciBIST {
            supported: ((v >> 7) & 1) != 0,
            start_test: ((v >> 6) & 1) != 0,
            reserved_05_04: (v >> 4) & 3,
            failure_code: v & 0xf,
        }
    }

    pub fn from_raw(v: u8) -> (r: Self)
        ensures
            r == Self::spec_from_raw(v),
            r.wf(),
            r.to_raw_spec() == v,
    {
        proof {
            lemma_bist_bits(v);
        }
        PciBIST {
            supported: ((v >> 7) & 1) != 0,
            start_test: ((v >> 6) & 1) != 0,
            reserved_05_04: (v >> 4) & 3,
            failure_code: v & 0xf,
        }
    }

    pub fn into_raw(self) -> (r: u8)
        requires
            self.wf(),
        ensures
            r == self.to_raw_spec(),
    {
        (if self.supported { 1u8 << 7 } else { 0u8 }) | (if self.start_test {
            1u8 << 6
        } else {
            0u8
        }) | (self.reserved_05_04 << 4) | self.failure_code
    }
}

proof fn lemma_bist_bits(v: u8)
    by (bit_vector)
    ensures
        ((v >> 4) & 3) < 4 && (v & 0xf) < 16,
        (if (((v >> 7) & 1) != 0) { 1u8 << 7 } else { 0u8 }) | (
        if (((v >> 6) & 1) != 0) {
            1u8 << 6
        } else {
            0u8
        }) | (((v >> 4) & 3) << 4) | (v & 0xf) == v,
{
}

/// Decoding any BIST image and re-encoding it restores the image.
pub proof fn lemma_bist_raw_roundtrip(v: u8)
    ensures
        PciBIST::spec_from_raw(v).to_raw_spec() == v,
        PciBIST::spec_from_raw(v).wf(),
{
    lemma_bist_bits(v);
}

/// Header type, offset 0x0E: the multifunction flag and the layout
/// selector.
#[derive(Debug, Clone, Copy, PartialEq, Eq, Structural)]
pub struct PciHeader {
    pub multifunction: bool,
    pub layout: u8,
}

impl PciHeader {
    pub open spec fn wf(self) -> bool {
        self.layout < 128
    }

    pub open spec fn to_raw_spec(self) -> u8 {
        (if self.multifunction { 1u8 << 7 } else { 0u8 }) | self.layout
    }

    pub open spec fn spec_from_raw(v: u8) -> Self {
        PciHeader { multifunction: ((v >> 7) & 1) != 0, layout: v & 0x7f }
    }

    pub fn from_raw(v: u8) -> (r: Self)
        ensures
            r == Self::spec_from_raw(v),
            r.wf(),
            r.to_raw_spec() == v,
    {
        proof {
            lemma_header_bits(v);
        }
        PciHeader { multifunction: ((v >> 7) & 1) != 0, layout: v & 0x7f }
    }

    pub fn into_raw(self) -> (r: u8)
        requires
            self.wf(),
        ensures
            r == self.to_raw_spec(),
    {
        (if self.multifunction { 1u8 << 7 } else { 0u8 }) | self.layout
    }
}

proof fn lemma_header_bits(v: u8)
    by (bit_vector)
    ensures
        (v & 0x7f) < 128,
        (if (((v >> 7) & 1) != 0) { 1u8 << 7 } else { 0u8 }) | (v & 0x7f) == v,
{
}


/// Decoding any header-type byte and re-encoding it restores the byte.
pub proof fn lemma_pci_header_raw_roundtrip(v: u8)
    ensures
        PciHeader::spec_from_raw(v).to_raw_spec() == v,
        PciHeader::spec_from_raw(v).wf(),
{
    lemma_header_bits(v);
}

/// The type 0 (endpoint) body, offsets 0x10 through 0x3F.
#[derive(Debug, Clone, Copy, PartialEq, Eq, Structural)]
pub struct PciBaseLayout {
    pub bar0: u32,
    pub bar1: u32,
    pub bar2: u32,
    pub bar3: u32,
    pub bar4: u32,
    pub bar5: u32,
    pub cardbus_cis_pointer: u32,
    pub subsystem_vendor_id: u16,
    pub subsystem_id: u16,
    pub expansion_rom_base_address: u32,
    pub capabilities_pointer: u8,
    pub reserved_35: u8,
    pub reserved_36: u8,
    pub reserved_37: u8,
    pub reserved_38: u32,
    pub interrupt_line: u8,
    pub interrupt_pin: u8,
    pub min_grant: u8,
    pub max_latency: u8,
}

impl PciBaseLayout {
    pub open spec fn spec_from_bytes(b: Seq<u8>) -> Self {
        PciBaseLayout {
            bar0: le32(b[0x10], b[0x11], b[0x12], b[0x13]) as u32,
            bar1: le32(b[0x14], b[0x15], b[0x16], b[0x17]) as u32,
            bar2: le32(b[0x18], b[0x19], b[0x1a], b[0x1b]) as u32,
            bar3: le32(b[0x1c], b[0x1d], b[0x1e], b[0x1f]) as u32,
            bar4: le32(b[0x20], b[0x21], b[0x22], b[0x23]) as u32,
            bar5: le32(b[0x24], b[0x25], b[0x26], b[0x27]) as u32,
            cardbus_cis_pointer: le32(b[0x28], b[0x29], b[0x2a], b[0x2b]) as u32,
            subsystem_vendor_id: le16(b[0x2c], b[0x2d]) as u16,
            subsystem_id: le16(b[0x2e], b[0x2f]) as u16,
            expansion_rom_base_address: le32(b[0x30], b[0x31], b[0x32], b[0x33]) as u32,
            capabilities_pointer: b[0x34],
            reserved_35: b[0x35],
            reserved_36: b[0x36],
            reserved_37: b[0x37],
            reserved_38: le32(b[0x38], b[0x39], b[0x3a], b[0x3b]) as u32,
            interrupt_line: b[0x3c],
            interrupt_pin: b[0x3d],
            min_grant: b[0x3e],
            max_latency: b[0x3f],
        }
    }

    pub open spec fn spec_to_bytes(self) -> Seq<u8> {
        u32_le_bytes(self.bar0) + u32_le_bytes(self.bar1) + u32_le_bytes(self.bar2) + u32_le_bytes(
            self.bar3,
        ) + u32_le_bytes(self.bar4) + u32_le_bytes(self.bar5) + u32_le_bytes(
            self.cardbus_cis_pointer,
        ) + u16_le_bytes(self.subsystem_vendor_id) + u16_le_bytes(self.subsystem_id) + u32_le_bytes(
            self.expansion_rom_base_address,
        ) + seq![self.capabilities_pointer, self.reserved_35, self.reserved_36, self.reserved_37]
            + u32_le_bytes(self.reserved_38) + seq![
            self.interrupt_line,
            self.interrupt_pin,
            self.min_grant,
            self.max_latency,
        ]
    }

    pub fn from_bytes(b: &[u8]) -> (r: Self)
        requires
            b@.len() == 64,
        ensures
            r == Self::spec_from_bytes(b@),
    {
        PciBaseLayout {
            bar0: read_u32_le(b, 0x10),
            bar1: read_u32_le(b, 0x14),
            bar2: read_u32_le(b, 0x18),
            bar3: read_u32_le(b, 0x1c),
            bar4: read_u32_le(b, 0x20),
            bar5: read_u32_le(b, 0x24),
            cardbus_cis_pointer: read_u32_le(b, 0x28),
            subsystem_vendor_id: read_u16_le(b, 0x2c),
            subsystem_id: read_u16_le(b, 0x2e),
            expansion_rom_base_address: read_u32_le(b, 0x30),
            capabilities_pointer: b[0x34],
            reserved_35: b[0x35],
            reserved_36: b[0x36],
            reserved_37: b[0x37],
            reserved_38: read_u32_le(b, 0x38),
            interrupt_line: b[0x3c],
            interrupt_pin: b[0x3d],
            min_grant: b[0x3e],
            max_latency: b[0x3f],
        }
    }

    pub fn append_bytes(&self, out: &mut Vec<u8>)
        ensures
            final(out)@ =~= old(out)@ + self.spec_to_bytes(),
    {
        push_u32_le(out, self.bar0);
        push_u32_le(out, self.bar1);
        push_u32_le(out, self.bar2);
        push_u32_le(out, self.bar3);
        push_u32_le(out, self.bar4);
        push_u32_le(out, self.bar5);
        push_u32_le(out, self.cardbus_cis_pointer);
        push_u16_le(out, self.subsystem_vendor_id);
        push_u16_le(out, self.subsystem_id);
        push_u32_le(out, self.expansion_rom_base_address);
        out.push(self.capabilities_pointer);
        out.push(self.reserved_35);
        out.push(self.reserved_36);
        out.push(self.reserved_37);
        push_u32_le(out, self.reserved_38);
        out.push(self.interrupt_line);
        out.push(self.interrupt_pin);
        out.push(self.min_grant);
        out.push(self.max_latency);
    }

    /// Re-encoding a decoded type 0 body restores bytes 0x10..0x40.
    pub proof fn lemma_roundtrip(b: Seq<u8>)
        requires
            b.len() == 64,
        ensures
            Self::spec_from_bytes(b).spec_to_bytes() =~= b.subrange(0x10, 0x40),
    {
        lemma_u32_le_roundtrip(b[0x10], b[0x11], b[0x12], b[0x13]);
        lemma_u32_le_roundtrip(b[0x14], b[0x15], b[0x16], b[0x17]);
        lemma_u32_le_roundtrip(b[0x18], b[0x19], b[0x1a], b[0x1b]);
        lemma_u32_le_roundtrip(b[0x1c], b[0x1d], b[0x1e], b[0x1f]);
        lemma_u32_le_roundtrip(b[0x20], b[0x21], b[0x22], b[0x23]);
        lemma_u32_le_roundtrip(b[0x24], b[0x25], b[0x26], b[0x27]);
        lemma_u32_le_roundtrip(b[0x28], b[0x29], b[0x2a], b[0x2b]);
        lemma_u16_le_roundtrip(b[0x2c], b[0x2d]);
        lemma_u16_le_roundtrip(b[0x2e], b[0x2f]);
        lemma_u32_le_roundtrip(b[0x30], b[0x31], b[0x32], b[0x33]);
        lemma_u32_le_roundtrip(b[0x38], b[0x39], b[0x3a], b[0x3b]);
    }
}

/// The type 1 (PCI-to-PCI bridge) body, offsets 0x10 through 0x3F.
#[derive(Debug, Clone, Copy, PartialEq, Eq, Structural)]
pub struct PciToPciBridgeLayout {
    pub bar0: u32,
    pub bar1: u32,
    pub primary_bus_number: u8,
    pub secondary_bus_number: u8,
    pub subordinate_bus_number: u8,
    pub secondary_latency_timer: u8,
    pub io_base: u8,
    pub io_limit: u8,
    pub secondary_status: u16,
    pub memory_base: u16,
    pub memory_limit: u16,
    pub prefetchable_memory_base: u16,
    pub prefetchable_memory_limit: u16,
    pub prefetchable_base_upper: u32,
    pub prefetchable_limit_upper: u32,
    pub io_base_upper: u16,
    pub io_limit_upper: u16,
    pub capabilities_pointer: u8,
    pub reserved_35: u8,
    pub reserved_36: u8,
    pub reserved_37: u8,
    pub expansion_rom_base_address: u32,
    pub interrupt_line: u8,
    pub interrupt_pin: u8,
    pub bridge_control: u16,
}

impl PciToPciBridgeLayout {
    pub open spec fn spec_from_bytes(b: Seq<u8>) -> Self {
        PciToPciBridgeLayout {
            bar0: le32(b[0x10], b[0x11], b[0x12], b[0x13]) as u32,
            bar1: le32(b[0x14], b[0x15], b[0x16], b[0x17]) as u32,
            primary_bus_number: b[0x18],
            secondary_bus_number: b[0x19],
            subordinate_bus_number: b[0x1a],
            secondary_latency_timer: b[0x1b],
            io_base: b[0x1c],
            io_limit: b[0x1d],
            secondary_status: le16(b[0x1e], b[0x1f]) as u16,
            memory_base: le16(b[0x20], b[0x21]) as u16,
            memory_limit: le16(b[0x22], b[0x23]) as u16,
            prefetchable_memory_base: le16(b[0x24], b[0x25]) as u16,
            prefetchable_memory_limit: le16(b[0x26], b[0x27]) as u16,
            prefetchable_base_upper: le32(b[0x28], b[0x29], b[0x2a], b[0x2b]) as u32,
            prefetchable_limit_upper: le32(b[0x2c], b[0x2d], b[0x2e], b[0x2f]) as u32,
            io_base_upper: le16(b[0x30], b[0x31]) as u16,
            io_limit_upper: le16(b[0x32], b[0x33]) as u16,
            capabilities_pointer: b[0x34],
            reserved_35: b[0x35],
            reserved_36: b[0x36],
            reserved_37: b[0x37],
            expansion_rom_base_address: le32(b[0x38], b[0x39], b[0x3a], b[0x3b]) as u32,
            interrupt_line: b[0x3c],
            interrupt_pin: b[0x3d],
            bridge_control: le16(b[0x3e], b[0x3f]) as u16,
        }
    }

    pub open spec fn spec_to_bytes(self) -> Seq<u8> {
        u32_le_bytes(self.bar0) + u32_le_bytes(self.bar1) + seq![
            self.primary_bus_number,
            self.secondary_bus_number,
            self.subordinate_bus_number,
            self.secondary_latency_timer,
            self.io_base,
            self.io_limit,
        ] + u16_le_bytes(self.secondary_status) + u16_le_bytes(self.memory_base) + u16_le_bytes(
            self.memory_limit,
        ) + u16_le_bytes(self.prefetchable_memory_base) + u16_le_bytes(
            self.prefetchable_memory_limit,
        ) + u32_le_bytes(self.prefetchable_base_upper) + u32_le_bytes(self.prefetchable_limit_upper)
            + u16_le_bytes(self.io_base_upper) + u16_le_bytes(self.io_limit_upper) + seq![
            self.capabilities_pointer,
            self.reserved_35,
            self.reserved_36,
            self.reserved_37,
        ] + u32_le_bytes(self.expansion_rom_base_address) + seq![
            self.interrupt_line,
            self.interrupt_pin,
        ] + u16_le_bytes(self.bridge_control)
    }

    pub fn from_bytes(b: &[u8]) -> (r: Self)
        requires
            b@.len() == 64,
        ensures
            r == Self::spec_from_bytes(b@),
    {
        PciToPciBridgeLayout {
            bar0: read_u32_le(b, 0x10),
            bar1: read_u32_le(b, 0x14),
            primary_bus_number: b[0x18],
            secondary_bus_number: b[0x19],
            subordinate_bus_number: b[0x1a],
            secondary_latency_timer: b[0x1b],
            io_base: b[0x1c],
            io_limit: b[0x1d],
            secondary_status: read_u16_le(b, 0x1e),
            memory_base: read_u16_le(b, 0x20),
            memory_limit: read_u16_le(b, 0x22),
            prefetchable_memory_base: read_u16_le(b, 0x24),
            prefetchable_memory_limit: read_u16_le(b, 0x26),
            prefetchable_base_upper: read_u32_le(b, 0x28),
            prefetchable_limit_upper: read_u32_le(b, 0x2c),
            io_base_upper: read_u16_le(b, 0x30),
            io_limit_upper: read_u16_le(b, 0x32),
            capabilities_pointer: b[0x34],
            reserved_35: b[0x35],
            reserved_36: b[0x36],
            reserved_37: b[0x37],
            expansion_rom_base_address: read_u32_le(b, 0x38),
            interrupt_line: b[0x3c],
            interrupt_pin: b[0x3d],
            bridge_control: read_u16_le(b, 0x3e),
        }
    }

    pub fn append_bytes(&self, out: &mut Vec<u8>)
        ensures
            final(out)@ =~= old(out)@ + self.spec_to_bytes(),
    {
        push_u32_le(out, self.bar0);
        push_u32_le(out, self.bar1);
        out.push(self.primary_bus_number);
        out.push(self.secondary_bus_number);
        out.push(self.subordinate_bus_number);
        out.push(self.secondary_latency_timer);
        out.push(self.io_base);
        out.push(self.io_limit);
        push_u16_le(out, self.secondary_status);
        push_u16_le(out, self.memory_base);
        push_u16_le(out, self.memory_limit);
        push_u16_le(out, self.prefetchable_memory_base);
        push_u16_le(out, self.prefetchable_memory_limit);
        push_u32_le(out, self.prefetchable_base_upper);
        push_u32_le(out, self.prefetchable_limit_upper);
        push_u16_le(out, self.io_base_upper);
        push_u16_le(out, self.io_limit_upper);
        out.push(self.capabilities_pointer);
        out.push(self.reserved_35);
        out.push(self.reserved_36);
        out.push(self.reserved_37);
        push_u32_le(out, self.expansion_rom_base_address);
        out.push(self.interrupt_line);
        out.push(self.interrupt_pin);
        push_u16_le(out, self.bridge_control);
    }

    /// Re-encoding a decoded type 1 body restores bytes 0x10..0x40.
    pub proof fn lemma_roundtrip(b: Seq<u8>)
        requires
            b.len() == 64,
        ensures
            Self::spec_from_bytes(b).spec_to_bytes() =~= b.subrange(0x10, 0x40),
    {
        lemma_u32_le_roundtrip(b[0x10], b[0x11], b[0x12], b[0x13]);
        lemma_u32_le_roundtrip(b[0x14], b[0x15], b[0x16], b[0x17]);
        lemma_u16_le_roundtrip(b[0x1e], b[0x1f]);
        lemma_u16_le_roundtrip(b[0x20], b[0x21]);
        lemma_u16_le_roundtrip(b[0x22], b[0x23]);
        lemma_u16_le_roundtrip(b[0x24], b[0x25]);
        lemma_u16_le_roundtrip(b[0x26], b[0x27]);
        lemma_u32_le_roundtrip(b[0x28], b[0x29], b[0x2a], b[0x2b]);
        lemma_u32_le_roundtrip(b[0x2c], b[0x2d], b[0x2e], b[0x2f]);
        lemma_u16_le_roundtrip(b[0x30], b[0x31]);
        lemma_u16_le_roundtrip(b[0x32], b[0x33]);
        lemma_u32_le_roundtrip(b[0x38], b[0x39], b[0x3a], b[0x3b]);
        lemma_u16_le_roundtrip(b[0x3e], b[0x3f]);
    }
}

/// The layout-specific body, selected by `PciHeader::layout`.  CardBus
/// (type 2) is not supported.
#[derive(Debug, Clone, Copy, PartialEq, Eq, Structural)]
pub enum PciLayout {
    Type0(PciBaseLayout),
    Type1(PciToPciBridgeLayout),
}

impl PciLayout {
    pub open spec fn spec_to_bytes(self) -> Seq<u8> {
        match self {
            PciLayout::Type0(l) => l.spec_to_bytes(),
            PciLayout::Type1(l) => l.spec_to_bytes(),
        }
    }
}

/// A decoded 64-byte PCI configuration region.
#[derive(Debug, Clone, Copy, PartialEq, Eq, Structural)]
pub struct PciDevice {
    pub vendor_id: u16,
    pub device_id: u16,
    pub command: PciCommandRegister,
    pub status: PciStatusRegister,
    pub revision_id: u8,
    pub prog_if: u8,
    pub subclass: u8,
    pub class_code: u8,
    pub cache_line_size: u8,
    pub latency_timer: u8,
    pub header_type: PciHeader,
    pub bist: PciBIST,
    pub layout: PciLayout,
    /// Synthetic: derived from `(class_code, subclass, prog_if)` without
    /// consuming bytes.
    pub pci_id: PciDeviceClass,
}

impl PciDevice {
    pub open spec fn wf(self) -> bool {
        self.command.wf() && self.status.wf() && self.header_type.wf() && self.bist.wf()
    }

    /// Decoding 64 bytes of configuration space.  Shorter input is
    /// truncated, longer input has trailing bytes; the status register and
    /// the class triple can hold unknown discriminants, and only header
    /// layouts 0 and 1 are supported.
    pub open spec fn spec_from_bytes(b: Seq<u8>) -> Result<PciDevice, CodecError> {
        if b.len() < 64 {
            Err(CodecError::Truncated)
        } else if b.len() > 64 {
            Err(CodecError::TrailingBytes)
        } else {
            match PciStatusRegister::spec_from_raw(le16(b[6], b[7]) as u16) {
                Err(e) => Err(e),
                Ok(status) => {
                    let header_type = PciHeader::spec_from_raw(b[0x0e]);
                    if header_type.layout != 0 && header_type.layout != 1 {
                        Err(CodecError::UnsupportedHeaderType)
                    } else {
                        match PciDeviceClass::spec_decode(b[0x0b], b[0x0a], b[0x09]) {
                            Err(e) => Err(e),
                            Ok(pci_id) => Ok(
                                PciDevice {
                                    vendor_id: le16(b[0], b[1]) as u16,
                                    device_id: le16(b[2], b[3]) as u16,
                                    command: PciCommandRegister::spec_from_raw(
                                        le16(b[4], b[5]) as u16,
                                    ),
                                    status,
                                    revision_id: b[8],
                                    prog_if: b[9],
                                    subclass: b[0x0a],
                                    class_code: b[0x0b],
                                    cache_line_size: b[0x0c],
                                    latency_timer: b[0x0d],
                                    header_type,
                                    bist: PciBIST::spec_from_raw(b[0x0f]),
                                    layout: if header_type.layout == 0 {
                                        PciLayout::Type0(PciBaseLayout::spec_from_bytes(b))
                                    } else {
                                        PciLayout::Type1(PciToPciBridgeLayout::spec_from_bytes(b))
                                    },
                                    pci_id,
                                },
                            ),
                        }
                    }
                },
            }
        }
    }

    /// The 64-byte image of a decoded value.
    pub open spec fn spec_to_bytes(self) -> Seq<u8> {
        u16_le_bytes(self.vendor_id) + u16_le_bytes(self.device_id) + u16_le_bytes(
            self.command.to_raw_spec(),
        ) + u16_le_bytes(self.status.to_raw_spec()) + seq![
            self.revision_id,
            self.prog_if,
            self.subclass,
            self.class_code,
            self.cache_line_size,
            self.latency_timer,
            self.header_type.to_raw_spec(),
            self.bist.to_raw_spec(),
        ] + self.layout.spec_to_bytes()
    }

    pub fn from_bytes(bytes: &[u8]) -> (r: Result<PciDevice, CodecError>)
        ensures
            r == Self::spec_from_bytes(bytes@),
            r matches Ok(d) ==> d.wf(),
    {
        if bytes.len() < 64 {
            return Err(CodecError::Truncated);
        }
        if bytes.len() > 64 {
            return Err(CodecError::TrailingBytes);
        }
        let status = match PciStatusRegister::from_raw(read_u16_le(bytes, 6)) {
            Ok(s) => s,
            Err(e) => {
                return Err(e);
            },
        };
        let header_type = PciHeader::from_raw(bytes[0x0e]);
        if header_type.layout != 0 && header_type.layout != 1 {
            return Err(CodecError::UnsupportedHeaderType);
        }
        let pci_id = match PciDeviceClass::decode(bytes[0x0b], bytes[0x0a], bytes[0x09]) {
            Ok(c) => c,
            Err(e) => {
                return Err(e);
            },
        };
        let layout = if header_type.layout == 0 {
            PciLayout::Type0(PciBaseLayout::from_bytes(bytes))
        } else {
            PciLayout::Type1(PciToPciBridgeLayout::from_bytes(bytes))
        };
        Ok(
            PciDevice {
                vendor_id: read_u16_le(bytes, 0),
                device_id: read_u16_le(bytes, 2),
                command: PciCommandRegister::from_raw(read_u16_le(bytes, 4)),
                status,
                revision_id: bytes[8],
                prog_if: bytes[9],
                subclass: bytes[0x0a],
                class_code: bytes[0x0b],
                cache_line_size: bytes[0x0c],
                latency_timer: bytes[0x0d],
                header_type,
                bist: PciBIST::from_raw(bytes[0x0f]),
                layout,
                pci_id,
            },
        )
    }

    pub fn to_bytes(&self) -> (r: Vec<u8>)
        requires
            self.wf(),
        ensures
            r@ =~= self.spec_to_bytes(),
    {
        let mut out: Vec<u8> = Vec::new();
        push_u16_le(&mut out, self.vendor_id);
        push_u16_le(&mut out, self.device_id);
        push_u16_le(&mut out, self.command.into_raw());
        push_u16_le(&mut out, self.status.into_raw());
        out.push(self.revision_id);
        out.push(self.prog_if);
        out.push(self.subclass);
        out.push(self.class_code);
        out.push(self.cache_line_size);
        out.push(self.latency_timer);
        out.push(self.header_type.into_raw());
        out.push(self.bist.into_raw());
        match &self.layout {
            PciLayout::Type0(l) => l.append_bytes(&mut out),
            PciLayout::Type1(l) => l.append_bytes(&mut out),
        }
        out
    }

    /// Bit-codec round trip: re-encoding any decoded configuration region
    /// restores the input bytes unchanged.
    #[verifier::rlimit(100)]
    #[verifier::spinoff_prover]
    pub proof fn lemma_roundtrip(b: Seq<u8>)
        ensures
            Self::spec_from_bytes(b) matches Ok(d) ==> d.spec_to_bytes() =~= b,
    {
        if let Ok(d) = Self::spec_from_bytes(b) {
            lemma_u16_le_roundtrip(b[0], b[1]);
            lemma_u16_le_roundtrip(b[2], b[3]);
            lemma_u16_le_roundtrip(b[4], b[5]);
            lemma_u16_le_roundtrip(b[6], b[7]);
            lemma_command_raw_roundtrip(le16(b[4], b[5]) as u16);
            lemma_status_raw_roundtrip(le16(b[6], b[7]) as u16);
            lemma_pci_header_raw_roundtrip(b[0x0e]);
            lemma_bist_raw_roundtrip(b[0x0f]);
            assert(u16_le_bytes(d.vendor_id) =~= seq![b[0], b[1]]);
            assert(u16_le_bytes(d.device_id) =~= seq![b[2], b[3]]);
            assert(d.command.to_raw_spec() == le16(b[4], b[5]) as u16);
            assert(u16_le_bytes(d.command.to_raw_spec()) =~= seq![b[4], b[5]]);
            assert(d.status.to_raw_spec() == le16(b[6], b[7]) as u16);
            assert(u16_le_bytes(d.status.to_raw_spec()) =~= seq![b[6], b[7]]);
            assert(d.header_type.to_raw_spec() == b[0x0e]);
            assert(d.bist.to_raw_spec() == b[0x0f]);
            let head = u16_le_bytes(d.vendor_id) + u16_le_bytes(d.device_id) + u16_le_bytes(
                d.command.to_raw_spec(),
            ) + u16_le_bytes(d.status.to_raw_spec()) + seq![
                d.revision_id,
                d.prog_if,
                d.subclass,
                d.class_code,
                d.cache_line_size,
                d.latency_timer,
                d.header_type.to_raw_spec(),
                d.bist.to_raw_spec(),
            ];
            assert(head =~= b.subrange(0, 16));
            if PciHeader::spec_from_raw(b[0x0e]).layout == 0 {
                PciBaseLayout::lemma_roundtrip(b);
            } else {
                PciToPciBridgeLayout::lemma_roundtrip(b);
            }
            assert(d.layout.spec_to_bytes() =~= b.subrange(0x10, 0x40));
            assert(d.spec_to_bytes() == head + d.layout.spec_to_bytes());
            assert(b.subrange(0, 16) + b.subrange(0x10, 0x40) =~= b);
            assert(d.spec_to_bytes() =~= b);
        }
    }
}


} // verus!
