//! NVMe controller support: the packed register codecs (CAP, VS, CC, CSTS),
//! admin-queue setup values (AQA, ASQ, ACQ), and the enable / ready /
//! shutdown / disable state machine.
//!
//! The functions here are the decision half of the driver: they take
//! register values as read and return register values to write.  The caller
//! owns the volatile MMIO window and performs each read, write and sleep.

use vstd::prelude::*;
use crate::codec::CodecError;

verus! {

/// Failure kinds of the controller lifecycle.
#[derive(Debug, Clone, Copy, PartialEq, Eq, Structural)]
pub enum NvmeError {
    /// Enable requested while `CC.EN` is already set.
    AlreadyEnabled,
    /// Disable requested while `CC.EN` is already clear.
    AlreadyDisabled,
    /// A bounded wait ran out of polls.
    Timeout,
    /// A register held an undefined discriminant.
    Codec(CodecError),
}

/// CC.SHN: shutdown notification, bits 15:14 of CC.
#[derive(Debug, Clone, Copy, PartialEq, Eq, Structural)]
pub enum ShutdownNotification {
    Noop,
    Normal,
    Abrupt,
}

impl ShutdownNotification {
    pub open spec fn bits(self) -> u32 {
        match self {
            ShutdownNotification::Noop => 0,
            ShutdownNotification::Normal => 1,
            ShutdownNotification::Abrupt => 2,
        }
    }

    pub open spec fn known(b: u32) -> bool {
        b == 0 || b == 1 || b == 2
    }

    pub open spec fn spec_from_bits(b: u32) -> Self {
        if b == 1 {
            ShutdownNotification::Normal
        } else if b == 2 {
            ShutdownNotification::Abrupt
        } else {
            ShutdownNotification::Noop
        }
    }

    pub fn from_bits(b: u32) -> (r: Result<Self, CodecError>)
        ensures
            r == if Self::known(b) {
                Ok::<Self, CodecError>(Self::spec_from_bits(b))
            } else {
                Err::<Self, CodecError>(CodecError::UnknownDiscriminant)
            },
    {
        match b {
            0 => Ok(ShutdownNotification::Noop),
            1 => Ok(ShutdownNotification::Normal),
            2 => Ok(ShutdownNotification::Abrupt),
            _ => Err(CodecError::UnknownDiscriminant),
        }
    }
}

/// CC.AMS: arbitration mechanism, bits 13:11 of CC.
#[derive(Debug, Clone, Copy, PartialEq, Eq, Structural)]
pub enum ArbitrationMechanismSelected {
    RoundRobin,
    WeightedRoundRobinWithUrgentPriorityClass,
    VendorSpecific,
}

impl ArbitrationMechanismSelected {
    pub open spec fn bits(self) -> u32 {
        match self {
            ArbitrationMechanismSelected::RoundRobin => 0,
            ArbitrationMechanismSelected::WeightedRoundRobinWithUrgentPriorityClass => 1,
            ArbitrationMechanismSelected::VendorSpecific => 7,
        }
    }

    pub open spec fn known(b: u32) -> bool {
        b == 0 || b == 1 || b == 7
    }

    pub open spec fn spec_from_bits(b: u32) -> Self {
        if b == 1 {
            ArbitrationMechanismSelected::WeightedRoundRobinWithUrgentPriorityClass
        } else if b == 7 {
            ArbitrationMechanismSelected::VendorSpecific
        } else {
            ArbitrationMechanismSelected::RoundRobin
        }
    }

    pub fn from_bits(b: u32) -> (r: Result<Self, CodecError>)
        ensures
            r == if Self::known(b) {
                Ok::<Self, CodecError>(Self::spec_from_bits(b))
            } else {
                Err::<Self, CodecError>(CodecError::UnknownDiscriminant)
            },
    {
        match b {
            0 => Ok(ArbitrationMechanismSelected::RoundRobin),
            1 => Ok(ArbitrationMechanismSelected::WeightedRoundRobinWithUrgentPriorityClass),
            7 => Ok(ArbitrationMechanismSelected::VendorSpecific),
            _ => Err(CodecError::UnknownDiscriminant),
        }
    }
}

/// CC.CSS: command set selected, bits 6:4 of CC.
#[derive(Debug, Clone, Copy, PartialEq, Eq, Structural)]
pub enum CommandSetSelected {
    NVMCommandSet,
    AdminCommandSetOnly,
}

impl CommandSetSelected {
    pub open spec fn bits(self) -> u32 {
        match self {
            CommandSetSelected::NVMCommandSet => 0,
            CommandSetSelected::AdminCommandSetOnly => 7,
        }
    }

    pub open spec fn known(b: u32) -> bool {
        b == 0 || b == 7
    }

    pub open spec fn spec_from_bits(b: u32) -> Self {
        if b == 7 {
            CommandSetSelected::AdminCommandSetOnly
        } else {
            CommandSetSelected::NVMCommandSet
        }
    }

    pub fn from_bits(b: u32) -> (r: Result<Self, CodecError>)
        ensures
            r == if Self::known(b) {
                Ok::<Self, CodecError>(Self::spec_from_bits(b))
            } else {
                Err::<Self, CodecError>(CodecError::UnknownDiscriminant)
            },
    {
        match b {
            0 => Ok(CommandSetSelected::NVMCommandSet),
            7 => Ok(CommandSetSelected::AdminCommandSetOnly),
            _ => Err(CodecError::UnknownDiscriminant),
        }
    }
}

/// CSTS.SHST: shutdown status, bits 3:2 of CSTS.
#[derive(Debug, Clone, Copy, PartialEq, Eq, Structural)]
pub enum ShutdownStatus {
    NormalOperation,
    ShutdownOccuring,
    ShutdownComplete,
}

impl ShutdownStatus {
    pub open spec fn bits(self) -> u32 {
        match self {
            ShutdownStatus::NormalOperation => 0,
            ShutdownStatus::ShutdownOccuring => 1,
            ShutdownStatus::ShutdownComplete => 2,
        }
    }

    pub open spec fn known(b: u32) -> bool {
        b == 0 || b == 1 || b == 2
    }

    pub open spec fn spec_from_bits(b: u32) -> Self {
        if b == 1 {
            ShutdownStatus::ShutdownOccuring
        } else if b == 2 {
            ShutdownStatus::ShutdownComplete
        } else {
            ShutdownStatus::NormalOperation
        }
    }

    pub fn from_bits(b: u32) -> (r: Result<Self, CodecError>)
        ensures
            r == if Self::known(b) {
                Ok::<Self, CodecError>(Self::spec_from_bits(b))
            } else {
                Err::<Self, CodecError>(CodecError::UnknownDiscriminant)
            },
    {
        match b {
            0 => Ok(ShutdownStatus::NormalOperation),
            1 => Ok(ShutdownStatus::ShutdownOccuring),
            2 => Ok(ShutdownStatus::ShutdownComplete),
            _ => Err(CodecError::UnknownDiscriminant),
        }
    }

    /// Human-readable name of the state.
    pub fn text(&self) -> (r: &'static str)
        ensures
            match self {
                ShutdownStatus::NormalOperation => r@ == "Normal  Operation"@,
                ShutdownStatus::ShutdownOccuring => r@ == "Shutdown Occuring"@,
                ShutdownStatus::ShutdownComplete => r@ == "Shutdown Complete"@,
            },
    {
        match self {
            ShutdownStatus::NormalOperation => "Normal  Operation",
            ShutdownStatus::ShutdownOccuring => "Shutdown Occuring",
            ShutdownStatus::ShutdownComplete => "Shutdown Complete",
        }
    }
}

/// The CC register: controller configuration, offset 0x14.
#[derive(Debug, Clone, Copy, PartialEq, Eq, Structural)]
pub struct ControllerConfiguration {
    pub reserved_31_24: u8,
    pub iocqes: u8,
    pub iosqes: u8,
    pub shn: ShutdownNotification,
    pub ams: ArbitrationMechanismSelected,
    pub mps: u8,
    pub css: CommandSetSelected,
    pub reserved_03_01: u8,
    pub en: bool,
}

impl ControllerConfiguration {
    /// Every multi-bit field fits its declared width.
    pub open spec fn wf(self) -> bool {
        self.iocqes < 16 && self.iosqes < 16 && self.mps < 16 && self.reserved_03_01 < 8
    }

    /// The 32-bit register image of this value.
    pub open spec fn to_raw_spec(self) -> u32 {
        ((self.reserved_31_24 as u32) << 24) | ((self.iocqes as u32) << 20) | ((self.iosqes
            as u32) << 16) | (self.shn.bits() << 14) | (self.ams.bits() << 11) | ((self.mps
            as u32) << 7) | (self.css.bits() << 4) | ((self.reserved_03_01 as u32) << 1) | (
        if self.en {
            1u32
        } else {
            0u32
        })
    }

    /// Decoding a 32-bit register image, field by field.
    pub open spec fn spec_from_raw(v: u32) -> Result<Self, CodecError> {
        if ShutdownNotification::known((v >> 14) & 3) && ArbitrationMechanismSelected::known(
            (v >> 11) & 7,
        ) && CommandSetSelected::known((v >> 4) & 7) {
            Ok(
                ControllerConfiguration {
                    reserved_31_24: ((v >> 24) & 0xff) as u8,
                    iocqes: ((v >> 20) & 0xf) as u8,
                    iosqes: ((v >> 16) & 0xf) as u8,
                    shn: ShutdownNotification::spec_from_bits((v >> 14) & 3),
                    ams: ArbitrationMechanismSelected::spec_from_bits((v >> 11) & 7),
                    mps: ((v >> 7) & 0xf) as u8,
                    css: CommandSetSelected::spec_from_bits((v >> 4) & 7),
                    reserved_03_01: ((v >> 1) & 0x7) as u8,
                    en: (v & 1) != 0,
                },
            )
        } else {
            Err(CodecError::UnknownDiscriminant)
        }
    }

    /// Decode the CC register; fails only on an undefined SHN, AMS or CSS
    /// discriminant.
    pub fn from_raw(v: u32) -> (r: Result<Self, CodecError>)
        ensures
            r == Self::spec_from_raw(v),
            r matches Ok(c) ==> c.wf() && c.to_raw_spec() == v,
    {
        let shn = match ShutdownNotification::from_bits((v >> 14) & 3) {
            Ok(x) => x,
            Err(e) => {
                return Err(e);
            },
        };
        let ams = match ArbitrationMechanismSelected::from_bits((v >> 11) & 7) {
            Ok(x) => x,
            Err(e) => {
                return Err(e);
            },
        };
        let css = match CommandSetSelected::from_bits((v >> 4) & 7) {
            Ok(x) => x,
            Err(e) => {
                return Err(e);
            },
        };
        let c = ControllerConfiguration {
            reserved_31_24: ((v >> 24) & 0xff) as u8,
            iocqes: ((v >> 20) & 0xf) as u8,
            iosqes: ((v >> 16) & 0xf) as u8,
            shn,
            ams,
            mps: ((v >> 7) & 0xf) as u8,
            css,
            reserved_03_01: ((v >> 1) & 0x7) as u8,
            en: (v & 1) != 0,
        };
        proof {
            lemma_cc_bits(v);
            assert(c.to_raw_spec() == v);
        }
        Ok(c)
    }

    /// The register image to write for this value.
    pub fn into_raw(self) -> (r: u32)
        requires
            self.wf(),
        ensures
            r == self.to_raw_spec(),
    {
        let shn_b: u32 = match self.shn {
            ShutdownNotification::Noop => 0,
            ShutdownNotification::Normal => 1,
            ShutdownNotification::Abrupt => 2,
        };
        let ams_b: u32 = match self.ams {
            ArbitrationMechanismSelected::RoundRobin => 0,
            ArbitrationMechanismSelected::WeightedRoundRobinWithUrgentPriorityClass => 1,
            ArbitrationMechanismSelected::VendorSpecific => 7,
        };
        let css_b: u32 = match self.css {
            CommandSetSelected::NVMCommandSet => 0,
            CommandSetSelected::AdminCommandSetOnly => 7,
        };
        ((self.reserved_31_24 as u32) << 24) | ((self.iocqes as u32) << 20) | ((self.iosqes
            as u32) << 16) | (shn_b << 14) | (ams_b << 11) | ((self.mps as u32) << 7) | (css_b
            << 4) | ((self.reserved_03_01 as u32) << 1) | (if self.en { 1u32 } else { 0u32 })
    }
}

/// Bit facts about the CC image: extracted fields are in range, and putting
/// the extractions back together restores the image.
proof fn lemma_cc_bits(v: u32)
    by (bit_vector)
    ensures
        ((v >> 24) & 0xff) < 256 && ((v >> 20) & 0xf) < 16 && ((v >> 16) & 0xf) < 16 && ((v >> 14)
            & 3) < 4 && ((v >> 11) & 7) < 8 && ((v >> 7) & 0xf) < 16 && ((v >> 4) & 7) < 8 && ((v
            >> 1) & 0x7) < 8,
        ((((v >> 24) & 0xff) as u8 as u32) << 24) | ((((v >> 20) & 0xf) as u8 as u32) << 20) | ((((v
            >> 16) & 0xf) as u8 as u32) << 16) | (((v >> 14) & 3) << 14) | (((v >> 11) & 7) << 11)
            | ((((v >> 7) & 0xf) as u8 as u32) << 7) | (((v >> 4) & 7) << 4) | ((((v >> 1) & 0x7)
            as u8 as u32) << 1) | (if (v & 1) != 0 { 1u32 } else { 0u32 }) == v,
{
}

/// Re-extracting every CC field from an assembled image gives the fields
/// back.
proof fn lemma_cc_assemble(
    r31: u8,
    cqes: u8,
    sqes: u8,
    shn_b: u32,
    ams_b: u32,
    mps: u8,
    css_b: u32,
    r03: u8,
    en: bool,
)
    by (bit_vector)
    requires
        cqes < 16,
        sqes < 16,
        shn_b < 4,
        ams_b < 8,
        mps < 16,
        css_b < 8,
        r03 < 8,
    ensures
        ({
            let v = ((r31 as u32) << 24) | ((cqes as u32) << 20) | ((sqes as u32) << 16) | (shn_b
                << 14) | (ams_b << 11) | ((mps as u32) << 7) | (css_b << 4) | ((r03 as u32) << 1)
                | (if en { 1u32 } else { 0u32 });
            ((v >> 24) & 0xff) == r31 && ((v >> 20) & 0xf) == cqes && ((v >> 16) & 0xf) == sqes
                && ((v >> 14) & 3) == shn_b && ((v >> 11) & 7) == ams_b && ((v >> 7) & 0xf) == mps
                && ((v >> 4) & 7) == css_b && ((v >> 1) & 0x7) == r03 && ((v & 1) != 0) == en
        }),
{
}

/// Encoding a well-formed CC value and decoding the image gives the value
/// back: the codec round-trips in both directions.
pub proof fn lemma_cc_roundtrip(c: ControllerConfiguration)
    requires
        c.wf(),
    ensures
        ControllerConfiguration::spec_from_raw(c.to_raw_spec()) == Ok::<
            ControllerConfiguration,
            CodecError,
        >(c),
{
    lemma_cc_assemble(
        c.reserved_31_24,
        c.iocqes,
        c.iosqes,
        c.shn.bits(),
        c.ams.bits(),
        c.mps,
        c.css.bits(),
        c.reserved_03_01,
        c.en,
    );
}

/// The CSTS register: controller status, offset 0x1C.
#[derive(Debug, Clone, Copy, PartialEq, Eq, Structural)]
pub struct ControllerStatus {
    pub reserved_31_06: u32,
    pub pp: bool,
    pub nssro: bool,
    pub shst: ShutdownStatus,
    pub cfs: bool,
    pub rdy: bool,
}

impl ControllerStatus {
    pub open spec fn wf(self) -> bool {
        self.reserved_31_06 < 0x4000000
    }

    pub open spec fn to_raw_spec(self) -> u32 {
        (self.reserved_31_06 << 6) | (if self.pp { 1u32 << 5 } else { 0u32 }) | (
        if self.nssro {
            1u32 << 4
        } else {
            0u32
        }) | (self.shst.bits() << 2) | (if self.cfs { 1u32 << 1 } else { 0u32 }) | (
        if self.rdy {
            1u32
        } else {
            0u32
        })
    }

    pub open spec fn spec_from_raw(v: u32) -> Result<Self, CodecError> {
        if ShutdownStatus::known((v >> 2) & 3) {
            Ok(
                ControllerStatus {
                    reserved_31_06: (v >> 6) & 0x3ffffff,
                    pp: ((v >> 5) & 1) != 0,
                    nssro: ((v >> 4) & 1) != 0,
                    shst: ShutdownStatus::spec_from_bits((v >> 2) & 3),
                    cfs: ((v >> 1) & 1) != 0,
                    rdy: (v & 1) != 0,
                },
            )
        } else {
            Err(CodecError::UnknownDiscriminant)
        }
    }

    /// Decode the CSTS register; fails only on the undefined SHST
    /// discriminant.
    pub fn from_raw(v: u32) -> (r: Result<Self, CodecError>)
        ensures
            r == Self::spec_from_raw(v),
            r matches Ok(s) ==> s.wf() && s.to_raw_spec() == v,
    {
        let shst = match ShutdownStatus::from_bits((v >> 2) & 3) {
            Ok(x) => x,
            Err(e) => {
                return Err(e);
            },
        };
        let s = ControllerStatus {
            reserved_31_06: (v >> 6) & 0x3ffffff,
            pp: ((v >> 5) & 1) != 0,
            nssro: ((v >> 4) & 1) != 0,
            shst,
            cfs: ((v >> 1) & 1) != 0,
            rdy: (v & 1) != 0,
        };
        proof {
            lemma_csts_bits(v);
            assert(s.to_raw_spec() == v);
        }
        Ok(s)
    }

    pub fn into_raw(self) -> (r: u32)
        requires
            self.wf(),
        ensures
            r == self.to_raw_spec(),
    {
        let shst_b: u32 = match self.shst {
            ShutdownStatus::NormalOperation => 0,
            ShutdownStatus::ShutdownOccuring => 1,
            ShutdownStatus::ShutdownComplete => 2,
        };
        (self.reserved_31_06 << 6) | (if self.pp { 1u32 << 5 } else { 0u32 }) | (
        if self.nssro {
            1u32 << 4
        } else {
            0u32
        }) | (shst_b << 2) | (if self.cfs { 1u32 << 1 } else { 0u32 }) | (
        if self.rdy {
            1u32
        } else {
            0u32
        })
    }
}

proof fn lemma_csts_bits(v: u32)
    by (bit_vector)
    ensures
        ((v >> 6) & 0x3ffffff) < 0x4000000 && ((v >> 2) & 3) < 4,
        (((v >> 6) & 0x3ffffff) << 6) | (if (((v >> 5) & 1) != 0) { 1u32 << 5 } else { 0u32 }) | (
        if (((v >> 4) & 1) != 0) {
            1u32 << 4
        } else {
            0u32
        }) | (((v >> 2) & 3) << 2) | (if (((v >> 1) & 1) != 0) { 1u32 << 1 } else { 0u32 }) | (
        if ((v & 1) != 0) {
            1u32
        } else {
            0u32
        }) == v,
{
}

proof fn lemma_csts_assemble(r31: u32, pp: bool, nssro: bool, shst_b: u32, cfs: bool, rdy: bool)
    by (bit_vector)
    requires
        r31 < 0x4000000,
        shst_b < 4,
    ensures
        ({
            let v = (r31 << 6) | (if pp { 1u32 << 5 } else { 0u32 }) | (
            if nssro {
                1u32 << 4
            } else {
                0u32
            }) | (shst_b << 2) | (if cfs { 1u32 << 1 } else { 0u32 }) | (
            if rdy {
                1u32
            } else {
                0u32
            });
            ((v >> 6) & 0x3ffffff) == r31 && (((v >> 5) & 1) != 0) == pp && (((v >> 4) & 1) != 0)
                == nssro && ((v >> 2) & 3) == shst_b && (((v >> 1) & 1) != 0) == cfs && ((v & 1)
                != 0) == rdy
        }),
{
}

/// Encoding a well-formed CSTS value and decoding the image gives the value
/// back.
pub proof fn lemma_csts_roundtrip(s: ControllerStatus)
    requires
        s.wf(),
    ensures
        ControllerStatus::spec_from_raw(s.to_raw_spec()) == Ok::<ControllerStatus, CodecError>(s),
{
    lemma_csts_assemble(s.reserved_31_06, s.pp, s.nssro, s.shst.bits(), s.cfs, s.rdy);
}


/// The CAP register: controller capabilities, offset 0x00.
#[derive(Debug, Clone, Copy, PartialEq, Eq, Structural)]
pub struct NvmeCapabilities {
    pub reserved_63_58: u8,
    pub cmbs: bool,
    pub pmrs: bool,
    pub mpsmax: u8,
    pub mpsmin: u8,
    pub reserved_47_46: u8,
    pub bps: bool,
    pub css: u8,
    pub nssrs: bool,
    pub dstrd: u8,
    pub to: u8,
    pub reserved_23_19: u8,
    pub ams_wrrup: bool,
    pub ams_vendor: bool,
    pub cqr: bool,
    pub mqes: u16,
}

impl NvmeCapabilities {
    pub open spec fn wf(self) -> bool {
        self.reserved_63_58 < 64 && self.mpsmax < 16 && self.mpsmin < 16 && self.reserved_47_46 < 4
            && self.dstrd < 16 && self.reserved_23_19 < 32
    }

    pub open spec fn to_raw_spec(self) -> u64 {
        ((self.reserved_63_58 as u64) << 58) | (if self.cmbs { 1u64 << 57 } else { 0u64 }) | (
        if self.pmrs {
            1u64 << 56
        } else {
            0u64
        }) | ((self.mpsmax as u64) << 52) | ((self.mpsmin as u64) << 48) | ((self.reserved_47_46
            as u64) << 46) | (if self.bps { 1u64 << 45 } else { 0u64 }) | ((self.css as u64) << 37)
            | (if self.nssrs { 1u64 << 36 } else { 0u64 }) | ((self.dstrd as u64) << 32) | ((self.to
            as u64) << 24) | ((self.reserved_23_19 as u64) << 19) | (
        if self.ams_wrrup {
            1u64 << 18
        } else {
            0u64
        }) | (if self.ams_vendor { 1u64 << 17 } else { 0u64 }) | (
        if self.cqr {
            1u64 << 16
        } else {
            0u64
        }) | (self.mqes as u64)
    }

    pub open spec fn spec_from_raw(v: u64) -> Self {
        NvmeCapabilities {
            reserved_63_58: ((v >> 58) & 0x3f) as u8,
            cmbs: ((v >> 57) & 1) != 0,
            pmrs: ((v >> 56) & 1) != 0,
            mpsmax: ((v >> 52) & 0xf) as u8,
            mpsmin: ((v >> 48) & 0xf) as u8,
            reserved_47_46: ((v >> 46) & 3) as u8,
            bps: ((v >> 45) & 1) != 0,
            css: ((v >> 37) & 0xff) as u8,
            nssrs: ((v >> 36) & 1) != 0,
            dstrd: ((v >> 32) & 0xf) as u8,
            to: ((v >> 24) & 0xff) as u8,
            reserved_23_19: ((v >> 19) & 0x1f) as u8,
            ams_wrrup: ((v >> 18) & 1) != 0,
            ams_vendor: ((v >> 17) & 1) != 0,
            cqr: ((v >> 16) & 1) != 0,
            mqes: (v & 0xffff) as u16,
        }
    }

    /// Decode the CAP register; every 64-bit image is a valid value.
    pub fn from_raw(v: u64) -> (r: Self)
        ensures
            r == Self::spec_from_raw(v),
            r.wf(),
            r.to_raw_spec() == v,
    {
        let r = NvmeCapabilities {
            reserved_63_58: ((v >> 58) & 0x3f) as u8,
            cmbs: ((v >> 57) & 1) != 0,
            pmrs: ((v >> 56) & 1) != 0,
            mpsmax: ((v >> 52) & 0xf) as u8,
            mpsmin: ((v >> 48) & 0xf) as u8,
            reserved_47_46: ((v >> 46) & 3) as u8,
            bps: ((v >> 45) & 1) != 0,
            css: ((v >> 37) & 0xff) as u8,
            nssrs: ((v >> 36) & 1) != 0,
            dstrd: ((v >> 32) & 0xf) as u8,
            to: ((v >> 24) & 0xff) as u8,
            reserved_23_19: ((v >> 19) & 0x1f) as u8,
            ams_wrrup: ((v >> 18) & 1) != 0,
            ams_vendor: ((v >> 17) & 1) != 0,
            cqr: ((v >> 16) & 1) != 0,
            mqes: (v & 0xffff) as u16,
        };
        proof {
            lemma_cap_bits(v);
        }
        r
    }

    pub fn into_raw(self) -> (r: u64)
        requires
            self.wf(),
        ensures
            r == self.to_raw_spec(),
    {
        ((self.reserved_63_58 as u64) << 58) | (if self.cmbs { 1u64 << 57 } else { 0u64 }) | (
        if self.pmrs {
            1u64 << 56
        } else {
            0u64
        }) | ((self.mpsmax as u64) << 52) | ((self.mpsmin as u64) << 48) | ((self.reserved_47_46
            as u64) << 46) | (if self.bps { 1u64 << 45 } else { 0u64 }) | ((self.css as u64) << 37)
            | (if self.nssrs { 1u64 << 36 } else { 0u64 }) | ((self.dstrd as u64) << 32) | ((self.to
            as u64) << 24) | ((self.reserved_23_19 as u64) << 19) | (
        if self.ams_wrrup {
            1u64 << 18
        } else {
            0u64
        }) | (if self.ams_vendor { 1u64 << 17 } else { 0u64 }) | (
        if self.cqr {
            1u64 << 16
        } else {
            0u64
        }) | (self.mqes as u64)
    }

    /// The worst-case readiness time CAP reports, in milliseconds: TO is
    /// counted in 500 ms units.
    pub fn timeout_ms(&self) -> (r: u32)
        ensures
            r == self.to * 500,
    {
        (self.to as u32) * 500
    }

    /// The poll budget of a bounded wait at one poll per 10 ms, derived
    /// from the controller-reported timeout.
    pub fn poll_budget(&self) -> (r: u32)
        ensures
            r == self.to * 50,
    {
        (self.to as u32) * 50
    }
}

proof fn lemma_cap_bits(v: u64)
    by (bit_vector)
    ensures
        ((v >> 58) & 0x3f) < 64 && ((v >> 52) & 0xf) < 16 && ((v >> 48) & 0xf) < 16 && ((v >> 46)
            & 3) < 4 && ((v >> 37) & 0xff) < 256 && ((v >> 32) & 0xf) < 16 && ((v >> 24) & 0xff)
            < 256 && ((v >> 19) & 0x1f) < 32 && (v & 0xffff) < 0x10000,
        ((((v >> 58) & 0x3f) as u8 as u64) << 58) | (if (((v >> 57) & 1) != 0) {
            1u64 << 57
        } else {
            0u64
        }) | (if (((v >> 56) & 1) != 0) { 1u64 << 56 } else { 0u64 }) | ((((v >> 52) & 0xf) as u8
            as u64) << 52) | ((((v >> 48) & 0xf) as u8 as u64) << 48) | ((((v >> 46) & 3) as u8
            as u64) << 46) | (if (((v >> 45) & 1) != 0) { 1u64 << 45 } else { 0u64 }) | ((((v >> 37)
            & 0xff) as u8 as u64) << 37) | (if (((v >> 36) & 1) != 0) { 1u64 << 36 } else { 0u64 })
            | ((((v >> 32) & 0xf) as u8 as u64) << 32) | ((((v >> 24) & 0xff) as u8 as u64) << 24)
            | ((((v >> 19) & 0x1f) as u8 as u64) << 19) | (if (((v >> 18) & 1) != 0) {
            1u64 << 18
        } else {
            0u64
        }) | (if (((v >> 17) & 1) != 0) { 1u64 << 17 } else { 0u64 }) | (if (((v >> 16) & 1) != 0) {
            1u64 << 16
        } else {
            0u64
        }) | ((v & 0xffff) as u16 as u64) == v,
{
}

proof fn lemma_cap_assemble(
    r63: u8,
    cmbs: bool,
    pmrs: bool,
    mpsmax: u8,
    mpsmin: u8,
    r47: u8,
    bps: bool,
    css: u8,
    nssrs: bool,
    dstrd: u8,
    to: u8,
    r23: u8,
    wrrup: bool,
    vendor: bool,
    cqr: bool,
    mqes: u16,
)
    by (bit_vector)
    requires
        r63 < 64,
        mpsmax < 16,
        mpsmin < 16,
        r47 < 4,
        dstrd < 16,
        r23 < 32,
    ensures
        ({
            let v = ((r63 as u64) << 58) | (if cmbs { 1u64 << 57 } else { 0u64 }) | (
            if pmrs {
                1u64 << 56
            } else {
                0u64
            }) | ((mpsmax as u64) << 52) | ((mpsmin as u64) << 48) | ((r47 as u64) << 46) | (
            if bps {
                1u64 << 45
            } else {
                0u64
            }) | ((css as u64) << 37) | (if nssrs { 1u64 << 36 } else { 0u64 }) | ((dstrd
                as u64) << 32) | ((to as u64) << 24) | ((r23 as u64) << 19) | (
            if wrrup {
                1u64 << 18
            } else {
                0u64
            }) | (if vendor { 1u64 << 17 } else { 0u64 }) | (if cqr { 1u64 << 16 } else { 0u64 })
                | (mqes as u64);
            ((v >> 58) & 0x3f) == r63 && (((v >> 57) & 1) != 0) == cmbs && (((v >> 56) & 1) != 0)
                == pmrs && ((v >> 52) & 0xf) == mpsmax && ((v >> 48) & 0xf) == mpsmin && ((v >> 46)
                & 3) == r47 && (((v >> 45) & 1) != 0) == bps && ((v >> 37) & 0xff) == css && (((v
                >> 36) & 1) != 0) == nssrs && ((v >> 32) & 0xf) == dstrd && ((v >> 24) & 0xff) == to
                && ((v >> 19) & 0x1f) == r23 && (((v >> 18) & 1) != 0) == wrrup && (((v >> 17) & 1)
                != 0) == vendor && (((v >> 16) & 1) != 0) == cqr && (v & 0xffff) == mqes
        }),
{
}

/// Encoding a well-formed CAP value and decoding the image gives the value
/// back.
pub proof fn lemma_cap_roundtrip(c: NvmeCapabilities)
    requires
        c.wf(),
    ensures
        NvmeCapabilities::spec_from_raw(c.to_raw_spec()) == c,
{
    lemma_cap_assemble(
        c.reserved_63_58,
        c.cmbs,
        c.pmrs,
        c.mpsmax,
        c.mpsmin,
        c.reserved_47_46,
        c.bps,
        c.css,
        c.nssrs,
        c.dstrd,
        c.to,
        c.reserved_23_19,
        c.ams_wrrup,
        c.ams_vendor,
        c.cqr,
        c.mqes,
    );
}

/// The VS register: specification version, offset 0x08.
#[derive(Debug, Clone, Copy, PartialEq, Eq, Structural)]
pub struct NvmeVersion {
    pub major: u16,
    pub minor: u8,
    pub tertiary: u8,
}

impl NvmeVersion {
    pub open spec fn to_raw_spec(self) -> u32 {
        ((self.major as u32) << 16) | ((self.minor as u32) << 8) | (self.tertiary as u32)
    }

    pub open spec fn spec_from_raw(v: u32) -> Self {
        NvmeVersion {
            major: ((v >> 16) & 0xffff) as u16,
            minor: ((v >> 8) & 0xff) as u8,
            tertiary: (v & 0xff) as u8,
        }
    }

    pub fn from_raw(v: u32) -> (r: Self)
        ensures
            r == Self::spec_from_raw(v),
            r.to_raw_spec() == v,
    {
        proof {
            lemma_vs_bits(v);
        }
        NvmeVersion {
            major: ((v >> 16) & 0xffff) as u16,
            minor: ((v >> 8) & 0xff) as u8,
            tertiary: (v & 0xff) as u8,
        }
    }

    pub fn into_raw(self) -> (r: u32)
        ensures
            r == self.to_raw_spec(),
    {
        ((self.major as u32) << 16) | ((self.minor as u32) << 8) | (self.tertiary as u32)
    }
}

proof fn lemma_vs_bits(v: u32)
    by (bit_vector)
    ensures
        ((((v >> 16) & 0xffff) as u16 as u32) << 16) | ((((v >> 8) & 0xff) as u8 as u32) << 8) | ((v
            & 0xff) as u8 as u32) == v,
{
}

/// The named registers of the controller register file, with their offsets.
#[derive(Debug, Clone, Copy, PartialEq, Eq, Structural)]
pub enum NvmeRegister {
    Cap,
    Vs,
    Intms,
    Intmc,
    Cc,
    Csts,
    Nssr,
    Aqa,
    Asq,
    Acq,
    Cmbloc,
    Cmbsz,
}

impl NvmeRegister {
    pub open spec fn spec_offset(self) -> u64 {
        match self {
            NvmeRegister::Cap => 0x00,
            NvmeRegister::Vs => 0x08,
            NvmeRegister::Intms => 0x0c,
            NvmeRegister::Intmc => 0x10,
            NvmeRegister::Cc => 0x14,
            NvmeRegister::Csts => 0x1c,
            NvmeRegister::Nssr => 0x20,
            NvmeRegister::Aqa => 0x24,
            NvmeRegister::Asq => 0x28,
            NvmeRegister::Acq => 0x30,
            NvmeRegister::Cmbloc => 0x38,
            NvmeRegister::Cmbsz => 0x3c,
        }
    }

    /// Byte offset of the register inside the MMIO window.
    pub fn offset(self) -> (r: u64)
        ensures
            r == self.spec_offset(),
    {
        match self {
            NvmeRegister::Cap => 0x00,
            NvmeRegister::Vs => 0x08,
            NvmeRegister::Intms => 0x0c,
            NvmeRegister::Intmc => 0x10,
            NvmeRegister::Cc => 0x14,
            NvmeRegister::Csts => 0x1c,
            NvmeRegister::Nssr => 0x20,
            NvmeRegister::Aqa => 0x24,
            NvmeRegister::Asq => 0x28,
            NvmeRegister::Acq => 0x30,
            NvmeRegister::Cmbloc => 0x38,
            NvmeRegister::Cmbsz => 0x3c,
        }
    }
}

/// One register write the caller must issue, in order.
#[derive(Debug, Clone, Copy, PartialEq, Eq, Structural)]
pub struct RegisterWrite {
    pub reg: NvmeRegister,
    pub value: u64,
}

/// Admin queue geometry: depths chosen at setup and the physical base
/// addresses of the two 4 KiB-aligned buffers.
#[derive(Debug, Clone, Copy, PartialEq, Eq, Structural)]
pub struct AdminQueueConfig {
    pub asq_depth: u16,
    pub acq_depth: u16,
    pub asq_base: u64,
    pub acq_base: u64,
}

impl AdminQueueConfig {
    /// Depths fit the 12-bit zero-based AQA fields; bases are 4 KiB aligned.
    pub open spec fn wf(self) -> bool {
        1 <= self.asq_depth <= 4096 && 1 <= self.acq_depth <= 4096 && self.asq_base % 4096 == 0
            && self.acq_base % 4096 == 0
    }

    pub fn new(asq_depth: u16, acq_depth: u16, asq_base: u64, acq_base: u64) -> (r: Self)
        requires
            1 <= asq_depth <= 4096,
            1 <= acq_depth <= 4096,
            asq_base % 4096 == 0,
            acq_base % 4096 == 0,
        ensures
            r == (AdminQueueConfig { asq_depth, acq_depth, asq_base, acq_base }),
            r.wf(),
    {
        AdminQueueConfig { asq_depth, acq_depth, asq_base, acq_base }
    }

    /// The AQA image: completion queue size minus one in bits 27:16,
    /// submission queue size minus one in bits 11:0.
    pub open spec fn spec_aqa(self) -> u32 {
        (((self.acq_depth - 1) as u32) << 16) | ((self.asq_depth - 1) as u32)
    }

    pub fn aqa_value(&self) -> (r: u32)
        requires
            self.wf(),
        ensures
            r == self.spec_aqa(),
    {
        (((self.acq_depth - 1) as u32) << 16) | ((self.asq_depth - 1) as u32)
    }

    /// The ordered register writes of admin queue setup: AQA, then ASQ,
    /// then ACQ.  The order is part of the contract; the caller must issue
    /// the writes exactly in this sequence.
    pub fn setup_writes(&self) -> (r: Vec<RegisterWrite>)
        requires
            self.wf(),
        ensures
            r@.len() == 3,
            r@[0] == (RegisterWrite { reg: NvmeRegister::Aqa, value: self.spec_aqa() as u64 }),
            r@[1] == (RegisterWrite { reg: NvmeRegister::Asq, value: self.asq_base }),
            r@[2] == (RegisterWrite { reg: NvmeRegister::Acq, value: self.acq_base }),
    {
        let mut writes: Vec<RegisterWrite> = Vec::new();
        writes.push(RegisterWrite { reg: NvmeRegister::Aqa, value: self.aqa_value() as u64 });
        writes.push(RegisterWrite { reg: NvmeRegister::Asq, value: self.asq_base });
        writes.push(RegisterWrite { reg: NvmeRegister::Acq, value: self.acq_base });
        writes
    }
}

/// What a bounded wait is waiting for.
#[derive(Debug, Clone, Copy, PartialEq, Eq, Structural)]
pub enum WaitTarget {
    /// CSTS.RDY set, after enabling.
    Ready,
    /// CSTS.RDY clear, after disabling.
    Stopped,
    /// CSTS.SHST reporting shutdown complete.
    ShutdownComplete,
}

impl WaitTarget {
    /// Whether an observed status satisfies the wait.
    pub open spec fn satisfied_by(self, s: ControllerStatus) -> bool {
        match self {
            WaitTarget::Ready => s.rdy,
            WaitTarget::Stopped => !s.rdy,
            WaitTarget::ShutdownComplete => s.shst == ShutdownStatus::ShutdownComplete,
        }
    }
}

/// The verdict of one poll of a bounded wait.
#[derive(Debug, Clone, Copy, PartialEq, Eq, Structural)]
pub enum WaitVerdict {
    /// The waited-for state was observed.
    Done,
    /// Not there yet: sleep 10 ms, decrement the budget, read again.
    Poll,
}

/// The host side of one controller: chosen queue geometry and the queue
/// indices the host maintains (both start at zero and stay with the host;
/// doorbell writes are outside this scope).
#[derive(Debug, Clone, Copy, PartialEq, Eq, Structural)]
pub struct NvmeController {
    pub admin: AdminQueueConfig,
    pub asq_tail: u16,
    pub acq_head: u16,
}

impl NvmeController {
    pub open spec fn wf(self) -> bool {
        self.admin.wf()
    }

    pub fn new(admin: AdminQueueConfig) -> (r: Self)
        requires
            admin.wf(),
        ensures
            r.admin == admin,
            r.asq_tail == 0,
            r.acq_head == 0,
            r.wf(),
    {
        NvmeController { admin, asq_tail: 0, acq_head: 0 }
    }

    /// What enabling does to a CC image: refused while EN is set; otherwise
    /// IOCQES and IOSQES are set to 4 (16-byte completion entries, 64-byte
    /// submission entries) and EN is set.
    pub open spec fn spec_enable(cc_raw: u32) -> Result<u32, NvmeError> {
        match ControllerConfiguration::spec_from_raw(cc_raw) {
            Err(e) => Err(NvmeError::Codec(e)),
            Ok(c) => if c.en {
                Err(NvmeError::AlreadyEnabled)
            } else {
                Ok(
                    (ControllerConfiguration { iocqes: 4, iosqes: 4, en: true, ..c }).to_raw_spec(),
                )
            },
        }
    }

    /// Enable: returns the CC image the caller must write.
    pub fn enable_controller(&self, cc_raw: u32) -> (r: Result<u32, NvmeError>)
        ensures
            r == Self::spec_enable(cc_raw),
    {
        let mut cc = match ControllerConfiguration::from_raw(cc_raw) {
            Ok(c) => c,
            Err(e) => {
                return Err(NvmeError::Codec(e));
            },
        };
        if cc.en {
            return Err(NvmeError::AlreadyEnabled);
        }
        cc.iocqes = 4;
        cc.iosqes = 4;
        cc.en = true;
        Ok(cc.into_raw())
    }

    /// What a shutdown notification does to a CC image: SHN is set to
    /// normal shutdown.
    pub open spec fn spec_shutdown(cc_raw: u32) -> Result<u32, NvmeError> {
        match ControllerConfiguration::spec_from_raw(cc_raw) {
            Err(e) => Err(NvmeError::Codec(e)),
            Ok(c) => Ok(
                (ControllerConfiguration { shn: ShutdownNotification::Normal, ..c }).to_raw_spec(),
            ),
        }
    }

    /// Shutdown: returns the CC image the caller must write.
    pub fn shutdown_controller(&self, cc_raw: u32) -> (r: Result<u32, NvmeError>)
        ensures
            r == Self::spec_shutdown(cc_raw),
    {
        let mut cc = match ControllerConfiguration::from_raw(cc_raw) {
            Ok(c) => c,
            Err(e) => {
                return Err(NvmeError::Codec(e));
            },
        };
        cc.shn = ShutdownNotification::Normal;
        Ok(cc.into_raw())
    }

    /// What disabling does to a CC image: refused while EN is clear;
    /// otherwise EN is cleared.
    pub open spec fn spec_disable(cc_raw: u32) -> Result<u32, NvmeError> {
        match ControllerConfiguration::spec_from_raw(cc_raw) {
            Err(e) => Err(NvmeError::Codec(e)),
            Ok(c) => if !c.en {
                Err(NvmeError::AlreadyDisabled)
            } else {
                Ok((ControllerConfiguration { en: false, ..c }).to_raw_spec())
            },
        }
    }

    /// Disable: returns the CC image the caller must write.
    pub fn disable_controller(&self, cc_raw: u32) -> (r: Result<u32, NvmeError>)
        ensures
            r == Self::spec_disable(cc_raw),
    {
        let mut cc = match ControllerConfiguration::from_raw(cc_raw) {
            Ok(c) => c,
            Err(e) => {
                return Err(NvmeError::Codec(e));
            },
        };
        if !cc.en {
            return Err(NvmeError::AlreadyDisabled);
        }
        cc.en = false;
        Ok(cc.into_raw())
    }

    /// Whether an observed CSTS image reports the controller ready.
    pub fn ready(&self, csts_raw: u32) -> (r: Result<bool, NvmeError>)
        ensures
            match ControllerStatus::spec_from_raw(csts_raw) {
                Ok(s) => r == Ok::<bool, NvmeError>(s.rdy),
                Err(e) => r == Err::<bool, NvmeError>(NvmeError::Codec(e)),
            },
    {
        match ControllerStatus::from_raw(csts_raw) {
            Ok(s) => Ok(s.rdy),
            Err(e) => Err(NvmeError::Codec(e)),
        }
    }

    /// One poll of a bounded wait.  `polls_left` is the remaining poll
    /// budget: with none left the wait has timed out; otherwise the
    /// observed status decides between done and polling on.
    pub open spec fn spec_wait_step(
        target: WaitTarget,
        csts_raw: u32,
        polls_left: u32,
    ) -> Result<WaitVerdict, NvmeError> {
        if polls_left == 0 {
            Err(NvmeError::Timeout)
        } else {
            match ControllerStatus::spec_from_raw(csts_raw) {
                Err(e) => Err(NvmeError::Codec(e)),
                Ok(s) => if target.satisfied_by(s) {
                    Ok(WaitVerdict::Done)
                } else {
                    Ok(WaitVerdict::Poll)
                },
            }
        }
    }

    pub fn wait_step(&self, target: WaitTarget, csts_raw: u32, polls_left: u32) -> (r: Result<
        WaitVerdict,
        NvmeError,
    >)
        ensures
            r == Self::spec_wait_step(target, csts_raw, polls_left),
    {
        if polls_left == 0 {
            return Err(NvmeError::Timeout);
        }
        let s = match ControllerStatus::from_raw(csts_raw) {
            Ok(s) => s,
            Err(e) => {
                return Err(NvmeError::Codec(e));
            },
        };
        let hit = match target {
            WaitTarget::Ready => s.rdy,
            WaitTarget::Stopped => !s.rdy,
            WaitTarget::ShutdownComplete => matches!(s.shst, ShutdownStatus::ShutdownComplete),
        };
        if hit {
            Ok(WaitVerdict::Done)
        } else {
            Ok(WaitVerdict::Poll)
        }
    }
}

/// The observable phases of the controller lifecycle.
#[derive(Debug, Clone, Copy, PartialEq, Eq, Structural)]
pub enum ControllerPhase {
    Disabled,
    Enabling,
    Ready,
    ShuttingDown,
    ShutdownComplete,
    Disabling,
}

/// The events of the lifecycle: the host's CC writes and its observations
/// of CSTS.
#[derive(Debug, Clone, Copy, PartialEq, Eq, Structural)]
pub enum ControllerEvent {
    /// CC written with EN set.
    WriteEnable,
    /// CC written with SHN = normal shutdown.
    WriteShutdown,
    /// CC written with EN clear.
    WriteDisable,
    /// CSTS read with RDY set.
    ObserveReady,
    /// CSTS read with RDY clear.
    ObserveNotReady,
    /// CSTS read with SHST = shutdown complete.
    ObserveShutdownComplete,
}

/// The transition relation of the lifecycle; `None` marks an event that the
/// phase does not admit.
pub open spec fn phase_step(p: ControllerPhase, e: ControllerEvent) -> Option<ControllerPhase> {
    match (p, e) {
        (ControllerPhase::Disabled, ControllerEvent::WriteEnable) => Some(
            ControllerPhase::Enabling,
        ),
        (ControllerPhase::Disabled, ControllerEvent::ObserveNotReady) => Some(
            ControllerPhase::Disabled,
        ),
        (ControllerPhase::Enabling, ControllerEvent::ObserveNotReady) => Some(
            ControllerPhase::Enabling,
        ),
        (ControllerPhase::Enabling, ControllerEvent::ObserveReady) => Some(ControllerPhase::Ready),
        (ControllerPhase::Ready, ControllerEvent::ObserveReady) => Some(ControllerPhase::Ready),
        (ControllerPhase::Ready, ControllerEvent::WriteShutdown) => Some(
            ControllerPhase::ShuttingDown,
        ),
        (ControllerPhase::Ready, ControllerEvent::WriteDisable) => Some(
            ControllerPhase::Disabling,
        ),
        (ControllerPhase::ShuttingDown, ControllerEvent::ObserveReady) => Some(
            ControllerPhase::ShuttingDown,
        ),
        (ControllerPhase::ShuttingDown, ControllerEvent::ObserveShutdownComplete) => Some(
            ControllerPhase::ShutdownComplete,
        ),
        (ControllerPhase::ShutdownComplete, ControllerEvent::WriteDisable) => Some(
            ControllerPhase::Disabling,
        ),
        (ControllerPhase::Disabling, ControllerEvent::ObserveReady) => Some(
            ControllerPhase::Disabling,
        ),
        (ControllerPhase::Disabling, ControllerEvent::ObserveNotReady) => Some(
            ControllerPhase::Disabled,
        ),
        _ => None,
    }
}

/// Run a sequence of events from a phase; `None` once any event is not
/// admitted.
pub open spec fn run_phases(p: ControllerPhase, evs: Seq<ControllerEvent>) -> Option<
    ControllerPhase,
>
    decreases evs.len(),
{
    if evs.len() == 0 {
        Some(p)
    } else {
        match phase_step(p, evs[0]) {
            Some(q) => run_phases(q, evs.skip(1)),
            None => None,
        }
    }
}

/// Appending one event to a run applies one step to its result.
pub proof fn lemma_run_phases_snoc(p: ControllerPhase, evs: Seq<ControllerEvent>, e: ControllerEvent)
    ensures
        run_phases(p, evs.push(e)) == match run_phases(p, evs) {
            Some(q) => phase_step(q, e),
            None => None,
        },
    decreases evs.len(),
{
    if evs.len() == 0 {
        assert(evs.push(e)[0] == e);
        assert(evs.push(e).skip(1) =~= Seq::<ControllerEvent>::empty());
        if let Some(q) = phase_step(p, e) {
            assert(run_phases(q, evs.push(e).skip(1)) == Some(q));
        }
    } else {
        assert(evs.push(e)[0] == evs[0]);
        assert(evs.push(e).skip(1) =~= evs.skip(1).push(e));
        match phase_step(p, evs[0]) {
            Some(q) => {
                lemma_run_phases_snoc(q, evs.skip(1), e);
            },
            None => {},
        }
    }
}

/// From `Ready`, every run without a disable write stays in the ready,
/// shutting-down or shutdown-complete phases.
proof fn lemma_ready_closed(evs: Seq<ControllerEvent>, i: int)
    requires
        0 <= i <= evs.len(),
        forall|k: int| 0 <= k < evs.len() ==> evs[k] != ControllerEvent::WriteDisable,
    ensures
        match run_phases(ControllerPhase::Ready, evs.take(i)) {
            Some(q) => q == ControllerPhase::Ready || q == ControllerPhase::ShuttingDown || q
                == ControllerPhase::ShutdownComplete,
            None => true,
        },
    decreases i,
{
    if i == 0 {
        assert(evs.take(0) =~= Seq::<ControllerEvent>::empty());
    } else {
        lemma_ready_closed(evs, i - 1);
        assert(evs.take(i) =~= evs.take(i - 1).push(evs[i - 1]));
        lemma_run_phases_snoc(ControllerPhase::Ready, evs.take(i - 1), evs[i - 1]);
    }
}

/// State monotonicity of the lifecycle: once the controller has been
/// observed ready, it is never again seen entering readiness (the
/// `Enabling` phase, whose exit is the RDY rise) unless `EN` has been
/// written clear in between.  With no `WriteDisable` event, no prefix of a
/// valid run from `Ready` passes through `Enabling`.
pub proof fn lemma_no_ready_again_without_disable(evs: Seq<ControllerEvent>)
    requires
        forall|k: int| 0 <= k < evs.len() ==> evs[k] != ControllerEvent::WriteDisable,
    ensures
        forall|i: int|
            0 <= i <= evs.len() ==> run_phases(ControllerPhase::Ready, #[trigger] evs.take(i))
                != Some(ControllerPhase::Enabling),
{
    assert forall|i: int|
        0 <= i <= evs.len() implies run_phases(ControllerPhase::Ready, #[trigger] evs.take(i))
        != Some(ControllerPhase::Enabling) by {
        lemma_ready_closed(evs, i);
    }
}


} // verus!
