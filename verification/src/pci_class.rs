//! The typed PCI class tree: a tagged union over the class code, with
//! per-class subclass unions and per-subclass programming-interface unions.
//! The discriminants consume no bytes of the configuration space; they are
//! the already-decoded `class_code`, `subclass` and `prog_if` fields.

use vstd::prelude::*;
use crate::codec::CodecError;

verus! {

#[derive(Debug, Clone, Copy, PartialEq, Eq, Structural)]
pub enum MassStorageControllerIDEInterfaceProgIf {
    ISACompatibilityModeOnlyController,
    PCINativeModeOnlyController,
    ISACompatibilityModeControllerSupportsBothChannelsSwitchedToPCINativeMode,
    PCINativeModeControllerSupportsBothChannelsSwitchedToISACompatibilityMode,
    ISACompatibilityModeOnlyControllerSupportsBusMastering,
    PCINativeModeOnlyControllerSupportsBusMastering,
    ISACompatibilityModeControllerSupportsBothChannelsSwitchedToPCINativeModeSupportsBusMastering,
    PCINativeModeControllerSupportsBothChannelsSwitchedToISACompatibilityModeSupportsBusMastering,
}

impl MassStorageControllerIDEInterfaceProgIf {
    /// The PROG-IF discriminant of each variant.
    pub open spec fn spec_id(self) -> u8 {
        match self {
            MassStorageControllerIDEInterfaceProgIf::ISACompatibilityModeOnlyController => 0x00,
            MassStorageControllerIDEInterfaceProgIf::PCINativeModeOnlyController => 0x05,
            MassStorageControllerIDEInterfaceProgIf::ISACompatibilityModeControllerSupportsBothChannelsSwitchedToPCINativeMode => 0x0A,
            MassStorageControllerIDEInterfaceProgIf::PCINativeModeControllerSupportsBothChannelsSwitchedToISACompatibilityMode => 0x0F,
            MassStorageControllerIDEInterfaceProgIf::ISACompatibilityModeOnlyControllerSupportsBusMastering => 0x80,
            MassStorageControllerIDEInterfaceProgIf::PCINativeModeOnlyControllerSupportsBusMastering => 0x85,
            MassStorageControllerIDEInterfaceProgIf::ISACompatibilityModeControllerSupportsBothChannelsSwitchedToPCINativeModeSupportsBusMastering => 0x8A,
            MassStorageControllerIDEInterfaceProgIf::PCINativeModeControllerSupportsBothChannelsSwitchedToISACompatibilityModeSupportsBusMastering => 0x8F,
        }
    }

    pub open spec fn known(id: u8) -> bool {
        id == 0x00 || id == 0x05 || id == 0x0A || id == 0x0F || id == 0x80 || id == 0x85 || id == 0x8A || id == 0x8F
    }

    pub open spec fn spec_decode(id: u8) -> Self {
        if id == 0x00 {
            MassStorageControllerIDEInterfaceProgIf::ISACompatibilityModeOnlyController
        } else if id == 0x05 {
            MassStorageControllerIDEInterfaceProgIf::PCINativeModeOnlyController
        } else if id == 0x0A {
            MassStorageControllerIDEInterfaceProgIf::ISACompatibilityModeControllerSupportsBothChannelsSwitchedToPCINativeMode
        } else if id == 0x0F {
            MassStorageControllerIDEInterfaceProgIf::PCINativeModeControllerSupportsBothChannelsSwitchedToISACompatibilityMode
        } else if id == 0x80 {
            MassStorageControllerIDEInterfaceProgIf::ISACompatibilityModeOnlyControllerSupportsBusMastering
        } else if id == 0x85 {
            MassStorageControllerIDEInterfaceProgIf::PCINativeModeOnlyControllerSupportsBusMastering
        } else if id == 0x8A {
            MassStorageControllerIDEInterfaceProgIf::ISACompatibilityModeControllerSupportsBothChannelsSwitchedToPCINativeModeSupportsBusMastering
        } else {
            MassStorageControllerIDEInterfaceProgIf::PCINativeModeControllerSupportsBothChannelsSwitchedToISACompatibilityModeSupportsBusMastering
        }
    }

    pub fn decode(id: u8) -> (r: Result<Self, CodecError>)
        ensures
            r == if Self::known(id) {
                Ok::<Self, CodecError>(Self::spec_decode(id))
            } else {
                Err::<Self, CodecError>(CodecError::UnknownDiscriminant)
            },
            r matches Ok(v) ==> v.spec_id() == id,
    {
        match id {
            0x00 => Ok(MassStorageControllerIDEInterfaceProgIf::ISACompatibilityModeOnlyController),
            0x05 => Ok(MassStorageControllerIDEInterfaceProgIf::PCINativeModeOnlyController),
            0x0A => Ok(MassStorageControllerIDEInterfaceProgIf::ISACompatibilityModeControllerSupportsBothChannelsSwitchedToPCINativeMode),
            0x0F => Ok(MassStorageControllerIDEInterfaceProgIf::PCINativeModeControllerSupportsBothChannelsSwitchedToISACompatibilityMode),
            0x80 => Ok(MassStorageControllerIDEInterfaceProgIf::ISACompatibilityModeOnlyControllerSupportsBusMastering),
            0x85 => Ok(MassStorageControllerIDEInterfaceProgIf::PCINativeModeOnlyControllerSupportsBusMastering),
            0x8A => Ok(MassStorageControllerIDEInterfaceProgIf::ISACompatibilityModeControllerSupportsBothChannelsSwitchedToPCINativeModeSupportsBusMastering),
            0x8F => Ok(MassStorageControllerIDEInterfaceProgIf::PCINativeModeControllerSupportsBothChannelsSwitchedToISACompatibilityModeSupportsBusMastering),
            _ => Err(CodecError::UnknownDiscriminant),
        }
    }

    /// The discriminant this variant encodes to.
    pub fn id(&self) -> (r: u8)
        ensures
            r == self.spec_id(),
    {
        match self {
            MassStorageControllerIDEInterfaceProgIf::ISACompatibilityModeOnlyController => 0x00,
            MassStorageControllerIDEInterfaceProgIf::PCINativeModeOnlyController => 0x05,
            MassStorageControllerIDEInterfaceProgIf::ISACompatibilityModeControllerSupportsBothChannelsSwitchedToPCINativeMode => 0x0A,
            MassStorageControllerIDEInterfaceProgIf::PCINativeModeControllerSupportsBothChannelsSwitchedToISACompatibilityMode => 0x0F,
            MassStorageControllerIDEInterfaceProgIf::ISACompatibilityModeOnlyControllerSupportsBusMastering => 0x80,
            MassStorageControllerIDEInterfaceProgIf::PCINativeModeOnlyControllerSupportsBusMastering => 0x85,
            MassStorageControllerIDEInterfaceProgIf::ISACompatibilityModeControllerSupportsBothChannelsSwitchedToPCINativeModeSupportsBusMastering => 0x8A,
            MassStorageControllerIDEInterfaceProgIf::PCINativeModeControllerSupportsBothChannelsSwitchedToISACompatibilityModeSupportsBusMastering => 0x8F,
        }
    }
}

#[derive(Debug, Clone, Copy, PartialEq, Eq, Structural)]
pub enum MassStorageControllerATAControllerProgIf {
    ADMASingleStepping,
    ADMAContinuousOperation,
}

impl MassStorageControllerATAControllerProgIf {
    /// The PROG-IF discriminant of each variant.
    pub open spec fn spec_id(self) -> u8 {
        match self {
            MassStorageControllerATAControllerProgIf::ADMASingleStepping => 0x20,
            MassStorageControllerATAControllerProgIf::ADMAContinuousOperation => 0x30,
        }
    }

    pub open spec fn known(id: u8) -> bool {
        id == 0x20 || id == 0x30
    }

    pub open spec fn spec_decode(id: u8) -> Self {
        if id == 0x20 {
            MassStorageControllerATAControllerProgIf::ADMASingleStepping
        } else {
            MassStorageControllerATAControllerProgIf::ADMAContinuousOperation
        }
    }

    pub fn decode(id: u8) -> (r: Result<Self, CodecError>)
        ensures
            r == if Self::known(id) {
                Ok::<Self, CodecError>(Self::spec_decode(id))
            } else {
                Err::<Self, CodecError>(CodecError::UnknownDiscriminant)
            },
            r matches Ok(v) ==> v.spec_id() == id,
    {
        match id {
            0x20 => Ok(MassStorageControllerATAControllerProgIf::ADMASingleStepping),
            0x30 => Ok(MassStorageControllerATAControllerProgIf::ADMAContinuousOperation),
            _ => Err(CodecError::UnknownDiscriminant),
        }
    }

    /// The discriminant this variant encodes to.
    pub fn id(&self) -> (r: u8)
        ensures
            r == self.spec_id(),
    {
        match self {
            MassStorageControllerATAControllerProgIf::ADMASingleStepping => 0x20,
            MassStorageControllerATAControllerProgIf::ADMAContinuousOperation => 0x30,
        }
    }
}

#[derive(Debug, Clone, Copy, PartialEq, Eq, Structural)]
pub enum MassStorageControllerSATAControllerProgIf {
    VendorSpecific,
    AHCI10,
    SerialStorageBus,
}

impl MassStorageControllerSATAControllerProgIf {
    /// The PROG-IF discriminant of each variant.
    pub open spec fn spec_id(self) -> u8 {
        match self {
            MassStorageControllerSATAControllerProgIf::VendorSpecific => 0x00,
            MassStorageControllerSATAControllerProgIf::AHCI10 => 0x01,
            MassStorageControllerSATAControllerProgIf::SerialStorageBus => 0x02,
        }
    }

    pub open spec fn known(id: u8) -> bool {
        id == 0x00 || id == 0x01 || id == 0x02
    }

    pub open spec fn spec_decode(id: u8) -> Self {
        if id == 0x00 {
            MassStorageControllerSATAControllerProgIf::VendorSpecific
        } else if id == 0x01 {
            MassStorageControllerSATAControllerProgIf::AHCI10
        } else {
            MassStorageControllerSATAControllerProgIf::SerialStorageBus
        }
    }

    pub fn decode(id: u8) -> (r: Result<Self, CodecError>)
        ensures
            r == if Self::known(id) {
                Ok::<Self, CodecError>(Self::spec_decode(id))
            } else {
                Err::<Self, CodecError>(CodecError::UnknownDiscriminant)
            },
            r matches Ok(v) ==> v.spec_id() == id,
    {
        match id {
            0x00 => Ok(MassStorageControllerSATAControllerProgIf::VendorSpecific),
            0x01 => Ok(MassStorageControllerSATAControllerProgIf::AHCI10),
            0x02 => Ok(MassStorageControllerSATAControllerProgIf::SerialStorageBus),
            _ => Err(CodecError::UnknownDiscriminant),
        }
    }

    /// The discriminant this variant encodes to.
    pub fn id(&self) -> (r: u8)
        ensures
            r == self.spec_id(),
    {
        match self {
            MassStorageControllerSATAControllerProgIf::VendorSpecific => 0x00,
            MassStorageControllerSATAControllerProgIf::AHCI10 => 0x01,
            MassStorageControllerSATAControllerProgIf::SerialStorageBus => 0x02,
        }
    }
}

#[derive(Debug, Clone, Copy, PartialEq, Eq, Structural)]
pub enum MassStorageControllerSerialAttachedSCSIControllerProgIf {
    SerialStorageBus,
}

impl MassStorageControllerSerialAttachedSCSIControllerProgIf {
    /// The PROG-IF discriminant of each variant.
    pub open spec fn spec_id(self) -> u8 {
        match self {
            MassStorageControllerSerialAttachedSCSIControllerProgIf::SerialStorageBus => 0x01,
        }
    }

    pub open spec fn known(id: u8) -> bool {
        id == 0x01
    }

    pub open spec fn spec_decode(id: u8) -> Self {
        {
            MassStorageControllerSerialAttachedSCSIControllerProgIf::SerialStorageBus
        }
    }

    pub fn decode(id: u8) -> (r: Result<Self, CodecError>)
        ensures
            r == if Self::known(id) {
                Ok::<Self, CodecError>(Self::spec_decode(id))
            } else {
                Err::<Self, CodecError>(CodecError::UnknownDiscriminant)
            },
            r matches Ok(v) ==> v.spec_id() == id,
    {
        match id {
            0x01 => Ok(MassStorageControllerSerialAttachedSCSIControllerProgIf::SerialStorageBus),
            _ => Err(CodecError::UnknownDiscriminant),
        }
    }

    /// The discriminant this variant encodes to.
    pub fn id(&self) -> (r: u8)
        ensures
            r == self.spec_id(),
    {
        match self {
            MassStorageControllerSerialAttachedSCSIControllerProgIf::SerialStorageBus => 0x01,
        }
    }
}

#[derive(Debug, Clone, Copy, PartialEq, Eq, Structural)]
pub enum MassStorageControllerNonVolatileMemoryControllerProgIf {
    NVMHCI,
    NVMExpress,
}

impl MassStorageControllerNonVolatileMemoryControllerProgIf {
    /// The PROG-IF discriminant of each variant.
    pub open spec fn spec_id(self) -> u8 {
        match self {
            MassStorageControllerNonVolatileMemoryControllerProgIf::NVMHCI => 0x01,
            MassStorageControllerNonVolatileMemoryControllerProgIf::NVMExpress => 0x02,
        }
    }

    pub open spec fn known(id: u8) -> bool {
        id == 0x01 || id == 0x02
    }

    pub open spec fn spec_decode(id: u8) -> Self {
        if id == 0x01 {
            MassStorageControllerNonVolatileMemoryControllerProgIf::NVMHCI
        } else {
            MassStorageControllerNonVolatileMemoryControllerProgIf::NVMExpress
        }
    }

    pub fn decode(id: u8) -> (r: Result<Self, CodecError>)
        ensures
            r == if Self::known(id) {
                Ok::<Self, CodecError>(Self::spec_decode(id))
            } else {
                Err::<Self, CodecError>(CodecError::UnknownDiscriminant)
            },
            r matches Ok(v) ==> v.spec_id() == id,
    {
        match id {
            0x01 => Ok(MassStorageControllerNonVolatileMemoryControllerProgIf::NVMHCI),
            0x02 => Ok(MassStorageControllerNonVolatileMemoryControllerProgIf::NVMExpress),
            _ => Err(CodecError::UnknownDiscriminant),
        }
    }

    /// The discriminant this variant encodes to.
    pub fn id(&self) -> (r: u8)
        ensures
            r == self.spec_id(),
    {
        match self {
            MassStorageControllerNonVolatileMemoryControllerProgIf::NVMHCI => 0x01,
            MassStorageControllerNonVolatileMemoryControllerProgIf::NVMExpress => 0x02,
        }
    }
}

#[derive(Debug, Clone, Copy, PartialEq, Eq, Structural)]
pub enum MassStorageControllerUniversalFlashStorageControllerProgIf {
    VendorSpecific,
    UFSHCI,
}

impl MassStorageControllerUniversalFlashStorageControllerProgIf {
    /// The PROG-IF discriminant of each variant.
    pub open spec fn spec_id(self) -> u8 {
        match self {
            MassStorageControllerUniversalFlashStorageControllerProgIf::VendorSpecific => 0x00,
            MassStorageControllerUniversalFlashStorageControllerProgIf::UFSHCI => 0x01,
        }
    }

    pub open spec fn known(id: u8) -> bool {
        id == 0x00 || id == 0x01
    }

    pub open spec fn spec_decode(id: u8) -> Self {
        if id == 0x00 {
            MassStorageControllerUniversalFlashStorageControllerProgIf::VendorSpecific
        } else {
            MassStorageControllerUniversalFlashStorageControllerProgIf::UFSHCI
        }
    }

    pub fn decode(id: u8) -> (r: Result<Self, CodecError>)
        ensures
            r == if Self::known(id) {
                Ok::<Self, CodecError>(Self::spec_decode(id))
            } else {
                Err::<Self, CodecError>(CodecError::UnknownDiscriminant)
            },
            r matches Ok(v) ==> v.spec_id() == id,
    {
        match id {
            0x00 => Ok(MassStorageControllerUniversalFlashStorageControllerProgIf::VendorSpecific),
            0x01 => Ok(MassStorageControllerUniversalFlashStorageControllerProgIf::UFSHCI),
            _ => Err(CodecError::UnknownDiscriminant),
        }
    }

    /// The discriminant this variant encodes to.
    pub fn id(&self) -> (r: u8)
        ensures
            r == self.spec_id(),
    {
        match self {
            MassStorageControllerUniversalFlashStorageControllerProgIf::VendorSpecific => 0x00,
            MassStorageControllerUniversalFlashStorageControllerProgIf::UFSHCI => 0x01,
        }
    }
}

#[derive(Debug, Clone, Copy, PartialEq, Eq, Structural)]
pub enum DisplayControllerVGACompatibleControllerProgIf {
    VGAController,
    _8514Controller,
}

impl DisplayControllerVGACompatibleControllerProgIf {
    /// The PROG-IF discriminant of each variant.
    pub open spec fn spec_id(self) -> u8 {
        match self {
            DisplayControllerVGACompatibleControllerProgIf::VGAController => 0x00,
            DisplayControllerVGACompatibleControllerProgIf::_8514Controller => 0x01,
        }
    }

    pub open spec fn known(id: u8) -> bool {
        id == 0x00 || id == 0x01
    }

    pub open spec fn spec_decode(id: u8) -> Self {
        if id == 0x00 {
            DisplayControllerVGACompatibleControllerProgIf::VGAController
        } else {
            DisplayControllerVGACompatibleControllerProgIf::_8514Controller
        }
    }

    pub fn decode(id: u8) -> (r: Result<Self, CodecError>)
        ensures
            r == if Self::known(id) {
                Ok::<Self, CodecError>(Self::spec_decode(id))
            } else {
                Err::<Self, CodecError>(CodecError::UnknownDiscriminant)
            },
            r matches Ok(v) ==> v.spec_id() == id,
    {
        match id {
            0x00 => Ok(DisplayControllerVGACompatibleControllerProgIf::VGAController),
            0x01 => Ok(DisplayControllerVGACompatibleControllerProgIf::_8514Controller),
            _ => Err(CodecError::UnknownDiscriminant),
        }
    }

    /// The discriminant this variant encodes to.
    pub fn id(&self) -> (r: u8)
        ensures
            r == self.spec_id(),
    {
        match self {
            DisplayControllerVGACompatibleControllerProgIf::VGAController => 0x00,
            DisplayControllerVGACompatibleControllerProgIf::_8514Controller => 0x01,
        }
    }
}

#[derive(Debug, Clone, Copy, PartialEq, Eq, Structural)]
pub enum MemoryControllerCXLProgIf {
    CXLMemoryDeviceVendorSpecific,
    CXLMemoryDeviceCXL2X,
}

impl MemoryControllerCXLProgIf {
    /// The PROG-IF discriminant of each variant.
    pub open spec fn spec_id(self) -> u8 {
        match self {
            MemoryControllerCXLProgIf::CXLMemoryDeviceVendorSpecific => 0x00,
            MemoryControllerCXLProgIf::CXLMemoryDeviceCXL2X => 0x10,
        }
    }

    pub open spec fn known(id: u8) -> bool {
        id == 0x00 || id == 0x10
    }

    pub open spec fn spec_decode(id: u8) -> Self {
        if id == 0x00 {
            MemoryControllerCXLProgIf::CXLMemoryDeviceVendorSpecific
        } else {
            MemoryControllerCXLProgIf::CXLMemoryDeviceCXL2X
        }
    }

    pub fn decode(id: u8) -> (r: Result<Self, CodecError>)
        ensures
            r == if Self::known(id) {
                Ok::<Self, CodecError>(Self::spec_decode(id))
            } else {
                Err::<Self, CodecError>(CodecError::UnknownDiscriminant)
            },
            r matches Ok(v) ==> v.spec_id() == id,
    {
        match id {
            0x00 => Ok(MemoryControllerCXLProgIf::CXLMemoryDeviceVendorSpecific),
            0x10 => Ok(MemoryControllerCXLProgIf::CXLMemoryDeviceCXL2X),
            _ => Err(CodecError::UnknownDiscriminant),
        }
    }

    /// The discriminant this variant encodes to.
    pub fn id(&self) -> (r: u8)
        ensures
            r == self.spec_id(),
    {
        match self {
            MemoryControllerCXLProgIf::CXLMemoryDeviceVendorSpecific => 0x00,
            MemoryControllerCXLProgIf::CXLMemoryDeviceCXL2X => 0x10,
        }
    }
}

#[derive(Debug, Clone, Copy, PartialEq, Eq, Structural)]
pub enum BridgePCIBridgeProgIf {
    NormalDecode,
    SubtractiveDecode,
}

impl BridgePCIBridgeProgIf {
    /// The PROG-IF discriminant of each variant.
    pub open spec fn spec_id(self) -> u8 {
        match self {
            BridgePCIBridgeProgIf::NormalDecode => 0x00,
            BridgePCIBridgeProgIf::SubtractiveDecode => 0x01,
        }
    }

    pub open spec fn known(id: u8) -> bool {
        id == 0x00 || id == 0x01
    }

    pub open spec fn spec_decode(id: u8) -> Self {
        if id == 0x00 {
            BridgePCIBridgeProgIf::NormalDecode
        } else {
            BridgePCIBridgeProgIf::SubtractiveDecode
        }
    }

    pub fn decode(id: u8) -> (r: Result<Self, CodecError>)
        ensures
            r == if Self::known(id) {
                Ok::<Self, CodecError>(Self::spec_decode(id))
            } else {
                Err::<Self, CodecError>(CodecError::UnknownDiscriminant)
            },
            r matches Ok(v) ==> v.spec_id() == id,
    {
        match id {
            0x00 => Ok(BridgePCIBridgeProgIf::NormalDecode),
            0x01 => Ok(BridgePCIBridgeProgIf::SubtractiveDecode),
            _ => Err(CodecError::UnknownDiscriminant),
        }
    }

    /// The discriminant this variant encodes to.
    pub fn id(&self) -> (r: u8)
        ensures
            r == self.spec_id(),
    {
        match self {
            BridgePCIBridgeProgIf::NormalDecode => 0x00,
            BridgePCIBridgeProgIf::SubtractiveDecode => 0x01,
        }
    }
}

#[derive(Debug, Clone, Copy, PartialEq, Eq, Structural)]
pub enum BridgeRACEwayBridgeProgIf {
    TransparentMode,
    EndpointMode,
}

impl BridgeRACEwayBridgeProgIf {
    /// The PROG-IF discriminant of each variant.
    pub open spec fn spec_id(self) -> u8 {
        match self {
            BridgeRACEwayBridgeProgIf::TransparentMode => 0x00,
            BridgeRACEwayBridgeProgIf::EndpointMode => 0x01,
        }
    }

    pub open spec fn known(id: u8) -> bool {
        id == 0x00 || id == 0x01
    }

    pub open spec fn spec_decode(id: u8) -> Self {
        if id == 0x00 {
            BridgeRACEwayBridgeProgIf::TransparentMode
        } else {
            BridgeRACEwayBridgeProgIf::EndpointMode
        }
    }

    pub fn decode(id: u8) -> (r: Result<Self, CodecError>)
        ensures
            r == if Self::known(id) {
                Ok::<Self, CodecError>(Self::spec_decode(id))
            } else {
                Err::<Self, CodecError>(CodecError::UnknownDiscriminant)
            },
            r matches Ok(v) ==> v.spec_id() == id,
    {
        match id {
            0x00 => Ok(BridgeRACEwayBridgeProgIf::TransparentMode),
            0x01 => Ok(BridgeRACEwayBridgeProgIf::EndpointMode),
            _ => Err(CodecError::UnknownDiscriminant),
        }
    }

    /// The discriminant this variant encodes to.
    pub fn id(&self) -> (r: u8)
        ensures
            r == self.spec_id(),
    {
        match self {
            BridgeRACEwayBridgeProgIf::TransparentMode => 0x00,
            BridgeRACEwayBridgeProgIf::EndpointMode => 0x01,
        }
    }
}

#[derive(Debug, Clone, Copy, PartialEq, Eq, Structural)]
pub enum BridgeSemiTransparentPCIToPCIBridgeProgIf {
    PrimaryBusTowardsHostCPU,
    SecondaryBusTowardsHostCPU,
}

impl BridgeSemiTransparentPCIToPCIBridgeProgIf {
    /// The PROG-IF discriminant of each variant.
    pub open spec fn spec_id(self) -> u8 {
        match self {
            BridgeSemiTransparentPCIToPCIBridgeProgIf::PrimaryBusTowardsHostCPU => 0x40,
            BridgeSemiTransparentPCIToPCIBridgeProgIf::SecondaryBusTowardsHostCPU => 0x80,
        }
    }

    pub open spec fn known(id: u8) -> bool {
        id == 0x40 || id == 0x80
    }

    pub open spec fn spec_decode(id: u8) -> Self {
        if id == 0x40 {
            BridgeSemiTransparentPCIToPCIBridgeProgIf::PrimaryBusTowardsHostCPU
        } else {
            BridgeSemiTransparentPCIToPCIBridgeProgIf::SecondaryBusTowardsHostCPU
        }
    }

    pub fn decode(id: u8) -> (r: Result<Self, CodecError>)
        ensures
            r == if Self::known(id) {
                Ok::<Self, CodecError>(Self::spec_decode(id))
            } else {
                Err::<Self, CodecError>(CodecError::UnknownDiscriminant)
            },
            r matches Ok(v) ==> v.spec_id() == id,
    {
        match id {
            0x40 => Ok(BridgeSemiTransparentPCIToPCIBridgeProgIf::PrimaryBusTowardsHostCPU),
            0x80 => Ok(BridgeSemiTransparentPCIToPCIBridgeProgIf::SecondaryBusTowardsHostCPU),
            _ => Err(CodecError::UnknownDiscriminant),
        }
    }

    /// The discriminant this variant encodes to.
    pub fn id(&self) -> (r: u8)
        ensures
            r == self.spec_id(),
    {
        match self {
            BridgeSemiTransparentPCIToPCIBridgeProgIf::PrimaryBusTowardsHostCPU => 0x40,
            BridgeSemiTransparentPCIToPCIBridgeProgIf::SecondaryBusTowardsHostCPU => 0x80,
        }
    }
}

#[derive(Debug, Clone, Copy, PartialEq, Eq, Structural)]
pub enum CommunicationControllerSerialControllerProgIf {
    _8250,
    _16450,
    _16550,
    _16650,
    _16750,
    _16850,
    _16950,
}

impl CommunicationControllerSerialControllerProgIf {
    /// The PROG-IF discriminant of each variant.
    pub open spec fn spec_id(self) -> u8 {
        match self {
            CommunicationControllerSerialControllerProgIf::_8250 => 0x00,
            CommunicationControllerSerialControllerProgIf::_16450 => 0x01,
            CommunicationControllerSerialControllerProgIf::_16550 => 0x02,
            CommunicationControllerSerialControllerProgIf::_16650 => 0x03,
            CommunicationControllerSerialControllerProgIf::_16750 => 0x04,
            CommunicationControllerSerialControllerProgIf::_16850 => 0x05,
            CommunicationControllerSerialControllerProgIf::_16950 => 0x06,
        }
    }

    pub open spec fn known(id: u8) -> bool {
        id == 0x00 || id == 0x01 || id == 0x02 || id == 0x03 || id == 0x04 || id == 0x05 || id == 0x06
    }

    pub open spec fn spec_decode(id: u8) -> Self {
        if id == 0x00 {
            CommunicationControllerSerialControllerProgIf::_8250
        } else if id == 0x01 {
            CommunicationControllerSerialControllerProgIf::_16450
        } else if id == 0x02 {
            CommunicationControllerSerialControllerProgIf::_16550
        } else if id == 0x03 {
            CommunicationControllerSerialControllerProgIf::_16650
        } else if id == 0x04 {
            CommunicationControllerSerialControllerProgIf::_16750
        } else if id == 0x05 {
            CommunicationControllerSerialControllerProgIf::_16850
        } else {
            CommunicationControllerSerialControllerProgIf::_16950
        }
    }

    pub fn decode(id: u8) -> (r: Result<Self, CodecError>)
        ensures
            r == if Self::known(id) {
                Ok::<Self, CodecError>(Self::spec_decode(id))
            } else {
                Err::<Self, CodecError>(CodecError::UnknownDiscriminant)
            },
            r matches Ok(v) ==> v.spec_id() == id,
    {
        match id {
            0x00 => Ok(CommunicationControllerSerialControllerProgIf::_8250),
            0x01 => Ok(CommunicationControllerSerialControllerProgIf::_16450),
            0x02 => Ok(CommunicationControllerSerialControllerProgIf::_16550),
            0x03 => Ok(CommunicationControllerSerialControllerProgIf::_16650),
            0x04 => Ok(CommunicationControllerSerialControllerProgIf::_16750),
            0x05 => Ok(CommunicationControllerSerialControllerProgIf::_16850),
            0x06 => Ok(CommunicationControllerSerialControllerProgIf::_16950),
            _ => Err(CodecError::UnknownDiscriminant),
        }
    }

    /// The discriminant this variant encodes to.
    pub fn id(&self) -> (r: u8)
        ensures
            r == self.spec_id(),
    {
        match self {
            CommunicationControllerSerialControllerProgIf::_8250 => 0x00,
            CommunicationControllerSerialControllerProgIf::_16450 => 0x01,
            CommunicationControllerSerialControllerProgIf::_16550 => 0x02,
            CommunicationControllerSerialControllerProgIf::_16650 => 0x03,
            CommunicationControllerSerialControllerProgIf::_16750 => 0x04,
            CommunicationControllerSerialControllerProgIf::_16850 => 0x05,
            CommunicationControllerSerialControllerProgIf::_16950 => 0x06,
        }
    }
}

#[derive(Debug, Clone, Copy, PartialEq, Eq, Structural)]
pub enum CommunicationControllerParallelControllerProgIf {
    SPP,
    BiDir,
    ECP,
    IEEE1284,
    IEEE1284Target,
}

impl CommunicationControllerParallelControllerProgIf {
    /// The PROG-IF discriminant of each variant.
    pub open spec fn spec_id(self) -> u8 {
        match self {
            CommunicationControllerParallelControllerProgIf::SPP => 0x00,
            CommunicationControllerParallelControllerProgIf::BiDir => 0x01,
            CommunicationControllerParallelControllerProgIf::ECP => 0x02,
            CommunicationControllerParallelControllerProgIf::IEEE1284 => 0x03,
            CommunicationControllerParallelControllerProgIf::IEEE1284Target => 0xFE,
        }
    }

    pub open spec fn known(id: u8) -> bool {
        id == 0x00 || id == 0x01 || id == 0x02 || id == 0x03 || id == 0xFE
    }

    pub open spec fn spec_decode(id: u8) -> Self {
        if id == 0x00 {
            CommunicationControllerParallelControllerProgIf::SPP
        } else if id == 0x01 {
            CommunicationControllerParallelControllerProgIf::BiDir
        } else if id == 0x02 {
            CommunicationControllerParallelControllerProgIf::ECP
        } else if id == 0x03 {
            CommunicationControllerParallelControllerProgIf::IEEE1284
        } else {
            CommunicationControllerParallelControllerProgIf::IEEE1284Target
        }
    }

    pub fn decode(id: u8) -> (r: Result<Self, CodecError>)
        ensures
            r == if Self::known(id) {
                Ok::<Self, CodecError>(Self::spec_decode(id))
            } else {
                Err::<Self, CodecError>(CodecError::UnknownDiscriminant)
            },
            r matches Ok(v) ==> v.spec_id() == id,
    {
        match id {
            0x00 => Ok(CommunicationControllerParallelControllerProgIf::SPP),
            0x01 => Ok(CommunicationControllerParallelControllerProgIf::BiDir),
            0x02 => Ok(CommunicationControllerParallelControllerProgIf::ECP),
            0x03 => Ok(CommunicationControllerParallelControllerProgIf::IEEE1284),
            0xFE => Ok(CommunicationControllerParallelControllerProgIf::IEEE1284Target),
            _ => Err(CodecError::UnknownDiscriminant),
        }
    }

    /// The discriminant this variant encodes to.
    pub fn id(&self) -> (r: u8)
        ensures
            r == self.spec_id(),
    {
        match self {
            CommunicationControllerParallelControllerProgIf::SPP => 0x00,
            CommunicationControllerParallelControllerProgIf::BiDir => 0x01,
            CommunicationControllerParallelControllerProgIf::ECP => 0x02,
            CommunicationControllerParallelControllerProgIf::IEEE1284 => 0x03,
            CommunicationControllerParallelControllerProgIf::IEEE1284Target => 0xFE,
        }
    }
}

#[derive(Debug, Clone, Copy, PartialEq, Eq, Structural)]
pub enum CommunicationControllerModemProgIf {
    Generic,
    Hayes16450,
    Hayes16550,
    Hayes16650,
    Hayes16750,
}

impl CommunicationControllerModemProgIf {
    /// The PROG-IF discriminant of each variant.
    pub open spec fn spec_id(self) -> u8 {
        match self {
            CommunicationControllerModemProgIf::Generic => 0x00,
            CommunicationControllerModemProgIf::Hayes16450 => 0x01,
            CommunicationControllerModemProgIf::Hayes16550 => 0x02,
            CommunicationControllerModemProgIf::Hayes16650 => 0x03,
            CommunicationControllerModemProgIf::Hayes16750 => 0x04,
        }
    }

    pub open spec fn known(id: u8) -> bool {
        id == 0x00 || id == 0x01 || id == 0x02 || id == 0x03 || id == 0x04
    }

    pub open spec fn spec_decode(id: u8) -> Self {
        if id == 0x00 {
            CommunicationControllerModemProgIf::Generic
        } else if id == 0x01 {
            CommunicationControllerModemProgIf::Hayes16450
        } else if id == 0x02 {
            CommunicationControllerModemProgIf::Hayes16550
        } else if id == 0x03 {
            CommunicationControllerModemProgIf::Hayes16650
        } else {
            CommunicationControllerModemProgIf::Hayes16750
        }
    }

    pub fn decode(id: u8) -> (r: Result<Self, CodecError>)
        ensures
            r == if Self::known(id) {
                Ok::<Self, CodecError>(Self::spec_decode(id))
            } else {
                Err::<Self, CodecError>(CodecError::UnknownDiscriminant)
            },
            r matches Ok(v) ==> v.spec_id() == id,
    {
        match id {
            0x00 => Ok(CommunicationControllerModemProgIf::Generic),
            0x01 => Ok(CommunicationControllerModemProgIf::Hayes16450),
            0x02 => Ok(CommunicationControllerModemProgIf::Hayes16550),
            0x03 => Ok(CommunicationControllerModemProgIf::Hayes16650),
            0x04 => Ok(CommunicationControllerModemProgIf::Hayes16750),
            _ => Err(CodecError::UnknownDiscriminant),
        }
    }

    /// The discriminant this variant encodes to.
    pub fn id(&self) -> (r: u8)
        ensures
            r == self.spec_id(),
    {
        match self {
            CommunicationControllerModemProgIf::Generic => 0x00,
            CommunicationControllerModemProgIf::Hayes16450 => 0x01,
            CommunicationControllerModemProgIf::Hayes16550 => 0x02,
            CommunicationControllerModemProgIf::Hayes16650 => 0x03,
            CommunicationControllerModemProgIf::Hayes16750 => 0x04,
        }
    }
}

#[derive(Debug, Clone, Copy, PartialEq, Eq, Structural)]
pub enum GenericSystemPeripheralPICProgIf {
    _8259,
    ISAPIC,
    EISAPIC,
    IOAPIC,
    IOXAPIC,
}

impl GenericSystemPeripheralPICProgIf {
    /// The PROG-IF discriminant of each variant.
    pub open spec fn spec_id(self) -> u8 {
        match self {
            GenericSystemPeripheralPICProgIf::_8259 => 0x00,
            GenericSystemPeripheralPICProgIf::ISAPIC => 0x01,
            GenericSystemPeripheralPICProgIf::EISAPIC => 0x02,
            GenericSystemPeripheralPICProgIf::IOAPIC => 0x10,
            GenericSystemPeripheralPICProgIf::IOXAPIC => 0x20,
        }
    }

    pub open spec fn known(id: u8) -> bool {
        id == 0x00 || id == 0x01 || id == 0x02 || id == 0x10 || id == 0x20
    }

    pub open spec fn spec_decode(id: u8) -> Self {
        if id == 0x00 {
            GenericSystemPeripheralPICProgIf::_8259
        } else if id == 0x01 {
            GenericSystemPeripheralPICProgIf::ISAPIC
        } else if id == 0x02 {
            GenericSystemPeripheralPICProgIf::EISAPIC
        } else if id == 0x10 {
            GenericSystemPeripheralPICProgIf::IOAPIC
        } else {
            GenericSystemPeripheralPICProgIf::IOXAPIC
        }
    }

    pub fn decode(id: u8) -> (r: Result<Self, CodecError>)
        ensures
            r == if Self::known(id) {
                Ok::<Self, CodecError>(Self::spec_decode(id))
            } else {
                Err::<Self, CodecError>(CodecError::UnknownDiscriminant)
            },
            r matches Ok(v) ==> v.spec_id() == id,
    {
        match id {
            0x00 => Ok(GenericSystemPeripheralPICProgIf::_8259),
            0x01 => Ok(GenericSystemPeripheralPICProgIf::ISAPIC),
            0x02 => Ok(GenericSystemPeripheralPICProgIf::EISAPIC),
            0x10 => Ok(GenericSystemPeripheralPICProgIf::IOAPIC),
            0x20 => Ok(GenericSystemPeripheralPICProgIf::IOXAPIC),
            _ => Err(CodecError::UnknownDiscriminant),
        }
    }

    /// The discriminant this variant encodes to.
    pub fn id(&self) -> (r: u8)
        ensures
            r == self.spec_id(),
    {
        match self {
            GenericSystemPeripheralPICProgIf::_8259 => 0x00,
            GenericSystemPeripheralPICProgIf::ISAPIC => 0x01,
            GenericSystemPeripheralPICProgIf::EISAPIC => 0x02,
            GenericSystemPeripheralPICProgIf::IOAPIC => 0x10,
            GenericSystemPeripheralPICProgIf::IOXAPIC => 0x20,
        }
    }
}

#[derive(Debug, Clone, Copy, PartialEq, Eq, Structural)]
pub enum GenericSystemPeripheralDMAControllerProgIf {
    _8237,
    ISADMA,
    EISADMA,
}

impl GenericSystemPeripheralDMAControllerProgIf {
    /// The PROG-IF discriminant of each variant.
    pub open spec fn spec_id(self) -> u8 {
        match self {
            GenericSystemPeripheralDMAControllerProgIf::_8237 => 0x00,
            GenericSystemPeripheralDMAControllerProgIf::ISADMA => 0x01,
            GenericSystemPeripheralDMAControllerProgIf::EISADMA => 0x02,
        }
    }

    pub open spec fn known(id: u8) -> bool {
        id == 0x00 || id == 0x01 || id == 0x02
    }

    pub open spec fn spec_decode(id: u8) -> Self {
        if id == 0x00 {
            GenericSystemPeripheralDMAControllerProgIf::_8237
        } else if id == 0x01 {
            GenericSystemPeripheralDMAControllerProgIf::ISADMA
        } else {
            GenericSystemPeripheralDMAControllerProgIf::EISADMA
        }
    }

    pub fn decode(id: u8) -> (r: Result<Self, CodecError>)
        ensures
            r == if Self::known(id) {
                Ok::<Self, CodecError>(Self::spec_decode(id))
            } else {
                Err::<Self, CodecError>(CodecError::UnknownDiscriminant)
            },
            r matches Ok(v) ==> v.spec_id() == id,
    {
        match id {
            0x00 => Ok(GenericSystemPeripheralDMAControllerProgIf::_8237),
            0x01 => Ok(GenericSystemPeripheralDMAControllerProgIf::ISADMA),
            0x02 => Ok(GenericSystemPeripheralDMAControllerProgIf::EISADMA),
            _ => Err(CodecError::UnknownDiscriminant),
        }
    }

    /// The discriminant this variant encodes to.
    pub fn id(&self) -> (r: u8)
        ensures
            r == self.spec_id(),
    {
        match self {
            GenericSystemPeripheralDMAControllerProgIf::_8237 => 0x00,
            GenericSystemPeripheralDMAControllerProgIf::ISADMA => 0x01,
            GenericSystemPeripheralDMAControllerProgIf::EISADMA => 0x02,
        }
    }
}

#[derive(Debug, Clone, Copy, PartialEq, Eq, Structural)]
pub enum GenericSystemPeripheralTimerProgIf {
    _8254,
    ISATimer,
    EISATimers,
    HPET,
}

impl GenericSystemPeripheralTimerProgIf {
    /// The PROG-IF discriminant of each variant.
    pub open spec fn spec_id(self) -> u8 {
        match self {
            GenericSystemPeripheralTimerProgIf::_8254 => 0x00,
            GenericSystemPeripheralTimerProgIf::ISATimer => 0x01,
            GenericSystemPeripheralTimerProgIf::EISATimers => 0x02,
            GenericSystemPeripheralTimerProgIf::HPET => 0x03,
        }
    }

    pub open spec fn known(id: u8) -> bool {
        id == 0x00 || id == 0x01 || id == 0x02 || id == 0x03
    }

    pub open spec fn spec_decode(id: u8) -> Self {
        if id == 0x00 {
            GenericSystemPeripheralTimerProgIf::_8254
        } else if id == 0x01 {
            GenericSystemPeripheralTimerProgIf::ISATimer
        } else if id == 0x02 {
            GenericSystemPeripheralTimerProgIf::EISATimers
        } else {
            GenericSystemPeripheralTimerProgIf::HPET
        }
    }

    pub fn decode(id: u8) -> (r: Result<Self, CodecError>)
        ensures
            r == if Self::known(id) {
                Ok::<Self, CodecError>(Self::spec_decode(id))
            } else {
                Err::<Self, CodecError>(CodecError::UnknownDiscriminant)
            },
            r matches Ok(v) ==> v.spec_id() == id,
    {
        match id {
            0x00 => Ok(GenericSystemPeripheralTimerProgIf::_8254),
            0x01 => Ok(GenericSystemPeripheralTimerProgIf::ISATimer),
            0x02 => Ok(GenericSystemPeripheralTimerProgIf::EISATimers),
            0x03 => Ok(GenericSystemPeripheralTimerProgIf::HPET),
            _ => Err(CodecError::UnknownDiscriminant),
        }
    }

    /// The discriminant this variant encodes to.
    pub fn id(&self) -> (r: u8)
        ensures
            r == self.spec_id(),
    {
        match self {
            GenericSystemPeripheralTimerProgIf::_8254 => 0x00,
            GenericSystemPeripheralTimerProgIf::ISATimer => 0x01,
            GenericSystemPeripheralTimerProgIf::EISATimers => 0x02,
            GenericSystemPeripheralTimerProgIf::HPET => 0x03,
        }
    }
}

#[derive(Debug, Clone, Copy, PartialEq, Eq, Structural)]
pub enum GenericSystemPeripheralRTCProgIf {
    Generic,
    ISARTC,
}

impl GenericSystemPeripheralRTCProgIf {
    /// The PROG-IF discriminant of each variant.
    pub open spec fn spec_id(self) -> u8 {
        match self {
            GenericSystemPeripheralRTCProgIf::Generic => 0x00,
            GenericSystemPeripheralRTCProgIf::ISARTC => 0x01,
        }
    }

    pub open spec fn known(id: u8) -> bool {
        id == 0x00 || id == 0x01
    }

    pub open spec fn spec_decode(id: u8) -> Self {
        if id == 0x00 {
            GenericSystemPeripheralRTCProgIf::Generic
        } else {
            GenericSystemPeripheralRTCProgIf::ISARTC
        }
    }

    pub fn decode(id: u8) -> (r: Result<Self, CodecError>)
        ensures
            r == if Self::known(id) {
                Ok::<Self, CodecError>(Self::spec_decode(id))
            } else {
                Err::<Self, CodecError>(CodecError::UnknownDiscriminant)
            },
            r matches Ok(v) ==> v.spec_id() == id,
    {
        match id {
            0x00 => Ok(GenericSystemPeripheralRTCProgIf::Generic),
            0x01 => Ok(GenericSystemPeripheralRTCProgIf::ISARTC),
            _ => Err(CodecError::UnknownDiscriminant),
        }
    }

    /// The discriminant this variant encodes to.
    pub fn id(&self) -> (r: u8)
        ensures
            r == self.spec_id(),
    {
        match self {
            GenericSystemPeripheralRTCProgIf::Generic => 0x00,
            GenericSystemPeripheralRTCProgIf::ISARTC => 0x01,
        }
    }
}

#[derive(Debug, Clone, Copy, PartialEq, Eq, Structural)]
pub enum GenericSystemPeripheralTimingCardProgIf {
    TAPTimingCard,
}

impl GenericSystemPeripheralTimingCardProgIf {
    /// The PROG-IF discriminant of each variant.
    pub open spec fn spec_id(self) -> u8 {
        match self {
            GenericSystemPeripheralTimingCardProgIf::TAPTimingCard => 0x01,
        }
    }

    pub open spec fn known(id: u8) -> bool {
        id == 0x01
    }

    pub open spec fn spec_decode(id: u8) -> Self {
        {
            GenericSystemPeripheralTimingCardProgIf::TAPTimingCard
        }
    }

    pub fn decode(id: u8) -> (r: Result<Self, CodecError>)
        ensures
            r == if Self::known(id) {
                Ok::<Self, CodecError>(Self::spec_decode(id))
            } else {
                Err::<Self, CodecError>(CodecError::UnknownDiscriminant)
            },
            r matches Ok(v) ==> v.spec_id() == id,
    {
        match id {
            0x01 => Ok(GenericSystemPeripheralTimingCardProgIf::TAPTimingCard),
            _ => Err(CodecError::UnknownDiscriminant),
        }
    }

    /// The discriminant this variant encodes to.
    pub fn id(&self) -> (r: u8)
        ensures
            r == self.spec_id(),
    {
        match self {
            GenericSystemPeripheralTimingCardProgIf::TAPTimingCard => 0x01,
        }
    }
}

#[derive(Debug, Clone, Copy, PartialEq, Eq, Structural)]
pub enum InputDeviceControllerGameportControllerProgIf {
    Generic,
    Extended,
}

impl InputDeviceControllerGameportControllerProgIf {
    /// The PROG-IF discriminant of each variant.
    pub open spec fn spec_id(self) -> u8 {
        match self {
            InputDeviceControllerGameportControllerProgIf::Generic => 0x00,
            InputDeviceControllerGameportControllerProgIf::Extended => 0x10,
        }
    }

    pub open spec fn known(id: u8) -> bool {
        id == 0x00 || id == 0x10
    }

    pub open spec fn spec_decode(id: u8) -> Self {
        if id == 0x00 {
            InputDeviceControllerGameportControllerProgIf::Generic
        } else {
            InputDeviceControllerGameportControllerProgIf::Extended
        }
    }

    pub fn decode(id: u8) -> (r: Result<Self, CodecError>)
        ensures
            r == if Self::known(id) {
                Ok::<Self, CodecError>(Self::spec_decode(id))
            } else {
                Err::<Self, CodecError>(CodecError::UnknownDiscriminant)
            },
            r matches Ok(v) ==> v.spec_id() == id,
    {
        match id {
            0x00 => Ok(InputDeviceControllerGameportControllerProgIf::Generic),
            0x10 => Ok(InputDeviceControllerGameportControllerProgIf::Extended),
            _ => Err(CodecError::UnknownDiscriminant),
        }
    }

    /// The discriminant this variant encodes to.
    pub fn id(&self) -> (r: u8)
        ensures
            r == self.spec_id(),
    {
        match self {
            InputDeviceControllerGameportControllerProgIf::Generic => 0x00,
            InputDeviceControllerGameportControllerProgIf::Extended => 0x10,
        }
    }
}

#[derive(Debug, Clone, Copy, PartialEq, Eq, Structural)]
pub enum SerialBusControllerFireWireIEEE1394ProgIf {
    Generic,
    OHCI,
}

impl SerialBusControllerFireWireIEEE1394ProgIf {
    /// The PROG-IF discriminant of each variant.
    pub open spec fn spec_id(self) -> u8 {
        match self {
            SerialBusControllerFireWireIEEE1394ProgIf::Generic => 0x00,
            SerialBusControllerFireWireIEEE1394ProgIf::OHCI => 0x10,
        }
    }

    pub open spec fn known(id: u8) -> bool {
        id == 0x00 || id == 0x10
    }

    pub open spec fn spec_decode(id: u8) -> Self {
        if id == 0x00 {
            SerialBusControllerFireWireIEEE1394ProgIf::Generic
        } else {
            SerialBusControllerFireWireIEEE1394ProgIf::OHCI
        }
    }

    pub fn decode(id: u8) -> (r: Result<Self, CodecError>)
        ensures
            r == if Self::known(id) {
                Ok::<Self, CodecError>(Self::spec_decode(id))
            } else {
                Err::<Self, CodecError>(CodecError::UnknownDiscriminant)
            },
            r matches Ok(v) ==> v.spec_id() == id,
    {
        match id {
            0x00 => Ok(SerialBusControllerFireWireIEEE1394ProgIf::Generic),
            0x10 => Ok(SerialBusControllerFireWireIEEE1394ProgIf::OHCI),
            _ => Err(CodecError::UnknownDiscriminant),
        }
    }

    /// The discriminant this variant encodes to.
    pub fn id(&self) -> (r: u8)
        ensures
            r == self.spec_id(),
    {
        match self {
            SerialBusControllerFireWireIEEE1394ProgIf::Generic => 0x00,
            SerialBusControllerFireWireIEEE1394ProgIf::OHCI => 0x10,
        }
    }
}

#[derive(Debug, Clone, Copy, PartialEq, Eq, Structural)]
pub enum SerialBusControllerUSBControllerProgIf {
    UHCI,
    OHCI,
    EHCI,
    XHCI,
    USB4HostInterface,
    Unspecified,
    USBDevice,
}

impl SerialBusControllerUSBControllerProgIf {
    /// The PROG-IF discriminant of each variant.
    pub open spec fn spec_id(self) -> u8 {
        match self {
            SerialBusControllerUSBControllerProgIf::UHCI => 0x00,
            SerialBusControllerUSBControllerProgIf::OHCI => 0x10,
            SerialBusControllerUSBControllerProgIf::EHCI => 0x20,
            SerialBusControllerUSBControllerProgIf::XHCI => 0x30,
            SerialBusControllerUSBControllerProgIf::USB4HostInterface => 0x40,
            SerialBusControllerUSBControllerProgIf::Unspecified => 0x80,
            SerialBusControllerUSBControllerProgIf::USBDevice => 0xFE,
        }
    }

    pub open spec fn known(id: u8) -> bool {
        id == 0x00 || id == 0x10 || id == 0x20 || id == 0x30 || id == 0x40 || id == 0x80 || id == 0xFE
    }

    pub open spec fn spec_decode(id: u8) -> Self {
        if id == 0x00 {
            SerialBusControllerUSBControllerProgIf::UHCI
        } else if id == 0x10 {
            SerialBusControllerUSBControllerProgIf::OHCI
        } else if id == 0x20 {
            SerialBusControllerUSBControllerProgIf::EHCI
        } else if id == 0x30 {
            SerialBusControllerUSBControllerProgIf::XHCI
        } else if id == 0x40 {
            SerialBusControllerUSBControllerProgIf::USB4HostInterface
        } else if id == 0x80 {
            SerialBusControllerUSBControllerProgIf::Unspecified
        } else {
            SerialBusControllerUSBControllerProgIf::USBDevice
        }
    }

    pub fn decode(id: u8) -> (r: Result<Self, CodecError>)
        ensures
            r == if Self::known(id) {
                Ok::<Self, CodecError>(Self::spec_decode(id))
            } else {
                Err::<Self, CodecError>(CodecError::UnknownDiscriminant)
            },
            r matches Ok(v) ==> v.spec_id() == id,
    {
        match id {
            0x00 => Ok(SerialBusControllerUSBControllerProgIf::UHCI),
            0x10 => Ok(SerialBusControllerUSBControllerProgIf::OHCI),
            0x20 => Ok(SerialBusControllerUSBControllerProgIf::EHCI),
            0x30 => Ok(SerialBusControllerUSBControllerProgIf::XHCI),
            0x40 => Ok(SerialBusControllerUSBControllerProgIf::USB4HostInterface),
            0x80 => Ok(SerialBusControllerUSBControllerProgIf::Unspecified),
            0xFE => Ok(SerialBusControllerUSBControllerProgIf::USBDevice),
            _ => Err(CodecError::UnknownDiscriminant),
        }
    }

    /// The discriminant this variant encodes to.
    pub fn id(&self) -> (r: u8)
        ensures
            r == self.spec_id(),
    {
        match self {
            SerialBusControllerUSBControllerProgIf::UHCI => 0x00,
            SerialBusControllerUSBControllerProgIf::OHCI => 0x10,
            SerialBusControllerUSBControllerProgIf::EHCI => 0x20,
            SerialBusControllerUSBControllerProgIf::XHCI => 0x30,
            SerialBusControllerUSBControllerProgIf::USB4HostInterface => 0x40,
            SerialBusControllerUSBControllerProgIf::Unspecified => 0x80,
            SerialBusControllerUSBControllerProgIf::USBDevice => 0xFE,
        }
    }
}

#[derive(Debug, Clone, Copy, PartialEq, Eq, Structural)]
pub enum SerialBusControllerIPMIInterfaceProgIf {
    SMIC,
    KCS,
    BTBlockTransfer,
}

impl SerialBusControllerIPMIInterfaceProgIf {
    /// The PROG-IF discriminant of each variant.
    pub open spec fn spec_id(self) -> u8 {
        match self {
            SerialBusControllerIPMIInterfaceProgIf::SMIC => 0x00,
            SerialBusControllerIPMIInterfaceProgIf::KCS => 0x01,
            SerialBusControllerIPMIInterfaceProgIf::BTBlockTransfer => 0x02,
        }
    }

    pub open spec fn known(id: u8) -> bool {
        id == 0x00 || id == 0x01 || id == 0x02
    }

    pub open spec fn spec_decode(id: u8) -> Self {
        if id == 0x00 {
            SerialBusControllerIPMIInterfaceProgIf::SMIC
        } else if id == 0x01 {
            SerialBusControllerIPMIInterfaceProgIf::KCS
        } else {
            SerialBusControllerIPMIInterfaceProgIf::BTBlockTransfer
        }
    }

    pub fn decode(id: u8) -> (r: Result<Self, CodecError>)
        ensures
            r == if Self::known(id) {
                Ok::<Self, CodecError>(Self::spec_decode(id))
            } else {
                Err::<Self, CodecError>(CodecError::UnknownDiscriminant)
            },
            r matches Ok(v) ==> v.spec_id() == id,
    {
        match id {
            0x00 => Ok(SerialBusControllerIPMIInterfaceProgIf::SMIC),
            0x01 => Ok(SerialBusControllerIPMIInterfaceProgIf::KCS),
            0x02 => Ok(SerialBusControllerIPMIInterfaceProgIf::BTBlockTransfer),
            _ => Err(CodecError::UnknownDiscriminant),
        }
    }

    /// The discriminant this variant encodes to.
    pub fn id(&self) -> (r: u8)
        ensures
            r == self.spec_id(),
    {
        match self {
            SerialBusControllerIPMIInterfaceProgIf::SMIC => 0x00,
            SerialBusControllerIPMIInterfaceProgIf::KCS => 0x01,
            SerialBusControllerIPMIInterfaceProgIf::BTBlockTransfer => 0x02,
        }
    }
}

#[derive(Debug, Clone, Copy, PartialEq, Eq, Structural)]
pub enum UnclassifiedDeviceSubtype {
    NonVGAUnclassifiedDevice,
    VGACompatibleUnclassifiedDevice,
    ImageCoprocessor,
}

impl UnclassifiedDeviceSubtype {
    /// The subclass discriminant of each variant.
    pub open spec fn spec_id(self) -> u8 {
        match self {
            UnclassifiedDeviceSubtype::NonVGAUnclassifiedDevice => 0x00,
            UnclassifiedDeviceSubtype::VGACompatibleUnclassifiedDevice => 0x01,
            UnclassifiedDeviceSubtype::ImageCoprocessor => 0x05,
        }
    }

    pub open spec fn known(id: u8) -> bool {
        id == 0x00 || id == 0x01 || id == 0x05
    }

    pub open spec fn spec_decode(id: u8) -> Self {
        if id == 0x00 {
            UnclassifiedDeviceSubtype::NonVGAUnclassifiedDevice
        } else if id == 0x01 {
            UnclassifiedDeviceSubtype::VGACompatibleUnclassifiedDevice
        } else {
            UnclassifiedDeviceSubtype::ImageCoprocessor
        }
    }

    pub fn decode(id: u8) -> (r: Result<Self, CodecError>)
        ensures
            r == if Self::known(id) {
                Ok::<Self, CodecError>(Self::spec_decode(id))
            } else {
                Err::<Self, CodecError>(CodecError::UnknownDiscriminant)
            },
            r matches Ok(v) ==> v.spec_id() == id,
    {
        match id {
            0x00 => Ok(UnclassifiedDeviceSubtype::NonVGAUnclassifiedDevice),
            0x01 => Ok(UnclassifiedDeviceSubtype::VGACompatibleUnclassifiedDevice),
            0x05 => Ok(UnclassifiedDeviceSubtype::ImageCoprocessor),
            _ => Err(CodecError::UnknownDiscriminant),
        }
    }

    /// The discriminant this variant encodes to.
    pub fn id(&self) -> (r: u8)
        ensures
            r == self.spec_id(),
    {
        match self {
            UnclassifiedDeviceSubtype::NonVGAUnclassifiedDevice => 0x00,
            UnclassifiedDeviceSubtype::VGACompatibleUnclassifiedDevice => 0x01,
            UnclassifiedDeviceSubtype::ImageCoprocessor => 0x05,
        }
    }
}

#[derive(Debug, Clone, Copy, PartialEq, Eq, Structural)]
pub enum MassStorageControllerSubtype {
    SCSIStorageController,
    IDEInterface(MassStorageControllerIDEInterfaceProgIf),
    FloppyDiskController,
    IPIBusController,
    RAIDBusController,
    ATAController(MassStorageControllerATAControllerProgIf),
    SATAController(MassStorageControllerSATAControllerProgIf),
    SerialAttachedSCSIController(MassStorageControllerSerialAttachedSCSIControllerProgIf),
    NonVolatileMemoryController(MassStorageControllerNonVolatileMemoryControllerProgIf),
    UniversalFlashStorageController(MassStorageControllerUniversalFlashStorageControllerProgIf),
    MassStorageController,
}

impl MassStorageControllerSubtype {
    /// The subclass discriminant of each variant.
    pub open spec fn spec_id(self) -> u8 {
        match self {
            MassStorageControllerSubtype::SCSIStorageController => 0x00,
            MassStorageControllerSubtype::IDEInterface(_) => 0x01,
            MassStorageControllerSubtype::FloppyDiskController => 0x02,
            MassStorageControllerSubtype::IPIBusController => 0x03,
            MassStorageControllerSubtype::RAIDBusController => 0x04,
            MassStorageControllerSubtype::ATAController(_) => 0x05,
            MassStorageControllerSubtype::SATAController(_) => 0x06,
            MassStorageControllerSubtype::SerialAttachedSCSIController(_) => 0x07,
            MassStorageControllerSubtype::NonVolatileMemoryController(_) => 0x08,
            MassStorageControllerSubtype::UniversalFlashStorageController(_) => 0x09,
            MassStorageControllerSubtype::MassStorageController => 0x80,
        }
    }

    /// Whether the pair of discriminants selects a variant.
    pub open spec fn known(subclass: u8, prog_if: u8) -> bool {
        subclass == 0x00 || (subclass == 0x01 && MassStorageControllerIDEInterfaceProgIf::known(prog_if)) || subclass == 0x02 || subclass == 0x03 || subclass == 0x04 || (subclass == 0x05 && MassStorageControllerATAControllerProgIf::known(prog_if)) || (subclass == 0x06 && MassStorageControllerSATAControllerProgIf::known(prog_if)) || (subclass == 0x07 && MassStorageControllerSerialAttachedSCSIControllerProgIf::known(prog_if)) || (subclass == 0x08 && MassStorageControllerNonVolatileMemoryControllerProgIf::known(prog_if)) || (subclass == 0x09 && MassStorageControllerUniversalFlashStorageControllerProgIf::known(prog_if)) || subclass == 0x80
    }

    pub open spec fn spec_decode(subclass: u8, prog_if: u8) -> Self {
        if subclass == 0x00 {
            MassStorageControllerSubtype::SCSIStorageController
        } else if subclass == 0x01 {
            MassStorageControllerSubtype::IDEInterface(MassStorageControllerIDEInterfaceProgIf::spec_decode(prog_if))
        } else if subclass == 0x02 {
            MassStorageControllerSubtype::FloppyDiskController
        } else if subclass == 0x03 {
            MassStorageControllerSubtype::IPIBusController
        } else if subclass == 0x04 {
            MassStorageControllerSubtype::RAIDBusController
        } else if subclass == 0x05 {
            MassStorageControllerSubtype::ATAController(MassStorageControllerATAControllerProgIf::spec_decode(prog_if))
        } else if subclass == 0x06 {
            MassStorageControllerSubtype::SATAController(MassStorageControllerSATAControllerProgIf::spec_decode(prog_if))
        } else if subclass == 0x07 {
            MassStorageControllerSubtype::SerialAttachedSCSIController(MassStorageControllerSerialAttachedSCSIControllerProgIf::spec_decode(prog_if))
        } else if subclass == 0x08 {
            MassStorageControllerSubtype::NonVolatileMemoryController(MassStorageControllerNonVolatileMemoryControllerProgIf::spec_decode(prog_if))
        } else if subclass == 0x09 {
            MassStorageControllerSubtype::UniversalFlashStorageController(MassStorageControllerUniversalFlashStorageControllerProgIf::spec_decode(prog_if))
        } else {
            MassStorageControllerSubtype::MassStorageController
        }
    }

    pub fn decode(subclass: u8, prog_if: u8) -> (r: Result<Self, CodecError>)
        ensures
            r == if Self::known(subclass, prog_if) {
                Ok::<Self, CodecError>(Self::spec_decode(subclass, prog_if))
            } else {
                Err::<Self, CodecError>(CodecError::UnknownDiscriminant)
            },
            r matches Ok(v) ==> v.spec_id() == subclass,
    {
        match subclass {
            0x00 => Ok(MassStorageControllerSubtype::SCSIStorageController),
            0x01 => match MassStorageControllerIDEInterfaceProgIf::decode(prog_if) {
                Ok(p) => Ok(MassStorageControllerSubtype::IDEInterface(p)),
                Err(e) => Err(e),
            },
            0x02 => Ok(MassStorageControllerSubtype::FloppyDiskController),
            0x03 => Ok(MassStorageControllerSubtype::IPIBusController),
            0x04 => Ok(MassStorageControllerSubtype::RAIDBusController),
            0x05 => match MassStorageControllerATAControllerProgIf::decode(prog_if) {
                Ok(p) => Ok(MassStorageControllerSubtype::ATAController(p)),
                Err(e) => Err(e),
            },
            0x06 => match MassStorageControllerSATAControllerProgIf::decode(prog_if) {
                Ok(p) => Ok(MassStorageControllerSubtype::SATAController(p)),
                Err(e) => Err(e),
            },
            0x07 => match MassStorageControllerSerialAttachedSCSIControllerProgIf::decode(prog_if) {
                Ok(p) => Ok(MassStorageControllerSubtype::SerialAttachedSCSIController(p)),
                Err(e) => Err(e),
            },
            0x08 => match MassStorageControllerNonVolatileMemoryControllerProgIf::decode(prog_if) {
                Ok(p) => Ok(MassStorageControllerSubtype::NonVolatileMemoryController(p)),
                Err(e) => Err(e),
            },
            0x09 => match MassStorageControllerUniversalFlashStorageControllerProgIf::decode(prog_if) {
                Ok(p) => Ok(MassStorageControllerSubtype::UniversalFlashStorageController(p)),
                Err(e) => Err(e),
            },
            0x80 => Ok(MassStorageControllerSubtype::MassStorageController),
            _ => Err(CodecError::UnknownDiscriminant),
        }
    }

    /// The subclass discriminant this variant encodes to.
    pub fn id(&self) -> (r: u8)
        ensures
            r == self.spec_id(),
    {
        match self {
            MassStorageControllerSubtype::SCSIStorageController => 0x00,
            MassStorageControllerSubtype::IDEInterface(_) => 0x01,
            MassStorageControllerSubtype::FloppyDiskController => 0x02,
            MassStorageControllerSubtype::IPIBusController => 0x03,
            MassStorageControllerSubtype::RAIDBusController => 0x04,
            MassStorageControllerSubtype::ATAController(_) => 0x05,
            MassStorageControllerSubtype::SATAController(_) => 0x06,
            MassStorageControllerSubtype::SerialAttachedSCSIController(_) => 0x07,
            MassStorageControllerSubtype::NonVolatileMemoryController(_) => 0x08,
            MassStorageControllerSubtype::UniversalFlashStorageController(_) => 0x09,
            MassStorageControllerSubtype::MassStorageController => 0x80,
        }
    }
}

#[derive(Debug, Clone, Copy, PartialEq, Eq, Structural)]
pub enum NetworkControllerSubtype {
    EthernetController,
    TokenRingNetworkController,
    FDDINetworkController,
    ATMNetworkController,
    ISDNController,
    WorldFipController,
    PICMGController,
    InfinibandController,
    FabricController,
    NetworkController,
}

impl NetworkControllerSubtype {
    /// The subclass discriminant of each variant.
    pub open spec fn spec_id(self) -> u8 {
        match self {
            NetworkControllerSubtype::EthernetController => 0x00,
            NetworkControllerSubtype::TokenRingNetworkController => 0x01,
            NetworkControllerSubtype::FDDINetworkController => 0x02,
            NetworkControllerSubtype::ATMNetworkController => 0x03,
            NetworkControllerSubtype::ISDNController => 0x04,
            NetworkControllerSubtype::WorldFipController => 0x05,
            NetworkControllerSubtype::PICMGController => 0x06,
            NetworkControllerSubtype::InfinibandController => 0x07,
            NetworkControllerSubtype::FabricController => 0x08,
            NetworkControllerSubtype::NetworkController => 0x80,
        }
    }

    pub open spec fn known(id: u8) -> bool {
        id == 0x00 || id == 0x01 || id == 0x02 || id == 0x03 || id == 0x04 || id == 0x05 || id == 0x06 || id == 0x07 || id == 0x08 || id == 0x80
    }

    pub open spec fn spec_decode(id: u8) -> Self {
        if id == 0x00 {
            NetworkControllerSubtype::EthernetController
        } else if id == 0x01 {
            NetworkControllerSubtype::TokenRingNetworkController
        } else if id == 0x02 {
            NetworkControllerSubtype::FDDINetworkController
        } else if id == 0x03 {
            NetworkControllerSubtype::ATMNetworkController
        } else if id == 0x04 {
            NetworkControllerSubtype::ISDNController
        } else if id == 0x05 {
            NetworkControllerSubtype::WorldFipController
        } else if id == 0x06 {
            NetworkControllerSubtype::PICMGController
        } else if id == 0x07 {
            NetworkControllerSubtype::InfinibandController
        } else if id == 0x08 {
            NetworkControllerSubtype::FabricController
        } else {
            NetworkControllerSubtype::NetworkController
        }
    }

    pub fn decode(id: u8) -> (r: Result<Self, CodecError>)
        ensures
            r == if Self::known(id) {
                Ok::<Self, CodecError>(Self::spec_decode(id))
            } else {
                Err::<Self, CodecError>(CodecError::UnknownDiscriminant)
            },
            r matches Ok(v) ==> v.spec_id() == id,
    {
        match id {
            0x00 => Ok(NetworkControllerSubtype::EthernetController),
            0x01 => Ok(NetworkControllerSubtype::TokenRingNetworkController),
            0x02 => Ok(NetworkControllerSubtype::FDDINetworkController),
            0x03 => Ok(NetworkControllerSubtype::ATMNetworkController),
            0x04 => Ok(NetworkControllerSubtype::ISDNController),
            0x05 => Ok(NetworkControllerSubtype::WorldFipController),
            0x06 => Ok(NetworkControllerSubtype::PICMGController),
            0x07 => Ok(NetworkControllerSubtype::InfinibandController),
            0x08 => Ok(NetworkControllerSubtype::FabricController),
            0x80 => Ok(NetworkControllerSubtype::NetworkController),
            _ => Err(CodecError::UnknownDiscriminant),
        }
    }

    /// The discriminant this variant encodes to.
    pub fn id(&self) -> (r: u8)
        ensures
            r == self.spec_id(),
    {
        match self {
            NetworkControllerSubtype::EthernetController => 0x00,
            NetworkControllerSubtype::TokenRingNetworkController => 0x01,
            NetworkControllerSubtype::FDDINetworkController => 0x02,
            NetworkControllerSubtype::ATMNetworkController => 0x03,
            NetworkControllerSubtype::ISDNController => 0x04,
            NetworkControllerSubtype::WorldFipController => 0x05,
            NetworkControllerSubtype::PICMGController => 0x06,
            NetworkControllerSubtype::InfinibandController => 0x07,
            NetworkControllerSubtype::FabricController => 0x08,
            NetworkControllerSubtype::NetworkController => 0x80,
        }
    }
}

#[derive(Debug, Clone, Copy, PartialEq, Eq, Structural)]
pub enum DisplayControllerSubtype {
    VGACompatibleController(DisplayControllerVGACompatibleControllerProgIf),
    XGACompatibleController,
    _3DController,
    DisplayController,
}

impl DisplayControllerSubtype {
    /// The subclass discriminant of each variant.
    pub open spec fn spec_id(self) -> u8 {
        match self {
            DisplayControllerSubtype::VGACompatibleController(_) => 0x00,
            DisplayControllerSubtype::XGACompatibleController => 0x01,
            DisplayControllerSubtype::_3DController => 0x02,
            DisplayControllerSubtype::DisplayController => 0x80,
        }
    }

    /// Whether the pair of discriminants selects a variant.
    pub open spec fn known(subclass: u8, prog_if: u8) -> bool {
        (subclass == 0x00 && DisplayControllerVGACompatibleControllerProgIf::known(prog_if)) || subclass == 0x01 || subclass == 0x02 || subclass == 0x80
    }

    pub open spec fn spec_decode(subclass: u8, prog_if: u8) -> Self {
        if subclass == 0x00 {
            DisplayControllerSubtype::VGACompatibleController(DisplayControllerVGACompatibleControllerProgIf::spec_decode(prog_if))
        } else if subclass == 0x01 {
            DisplayControllerSubtype::XGACompatibleController
        } else if subclass == 0x02 {
            DisplayControllerSubtype::_3DController
        } else {
            DisplayControllerSubtype::DisplayController
        }
    }

    pub fn decode(subclass: u8, prog_if: u8) -> (r: Result<Self, CodecError>)
        ensures
            r == if Self::known(subclass, prog_if) {
                Ok::<Self, CodecError>(Self::spec_decode(subclass, prog_if))
            } else {
                Err::<Self, CodecError>(CodecError::UnknownDiscriminant)
            },
            r matches Ok(v) ==> v.spec_id() == subclass,
    {
        match subclass {
            0x00 => match DisplayControllerVGACompatibleControllerProgIf::decode(prog_if) {
                Ok(p) => Ok(DisplayControllerSubtype::VGACompatibleController(p)),
                Err(e) => Err(e),
            },
            0x01 => Ok(DisplayControllerSubtype::XGACompatibleController),
            0x02 => Ok(DisplayControllerSubtype::_3DController),
            0x80 => Ok(DisplayControllerSubtype::DisplayController),
            _ => Err(CodecError::UnknownDiscriminant),
        }
    }

    /// The subclass discriminant this variant encodes to.
    pub fn id(&self) -> (r: u8)
        ensures
            r == self.spec_id(),
    {
        match self {
            DisplayControllerSubtype::VGACompatibleController(_) => 0x00,
            DisplayControllerSubtype::XGACompatibleController => 0x01,
            DisplayControllerSubtype::_3DController => 0x02,
            DisplayControllerSubtype::DisplayController => 0x80,
        }
    }
}

#[derive(Debug, Clone, Copy, PartialEq, Eq, Structural)]
pub enum MultimediaControllerSubtype {
    MultimediaVideoController,
    MultimediaAudioController,
    ComputerTelephonyDevice,
    AudioDevice,
    MultimediaController,
}

impl MultimediaControllerSubtype {
    /// The subclass discriminant of each variant.
    pub open spec fn spec_id(self) -> u8 {
        match self {
            MultimediaControllerSubtype::MultimediaVideoController => 0x00,
            MultimediaControllerSubtype::MultimediaAudioController => 0x01,
            MultimediaControllerSubtype::ComputerTelephonyDevice => 0x02,
            MultimediaControllerSubtype::AudioDevice => 0x03,
            MultimediaControllerSubtype::MultimediaController => 0x80,
        }
    }

    pub open spec fn known(id: u8) -> bool {
        id == 0x00 || id == 0x01 || id == 0x02 || id == 0x03 || id == 0x80
    }

    pub open spec fn spec_decode(id: u8) -> Self {
        if id == 0x00 {
            MultimediaControllerSubtype::MultimediaVideoController
        } else if id == 0x01 {
            MultimediaControllerSubtype::MultimediaAudioController
        } else if id == 0x02 {
            MultimediaControllerSubtype::ComputerTelephonyDevice
        } else if id == 0x03 {
            MultimediaControllerSubtype::AudioDevice
        } else {
            MultimediaControllerSubtype::MultimediaController
        }
    }

    pub fn decode(id: u8) -> (r: Result<Self, CodecError>)
        ensures
            r == if Self::known(id) {
                Ok::<Self, CodecError>(Self::spec_decode(id))
            } else {
                Err::<Self, CodecError>(CodecError::UnknownDiscriminant)
            },
            r matches Ok(v) ==> v.spec_id() == id,
    {
        match id {
            0x00 => Ok(MultimediaControllerSubtype::MultimediaVideoController),
            0x01 => Ok(MultimediaControllerSubtype::MultimediaAudioController),
            0x02 => Ok(MultimediaControllerSubtype::ComputerTelephonyDevice),
            0x03 => Ok(MultimediaControllerSubtype::AudioDevice),
            0x80 => Ok(MultimediaControllerSubtype::MultimediaController),
            _ => Err(CodecError::UnknownDiscriminant),
        }
    }

    /// The discriminant this variant encodes to.
    pub fn id(&self) -> (r: u8)
        ensures
            r == self.spec_id(),
    {
        match self {
            MultimediaControllerSubtype::MultimediaVideoController => 0x00,
            MultimediaControllerSubtype::MultimediaAudioController => 0x01,
            MultimediaControllerSubtype::ComputerTelephonyDevice => 0x02,
            MultimediaControllerSubtype::AudioDevice => 0x03,
            MultimediaControllerSubtype::MultimediaController => 0x80,
        }
    }
}

#[derive(Debug, Clone, Copy, PartialEq, Eq, Structural)]
pub enum MemoryControllerSubtype {
    RAMMemory,
    FLASHMemory,
    CXL(MemoryControllerCXLProgIf),
    MemoryController,
}

impl MemoryControllerSubtype {
    /// The subclass discriminant of each variant.
    pub open spec fn spec_id(self) -> u8 {
        match self {
            MemoryControllerSubtype::RAMMemory => 0x00,
            MemoryControllerSubtype::FLASHMemory => 0x01,
            MemoryControllerSubtype::CXL(_) => 0x02,
            MemoryControllerSubtype::MemoryController => 0x80,
        }
    }

    /// Whether the pair of discriminants selects a variant.
    pub open spec fn known(subclass: u8, prog_if: u8) -> bool {
        subclass == 0x00 || subclass == 0x01 || (subclass == 0x02 && MemoryControllerCXLProgIf::known(prog_if)) || subclass == 0x80
    }

    pub open spec fn spec_decode(subclass: u8, prog_if: u8) -> Self {
        if subclass == 0x00 {
            MemoryControllerSubtype::RAMMemory
        } else if subclass == 0x01 {
            MemoryControllerSubtype::FLASHMemory
        } else if subclass == 0x02 {
            MemoryControllerSubtype::CXL(MemoryControllerCXLProgIf::spec_decode(prog_if))
        } else {
            MemoryControllerSubtype::MemoryController
        }
    }

    pub fn decode(subclass: u8, prog_if: u8) -> (r: Result<Self, CodecError>)
        ensures
            r == if Self::known(subclass, prog_if) {
                Ok::<Self, CodecError>(Self::spec_decode(subclass, prog_if))
            } else {
                Err::<Self, CodecError>(CodecError::UnknownDiscriminant)
            },
            r matches Ok(v) ==> v.spec_id() == subclass,
    {
        match subclass {
            0x00 => Ok(MemoryControllerSubtype::RAMMemory),
            0x01 => Ok(MemoryControllerSubtype::FLASHMemory),
            0x02 => match MemoryControllerCXLProgIf::decode(prog_if) {
                Ok(p) => Ok(MemoryControllerSubtype::CXL(p)),
                Err(e) => Err(e),
            },
            0x80 => Ok(MemoryControllerSubtype::MemoryController),
            _ => Err(CodecError::UnknownDiscriminant),
        }
    }

    /// The subclass discriminant this variant encodes to.
    pub fn id(&self) -> (r: u8)
        ensures
            r == self.spec_id(),
    {
        match self {
            MemoryControllerSubtype::RAMMemory => 0x00,
            MemoryControllerSubtype::FLASHMemory => 0x01,
            MemoryControllerSubtype::CXL(_) => 0x02,
            MemoryControllerSubtype::MemoryController => 0x80,
        }
    }
}

#[derive(Debug, Clone, Copy, PartialEq, Eq, Structural)]
pub enum BridgeSubtype {
    HostBridge,
    ISABridge,
    EISABridge,
    MicroChannelBridge,
    PCIBridge(BridgePCIBridgeProgIf),
    PCMCIABridge,
    NuBusBridge,
    CardBusBridge,
    RACEwayBridge(BridgeRACEwayBridgeProgIf),
    SemiTransparentPCIToPCIBridge(BridgeSemiTransparentPCIToPCIBridgeProgIf),
    InfiniBandToPCIHostBridge,
    Bridge,
}

impl BridgeSubtype {
    /// The subclass discriminant of each variant.
    pub open spec fn spec_id(self) -> u8 {
        match self {
            BridgeSubtype::HostBridge => 0x00,
            BridgeSubtype::ISABridge => 0x01,
            BridgeSubtype::EISABridge => 0x02,
            BridgeSubtype::MicroChannelBridge => 0x03,
            BridgeSubtype::PCIBridge(_) => 0x04,
            BridgeSubtype::PCMCIABridge => 0x05,
            BridgeSubtype::NuBusBridge => 0x06,
            BridgeSubtype::CardBusBridge => 0x07,
            BridgeSubtype::RACEwayBridge(_) => 0x08,
            BridgeSubtype::SemiTransparentPCIToPCIBridge(_) => 0x09,
            BridgeSubtype::InfiniBandToPCIHostBridge => 0x0A,
            BridgeSubtype::Bridge => 0x80,
        }
    }

    /// Whether the pair of discriminants selects a variant.
    pub open spec fn known(subclass: u8, prog_if: u8) -> bool {
        subclass == 0x00 || subclass == 0x01 || subclass == 0x02 || subclass == 0x03 || (subclass == 0x04 && BridgePCIBridgeProgIf::known(prog_if)) || subclass == 0x05 || subclass == 0x06 || subclass == 0x07 || (subclass == 0x08 && BridgeRACEwayBridgeProgIf::known(prog_if)) || (subclass == 0x09 && BridgeSemiTransparentPCIToPCIBridgeProgIf::known(prog_if)) || subclass == 0x0A || subclass == 0x80
    }

    pub open spec fn spec_decode(subclass: u8, prog_if: u8) -> Self {
        if subclass == 0x00 {
            BridgeSubtype::HostBridge
        } else if subclass == 0x01 {
            BridgeSubtype::ISABridge
        } else if subclass == 0x02 {
            BridgeSubtype::EISABridge
        } else if subclass == 0x03 {
            BridgeSubtype::MicroChannelBridge
        } else if subclass == 0x04 {
            BridgeSubtype::PCIBridge(BridgePCIBridgeProgIf::spec_decode(prog_if))
        } else if subclass == 0x05 {
            BridgeSubtype::PCMCIABridge
        } else if subclass == 0x06 {
            BridgeSubtype::NuBusBridge
        } else if subclass == 0x07 {
            BridgeSubtype::CardBusBridge
        } else if subclass == 0x08 {
            BridgeSubtype::RACEwayBridge(BridgeRACEwayBridgeProgIf::spec_decode(prog_if))
        } else if subclass == 0x09 {
            BridgeSubtype::SemiTransparentPCIToPCIBridge(BridgeSemiTransparentPCIToPCIBridgeProgIf::spec_decode(prog_if))
        } else if subclass == 0x0A {
            BridgeSubtype::InfiniBandToPCIHostBridge
        } else {
            BridgeSubtype::Bridge
        }
    }

    pub fn decode(subclass: u8, prog_if: u8) -> (r: Result<Self, CodecError>)
        ensures
            r == if Self::known(subclass, prog_if) {
                Ok::<Self, CodecError>(Self::spec_decode(subclass, prog_if))
            } else {
                Err::<Self, CodecError>(CodecError::UnknownDiscriminant)
            },
            r matches Ok(v) ==> v.spec_id() == subclass,
    {
        match subclass {
            0x00 => Ok(BridgeSubtype::HostBridge),
            0x01 => Ok(BridgeSubtype::ISABridge),
            0x02 => Ok(BridgeSubtype::EISABridge),
            0x03 => Ok(BridgeSubtype::MicroChannelBridge),
            0x04 => match BridgePCIBridgeProgIf::decode(prog_if) {
                Ok(p) => Ok(BridgeSubtype::PCIBridge(p)),
                Err(e) => Err(e),
            },
            0x05 => Ok(BridgeSubtype::PCMCIABridge),
            0x06 => Ok(BridgeSubtype::NuBusBridge),
            0x07 => Ok(BridgeSubtype::CardBusBridge),
            0x08 => match BridgeRACEwayBridgeProgIf::decode(prog_if) {
                Ok(p) => Ok(BridgeSubtype::RACEwayBridge(p)),
                Err(e) => Err(e),
            },
            0x09 => match BridgeSemiTransparentPCIToPCIBridgeProgIf::decode(prog_if) {
                Ok(p) => Ok(BridgeSubtype::SemiTransparentPCIToPCIBridge(p)),
                Err(e) => Err(e),
            },
            0x0A => Ok(BridgeSubtype::InfiniBandToPCIHostBridge),
            0x80 => Ok(BridgeSubtype::Bridge),
            _ => Err(CodecError::UnknownDiscriminant),
        }
    }

    /// The subclass discriminant this variant encodes to.
    pub fn id(&self) -> (r: u8)
        ensures
            r == self.spec_id(),
    {
        match self {
            BridgeSubtype::HostBridge => 0x00,
            BridgeSubtype::ISABridge => 0x01,
            BridgeSubtype::EISABridge => 0x02,
            BridgeSubtype::MicroChannelBridge => 0x03,
            BridgeSubtype::PCIBridge(_) => 0x04,
            BridgeSubtype::PCMCIABridge => 0x05,
            BridgeSubtype::NuBusBridge => 0x06,
            BridgeSubtype::CardBusBridge => 0x07,
            BridgeSubtype::RACEwayBridge(_) => 0x08,
            BridgeSubtype::SemiTransparentPCIToPCIBridge(_) => 0x09,
            BridgeSubtype::InfiniBandToPCIHostBridge => 0x0A,
            BridgeSubtype::Bridge => 0x80,
        }
    }
}

#[derive(Debug, Clone, Copy, PartialEq, Eq, Structural)]
pub enum CommunicationControllerSubtype {
    SerialController(CommunicationControllerSerialControllerProgIf),
    ParallelController(CommunicationControllerParallelControllerProgIf),
    MultiportSerialController,
    Modem(CommunicationControllerModemProgIf),
    GPIBController,
    SmardCardController,
    CommunicationController,
}

impl CommunicationControllerSubtype {
    /// The subclass discriminant of each variant.
    pub open spec fn spec_id(self) -> u8 {
        match self {
            CommunicationControllerSubtype::SerialController(_) => 0x00,
            CommunicationControllerSubtype::ParallelController(_) => 0x01,
            CommunicationControllerSubtype::MultiportSerialController => 0x02,
            CommunicationControllerSubtype::Modem(_) => 0x03,
            CommunicationControllerSubtype::GPIBController => 0x04,
            CommunicationControllerSubtype::SmardCardController => 0x05,
            CommunicationControllerSubtype::CommunicationController => 0x80,
        }
    }

    /// Whether the pair of discriminants selects a variant.
    pub open spec fn known(subclass: u8, prog_if: u8) -> bool {
        (subclass == 0x00 && CommunicationControllerSerialControllerProgIf::known(prog_if)) || (subclass == 0x01 && CommunicationControllerParallelControllerProgIf::known(prog_if)) || subclass == 0x02 || (subclass == 0x03 && CommunicationControllerModemProgIf::known(prog_if)) || subclass == 0x04 || subclass == 0x05 || subclass == 0x80
    }

    pub open spec fn spec_decode(subclass: u8, prog_if: u8) -> Self {
        if subclass == 0x00 {
            CommunicationControllerSubtype::SerialController(CommunicationControllerSerialControllerProgIf::spec_decode(prog_if))
        } else if subclass == 0x01 {
            CommunicationControllerSubtype::ParallelController(CommunicationControllerParallelControllerProgIf::spec_decode(prog_if))
        } else if subclass == 0x02 {
            CommunicationControllerSubtype::MultiportSerialController
        } else if subclass == 0x03 {
            CommunicationControllerSubtype::Modem(CommunicationControllerModemProgIf::spec_decode(prog_if))
        } else if subclass == 0x04 {
            CommunicationControllerSubtype::GPIBController
        } else if subclass == 0x05 {
            CommunicationControllerSubtype::SmardCardController
        } else {
            CommunicationControllerSubtype::CommunicationController
        }
    }

    pub fn decode(subclass: u8, prog_if: u8) -> (r: Result<Self, CodecError>)
        ensures
            r == if Self::known(subclass, prog_if) {
                Ok::<Self, CodecError>(Self::spec_decode(subclass, prog_if))
            } else {
                Err::<Self, CodecError>(CodecError::UnknownDiscriminant)
            },
            r matches Ok(v) ==> v.spec_id() == subclass,
    {
        match subclass {
            0x00 => match CommunicationControllerSerialControllerProgIf::decode(prog_if) {
                Ok(p) => Ok(CommunicationControllerSubtype::SerialController(p)),
                Err(e) => Err(e),
            },
            0x01 => match CommunicationControllerParallelControllerProgIf::decode(prog_if) {
                Ok(p) => Ok(CommunicationControllerSubtype::ParallelController(p)),
                Err(e) => Err(e),
            },
            0x02 => Ok(CommunicationControllerSubtype::MultiportSerialController),
            0x03 => match CommunicationControllerModemProgIf::decode(prog_if) {
                Ok(p) => Ok(CommunicationControllerSubtype::Modem(p)),
                Err(e) => Err(e),
            },
            0x04 => Ok(CommunicationControllerSubtype::GPIBController),
            0x05 => Ok(CommunicationControllerSubtype::SmardCardController),
            0x80 => Ok(CommunicationControllerSubtype::CommunicationController),
            _ => Err(CodecError::UnknownDiscriminant),
        }
    }

    /// The subclass discriminant this variant encodes to.
    pub fn id(&self) -> (r: u8)
        ensures
            r == self.spec_id(),
    {
        match self {
            CommunicationControllerSubtype::SerialController(_) => 0x00,
            CommunicationControllerSubtype::ParallelController(_) => 0x01,
            CommunicationControllerSubtype::MultiportSerialController => 0x02,
            CommunicationControllerSubtype::Modem(_) => 0x03,
            CommunicationControllerSubtype::GPIBController => 0x04,
            CommunicationControllerSubtype::SmardCardController => 0x05,
            CommunicationControllerSubtype::CommunicationController => 0x80,
        }
    }
}

#[derive(Debug, Clone, Copy, PartialEq, Eq, Structural)]
pub enum GenericSystemPeripheralSubtype {
    PIC(GenericSystemPeripheralPICProgIf),
    DMAController(GenericSystemPeripheralDMAControllerProgIf),
    Timer(GenericSystemPeripheralTimerProgIf),
    RTC(GenericSystemPeripheralRTCProgIf),
    PCIHotPlugController,
    SDHostController,
    IOMMU,
    SystemPeripheral,
    TimingCard(GenericSystemPeripheralTimingCardProgIf),
}

impl GenericSystemPeripheralSubtype {
    /// The subclass discriminant of each variant.
    pub open spec fn spec_id(self) -> u8 {
        match self {
            GenericSystemPeripheralSubtype::PIC(_) => 0x00,
            GenericSystemPeripheralSubtype::DMAController(_) => 0x01,
            GenericSystemPeripheralSubtype::Timer(_) => 0x02,
            GenericSystemPeripheralSubtype::RTC(_) => 0x03,
            GenericSystemPeripheralSubtype::PCIHotPlugController => 0x04,
            GenericSystemPeripheralSubtype::SDHostController => 0x05,
            GenericSystemPeripheralSubtype::IOMMU => 0x06,
            GenericSystemPeripheralSubtype::SystemPeripheral => 0x80,
            GenericSystemPeripheralSubtype::TimingCard(_) => 0x99,
        }
    }

    /// Whether the pair of discriminants selects a variant.
    pub open spec fn known(subclass: u8, prog_if: u8) -> bool {
        (subclass == 0x00 && GenericSystemPeripheralPICProgIf::known(prog_if)) || (subclass == 0x01 && GenericSystemPeripheralDMAControllerProgIf::known(prog_if)) || (subclass == 0x02 && GenericSystemPeripheralTimerProgIf::known(prog_if)) || (subclass == 0x03 && GenericSystemPeripheralRTCProgIf::known(prog_if)) || subclass == 0x04 || subclass == 0x05 || subclass == 0x06 || subclass == 0x80 || (subclass == 0x99 && GenericSystemPeripheralTimingCardProgIf::known(prog_if))
    }

    pub open spec fn spec_decode(subclass: u8, prog_if: u8) -> Self {
        if subclass == 0x00 {
            GenericSystemPeripheralSubtype::PIC(GenericSystemPeripheralPICProgIf::spec_decode(prog_if))
        } else if subclass == 0x01 {
            GenericSystemPeripheralSubtype::DMAController(GenericSystemPeripheralDMAControllerProgIf::spec_decode(prog_if))
        } else if subclass == 0x02 {
            GenericSystemPeripheralSubtype::Timer(GenericSystemPeripheralTimerProgIf::spec_decode(prog_if))
        } else if subclass == 0x03 {
            GenericSystemPeripheralSubtype::RTC(GenericSystemPeripheralRTCProgIf::spec_decode(prog_if))
        } else if subclass == 0x04 {
            GenericSystemPeripheralSubtype::PCIHotPlugController
        } else if subclass == 0x05 {
            GenericSystemPeripheralSubtype::SDHostController
        } else if subclass == 0x06 {
            GenericSystemPeripheralSubtype::IOMMU
        } else if subclass == 0x80 {
            GenericSystemPeripheralSubtype::SystemPeripheral
        } else {
            GenericSystemPeripheralSubtype::TimingCard(GenericSystemPeripheralTimingCardProgIf::spec_decode(prog_if))
        }
    }

    pub fn decode(subclass: u8, prog_if: u8) -> (r: Result<Self, CodecError>)
        ensures
            r == if Self::known(subclass, prog_if) {
                Ok::<Self, CodecError>(Self::spec_decode(subclass, prog_if))
            } else {
                Err::<Self, CodecError>(CodecError::UnknownDiscriminant)
            },
            r matches Ok(v) ==> v.spec_id() == subclass,
    {
        match subclass {
            0x00 => match GenericSystemPeripheralPICProgIf::decode(prog_if) {
                Ok(p) => Ok(GenericSystemPeripheralSubtype::PIC(p)),
                Err(e) => Err(e),
            },
            0x01 => match GenericSystemPeripheralDMAControllerProgIf::decode(prog_if) {
                Ok(p) => Ok(GenericSystemPeripheralSubtype::DMAController(p)),
                Err(e) => Err(e),
            },
            0x02 => match GenericSystemPeripheralTimerProgIf::decode(prog_if) {
                Ok(p) => Ok(GenericSystemPeripheralSubtype::Timer(p)),
                Err(e) => Err(e),
            },
            0x03 => match GenericSystemPeripheralRTCProgIf::decode(prog_if) {
                Ok(p) => Ok(GenericSystemPeripheralSubtype::RTC(p)),
                Err(e) => Err(e),
            },
            0x04 => Ok(GenericSystemPeripheralSubtype::PCIHotPlugController),
            0x05 => Ok(GenericSystemPeripheralSubtype::SDHostController),
            0x06 => Ok(GenericSystemPeripheralSubtype::IOMMU),
            0x80 => Ok(GenericSystemPeripheralSubtype::SystemPeripheral),
            0x99 => match GenericSystemPeripheralTimingCardProgIf::decode(prog_if) {
                Ok(p) => Ok(GenericSystemPeripheralSubtype::TimingCard(p)),
                Err(e) => Err(e),
            },
            _ => Err(CodecError::UnknownDiscriminant),
        }
    }

    /// The subclass discriminant this variant encodes to.
    pub fn id(&self) -> (r: u8)
        ensures
            r == self.spec_id(),
    {
        match self {
            GenericSystemPeripheralSubtype::PIC(_) => 0x00,
            GenericSystemPeripheralSubtype::DMAController(_) => 0x01,
            GenericSystemPeripheralSubtype::Timer(_) => 0x02,
            GenericSystemPeripheralSubtype::RTC(_) => 0x03,
            GenericSystemPeripheralSubtype::PCIHotPlugController => 0x04,
            GenericSystemPeripheralSubtype::SDHostController => 0x05,
            GenericSystemPeripheralSubtype::IOMMU => 0x06,
            GenericSystemPeripheralSubtype::SystemPeripheral => 0x80,
            GenericSystemPeripheralSubtype::TimingCard(_) => 0x99,
        }
    }
}

#[derive(Debug, Clone, Copy, PartialEq, Eq, Structural)]
pub enum InputDeviceControllerSubtype {
    KeyboardController,
    DigitizerPen,
    MouseController,
    ScannerController,
    GameportController(InputDeviceControllerGameportControllerProgIf),
    InputDeviceController,
}

impl InputDeviceControllerSubtype {
    /// The subclass discriminant of each variant.
    pub open spec fn spec_id(self) -> u8 {
        match self {
            InputDeviceControllerSubtype::KeyboardController => 0x00,
            InputDeviceControllerSubtype::DigitizerPen => 0x01,
            InputDeviceControllerSubtype::MouseController => 0x02,
            InputDeviceControllerSubtype::ScannerController => 0x03,
            InputDeviceControllerSubtype::GameportController(_) => 0x04,
            InputDeviceControllerSubtype::InputDeviceController => 0x80,
        }
    }

    /// Whether the pair of discriminants selects a variant.
    pub open spec fn known(subclass: u8, prog_if: u8) -> bool {
        subclass == 0x00 || subclass == 0x01 || subclass == 0x02 || subclass == 0x03 || (subclass == 0x04 && InputDeviceControllerGameportControllerProgIf::known(prog_if)) || subclass == 0x80
    }

    pub open spec fn spec_decode(subclass: u8, prog_if: u8) -> Self {
        if subclass == 0x00 {
            InputDeviceControllerSubtype::KeyboardController
        } else if subclass == 0x01 {
            InputDeviceControllerSubtype::DigitizerPen
        } else if subclass == 0x02 {
            InputDeviceControllerSubtype::MouseController
        } else if subclass == 0x03 {
            InputDeviceControllerSubtype::ScannerController
        } else if subclass == 0x04 {
            InputDeviceControllerSubtype::GameportController(InputDeviceControllerGameportControllerProgIf::spec_decode(prog_if))
        } else {
            InputDeviceControllerSubtype::InputDeviceController
        }
    }

    pub fn decode(subclass: u8, prog_if: u8) -> (r: Result<Self, CodecError>)
        ensures
            r == if Self::known(subclass, prog_if) {
                Ok::<Self, CodecError>(Self::spec_decode(subclass, prog_if))
            } else {
                Err::<Self, CodecError>(CodecError::UnknownDiscriminant)
            },
            r matches Ok(v) ==> v.spec_id() == subclass,
    {
        match subclass {
            0x00 => Ok(InputDeviceControllerSubtype::KeyboardController),
            0x01 => Ok(InputDeviceControllerSubtype::DigitizerPen),
            0x02 => Ok(InputDeviceControllerSubtype::MouseController),
            0x03 => Ok(InputDeviceControllerSubtype::ScannerController),
            0x04 => match InputDeviceControllerGameportControllerProgIf::decode(prog_if) {
                Ok(p) => Ok(InputDeviceControllerSubtype::GameportController(p)),
                Err(e) => Err(e),
            },
            0x80 => Ok(InputDeviceControllerSubtype::InputDeviceController),
            _ => Err(CodecError::UnknownDiscriminant),
        }
    }

    /// The subclass discriminant this variant encodes to.
    pub fn id(&self) -> (r: u8)
        ensures
            r == self.spec_id(),
    {
        match self {
            InputDeviceControllerSubtype::KeyboardController => 0x00,
            InputDeviceControllerSubtype::DigitizerPen => 0x01,
            InputDeviceControllerSubtype::MouseController => 0x02,
            InputDeviceControllerSubtype::ScannerController => 0x03,
            InputDeviceControllerSubtype::GameportController(_) => 0x04,
            InputDeviceControllerSubtype::InputDeviceController => 0x80,
        }
    }
}

#[derive(Debug, Clone, Copy, PartialEq, Eq, Structural)]
pub enum DockingStationSubtype {
    GenericDockingStation,
    DockingStation,
}

impl DockingStationSubtype {
    /// The subclass discriminant of each variant.
    pub open spec fn spec_id(self) -> u8 {
        match self {
            DockingStationSubtype::GenericDockingStation => 0x00,
            DockingStationSubtype::DockingStation => 0x80,
        }
    }

    pub open spec fn known(id: u8) -> bool {
        id == 0x00 || id == 0x80
    }

    pub open spec fn spec_decode(id: u8) -> Self {
        if id == 0x00 {
            DockingStationSubtype::GenericDockingStation
        } else {
            DockingStationSubtype::DockingStation
        }
    }

    pub fn decode(id: u8) -> (r: Result<Self, CodecError>)
        ensures
            r == if Self::known(id) {
                Ok::<Self, CodecError>(Self::spec_decode(id))
            } else {
                Err::<Self, CodecError>(CodecError::UnknownDiscriminant)
            },
            r matches Ok(v) ==> v.spec_id() == id,
    {
        match id {
            0x00 => Ok(DockingStationSubtype::GenericDockingStation),
            0x80 => Ok(DockingStationSubtype::DockingStation),
            _ => Err(CodecError::UnknownDiscriminant),
        }
    }

    /// The discriminant this variant encodes to.
    pub fn id(&self) -> (r: u8)
        ensures
            r == self.spec_id(),
    {
        match self {
            DockingStationSubtype::GenericDockingStation => 0x00,
            DockingStationSubtype::DockingStation => 0x80,
        }
    }
}

#[derive(Debug, Clone, Copy, PartialEq, Eq, Structural)]
pub enum ProcessorSubtype {
    _386,
    _486,
    Pentium,
    Alpha,
    PowerPC,
    MIPS,
    CoProcessor,
}

impl ProcessorSubtype {
    /// The subclass discriminant of each variant.
    pub open spec fn spec_id(self) -> u8 {
        match self {
            ProcessorSubtype::_386 => 0x00,
            ProcessorSubtype::_486 => 0x01,
            ProcessorSubtype::Pentium => 0x02,
            ProcessorSubtype::Alpha => 0x10,
            ProcessorSubtype::PowerPC => 0x20,
            ProcessorSubtype::MIPS => 0x30,
            ProcessorSubtype::CoProcessor => 0x40,
        }
    }

    pub open spec fn known(id: u8) -> bool {
        id == 0x00 || id == 0x01 || id == 0x02 || id == 0x10 || id == 0x20 || id == 0x30 || id == 0x40
    }

    pub open spec fn spec_decode(id: u8) -> Self {
        if id == 0x00 {
            ProcessorSubtype::_386
        } else if id == 0x01 {
            ProcessorSubtype::_486
        } else if id == 0x02 {
            ProcessorSubtype::Pentium
        } else if id == 0x10 {
            ProcessorSubtype::Alpha
        } else if id == 0x20 {
            ProcessorSubtype::PowerPC
        } else if id == 0x30 {
            ProcessorSubtype::MIPS
        } else {
            ProcessorSubtype::CoProcessor
        }
    }

    pub fn decode(id: u8) -> (r: Result<Self, CodecError>)
        ensures
            r == if Self::known(id) {
                Ok::<Self, CodecError>(Self::spec_decode(id))
            } else {
                Err::<Self, CodecError>(CodecError::UnknownDiscriminant)
            },
            r matches Ok(v) ==> v.spec_id() == id,
    {
        match id {
            0x00 => Ok(ProcessorSubtype::_386),
            0x01 => Ok(ProcessorSubtype::_486),
            0x02 => Ok(ProcessorSubtype::Pentium),
            0x10 => Ok(ProcessorSubtype::Alpha),
            0x20 => Ok(ProcessorSubtype::PowerPC),
            0x30 => Ok(ProcessorSubtype::MIPS),
            0x40 => Ok(ProcessorSubtype::CoProcessor),
            _ => Err(CodecError::UnknownDiscriminant),
        }
    }

    /// The discriminant this variant encodes to.
    pub fn id(&self) -> (r: u8)
        ensures
            r == self.spec_id(),
    {
        match self {
            ProcessorSubtype::_386 => 0x00,
            ProcessorSubtype::_486 => 0x01,
            ProcessorSubtype::Pentium => 0x02,
            ProcessorSubtype::Alpha => 0x10,
            ProcessorSubtype::PowerPC => 0x20,
            ProcessorSubtype::MIPS => 0x30,
            ProcessorSubtype::CoProcessor => 0x40,
        }
    }
}

#[derive(Debug, Clone, Copy, PartialEq, Eq, Structural)]
pub enum SerialBusControllerSubtype {
    FireWireIEEE1394(SerialBusControllerFireWireIEEE1394ProgIf),
    ACCESSBus,
    SSA,
    USBController(SerialBusControllerUSBControllerProgIf),
    FibreChannel,
    SMBus,
    InfiniBand,
    IPMIInterface(SerialBusControllerIPMIInterfaceProgIf),
    SERCOSInterface,
    CANBUS,
    SerialBusController,
}

impl SerialBusControllerSubtype {
    /// The subclass discriminant of each variant.
    pub open spec fn spec_id(self) -> u8 {
        match self {
            SerialBusControllerSubtype::FireWireIEEE1394(_) => 0x00,
            SerialBusControllerSubtype::ACCESSBus => 0x01,
            SerialBusControllerSubtype::SSA => 0x02,
            SerialBusControllerSubtype::USBController(_) => 0x03,
            SerialBusControllerSubtype::FibreChannel => 0x04,
            SerialBusControllerSubtype::SMBus => 0x05,
            SerialBusControllerSubtype::InfiniBand => 0x06,
            SerialBusControllerSubtype::IPMIInterface(_) => 0x07,
            SerialBusControllerSubtype::SERCOSInterface => 0x08,
            SerialBusControllerSubtype::CANBUS => 0x09,
            SerialBusControllerSubtype::SerialBusController => 0x80,
        }
    }

    /// Whether the pair of discriminants selects a variant.
    pub open spec fn known(subclass: u8, prog_if: u8) -> bool {
        (subclass == 0x00 && SerialBusControllerFireWireIEEE1394ProgIf::known(prog_if)) || subclass == 0x01 || subclass == 0x02 || (subclass == 0x03 && SerialBusControllerUSBControllerProgIf::known(prog_if)) || subclass == 0x04 || subclass == 0x05 || subclass == 0x06 || (subclass == 0x07 && SerialBusControllerIPMIInterfaceProgIf::known(prog_if)) || subclass == 0x08 || subclass == 0x09 || subclass == 0x80
    }

    pub open spec fn spec_decode(subclass: u8, prog_if: u8) -> Self {
        if subclass == 0x00 {
            SerialBusControllerSubtype::FireWireIEEE1394(SerialBusControllerFireWireIEEE1394ProgIf::spec_decode(prog_if))
        } else if subclass == 0x01 {
            SerialBusControllerSubtype::ACCESSBus
        } else if subclass == 0x02 {
            SerialBusControllerSubtype::SSA
        } else if subclass == 0x03 {
            SerialBusControllerSubtype::USBController(SerialBusControllerUSBControllerProgIf::spec_decode(prog_if))
        } else if subclass == 0x04 {
            SerialBusControllerSubtype::FibreChannel
        } else if subclass == 0x05 {
            SerialBusControllerSubtype::SMBus
        } else if subclass == 0x06 {
            SerialBusControllerSubtype::InfiniBand
        } else if subclass == 0x07 {
            SerialBusControllerSubtype::IPMIInterface(SerialBusControllerIPMIInterfaceProgIf::spec_decode(prog_if))
        } else if subclass == 0x08 {
            SerialBusControllerSubtype::SERCOSInterface
        } else if subclass == 0x09 {
            SerialBusControllerSubtype::CANBUS
        } else {
            SerialBusControllerSubtype::SerialBusController
        }
    }

    pub fn decode(subclass: u8, prog_if: u8) -> (r: Result<Self, CodecError>)
        ensures
            r == if Self::known(subclass, prog_if) {
                Ok::<Self, CodecError>(Self::spec_decode(subclass, prog_if))
            } else {
                Err::<Self, CodecError>(CodecError::UnknownDiscriminant)
            },
            r matches Ok(v) ==> v.spec_id() == subclass,
    {
        match subclass {
            0x00 => match SerialBusControllerFireWireIEEE1394ProgIf::decode(prog_if) {
                Ok(p) => Ok(SerialBusControllerSubtype::FireWireIEEE1394(p)),
                Err(e) => Err(e),
            },
            0x01 => Ok(SerialBusControllerSubtype::ACCESSBus),
            0x02 => Ok(SerialBusControllerSubtype::SSA),
            0x03 => match SerialBusControllerUSBControllerProgIf::decode(prog_if) {
                Ok(p) => Ok(SerialBusControllerSubtype::USBController(p)),
                Err(e) => Err(e),
            },
            0x04 => Ok(SerialBusControllerSubtype::FibreChannel),
            0x05 => Ok(SerialBusControllerSubtype::SMBus),
            0x06 => Ok(SerialBusControllerSubtype::InfiniBand),
            0x07 => match SerialBusControllerIPMIInterfaceProgIf::decode(prog_if) {
                Ok(p) => Ok(SerialBusControllerSubtype::IPMIInterface(p)),
                Err(e) => Err(e),
            },
            0x08 => Ok(SerialBusControllerSubtype::SERCOSInterface),
            0x09 => Ok(SerialBusControllerSubtype::CANBUS),
            0x80 => Ok(SerialBusControllerSubtype::SerialBusController),
            _ => Err(CodecError::UnknownDiscriminant),
        }
    }

    /// The subclass discriminant this variant encodes to.
    pub fn id(&self) -> (r: u8)
        ensures
            r == self.spec_id(),
    {
        match self {
            SerialBusControllerSubtype::FireWireIEEE1394(_) => 0x00,
            SerialBusControllerSubtype::ACCESSBus => 0x01,
            SerialBusControllerSubtype::SSA => 0x02,
            SerialBusControllerSubtype::USBController(_) => 0x03,
            SerialBusControllerSubtype::FibreChannel => 0x04,
            SerialBusControllerSubtype::SMBus => 0x05,
            SerialBusControllerSubtype::InfiniBand => 0x06,
            SerialBusControllerSubtype::IPMIInterface(_) => 0x07,
            SerialBusControllerSubtype::SERCOSInterface => 0x08,
            SerialBusControllerSubtype::CANBUS => 0x09,
            SerialBusControllerSubtype::SerialBusController => 0x80,
        }
    }
}

#[derive(Debug, Clone, Copy, PartialEq, Eq, Structural)]
pub enum WirelessControllerSubtype {
    IRDAController,
    ConsumerIRController,
    RFController,
    Bluetooth,
    Broadband,
    _8021aController,
    _8021bController,
    WirelessController,
}

impl WirelessControllerSubtype {
    /// The subclass discriminant of each variant.
    pub open spec fn spec_id(self) -> u8 {
        match self {
            WirelessControllerSubtype::IRDAController => 0x00,
            WirelessControllerSubtype::ConsumerIRController => 0x01,
            WirelessControllerSubtype::RFController => 0x10,
            WirelessControllerSubtype::Bluetooth => 0x11,
            WirelessControllerSubtype::Broadband => 0x12,
            WirelessControllerSubtype::_8021aController => 0x20,
            WirelessControllerSubtype::_8021bController => 0x21,
            WirelessControllerSubtype::WirelessController => 0x80,
        }
    }

    pub open spec fn known(id: u8) -> bool {
        id == 0x00 || id == 0x01 || id == 0x10 || id == 0x11 || id == 0x12 || id == 0x20 || id == 0x21 || id == 0x80
    }

    pub open spec fn spec_decode(id: u8) -> Self {
        if id == 0x00 {
            WirelessControllerSubtype::IRDAController
        } else if id == 0x01 {
            WirelessControllerSubtype::ConsumerIRController
        } else if id == 0x10 {
            WirelessControllerSubtype::RFController
        } else if id == 0x11 {
            WirelessControllerSubtype::Bluetooth
        } else if id == 0x12 {
            WirelessControllerSubtype::Broadband
        } else if id == 0x20 {
            WirelessControllerSubtype::_8021aController
        } else if id == 0x21 {
            WirelessControllerSubtype::_8021bController
        } else {
            WirelessControllerSubtype::WirelessController
        }
    }

    pub fn decode(id: u8) -> (r: Result<Self, CodecError>)
        ensures
            r == if Self::known(id) {
                Ok::<Self, CodecError>(Self::spec_decode(id))
            } else {
                Err::<Self, CodecError>(CodecError::UnknownDiscriminant)
            },
            r matches Ok(v) ==> v.spec_id() == id,
    {
        match id {
            0x00 => Ok(WirelessControllerSubtype::IRDAController),
            0x01 => Ok(WirelessControllerSubtype::ConsumerIRController),
            0x10 => Ok(WirelessControllerSubtype::RFController),
            0x11 => Ok(WirelessControllerSubtype::Bluetooth),
            0x12 => Ok(WirelessControllerSubtype::Broadband),
            0x20 => Ok(WirelessControllerSubtype::_8021aController),
            0x21 => Ok(WirelessControllerSubtype::_8021bController),
            0x80 => Ok(WirelessControllerSubtype::WirelessController),
            _ => Err(CodecError::UnknownDiscriminant),
        }
    }

    /// The discriminant this variant encodes to.
    pub fn id(&self) -> (r: u8)
        ensures
            r == self.spec_id(),
    {
        match self {
            WirelessControllerSubtype::IRDAController => 0x00,
            WirelessControllerSubtype::ConsumerIRController => 0x01,
            WirelessControllerSubtype::RFController => 0x10,
            WirelessControllerSubtype::Bluetooth => 0x11,
            WirelessControllerSubtype::Broadband => 0x12,
            WirelessControllerSubtype::_8021aController => 0x20,
            WirelessControllerSubtype::_8021bController => 0x21,
            WirelessControllerSubtype::WirelessController => 0x80,
        }
    }
}

#[derive(Debug, Clone, Copy, PartialEq, Eq, Structural)]
pub enum IntelligentControllerSubtype {
    I2O,
}

impl IntelligentControllerSubtype {
    /// The subclass discriminant of each variant.
    pub open spec fn spec_id(self) -> u8 {
        match self {
            IntelligentControllerSubtype::I2O => 0x00,
        }
    }

    pub open spec fn known(id: u8) -> bool {
        id == 0x00
    }

    pub open spec fn spec_decode(id: u8) -> Self {
        {
            IntelligentControllerSubtype::I2O
        }
    }

    pub fn decode(id: u8) -> (r: Result<Self, CodecError>)
        ensures
            r == if Self::known(id) {
                Ok::<Self, CodecError>(Self::spec_decode(id))
            } else {
                Err::<Self, CodecError>(CodecError::UnknownDiscriminant)
            },
            r matches Ok(v) ==> v.spec_id() == id,
    {
        match id {
            0x00 => Ok(IntelligentControllerSubtype::I2O),
            _ => Err(CodecError::UnknownDiscriminant),
        }
    }

    /// The discriminant this variant encodes to.
    pub fn id(&self) -> (r: u8)
        ensures
            r == self.spec_id(),
    {
        match self {
            IntelligentControllerSubtype::I2O => 0x00,
        }
    }
}

#[derive(Debug, Clone, Copy, PartialEq, Eq, Structural)]
pub enum SatelliteCommunicationsControllerSubtype {
    SatelliteTVController,
    SatelliteAudioCommunicationController,
    SatelliteVoiceCommunicationController,
    SatelliteDataCommunicationController,
}

impl SatelliteCommunicationsControllerSubtype {
    /// The subclass discriminant of each variant.
    pub open spec fn spec_id(self) -> u8 {
        match self {
            SatelliteCommunicationsControllerSubtype::SatelliteTVController => 0x01,
            SatelliteCommunicationsControllerSubtype::SatelliteAudioCommunicationController => 0x02,
            SatelliteCommunicationsControllerSubtype::SatelliteVoiceCommunicationController => 0x03,
            SatelliteCommunicationsControllerSubtype::SatelliteDataCommunicationController => 0x04,
        }
    }

    pub open spec fn known(id: u8) -> bool {
        id == 0x01 || id == 0x02 || id == 0x03 || id == 0x04
    }

    pub open spec fn spec_decode(id: u8) -> Self {
        if id == 0x01 {
            SatelliteCommunicationsControllerSubtype::SatelliteTVController
        } else if id == 0x02 {
            SatelliteCommunicationsControllerSubtype::SatelliteAudioCommunicationController
        } else if id == 0x03 {
            SatelliteCommunicationsControllerSubtype::SatelliteVoiceCommunicationController
        } else {
            SatelliteCommunicationsControllerSubtype::SatelliteDataCommunicationController
        }
    }

    pub fn decode(id: u8) -> (r: Result<Self, CodecError>)
        ensures
            r == if Self::known(id) {
                Ok::<Self, CodecError>(Self::spec_decode(id))
            } else {
                Err::<Self, CodecError>(CodecError::UnknownDiscriminant)
            },
            r matches Ok(v) ==> v.spec_id() == id,
    {
        match id {
            0x01 => Ok(SatelliteCommunicationsControllerSubtype::SatelliteTVController),
            0x02 => Ok(SatelliteCommunicationsControllerSubtype::SatelliteAudioCommunicationController),
            0x03 => Ok(SatelliteCommunicationsControllerSubtype::SatelliteVoiceCommunicationController),
            0x04 => Ok(SatelliteCommunicationsControllerSubtype::SatelliteDataCommunicationController),
            _ => Err(CodecError::UnknownDiscriminant),
        }
    }

    /// The discriminant this variant encodes to.
    pub fn id(&self) -> (r: u8)
        ensures
            r == self.spec_id(),
    {
        match self {
            SatelliteCommunicationsControllerSubtype::SatelliteTVController => 0x01,
            SatelliteCommunicationsControllerSubtype::SatelliteAudioCommunicationController => 0x02,
            SatelliteCommunicationsControllerSubtype::SatelliteVoiceCommunicationController => 0x03,
            SatelliteCommunicationsControllerSubtype::SatelliteDataCommunicationController => 0x04,
        }
    }
}

#[derive(Debug, Clone, Copy, PartialEq, Eq, Structural)]
pub enum EncryptionControllerSubtype {
    NetworkAndComputingEncryptionDevice,
    EntertainmentEncryptionDevice,
    EncryptionController,
}

impl EncryptionControllerSubtype {
    /// The subclass discriminant of each variant.
    pub open spec fn spec_id(self) -> u8 {
        match self {
            EncryptionControllerSubtype::NetworkAndComputingEncryptionDevice => 0x00,
            EncryptionControllerSubtype::EntertainmentEncryptionDevice => 0x10,
            EncryptionControllerSubtype::EncryptionController => 0x80,
        }
    }

    pub open spec fn known(id: u8) -> bool {
        id == 0x00 || id == 0x10 || id == 0x80
    }

    pub open spec fn spec_decode(id: u8) -> Self {
        if id == 0x00 {
            EncryptionControllerSubtype::NetworkAndComputingEncryptionDevice
        } else if id == 0x10 {
            EncryptionControllerSubtype::EntertainmentEncryptionDevice
        } else {
            EncryptionControllerSubtype::EncryptionController
        }
    }

    pub fn decode(id: u8) -> (r: Result<Self, CodecError>)
        ensures
            r == if Self::known(id) {
                Ok::<Self, CodecError>(Self::spec_decode(id))
            } else {
                Err::<Self, CodecError>(CodecError::UnknownDiscriminant)
            },
            r matches Ok(v) ==> v.spec_id() == id,
    {
        match id {
            0x00 => Ok(EncryptionControllerSubtype::NetworkAndComputingEncryptionDevice),
            0x10 => Ok(EncryptionControllerSubtype::EntertainmentEncryptionDevice),
            0x80 => Ok(EncryptionControllerSubtype::EncryptionController),
            _ => Err(CodecError::UnknownDiscriminant),
        }
    }

    /// The discriminant this variant encodes to.
    pub fn id(&self) -> (r: u8)
        ensures
            r == self.spec_id(),
    {
        match self {
            EncryptionControllerSubtype::NetworkAndComputingEncryptionDevice => 0x00,
            EncryptionControllerSubtype::EntertainmentEncryptionDevice => 0x10,
            EncryptionControllerSubtype::EncryptionController => 0x80,
        }
    }
}

#[derive(Debug, Clone, Copy, PartialEq, Eq, Structural)]
pub enum SignalProcessingControllerSubtype {
    DPIOModule,
    PerformanceCounters,
    CommunicationSynchronizer,
    SignalProcessingManagement,
    SignalProcessingController,
}

impl SignalProcessingControllerSubtype {
    /// The subclass discriminant of each variant.
    pub open spec fn spec_id(self) -> u8 {
        match self {
            SignalProcessingControllerSubtype::DPIOModule => 0x00,
            SignalProcessingControllerSubtype::PerformanceCounters => 0x01,
            SignalProcessingControllerSubtype::CommunicationSynchronizer => 0x10,
            SignalProcessingControllerSubtype::SignalProcessingManagement => 0x20,
            SignalProcessingControllerSubtype::SignalProcessingController => 0x80,
        }
    }

    pub open spec fn known(id: u8) -> bool {
        id == 0x00 || id == 0x01 || id == 0x10 || id == 0x20 || id == 0x80
    }

    pub open spec fn spec_decode(id: u8) -> Self {
        if id == 0x00 {
            SignalProcessingControllerSubtype::DPIOModule
        } else if id == 0x01 {
            SignalProcessingControllerSubtype::PerformanceCounters
        } else if id == 0x10 {
            SignalProcessingControllerSubtype::CommunicationSynchronizer
        } else if id == 0x20 {
            SignalProcessingControllerSubtype::SignalProcessingManagement
        } else {
            SignalProcessingControllerSubtype::SignalProcessingController
        }
    }

    pub fn decode(id: u8) -> (r: Result<Self, CodecError>)
        ensures
            r == if Self::known(id) {
                Ok::<Self, CodecError>(Self::spec_decode(id))
            } else {
                Err::<Self, CodecError>(CodecError::UnknownDiscriminant)
            },
            r matches Ok(v) ==> v.spec_id() == id,
    {
        match id {
            0x00 => Ok(SignalProcessingControllerSubtype::DPIOModule),
            0x01 => Ok(SignalProcessingControllerSubtype::PerformanceCounters),
            0x10 => Ok(SignalProcessingControllerSubtype::CommunicationSynchronizer),
            0x20 => Ok(SignalProcessingControllerSubtype::SignalProcessingManagement),
            0x80 => Ok(SignalProcessingControllerSubtype::SignalProcessingController),
            _ => Err(CodecError::UnknownDiscriminant),
        }
    }

    /// The discriminant this variant encodes to.
    pub fn id(&self) -> (r: u8)
        ensures
            r == self.spec_id(),
    {
        match self {
            SignalProcessingControllerSubtype::DPIOModule => 0x00,
            SignalProcessingControllerSubtype::PerformanceCounters => 0x01,
            SignalProcessingControllerSubtype::CommunicationSynchronizer => 0x10,
            SignalProcessingControllerSubtype::SignalProcessingManagement => 0x20,
            SignalProcessingControllerSubtype::SignalProcessingController => 0x80,
        }
    }
}

#[derive(Debug, Clone, Copy, PartialEq, Eq, Structural)]
pub enum ProcessingAcceleratorsSubtype {
    ProcessingAccelerators,
    SNIASmartDataAcceleratorInterfaceSDXIController,
}

impl ProcessingAcceleratorsSubtype {
    /// The subclass discriminant of each variant.
    pub open spec fn spec_id(self) -> u8 {
        match self {
            ProcessingAcceleratorsSubtype::ProcessingAccelerators => 0x00,
            ProcessingAcceleratorsSubtype::SNIASmartDataAcceleratorInterfaceSDXIController => 0x01,
        }
    }

    pub open spec fn known(id: u8) -> bool {
        id == 0x00 || id == 0x01
    }

    pub open spec fn spec_decode(id: u8) -> Self {
        if id == 0x00 {
            ProcessingAcceleratorsSubtype::ProcessingAccelerators
        } else {
            ProcessingAcceleratorsSubtype::SNIASmartDataAcceleratorInterfaceSDXIController
        }
    }

    pub fn decode(id: u8) -> (r: Result<Self, CodecError>)
        ensures
            r == if Self::known(id) {
                Ok::<Self, CodecError>(Self::spec_decode(id))
            } else {
                Err::<Self, CodecError>(CodecError::UnknownDiscriminant)
            },
            r matches Ok(v) ==> v.spec_id() == id,
    {
        match id {
            0x00 => Ok(ProcessingAcceleratorsSubtype::ProcessingAccelerators),
            0x01 => Ok(ProcessingAcceleratorsSubtype::SNIASmartDataAcceleratorInterfaceSDXIController),
            _ => Err(CodecError::UnknownDiscriminant),
        }
    }

    /// The discriminant this variant encodes to.
    pub fn id(&self) -> (r: u8)
        ensures
            r == self.spec_id(),
    {
        match self {
            ProcessingAcceleratorsSubtype::ProcessingAccelerators => 0x00,
            ProcessingAcceleratorsSubtype::SNIASmartDataAcceleratorInterfaceSDXIController => 0x01,
        }
    }
}

#[derive(Debug, Clone, Copy, PartialEq, Eq, Structural)]
pub enum PciDeviceClass {
    UnclassifiedDevice(UnclassifiedDeviceSubtype),
    MassStorageController(MassStorageControllerSubtype),
    NetworkController(NetworkControllerSubtype),
    DisplayController(DisplayControllerSubtype),
    MultimediaController(MultimediaControllerSubtype),
    MemoryController(MemoryControllerSubtype),
    Bridge(BridgeSubtype),
    CommunicationController(CommunicationControllerSubtype),
    GenericSystemPeripheral(GenericSystemPeripheralSubtype),
    InputDeviceController(InputDeviceControllerSubtype),
    DockingStation(DockingStationSubtype),
    Processor(ProcessorSubtype),
    SerialBusController(SerialBusControllerSubtype),
    WirelessController(WirelessControllerSubtype),
    IntelligentController(IntelligentControllerSubtype),
    SatelliteCommunicationsController(SatelliteCommunicationsControllerSubtype),
    EncryptionController(EncryptionControllerSubtype),
    SignalProcessingController(SignalProcessingControllerSubtype),
    ProcessingAccelerators(ProcessingAcceleratorsSubtype),
    NonEssentialInstrumentation,
    Coprocessor,
    UnassignedClass,
}

impl PciDeviceClass {
    /// The class code of each variant.
    pub open spec fn spec_id(self) -> u8 {
        match self {
            PciDeviceClass::UnclassifiedDevice(_) => 0x00,
            PciDeviceClass::MassStorageController(_) => 0x01,
            PciDeviceClass::NetworkController(_) => 0x02,
            PciDeviceClass::DisplayController(_) => 0x03,
            PciDeviceClass::MultimediaController(_) => 0x04,
            PciDeviceClass::MemoryController(_) => 0x05,
            PciDeviceClass::Bridge(_) => 0x06,
            PciDeviceClass::CommunicationController(_) => 0x07,
            PciDeviceClass::GenericSystemPeripheral(_) => 0x08,
            PciDeviceClass::InputDeviceController(_) => 0x09,
            PciDeviceClass::DockingStation(_) => 0x0A,
            PciDeviceClass::Processor(_) => 0x0B,
            PciDeviceClass::SerialBusController(_) => 0x0C,
            PciDeviceClass::WirelessController(_) => 0x0D,
            PciDeviceClass::IntelligentController(_) => 0x0E,
            PciDeviceClass::SatelliteCommunicationsController(_) => 0x0F,
            PciDeviceClass::EncryptionController(_) => 0x10,
            PciDeviceClass::SignalProcessingController(_) => 0x11,
            PciDeviceClass::ProcessingAccelerators(_) => 0x12,
            PciDeviceClass::NonEssentialInstrumentation => 0x13,
            PciDeviceClass::Coprocessor => 0x40,
            PciDeviceClass::UnassignedClass => 0xFF,
        }
    }

    /// The class codes that select a listed variant; any other
    /// class code decodes to `UnassignedClass`.
    pub open spec fn known_class(class_code: u8) -> bool {
        class_code == 0x00 || class_code == 0x01 || class_code == 0x02 || class_code == 0x03 || class_code == 0x04 || class_code == 0x05 || class_code == 0x06 || class_code == 0x07 || class_code == 0x08 || class_code == 0x09 || class_code == 0x0A || class_code == 0x0B || class_code == 0x0C || class_code == 0x0D || class_code == 0x0E || class_code == 0x0F || class_code == 0x10 || class_code == 0x11 || class_code == 0x12 || class_code == 0x13 || class_code == 0x40 || class_code == 0xFF
    }

    /// Decoding the synthetic class field from the three already-
    /// decoded discriminants.  An unmapped class code yields
    /// `UnassignedClass`; an unmapped subclass or programming
    /// interface of a mapped class is an error.
    pub open spec fn spec_decode(class_code: u8, subclass: u8, prog_if: u8) -> Result<Self, CodecError> {
        if !Self::known_class(class_code) {
            Ok(PciDeviceClass::UnassignedClass)
        } else if class_code == 0x00 {
            if UnclassifiedDeviceSubtype::known(subclass) {
                    Ok(PciDeviceClass::UnclassifiedDevice(UnclassifiedDeviceSubtype::spec_decode(subclass)))
                } else {
                    Err(CodecError::UnknownDiscriminant)
                }
        } else if class_code == 0x01 {
            if MassStorageControllerSubtype::known(subclass, prog_if) {
                    Ok(PciDeviceClass::MassStorageController(MassStorageControllerSubtype::spec_decode(subclass, prog_if)))
                } else {
                    Err(CodecError::UnknownDiscriminant)
                }
        } else if class_code == 0x02 {
            if NetworkControllerSubtype::known(subclass) {
                    Ok(PciDeviceClass::NetworkController(NetworkControllerSubtype::spec_decode(subclass)))
                } else {
                    Err(CodecError::UnknownDiscriminant)
                }
        } else if class_code == 0x03 {
            if DisplayControllerSubtype::known(subclass, prog_if) {
                    Ok(PciDeviceClass::DisplayController(DisplayControllerSubtype::spec_decode(subclass, prog_if)))
                } else {
                    Err(CodecError::UnknownDiscriminant)
                }
        } else if class_code == 0x04 {
            if MultimediaControllerSubtype::known(subclass) {
                    Ok(PciDeviceClass::MultimediaController(MultimediaControllerSubtype::spec_decode(subclass)))
                } else {
                    Err(CodecError::UnknownDiscriminant)
                }
        } else if class_code == 0x05 {
            if MemoryControllerSubtype::known(subclass, prog_if) {
                    Ok(PciDeviceClass::MemoryController(MemoryControllerSubtype::spec_decode(subclass, prog_if)))
                } else {
                    Err(CodecError::UnknownDiscriminant)
                }
        } else if class_code == 0x06 {
            if BridgeSubtype::known(subclass, prog_if) {
                    Ok(PciDeviceClass::Bridge(BridgeSubtype::spec_decode(subclass, prog_if)))
                } else {
                    Err(CodecError::UnknownDiscriminant)
                }
        } else if class_code == 0x07 {
            if CommunicationControllerSubtype::known(subclass, prog_if) {
                    Ok(PciDeviceClass::CommunicationController(CommunicationControllerSubtype::spec_decode(subclass, prog_if)))
                } else {
                    Err(CodecError::UnknownDiscriminant)
                }
        } else if class_code == 0x08 {
            if GenericSystemPeripheralSubtype::known(subclass, prog_if) {
                    Ok(PciDeviceClass::GenericSystemPeripheral(GenericSystemPeripheralSubtype::spec_decode(subclass, prog_if)))
                } else {
                    Err(CodecError::UnknownDiscriminant)
                }
        } else if class_code == 0x09 {
            if InputDeviceControllerSubtype::known(subclass, prog_if) {
                    Ok(PciDeviceClass::InputDeviceController(InputDeviceControllerSubtype::spec_decode(subclass, prog_if)))
                } else {
                    Err(CodecError::UnknownDiscriminant)
                }
        } else if class_code == 0x0A {
            if DockingStationSubtype::known(subclass) {
                    Ok(PciDeviceClass::DockingStation(DockingStationSubtype::spec_decode(subclass)))
                } else {
                    Err(CodecError::UnknownDiscriminant)
                }
        } else if class_code == 0x0B {
            if ProcessorSubtype::known(subclass) {
                    Ok(PciDeviceClass::Processor(ProcessorSubtype::spec_decode(subclass)))
                } else {
                    Err(CodecError::UnknownDiscriminant)
                }
        } else if class_code == 0x0C {
            if SerialBusControllerSubtype::known(subclass, prog_if) {
                    Ok(PciDeviceClass::SerialBusController(SerialBusControllerSubtype::spec_decode(subclass, prog_if)))
                } else {
                    Err(CodecError::UnknownDiscriminant)
                }
        } else if class_code == 0x0D {
            if WirelessControllerSubtype::known(subclass) {
                    Ok(PciDeviceClass::WirelessController(WirelessControllerSubtype::spec_decode(subclass)))
                } else {
                    Err(CodecError::UnknownDiscriminant)
                }
        } else if class_code == 0x0E {
            if IntelligentControllerSubtype::known(subclass) {
                    Ok(PciDeviceClass::IntelligentController(IntelligentControllerSubtype::spec_decode(subclass)))
                } else {
                    Err(CodecError::UnknownDiscriminant)
                }
        } else if class_code == 0x0F {
            if SatelliteCommunicationsControllerSubtype::known(subclass) {
                    Ok(PciDeviceClass::SatelliteCommunicationsController(SatelliteCommunicationsControllerSubtype::spec_decode(subclass)))
                } else {
                    Err(CodecError::UnknownDiscriminant)
                }
        } else if class_code == 0x10 {
            if EncryptionControllerSubtype::known(subclass) {
                    Ok(PciDeviceClass::EncryptionController(EncryptionControllerSubtype::spec_decode(subclass)))
                } else {
                    Err(CodecError::UnknownDiscriminant)
                }
        } else if class_code == 0x11 {
            if SignalProcessingControllerSubtype::known(subclass) {
                    Ok(PciDeviceClass::SignalProcessingController(SignalProcessingControllerSubtype::spec_decode(subclass)))
                } else {
                    Err(CodecError::UnknownDiscriminant)
                }
        } else if class_code == 0x12 {
            if ProcessingAcceleratorsSubtype::known(subclass) {
                    Ok(PciDeviceClass::ProcessingAccelerators(ProcessingAcceleratorsSubtype::spec_decode(subclass)))
                } else {
                    Err(CodecError::UnknownDiscriminant)
                }
        } else if class_code == 0x13 {
            Ok(PciDeviceClass::NonEssentialInstrumentation)
        } else if class_code == 0x40 {
            Ok(PciDeviceClass::Coprocessor)
        } else {
            Ok(PciDeviceClass::UnassignedClass)
        }
    }

    pub fn decode(class_code: u8, subclass: u8, prog_if: u8) -> (r: Result<Self, CodecError>)
        ensures
            r == Self::spec_decode(class_code, subclass, prog_if),
    {
        match class_code {
            0x00 => match UnclassifiedDeviceSubtype::decode(subclass) {
                Ok(s) => Ok(PciDeviceClass::UnclassifiedDevice(s)),
                Err(e) => Err(e),
            },
            0x01 => match MassStorageControllerSubtype::decode(subclass, prog_if) {
                Ok(s) => Ok(PciDeviceClass::MassStorageController(s)),
                Err(e) => Err(e),
            },
            0x02 => match NetworkControllerSubtype::decode(subclass) {
                Ok(s) => Ok(PciDeviceClass::NetworkController(s)),
                Err(e) => Err(e),
            },
            0x03 => match DisplayControllerSubtype::decode(subclass, prog_if) {
                Ok(s) => Ok(PciDeviceClass::DisplayController(s)),
                Err(e) => Err(e),
            },
            0x04 => match MultimediaControllerSubtype::decode(subclass) {
                Ok(s) => Ok(PciDeviceClass::MultimediaController(s)),
                Err(e) => Err(e),
            },
            0x05 => match MemoryControllerSubtype::decode(subclass, prog_if) {
                Ok(s) => Ok(PciDeviceClass::MemoryController(s)),
                Err(e) => Err(e),
            },
            0x06 => match BridgeSubtype::decode(subclass, prog_if) {
                Ok(s) => Ok(PciDeviceClass::Bridge(s)),
                Err(e) => Err(e),
            },
            0x07 => match CommunicationControllerSubtype::decode(subclass, prog_if) {
                Ok(s) => Ok(PciDeviceClass::CommunicationController(s)),
                Err(e) => Err(e),
            },
            0x08 => match GenericSystemPeripheralSubtype::decode(subclass, prog_if) {
                Ok(s) => Ok(PciDeviceClass::GenericSystemPeripheral(s)),
                Err(e) => Err(e),
            },
            0x09 => match InputDeviceControllerSubtype::decode(subclass, prog_if) {
                Ok(s) => Ok(PciDeviceClass::InputDeviceController(s)),
                Err(e) => Err(e),
            },
            0x0A => match DockingStationSubtype::decode(subclass) {
                Ok(s) => Ok(PciDeviceClass::DockingStation(s)),
                Err(e) => Err(e),
            },
            0x0B => match ProcessorSubtype::decode(subclass) {
                Ok(s) => Ok(PciDeviceClass::Processor(s)),
                Err(e) => Err(e),
            },
            0x0C => match SerialBusControllerSubtype::decode(subclass, prog_if) {
                Ok(s) => Ok(PciDeviceClass::SerialBusController(s)),
                Err(e) => Err(e),
            },
            0x0D => match WirelessControllerSubtype::decode(subclass) {
                Ok(s) => Ok(PciDeviceClass::WirelessController(s)),
                Err(e) => Err(e),
            },
            0x0E => match IntelligentControllerSubtype::decode(subclass) {
                Ok(s) => Ok(PciDeviceClass::IntelligentController(s)),
                Err(e) => Err(e),
            },
            0x0F => match SatelliteCommunicationsControllerSubtype::decode(subclass) {
                Ok(s) => Ok(PciDeviceClass::SatelliteCommunicationsController(s)),
                Err(e) => Err(e),
            },
            0x10 => match EncryptionControllerSubtype::decode(subclass) {
                Ok(s) => Ok(PciDeviceClass::EncryptionController(s)),
                Err(e) => Err(e),
            },
            0x11 => match SignalProcessingControllerSubtype::decode(subclass) {
                Ok(s) => Ok(PciDeviceClass::SignalProcessingController(s)),
                Err(e) => Err(e),
            },
            0x12 => match ProcessingAcceleratorsSubtype::decode(subclass) {
                Ok(s) => Ok(PciDeviceClass::ProcessingAccelerators(s)),
                Err(e) => Err(e),
            },
            0x13 => Ok(PciDeviceClass::NonEssentialInstrumentation),
            0x40 => Ok(PciDeviceClass::Coprocessor),
            0xFF => Ok(PciDeviceClass::UnassignedClass),
            _ => Ok(PciDeviceClass::UnassignedClass),
        }
    }

    /// The class code this variant encodes to.
    pub fn id(&self) -> (r: u8)
        ensures
            r == self.spec_id(),
    {
        match self {
            PciDeviceClass::UnclassifiedDevice(_) => 0x00,
            PciDeviceClass::MassStorageController(_) => 0x01,
            PciDeviceClass::NetworkController(_) => 0x02,
            PciDeviceClass::DisplayController(_) => 0x03,
            PciDeviceClass::MultimediaController(_) => 0x04,
            PciDeviceClass::MemoryController(_) => 0x05,
            PciDeviceClass::Bridge(_) => 0x06,
            PciDeviceClass::CommunicationController(_) => 0x07,
            PciDeviceClass::GenericSystemPeripheral(_) => 0x08,
            PciDeviceClass::InputDeviceController(_) => 0x09,
            PciDeviceClass::DockingStation(_) => 0x0A,
            PciDeviceClass::Processor(_) => 0x0B,
            PciDeviceClass::SerialBusController(_) => 0x0C,
            PciDeviceClass::WirelessController(_) => 0x0D,
            PciDeviceClass::IntelligentController(_) => 0x0E,
            PciDeviceClass::SatelliteCommunicationsController(_) => 0x0F,
            PciDeviceClass::EncryptionController(_) => 0x10,
            PciDeviceClass::SignalProcessingController(_) => 0x11,
            PciDeviceClass::ProcessingAccelerators(_) => 0x12,
            PciDeviceClass::NonEssentialInstrumentation => 0x13,
            PciDeviceClass::Coprocessor => 0x40,
            PciDeviceClass::UnassignedClass => 0xFF,
        }
    }
}

impl Default for PciDeviceClass {
    /// The default class is the unassigned one.
    fn default() -> (r: Self)
        ensures
            r == PciDeviceClass::UnassignedClass,
    {
        PciDeviceClass::UnassignedClass
    }
}

} // verus!
