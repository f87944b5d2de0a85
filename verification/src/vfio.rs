//! VFIO support: the wire structures the ioctl protocol exchanges, their
//! byte codecs, the request numbers, and the checks that decide the
//! container and group lifecycle.  Opening device nodes and issuing the
//! ioctls themselves is the caller's part; the functions here consume and
//! produce the plain values that cross that boundary.

use vstd::prelude::*;
use crate::codec::{
    le32, lemma_u32_le_roundtrip, lemma_u64_le_roundtrip, le64, push_u32_le, push_u64_le,
    read_u16_le, read_u32_le, read_u64_le, u32_le_bytes, u64_le_bytes, CodecError,
};
use crate::pci_class::PciDeviceClass;
use crate::pci_config::{PciCommandRegister, PciStatusRegister, lemma_command_raw_roundtrip,
    lemma_status_raw_roundtrip};

verus! {

/// Failure kinds of the VFIO lifecycle.
#[derive(Debug, Clone, Copy, PartialEq, Eq, Structural)]
pub enum VfioError {
    /// An ioctl or open failed; carries the errno.
    Io(i32),
    /// The container reports an API version other than the expected one.
    ApiMismatch,
    /// The container does not support the required IOMMU type.
    Unsupported,
    /// The group status lacks the viable flag.
    NotViable,
    /// The group status lacks the container-set flag after the set ioctl.
    SetContainerFailed,
    /// A region index at or above the region count limit.
    BadRegionIndex,
}

/// The container API version the library understands.
pub const VFIO_API_VERSION_EXPECTED: u32 = 0;

/// The IOMMU type the container is asked for.
pub const VFIO_IOMMU_TYPE1V2: u32 = 3;

/// The operations of the VFIO ioctl protocol.
#[derive(Debug, Clone, Copy, PartialEq, Eq, Structural)]
pub enum VfioIoctl {
    GetApiVersion,
    CheckExtension,
    SetIommu,
    GroupGetStatus,
    GroupSetContainer,
    GroupGetDeviceFd,
    DeviceGetInfo,
    DeviceGetRegionInfo,
}

impl VfioIoctl {
    /// The operation's offset above the ioctl base number.
    pub open spec fn spec_op(self) -> u64 {
        match self {
            VfioIoctl::GetApiVersion => 0,
            VfioIoctl::CheckExtension => 1,
            VfioIoctl::SetIommu => 2,
            VfioIoctl::GroupGetStatus => 3,
            VfioIoctl::GroupSetContainer => 4,
            VfioIoctl::GroupGetDeviceFd => 6,
            VfioIoctl::DeviceGetInfo => 7,
            VfioIoctl::DeviceGetRegionInfo => 8,
        }
    }

    /// The ioctl request number: the VFIO type byte shifted into place,
    /// plus 100 and the operation offset.
    pub fn request(self) -> (r: u64)
        ensures
            r == ((0x3b as u64) << 8) + 100 + self.spec_op(),
    {
        let op: u64 = match self {
            VfioIoctl::GetApiVersion => 0,
            VfioIoctl::CheckExtension => 1,
            VfioIoctl::SetIommu => 2,
            VfioIoctl::GroupGetStatus => 3,
            VfioIoctl::GroupSetContainer => 4,
            VfioIoctl::GroupGetDeviceFd => 6,
            VfioIoctl::DeviceGetInfo => 7,
            VfioIoctl::DeviceGetRegionInfo => 8,
        };
        proof {
            assert(((0x3b as u64) << 8) == 0x3b00) by (bit_vector);
        }
        0x3b00 + 100 + op
    }
}

/// The container checks of `new_container`: the reported API version must
/// equal the expected constant, and the type 1 v2 IOMMU extension must be
/// reported supported (nonzero).
pub fn container_check(api_version: u32, type1v2_support: u32) -> (r: Result<(), VfioError>)
    ensures
        r == if api_version != VFIO_API_VERSION_EXPECTED {
            Err::<(), VfioError>(VfioError::ApiMismatch)
        } else if type1v2_support == 0 {
            Err::<(), VfioError>(VfioError::Unsupported)
        } else {
            Ok::<(), VfioError>(())
        },
{
    if api_version != VFIO_API_VERSION_EXPECTED {
        Err(VfioError::ApiMismatch)
    } else if type1v2_support == 0 {
        Err(VfioError::Unsupported)
    } else {
        Ok(())
    }
}

/// Region indexes run from 0 to 8; index 7 addresses configuration space
/// and index 0 addresses BAR0.
pub fn check_region_index(index: u8) -> (r: Result<(), VfioError>)
    ensures
        r == if index < 9 {
            Ok::<(), VfioError>(())
        } else {
            Err::<(), VfioError>(VfioError::BadRegionIndex)
        },
{
    if index < 9 {
        Ok(())
    } else {
        Err(VfioError::BadRegionIndex)
    }
}

// ---- vfio_group_status ------------------------------------------------------

/// The flags of `vfio_group_status`.
#[derive(Debug, Clone, Copy, PartialEq, Eq, Structural)]
pub enum VfioGroupStatusFlag {
    ContainerSet,
    Viable,
}

/// The `vfio_group_status` structure: `argsz` and a native-endian flag
/// word, eight bytes on the wire.
#[derive(Debug, Clone, Copy, PartialEq, Eq, Structural)]
pub struct VfioGroupStatus {
    pub argsz: u32,
    pub flags: u32,
}

/// The serialized size of `vfio_group_status`.
pub const VFIO_GROUP_STATUS_SIZE: usize = 8;

impl VfioGroupStatus {
    pub open spec fn spec_flag(self, flag: VfioGroupStatusFlag) -> bool {
        match flag {
            VfioGroupStatusFlag::Viable => self.flags & 1 != 0,
            VfioGroupStatusFlag::ContainerSet => self.flags & 2 != 0,
        }
    }

    pub open spec fn spec_to_bytes(self) -> Seq<u8> {
        u32_le_bytes(self.argsz) + u32_le_bytes(self.flags)
    }

    pub open spec fn spec_from_bytes(b: Seq<u8>) -> Result<Self, CodecError> {
        if b.len() < 8 {
            Err(CodecError::Truncated)
        } else {
            Ok(
                VfioGroupStatus {
                    argsz: le32(b[0], b[1], b[2], b[3]) as u32,
                    flags: le32(b[4], b[5], b[6], b[7]) as u32,
                },
            )
        }
    }

    /// Decode the structure from the front of a buffer; the rest of the
    /// buffer is returned as a count of unread bytes.
    pub fn from_bytes(b: &[u8]) -> (r: Result<(usize, Self), CodecError>)
        ensures
            match r {
                Ok((remaining, v)) => Self::spec_from_bytes(b@) == Ok::<Self, CodecError>(v)
                    && remaining == b@.len() - 8,
                Err(e) => Self::spec_from_bytes(b@) == Err::<Self, CodecError>(e),
            },
    {
        if b.len() < 8 {
            return Err(CodecError::Truncated);
        }
        let argsz = read_u32_le(b, 0);
        let flags = read_u32_le(b, 4);
        Ok((b.len() - 8, VfioGroupStatus { argsz, flags }))
    }

    pub fn to_bytes(&self) -> (r: Vec<u8>)
        ensures
            r@ =~= self.spec_to_bytes(),
            r@.len() == VFIO_GROUP_STATUS_SIZE,
    {
        let mut out: Vec<u8> = Vec::new();
        push_u32_le(&mut out, self.argsz);
        push_u32_le(&mut out, self.flags);
        out
    }

    pub fn get_flag(&self, flag: VfioGroupStatusFlag) -> (r: bool)
        ensures
            r == self.spec_flag(flag),
    {
        match flag {
            VfioGroupStatusFlag::Viable => self.flags & 1 != 0,
            VfioGroupStatusFlag::ContainerSet => self.flags & 2 != 0,
        }
    }

    /// The set flags, container-set first, as the wire order has them.
    pub fn get_flags(&self) -> (r: Vec<VfioGroupStatusFlag>)
        ensures
            r@ == (if self.spec_flag(VfioGroupStatusFlag::ContainerSet) {
                seq![VfioGroupStatusFlag::ContainerSet]
            } else {
                Seq::<VfioGroupStatusFlag>::empty()
            }) + (if self.spec_flag(VfioGroupStatusFlag::Viable) {
                seq![VfioGroupStatusFlag::Viable]
            } else {
                Seq::<VfioGroupStatusFlag>::empty()
            }),
    {
        let mut flags: Vec<VfioGroupStatusFlag> = Vec::new();
        if self.flags & 2 != 0 {
            flags.push(VfioGroupStatusFlag::ContainerSet);
        }
        if self.flags & 1 != 0 {
            flags.push(VfioGroupStatusFlag::Viable);
        }
        proof {
            assert(flags@ =~= (if self.spec_flag(VfioGroupStatusFlag::ContainerSet) {
                seq![VfioGroupStatusFlag::ContainerSet]
            } else {
                Seq::<VfioGroupStatusFlag>::empty()
            }) + (if self.spec_flag(VfioGroupStatusFlag::Viable) {
                seq![VfioGroupStatusFlag::Viable]
            } else {
                Seq::<VfioGroupStatusFlag>::empty()
            }));
        }
        flags
    }

    /// Re-encoding a decoded status restores the first eight bytes.
    pub proof fn lemma_roundtrip(b: Seq<u8>)
        ensures
            Self::spec_from_bytes(b) matches Ok(v) ==> v.spec_to_bytes() =~= b.subrange(0, 8),
    {
        if b.len() >= 8 {
            lemma_u32_le_roundtrip(b[0], b[1], b[2], b[3]);
            lemma_u32_le_roundtrip(b[4], b[5], b[6], b[7]);
        }
    }
}

impl Default for VfioGroupStatus {
    /// The probe value: `argsz` set, flags clear.
    fn default() -> (r: Self)
        ensures
            r == (VfioGroupStatus { argsz: 8u32, flags: 0u32 }),
    {
        VfioGroupStatus { argsz: 8, flags: 0 }
    }
}

/// `add_group` requires a viable group before binding it.
pub fn require_viable(status: &VfioGroupStatus) -> (r: Result<(), VfioError>)
    ensures
        r == if status.spec_flag(VfioGroupStatusFlag::Viable) {
            Ok::<(), VfioError>(())
        } else {
            Err::<(), VfioError>(VfioError::NotViable)
        },
{
    if status.get_flag(VfioGroupStatusFlag::Viable) {
        Ok(())
    } else {
        Err(VfioError::NotViable)
    }
}

/// After the set-container ioctl the group status must report the
/// container as set.
pub fn require_container_set(status: &VfioGroupStatus) -> (r: Result<(), VfioError>)
    ensures
        r == if status.spec_flag(VfioGroupStatusFlag::ContainerSet) {
            Ok::<(), VfioError>(())
        } else {
            Err::<(), VfioError>(VfioError::SetContainerFailed)
        },
{
    if status.get_flag(VfioGroupStatusFlag::ContainerSet) {
        Ok(())
    } else {
        Err(VfioError::SetContainerFailed)
    }
}

// ---- vfio_device_info -------------------------------------------------------

/// The flags of `vfio_device_info`.
#[derive(Debug, Clone, Copy, PartialEq, Eq, Structural)]
pub enum VfioDeviceInfoFlag {
    Reset,
    Pci,
    Platform,
    Amba,
    Ccw,
    Ap,
    FslMc,
    Caps,
    Cdx,
}

impl VfioDeviceInfoFlag {
    /// The bit position of the flag in the flag word.
    pub open spec fn spec_bit(self) -> u32 {
        match self {
            VfioDeviceInfoFlag::Reset => 0,
            VfioDeviceInfoFlag::Pci => 1,
            VfioDeviceInfoFlag::Platform => 2,
            VfioDeviceInfoFlag::Amba => 3,
            VfioDeviceInfoFlag::Ccw => 4,
            VfioDeviceInfoFlag::Ap => 5,
            VfioDeviceInfoFlag::FslMc => 6,
            VfioDeviceInfoFlag::Caps => 7,
            VfioDeviceInfoFlag::Cdx => 8,
        }
    }
}

/// The `vfio_device_info` structure, 24 bytes on the wire.
#[derive(Debug, Clone, Copy, PartialEq, Eq, Structural)]
pub struct VfioDeviceInfo {
    pub argsz: u32,
    pub flags: u32,
    pub num_regions: u32,
    pub num_irqs: u32,
    pub cap_offset: u32,
    pub padding: u32,
}

/// The serialized size of `vfio_device_info`.
pub const VFIO_DEVICE_INFO_SIZE: usize = 24;

impl VfioDeviceInfo {
    pub open spec fn spec_flag(self, flag: VfioDeviceInfoFlag) -> bool {
        self.flags >> flag.spec_bit() & 1 != 0
    }

    pub open spec fn spec_to_bytes(self) -> Seq<u8> {
        u32_le_bytes(self.argsz) + u32_le_bytes(self.flags) + u32_le_bytes(self.num_regions)
            + u32_le_bytes(self.num_irqs) + u32_le_bytes(self.cap_offset) + u32_le_bytes(
            self.padding,
        )
    }

    pub open spec fn spec_from_bytes(b: Seq<u8>) -> Result<Self, CodecError> {
        if b.len() < 24 {
            Err(CodecError::Truncated)
        } else {
            Ok(
                VfioDeviceInfo {
                    argsz: le32(b[0], b[1], b[2], b[3]) as u32,
                    flags: le32(b[4], b[5], b[6], b[7]) as u32,
                    num_regions: le32(b[8], b[9], b[10], b[11]) as u32,
                    num_irqs: le32(b[12], b[13], b[14], b[15]) as u32,
                    cap_offset: le32(b[16], b[17], b[18], b[19]) as u32,
                    padding: le32(b[20], b[21], b[22], b[23]) as u32,
                },
            )
        }
    }

    /// Decode the structure from the front of a buffer; the rest of the
    /// buffer is returned as a count of unread bytes.
    pub fn from_bytes(b: &[u8]) -> (r: Result<(usize, Self), CodecError>)
        ensures
            match r {
                Ok((remaining, v)) => Self::spec_from_bytes(b@) == Ok::<Self, CodecError>(v)
                    && remaining == b@.len() - 24,
                Err(e) => Self::spec_from_bytes(b@) == Err::<Self, CodecError>(e),
            },
    {
        if b.len() < 24 {
            return Err(CodecError::Truncated);
        }
        Ok(
            (
                b.len() - 24,
                VfioDeviceInfo {
                    argsz: read_u32_le(b, 0),
                    flags: read_u32_le(b, 4),
                    num_regions: read_u32_le(b, 8),
                    num_irqs: read_u32_le(b, 12),
                    cap_offset: read_u32_le(b, 16),
                    padding: read_u32_le(b, 20),
                },
            ),
        )
    }

    pub fn to_bytes(&self) -> (r: Vec<u8>)
        ensures
            r@ =~= self.spec_to_bytes(),
            r@.len() == VFIO_DEVICE_INFO_SIZE,
    {
        let mut out: Vec<u8> = Vec::new();
        push_u32_le(&mut out, self.argsz);
        push_u32_le(&mut out, self.flags);
        push_u32_le(&mut out, self.num_regions);
        push_u32_le(&mut out, self.num_irqs);
        push_u32_le(&mut out, self.cap_offset);
        push_u32_le(&mut out, self.padding);
        out
    }

    pub fn get_flag(&self, flag: VfioDeviceInfoFlag) -> (r: bool)
        ensures
            r == self.spec_flag(flag),
    {
        let bit: u32 = match flag {
            VfioDeviceInfoFlag::Reset => 0,
            VfioDeviceInfoFlag::Pci => 1,
            VfioDeviceInfoFlag::Platform => 2,
            VfioDeviceInfoFlag::Amba => 3,
            VfioDeviceInfoFlag::Ccw => 4,
            VfioDeviceInfoFlag::Ap => 5,
            VfioDeviceInfoFlag::FslMc => 6,
            VfioDeviceInfoFlag::Caps => 7,
            VfioDeviceInfoFlag::Cdx => 8,
        };
        self.flags >> bit & 1 != 0
    }

    /// The list of set flags, in bit order.
    pub open spec fn spec_flags_list(self) -> Seq<VfioDeviceInfoFlag> {
        (if self.spec_flag(VfioDeviceInfoFlag::Reset) {
            seq![VfioDeviceInfoFlag::Reset]
        } else {
            Seq::<VfioDeviceInfoFlag>::empty()
        }) + (if self.spec_flag(VfioDeviceInfoFlag::Pci) {
            seq![VfioDeviceInfoFlag::Pci]
        } else {
            Seq::<VfioDeviceInfoFlag>::empty()
        }) + (if self.spec_flag(VfioDeviceInfoFlag::Platform) {
            seq![VfioDeviceInfoFlag::Platform]
        } else {
            Seq::<VfioDeviceInfoFlag>::empty()
        }) + (if self.spec_flag(VfioDeviceInfoFlag::Amba) {
            seq![VfioDeviceInfoFlag::Amba]
        } else {
            Seq::<VfioDeviceInfoFlag>::empty()
        }) + (if self.spec_flag(VfioDeviceInfoFlag::Ccw) {
            seq![VfioDeviceInfoFlag::Ccw]
        } else {
            Seq::<VfioDeviceInfoFlag>::empty()
        }) + (if self.spec_flag(VfioDeviceInfoFlag::Ap) {
            seq![VfioDeviceInfoFlag::Ap]
        } else {
            Seq::<VfioDeviceInfoFlag>::empty()
        }) + (if self.spec_flag(VfioDeviceInfoFlag::FslMc) {
            seq![VfioDeviceInfoFlag::FslMc]
        } else {
            Seq::<VfioDeviceInfoFlag>::empty()
        }) + (if self.spec_flag(VfioDeviceInfoFlag::Caps) {
            seq![VfioDeviceInfoFlag::Caps]
        } else {
            Seq::<VfioDeviceInfoFlag>::empty()
        }) + (if self.spec_flag(VfioDeviceInfoFlag::Cdx) {
            seq![VfioDeviceInfoFlag::Cdx]
        } else {
            Seq::<VfioDeviceInfoFlag>::empty()
        })
    }

    /// The set flags, in bit order.
    pub fn get_flags(&self) -> (r: Vec<VfioDeviceInfoFlag>)
        ensures
            r@ == self.spec_flags_list(),
    {
        let mut flags: Vec<VfioDeviceInfoFlag> = Vec::new();
        self.push_flag(&mut flags, VfioDeviceInfoFlag::Reset);
        self.push_flag(&mut flags, VfioDeviceInfoFlag::Pci);
        self.push_flag(&mut flags, VfioDeviceInfoFlag::Platform);
        self.push_flag(&mut flags, VfioDeviceInfoFlag::Amba);
        self.push_flag(&mut flags, VfioDeviceInfoFlag::Ccw);
        self.push_flag(&mut flags, VfioDeviceInfoFlag::Ap);
        self.push_flag(&mut flags, VfioDeviceInfoFlag::FslMc);
        self.push_flag(&mut flags, VfioDeviceInfoFlag::Caps);
        self.push_flag(&mut flags, VfioDeviceInfoFlag::Cdx);
        proof {
            assert(flags@ =~= self.spec_flags_list());
        }
        flags
    }

    /// Append the flag to the list when it is set.
    fn push_flag(&self, flags: &mut Vec<VfioDeviceInfoFlag>, f: VfioDeviceInfoFlag)
        ensures
            final(flags)@ == old(flags)@ + (if self.spec_flag(f) {
                seq![f]
            } else {
                Seq::<VfioDeviceInfoFlag>::empty()
            }),
    {
        let ghost prev = flags@;
        if self.get_flag(f) {
            flags.push(f);
        }
        proof {
            assert(flags@ =~= prev + (if self.spec_flag(f) {
                seq![f]
            } else {
                Seq::<VfioDeviceInfoFlag>::empty()
            }));
        }
    }

    pub fn get_num_regions(&self) -> (r: usize)
        ensures
            r == self.num_regions,
    {
        self.num_regions as usize
    }

    pub fn get_num_irqs(&self) -> (r: usize)
        ensures
            r == self.num_irqs,
    {
        self.num_irqs as usize
    }

    /// Re-encoding a decoded info structure restores the first 24 bytes.
    pub proof fn lemma_roundtrip(b: Seq<u8>)
        ensures
            Self::spec_from_bytes(b) matches Ok(v) ==> v.spec_to_bytes() =~= b.subrange(0, 24),
    {
        if b.len() >= 24 {
            lemma_u32_le_roundtrip(b[0], b[1], b[2], b[3]);
            lemma_u32_le_roundtrip(b[4], b[5], b[6], b[7]);
            lemma_u32_le_roundtrip(b[8], b[9], b[10], b[11]);
            lemma_u32_le_roundtrip(b[12], b[13], b[14], b[15]);
            lemma_u32_le_roundtrip(b[16], b[17], b[18], b[19]);
            lemma_u32_le_roundtrip(b[20], b[21], b[22], b[23]);
        }
    }
}

impl Default for VfioDeviceInfo {
    /// The probe value: `argsz` set, everything else clear.
    fn default() -> (r: Self)
        ensures
            r == (VfioDeviceInfo {
                argsz: 24u32,
                flags: 0u32,
                num_regions: 0u32,
                num_irqs: 0u32,
                cap_offset: 0u32,
                padding: 0u32,
            }),
    {
        VfioDeviceInfo { argsz: 24, flags: 0, num_regions: 0, num_irqs: 0, cap_offset: 0, padding: 0 }
    }
}

// ---- vfio_region_info -------------------------------------------------------

/// The flags of `vfio_region_info`.
#[derive(Debug, Clone, Copy, PartialEq, Eq, Structural)]
pub enum VfioRegionInfoFlag {
    Read,
    Write,
    Mmap,
    Caps,
}

impl VfioRegionInfoFlag {
    /// The bit position of the flag in the flag word.
    pub open spec fn spec_bit(self) -> u32 {
        match self {
            VfioRegionInfoFlag::Read => 0,
            VfioRegionInfoFlag::Write => 1,
            VfioRegionInfoFlag::Mmap => 2,
            VfioRegionInfoFlag::Caps => 3,
        }
    }
}

/// The `vfio_region_info` structure, 32 bytes on the wire.
#[derive(Debug, Clone, Copy, PartialEq, Eq, Structural)]
pub struct VfioRegionInfo {
    pub argsz: u32,
    pub flags: u32,
    pub index: u32,
    pub cap_offset: u32,
    pub size: u64,
    pub offset: u64,
}

/// The serialized size of `vfio_region_info`.
pub const VFIO_REGION_INFO_SIZE: usize = 32;

impl VfioRegionInfo {
    pub open spec fn spec_flag(self, flag: VfioRegionInfoFlag) -> bool {
        self.flags >> flag.spec_bit() & 1 != 0
    }

    pub open spec fn spec_to_bytes(self) -> Seq<u8> {
        u32_le_bytes(self.argsz) + u32_le_bytes(self.flags) + u32_le_bytes(self.index)
            + u32_le_bytes(self.cap_offset) + u64_le_bytes(self.size) + u64_le_bytes(self.offset)
    }

    pub open spec fn spec_from_bytes(b: Seq<u8>) -> Result<Self, CodecError> {
        if b.len() < 32 {
            Err(CodecError::Truncated)
        } else {
            Ok(
                VfioRegionInfo {
                    argsz: le32(b[0], b[1], b[2], b[3]) as u32,
                    flags: le32(b[4], b[5], b[6], b[7]) as u32,
                    index: le32(b[8], b[9], b[10], b[11]) as u32,
                    cap_offset: le32(b[12], b[13], b[14], b[15]) as u32,
                    size: le64(b[16], b[17], b[18], b[19], b[20], b[21], b[22], b[23]) as u64,
                    offset: le64(b[24], b[25], b[26], b[27], b[28], b[29], b[30], b[31]) as u64,
                },
            )
        }
    }

    /// The probe value handed to the region ioctl: `argsz` and the chosen
    /// index set, everything else clear.
    pub fn probe(index: u8) -> (r: Self)
        ensures
            r == (VfioRegionInfo {
                argsz: 32u32,
                flags: 0u32,
                index: index as u32,
                cap_offset: 0u32,
                size: 0u64,
                offset: 0u64,
            }),
    {
        VfioRegionInfo { argsz: 32, flags: 0, index: index as u32, cap_offset: 0, size: 0, offset: 0 }
    }

    /// Decode the structure from the front of a buffer; the rest of the
    /// buffer is returned as a count of unread bytes.
    pub fn from_bytes(b: &[u8]) -> (r: Result<(usize, Self), CodecError>)
        ensures
            match r {
                Ok((remaining, v)) => Self::spec_from_bytes(b@) == Ok::<Self, CodecError>(v)
                    && remaining == b@.len() - 32,
                Err(e) => Self::spec_from_bytes(b@) == Err::<Self, CodecError>(e),
            },
    {
        if b.len() < 32 {
            return Err(CodecError::Truncated);
        }
        Ok(
            (
                b.len() - 32,
                VfioRegionInfo {
                    argsz: read_u32_le(b, 0),
                    flags: read_u32_le(b, 4),
                    index: read_u32_le(b, 8),
                    cap_offset: read_u32_le(b, 12),
                    size: read_u64_le(b, 16),
                    offset: read_u64_le(b, 24),
                },
            ),
        )
    }

    pub fn to_bytes(&self) -> (r: Vec<u8>)
        ensures
            r@ =~= self.spec_to_bytes(),
            r@.len() == VFIO_REGION_INFO_SIZE,
    {
        let mut out: Vec<u8> = Vec::new();
        push_u32_le(&mut out, self.argsz);
        push_u32_le(&mut out, self.flags);
        push_u32_le(&mut out, self.index);
        push_u32_le(&mut out, self.cap_offset);
        push_u64_le(&mut out, self.size);
        push_u64_le(&mut out, self.offset);
        out
    }

    pub fn get_flag(&self, flag: VfioRegionInfoFlag) -> (r: bool)
        ensures
            r == self.spec_flag(flag),
    {
        let bit: u32 = match flag {
            VfioRegionInfoFlag::Read => 0,
            VfioRegionInfoFlag::Write => 1,
            VfioRegionInfoFlag::Mmap => 2,
            VfioRegionInfoFlag::Caps => 3,
        };
        self.flags >> bit & 1 != 0
    }

    pub fn get_size(&self) -> (r: usize)
        ensures
            r == self.size as usize,
    {
        self.size as usize
    }

    pub fn get_offset(&self) -> (r: u64)
        ensures
            r == self.offset,
    {
        self.offset
    }

    /// Re-encoding a decoded region info restores the first 32 bytes.
    pub proof fn lemma_roundtrip(b: Seq<u8>)
        ensures
            Self::spec_from_bytes(b) matches Ok(v) ==> v.spec_to_bytes() =~= b.subrange(0, 32),
    {
        if b.len() >= 32 {
            lemma_u32_le_roundtrip(b[0], b[1], b[2], b[3]);
            lemma_u32_le_roundtrip(b[4], b[5], b[6], b[7]);
            lemma_u32_le_roundtrip(b[8], b[9], b[10], b[11]);
            lemma_u32_le_roundtrip(b[12], b[13], b[14], b[15]);
            lemma_u64_le_roundtrip(b[16], b[17], b[18], b[19], b[20], b[21], b[22], b[23]);
            lemma_u64_le_roundtrip(b[24], b[25], b[26], b[27], b[28], b[29], b[30], b[31]);
        }
    }
}

impl Default for VfioRegionInfo {
    /// The probe value with index zero.
    fn default() -> (r: Self)
        ensures
            r == (VfioRegionInfo {
                argsz: 32u32,
                flags: 0u32,
                index: 0u32,
                cap_offset: 0u32,
                size: 0u64,
                offset: 0u64,
            }),
    {
        VfioRegionInfo { argsz: 32, flags: 0, index: 0, cap_offset: 0, size: 0, offset: 0 }
    }
}

// ---- the 16-byte configuration header read through VFIO ---------------------

/// The common PCI configuration header, as read over the VFIO
/// configuration-space region: the first 16 bytes only, with the
/// synthetic class field derived from the class triple.
#[derive(Debug, Clone, Copy, PartialEq, Eq, Structural)]
pub struct PciDevice {
    pub vendor_id: u16,
    pub device_id: u16,
    pub command: PciCommandRegister,
    pub status: PciStatusRegister,
    pub revision_id: u8,
    pub prog_if: u8,
    pub subclass: u8,
    pub class_code: u8,
    pub cache_line_size: u8,
    pub latency_timer: u8,
    pub header_type: u8,
    pub bist: u8,
    /// Synthetic: derived from `(class_code, subclass, prog_if)` without
    /// consuming bytes.
    pub pci_id: PciDeviceClass,
}

/// The serialized size of the short configuration header.
pub const PCI_HEADER_SIZE: usize = 16;

impl PciDevice {
    pub open spec fn wf(self) -> bool {
        self.command.wf() && self.status.wf()
    }

    pub open spec fn spec_from_bytes(b: Seq<u8>) -> Result<Self, CodecError> {
        if b.len() < 16 {
            Err(CodecError::Truncated)
        } else if b.len() > 16 {
            Err(CodecError::TrailingBytes)
        } else {
            match PciStatusRegister::spec_from_raw(crate::codec::le16(b[6], b[7]) as u16) {
                Err(e) => Err(e),
                Ok(status) => match PciDeviceClass::spec_decode(b[11], b[10], b[9]) {
                    Err(e) => Err(e),
                    Ok(pci_id) => Ok(
                        PciDevice {
                            vendor_id: crate::codec::le16(b[0], b[1]) as u16,
                            device_id: crate::codec::le16(b[2], b[3]) as u16,
                            command: PciCommandRegister::spec_from_raw(
                                crate::codec::le16(b[4], b[5]) as u16,
                            ),
                            status,
                            revision_id: b[8],
                            prog_if: b[9],
                            subclass: b[10],
                            class_code: b[11],
                            cache_line_size: b[12],
                            latency_timer: b[13],
                            header_type: b[14],
                            bist: b[15],
                            pci_id,
                        },
                    ),
                },
            }
        }
    }

    pub open spec fn spec_to_bytes(self) -> Seq<u8> {
        crate::codec::u16_le_bytes(self.vendor_id) + crate::codec::u16_le_bytes(self.device_id)
            + crate::codec::u16_le_bytes(self.command.to_raw_spec()) + crate::codec::u16_le_bytes(
            self.status.to_raw_spec(),
        ) + seq![
            self.revision_id,
            self.prog_if,
            self.subclass,
            self.class_code,
            self.cache_line_size,
            self.latency_timer,
            self.header_type,
            self.bist,
        ]
    }

    /// Decode a 16-byte configuration header.
    pub fn from_bytes(bytes: &[u8]) -> (r: Result<Self, CodecError>)
        ensures
            r == Self::spec_from_bytes(bytes@),
            r matches Ok(d) ==> d.wf(),
    {
        if bytes.len() < 16 {
            return Err(CodecError::Truncated);
        }
        if bytes.len() > 16 {
            return Err(CodecError::TrailingBytes);
        }
        let status = match PciStatusRegister::from_raw(read_u16_le(bytes, 6)) {
            Ok(s) => s,
            Err(e) => {
                return Err(e);
            },
        };
        let pci_id = match PciDeviceClass::decode(bytes[11], bytes[10], bytes[9]) {
            Ok(c) => c,
            Err(e) => {
                return Err(e);
            },
        };
        Ok(
            PciDevice {
                vendor_id: read_u16_le(bytes, 0),
                device_id: read_u16_le(bytes, 2),
                command: PciCommandRegister::from_raw(read_u16_le(bytes, 4)),
                status,
                revision_id: bytes[8],
                prog_if: bytes[9],
                subclass: bytes[10],
                class_code: bytes[11],
                cache_line_size: bytes[12],
                latency_timer: bytes[13],
                header_type: bytes[14],
                bist: bytes[15],
                pci_id,
            },
        )
    }

    pub fn to_bytes(&self) -> (r: Vec<u8>)
        requires
            self.wf(),
        ensures
            r@ =~= self.spec_to_bytes(),
    {
        let mut out: Vec<u8> = Vec::new();
        crate::codec::push_u16_le(&mut out, self.vendor_id);
        crate::codec::push_u16_le(&mut out, self.device_id);
        crate::codec::push_u16_le(&mut out, self.command.into_raw());
        crate::codec::push_u16_le(&mut out, self.status.into_raw());
        out.push(self.revision_id);
        out.push(self.prog_if);
        out.push(self.subclass);
        out.push(self.class_code);
        out.push(self.cache_line_size);
        out.push(self.latency_timer);
        out.push(self.header_type);
        out.push(self.bist);
        out
    }

    /// Bit-codec round trip: re-encoding a decoded header restores the
    /// input bytes unchanged.
    pub proof fn lemma_roundtrip(b: Seq<u8>)
        ensures
            Self::spec_from_bytes(b) matches Ok(d) ==> d.spec_to_bytes() =~= b,
    {
        if let Ok(d) = Self::spec_from_bytes(b) {
            crate::codec::lemma_u16_le_roundtrip(b[0], b[1]);
            crate::codec::lemma_u16_le_roundtrip(b[2], b[3]);
            crate::codec::lemma_u16_le_roundtrip(b[4], b[5]);
            crate::codec::lemma_u16_le_roundtrip(b[6], b[7]);
            lemma_command_raw_roundtrip(crate::codec::le16(b[4], b[5]) as u16);
            lemma_status_raw_roundtrip(crate::codec::le16(b[6], b[7]) as u16);
            assert(d.spec_to_bytes() =~= b);
        }
    }
}

/// Configuration dual-source agreement: the 64 bytes read from the
/// configuration file and the same 64 bytes read over the VFIO
/// configuration-space region decode to the same values.  Decoding is a
/// function of the bytes alone, so whenever the full region decodes, the
/// short header decode of its first 16 bytes succeeds and agrees with it
/// on every common field, the typed class included.
pub proof fn lemma_config_dual_source(b: Seq<u8>)
    requires
        b.len() == 64,
    ensures
        crate::pci_config::PciDevice::spec_from_bytes(b) matches Ok(d) ==> {
            &&& PciDevice::spec_from_bytes(b.take(16)) matches Ok(h)
            &&& PciDevice::spec_from_bytes(b.take(16)) == Ok::<PciDevice, CodecError>(
                PciDevice {
                    vendor_id: d.vendor_id,
                    device_id: d.device_id,
                    command: d.command,
                    status: d.status,
                    revision_id: d.revision_id,
                    prog_if: d.prog_if,
                    subclass: d.subclass,
                    class_code: d.class_code,
                    cache_line_size: d.cache_line_size,
                    latency_timer: d.latency_timer,
                    header_type: d.header_type.to_raw_spec(),
                    bist: d.bist.to_raw_spec(),
                    pci_id: d.pci_id,
                },
            )
        },
{
    let h16 = b.take(16);
    assert(forall|i: int| 0 <= i < 16 ==> h16[i] == b[i]);
    if let Ok(d) = crate::pci_config::PciDevice::spec_from_bytes(b) {
        crate::pci_config::lemma_pci_header_raw_roundtrip(b[14]);
        crate::pci_config::lemma_bist_raw_roundtrip(b[15]);
    }
}

} // verus!
