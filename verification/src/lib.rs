//! Userspace PCI Express driver support over VFIO, with NVMe controller
//! bring-up as the worked device.
//!
//! The crate holds the decision and codec half of such a driver, all of it
//! verified: bus/device/function addresses ([`addr`]), the bit-exact PCI
//! configuration-space codec ([`pci_config`]) with its typed class tree
//! ([`pci_class`]), the `pci.ids` database parser ([`ids`]) with a search
//! layer ([`search`]) and a source emitter for the class tree
//! ([`codegen`]), the VFIO wire structures and lifecycle checks
//! ([`vfio`]), and the NVMe register codecs and enable/ready/shutdown/
//! disable state machine ([`nvme`]).  Opening device nodes, issuing
//! ioctls, mapping MMIO and sleeping between polls stay with the caller,
//! which exchanges plain values with the functions here.

pub mod digits;
pub mod split;
pub mod addr;
pub mod codec;
pub mod nvme;
pub mod pci_class;
pub mod pci_config;
pub mod ids;
pub mod vfio;
pub mod search;
pub mod codegen;
