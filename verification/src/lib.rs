//! Verified core of a VirtualBox-style virtual machine monitor: CPU state and
//! instruction emulation, guest memory and paging, device and I/O registries,
//! timers, traps, saved-state capture, disk image formats (VDI, VHD, VHDX,
//! QED, DMG, legacy VD, VMDK descriptors and grains, iSCSI addresses), file
//! system front ends, and the rendering helpers that need no browser.
#![allow(non_camel_case_types)]
#![allow(non_snake_case)]

pub mod error;
pub mod cpu;
pub mod iem;
pub mod pgm;
pub mod em;
pub mod vm;
pub mod dbg;
pub mod trpm;
pub mod iom;
pub mod pdm;
pub mod ssm;
pub mod tm;
pub mod optimization;
pub mod bytes;
pub mod disk;
pub mod vdi;
pub mod vhd;
pub mod vhdx;
pub mod qed;
pub mod dmg;
pub mod vd;
pub mod text;
pub mod iscsi;
pub mod vmdk_descriptor;
pub mod vmdk;
pub mod vfs;
