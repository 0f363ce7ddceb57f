//! Early-boot firmware core for a confidential virtual machine: the register
//! channel, the local interrupt controller, secondary-core wake-up, the boot
//! page tables, encryption detection and the kernel handoff data.

pub mod error;
pub mod channel;
pub mod addr;
pub mod apic;
pub mod paging;
pub mod sev;
pub mod boot;
pub mod proto;
