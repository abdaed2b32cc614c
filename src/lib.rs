//! Control-plane logic for the kernel's hardware virtualization interface:
//! exit-record decoding, guest memory regions, capability gates and
//! notification-channel registrations.  The kernel calls themselves are
//! made by the caller, who hands the answers to the functions here.
pub mod capability;
pub mod error;
pub mod ioaddress;
pub mod machine;
pub mod memory;
pub mod mpstate;
pub mod msr;
pub mod notify;
pub mod pause;
pub mod region;
pub mod system;
pub mod vcpu;
