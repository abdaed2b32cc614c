//! Errors of the library.  Each failed kernel call names its request and
//! carries the OS error number the call returned.
use crate::capability::{Capability, CapabilityKind};
use vstd::prelude::*;

verus! {

/// A kernel request that this library issues.
#[derive(Debug, Clone, Copy, PartialEq, Eq, Hash, Structural)]
pub enum Request {
    GetApiVersion,
    CreateVm,
    GetVcpuMmapSize,
    GetMsrIndexList,
    GetMsrFeatureIndexList,
    CheckExtension,
    EnableCap,
    CreateVcpu,
    SetUserMemoryRegion,
    GetDirtyLog,
    CreateIrqchip,
    IrqLineStatus,
    GetClock,
    SetClock,
    SetTssAddr,
    SetIdentityMapAddr,
    CreatePit2,
    Ioeventfd,
    Irqfd,
    Run,
    GetMpState,
    SetMpState,
    Interrupt,
}

impl Request {
    /// The name of the request, as the kernel interface spells it.
    pub open spec fn spec_name(self) -> Seq<char> {
        match self {
            Request::GetApiVersion => "kvm_get_api_version"@,
            Request::CreateVm => "kvm_create_vm"@,
            Request::GetVcpuMmapSize => "kvm_get_vcpu_mmap_size"@,
            Request::GetMsrIndexList => "kvm_get_msr_index_list"@,
            Request::GetMsrFeatureIndexList => "kvm_get_msr_feature_index_list"@,
            Request::CheckExtension => "kvm_check_extension"@,
            Request::EnableCap => "kvm_enable_cap"@,
            Request::CreateVcpu => "kvm_create_vcpu"@,
            Request::SetUserMemoryRegion => "kvm_set_user_memory_region"@,
            Request::GetDirtyLog => "kvm_get_dirty_log"@,
            Request::CreateIrqchip => "kvm_create_irqchip"@,
            Request::IrqLineStatus => "kvm_irq_line_status"@,
            Request::GetClock => "kvm_get_clock"@,
            Request::SetClock => "kvm_set_clock"@,
            Request::SetTssAddr => "kvm_set_tss_addr"@,
            Request::SetIdentityMapAddr => "kvm_set_identity_map_addr"@,
            Request::CreatePit2 => "kvm_create_pit2"@,
            Request::Ioeventfd => "kvm_ioeventfd"@,
            Request::Irqfd => "kvm_irqfd"@,
            Request::Run => "kvm_run"@,
            Request::GetMpState => "kvm_get_mp_state"@,
            Request::SetMpState => "kvm_set_mp_state"@,
            Request::Interrupt => "kvm_interrupt"@,
        }
    }

    /// The name of the request, as the kernel interface spells it.
    pub fn name(&self) -> (r: &'static str)
        ensures
            r@ == self.spec_name(),
    {
        match self {
            Request::GetApiVersion => "kvm_get_api_version",
            Request::CreateVm => "kvm_create_vm",
            Request::GetVcpuMmapSize => "kvm_get_vcpu_mmap_size",
            Request::GetMsrIndexList => "kvm_get_msr_index_list",
            Request::GetMsrFeatureIndexList => "kvm_get_msr_feature_index_list",
            Request::CheckExtension => "kvm_check_extension",
            Request::EnableCap => "kvm_enable_cap",
            Request::CreateVcpu => "kvm_create_vcpu",
            Request::SetUserMemoryRegion => "kvm_set_user_memory_region",
            Request::GetDirtyLog => "kvm_get_dirty_log",
            Request::CreateIrqchip => "kvm_create_irqchip",
            Request::IrqLineStatus => "kvm_irq_line_status",
            Request::GetClock => "kvm_get_clock",
            Request::SetClock => "kvm_set_clock",
            Request::SetTssAddr => "kvm_set_tss_addr",
            Request::SetIdentityMapAddr => "kvm_set_identity_map_addr",
            Request::CreatePit2 => "kvm_create_pit2",
            Request::Ioeventfd => "kvm_ioeventfd",
            Request::Irqfd => "kvm_irqfd",
            Request::Run => "kvm_run",
            Request::GetMpState => "kvm_get_mp_state",
            Request::SetMpState => "kvm_set_mp_state",
            Request::Interrupt => "kvm_interrupt",
        }
    }
}

/// An error of this library.
#[derive(Debug, Clone, Copy, PartialEq, Eq, Structural)]
pub enum Error {
    /// The virtualization device could not be opened.
    UnavailableSystem,
    /// A request on the system handle failed with the given OS error.
    SystemApi(Request, i32),
    /// A request on a machine failed with the given OS error.
    MachineApi(Request, i32),
    /// A request on a core failed with the given OS error.
    CoreApi(Request, i32),
    /// The control page of a core could not be mapped.
    MapCore,
    /// A memory mapping could not be made.
    MemoryMap,
    CreateIoEventFd,
    ReadIoEventFd,
    CreateIrqFd,
    NotifyIrqFd,
    /// A machine capability reported as absent.
    MissingExtension(Capability),
    /// A capability whose query did not report exactly one.
    MissingCapability(CapabilityKind),
    /// The kernel's interface version is not the one this library speaks.
    InvalidVersion { got: i32, expected: i32 },
    /// A region with this slot number is already mounted.
    SlotInUse(u32),
    /// Every slot number is taken.
    NoFreeSlot,
}

} // verus!
