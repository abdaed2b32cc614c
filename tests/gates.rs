use kvm::capability::{Capability, CapabilityKind};
use kvm::error::{Error, Request};
use kvm::machine::{dirty_log_words, machine_reply, max_core_id, max_cores, IrqLevel, MachineKind};
use kvm::mpstate::MpState;
use kvm::msr::MsrIndex;
use kvm::system::{verify_api_version, API_VERSION};

#[test]
fn ensure_fails_on_zero_and_succeeds_on_one() {
    assert_eq!(
        CapabilityKind::IoEventFd.ensure(0),
        Err(Error::MissingCapability(CapabilityKind::IoEventFd))
    );
    assert_eq!(CapabilityKind::IoEventFd.ensure(1), Ok(()));
    assert_eq!(CapabilityKind::IrqChip.ensure(2), Err(Error::MissingCapability(CapabilityKind::IrqChip)));
}

#[test]
fn require_accepts_any_nonzero() {
    assert_eq!(Capability::IrqChip.require(0), Err(Error::MissingExtension(Capability::IrqChip)));
    assert_eq!(Capability::NumberMemorySlots.require(509), Ok(509));
    assert_eq!(Capability::IrqChip.require(-1), Ok(u32::MAX));
}

#[test]
fn capability_codes() {
    assert_eq!(CapabilityKind::IoEventFd.code(), 36);
    assert_eq!(CapabilityKind::IrqFd.code(), 32);
    assert_eq!(Capability::MaxCores.code(), 66);
    assert_eq!(Capability::NumberCores.code(), 9);
}

#[test]
fn version_check() {
    assert_eq!(verify_api_version(11), Err(Error::InvalidVersion { got: 11, expected: 12 }));
    assert_eq!(verify_api_version(12), Ok(()));
    assert_eq!(API_VERSION, 12);
}

#[test]
fn core_limits_fall_back() {
    assert_eq!(max_cores(0, 4), 4);
    assert_eq!(max_cores(288, 4), 288);
    assert_eq!(max_core_id(0, 288), 288);
    assert_eq!(max_core_id(1023, 288), 1023);
}

#[test]
fn dirty_bitmap_sizes() {
    assert_eq!(dirty_log_words(0), 0);
    assert_eq!(dirty_log_words(10), 1);
    assert_eq!(dirty_log_words(4096 * 64), 1);
    assert_eq!(dirty_log_words(4096 * 64 + 1), 2);
    assert_eq!(dirty_log_words(0x10000), 1);
}

#[test]
fn machine_replies() {
    assert_eq!(machine_reply(Request::GetClock, Ok(3)), Ok(3));
    assert_eq!(machine_reply(Request::GetClock, Err(1)), Err(Error::MachineApi(Request::GetClock, 1)));
    assert_eq!(Request::Run.name(), "kvm_run");
}

#[test]
fn mp_state_numbers_pass_through() {
    for v in [0u32, 3, 8, 9, 1000] {
        assert_eq!(MpState::from_raw(v).into_raw(), v);
    }
    assert_eq!(MpState::from_raw(3), MpState::Halted);
    assert_eq!(MpState::from_raw(9), MpState::Other(9));
    assert_eq!(MpState::from_reply(Err(5)), Err(Error::CoreApi(Request::GetMpState, 5)));
    assert_eq!(MpState::from_reply(Ok(0)), Ok(MpState::Runnable));
}

#[test]
fn small_codes() {
    assert_eq!(IrqLevel::Active.code(), 1);
    assert_eq!(IrqLevel::Inactive.code(), 0);
    assert_eq!(MachineKind::Default.code(), 0);
    assert_eq!(MsrIndex::new(0x174).map(|m| m.value()), Ok(0x174));
}
