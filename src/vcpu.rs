//! A virtual CPU's control page and the decisions of its run loop.  The
//! kernel call itself is made by the caller, who hands back the page the
//! kernel left, or the error number it returned.
use crate::error::{Error, Request};
use crate::pause::{
    u32_at, u64_at, decode, decodes_to, encode, encoded_payload, encoded_tag, Pause, EXIT_DCR, EXIT_EPR,
    EXIT_EXCEPTION, EXIT_FAIL_ENTRY, EXIT_HYPERCALL, EXIT_INTERNAL_ERROR, EXIT_IO,
    EXIT_IOAPIC_EOI, EXIT_MMIO, EXIT_OSI, EXIT_PAPR_HCALL, EXIT_S390_RESET, EXIT_S390_SIEIC,
    EXIT_S390_STSI, EXIT_S390_TSCH, EXIT_S390_UCONTROL, EXIT_SYSTEM_EVENT, EXIT_TPR_ACCESS,
    EXIT_UNKNOWN, PAYLOAD_LEN,
};
use vstd::bytes::{u32_from_le_bytes, u64_from_le_bytes};
use vstd::prelude::*;

verus! {

/// The kind of an exit record, for every tag the kernel defines a payload
/// layout for.
#[derive(Debug, Clone, Copy, PartialEq, Eq, Hash, Structural)]
pub enum Exit {
    Hw,
    FailEntry,
    Ex,
    Io,
    Mmio,
    Hypercall,
    TprAccess,
    S390Sieic,
    S390ResetFlags,
    S390Ucontrol,
    Dcr,
    Internal,
    Osi,
    PaprHcall,
    S390Tsch,
    Epr,
    SystemEvent,
    S390Stsi,
    Eoi,
}

impl Exit {
    /// The tag of this kind of exit.
    pub open spec fn spec_reason(self) -> u32 {
        match self {
            Exit::Hw => EXIT_UNKNOWN,
            Exit::FailEntry => EXIT_FAIL_ENTRY,
            Exit::Ex => EXIT_EXCEPTION,
            Exit::Io => EXIT_IO,
            Exit::Mmio => EXIT_MMIO,
            Exit::Hypercall => EXIT_HYPERCALL,
            Exit::TprAccess => EXIT_TPR_ACCESS,
            Exit::S390Sieic => EXIT_S390_SIEIC,
            Exit::S390ResetFlags => EXIT_S390_RESET,
            Exit::S390Ucontrol => EXIT_S390_UCONTROL,
            Exit::Dcr => EXIT_DCR,
            Exit::Internal => EXIT_INTERNAL_ERROR,
            Exit::Osi => EXIT_OSI,
            Exit::PaprHcall => EXIT_PAPR_HCALL,
            Exit::S390Tsch => EXIT_S390_TSCH,
            Exit::Epr => EXIT_EPR,
            Exit::SystemEvent => EXIT_SYSTEM_EVENT,
            Exit::S390Stsi => EXIT_S390_STSI,
            Exit::Eoi => EXIT_IOAPIC_EOI,
        }
    }

    /// The tag of this kind of exit.
    pub fn reason(&self) -> (r: u32)
        ensures
            r == self.spec_reason(),
    {
        match self {
            Exit::Hw => EXIT_UNKNOWN,
            Exit::FailEntry => EXIT_FAIL_ENTRY,
            Exit::Ex => EXIT_EXCEPTION,
            Exit::Io => EXIT_IO,
            Exit::Mmio => EXIT_MMIO,
            Exit::Hypercall => EXIT_HYPERCALL,
            Exit::TprAccess => EXIT_TPR_ACCESS,
            Exit::S390Sieic => EXIT_S390_SIEIC,
            Exit::S390ResetFlags => EXIT_S390_RESET,
            Exit::S390Ucontrol => EXIT_S390_UCONTROL,
            Exit::Dcr => EXIT_DCR,
            Exit::Internal => EXIT_INTERNAL_ERROR,
            Exit::Osi => EXIT_OSI,
            Exit::PaprHcall => EXIT_PAPR_HCALL,
            Exit::S390Tsch => EXIT_S390_TSCH,
            Exit::Epr => EXIT_EPR,
            Exit::SystemEvent => EXIT_SYSTEM_EVENT,
            Exit::S390Stsi => EXIT_S390_STSI,
            Exit::Eoi => EXIT_IOAPIC_EOI,
        }
    }

    /// The kind of exit a tag stands for; `None` for a tag without one.
    pub fn from(reason: u32) -> (r: Option<Exit>)
        ensures
            r matches Some(e) ==> e.spec_reason() == reason,
            r is None <==> forall|e: Exit| #[trigger] e.spec_reason() != reason,
    {
        let r = if reason == EXIT_UNKNOWN {
            Some(Exit::Hw)
        } else if reason == EXIT_FAIL_ENTRY {
            Some(Exit::FailEntry)
        } else if reason == EXIT_EXCEPTION {
            Some(Exit::Ex)
        } else if reason == EXIT_IO {
            Some(Exit::Io)
        } else if reason == EXIT_MMIO {
            Some(Exit::Mmio)
        } else if reason == EXIT_HYPERCALL {
            Some(Exit::Hypercall)
        } else if reason == EXIT_TPR_ACCESS {
            Some(Exit::TprAccess)
        } else if reason == EXIT_S390_SIEIC {
            Some(Exit::S390Sieic)
        } else if reason == EXIT_S390_RESET {
            Some(Exit::S390ResetFlags)
        } else if reason == EXIT_S390_UCONTROL {
            Some(Exit::S390Ucontrol)
        } else if reason == EXIT_DCR {
            Some(Exit::Dcr)
        } else if reason == EXIT_INTERNAL_ERROR {
            Some(Exit::Internal)
        } else if reason == EXIT_OSI {
            Some(Exit::Osi)
        } else if reason == EXIT_PAPR_HCALL {
            Some(Exit::PaprHcall)
        } else if reason == EXIT_S390_TSCH {
            Some(Exit::S390Tsch)
        } else if reason == EXIT_EPR {
            Some(Exit::Epr)
        } else if reason == EXIT_SYSTEM_EVENT {
            Some(Exit::SystemEvent)
        } else if reason == EXIT_S390_STSI {
            Some(Exit::S390Stsi)
        } else if reason == EXIT_IOAPIC_EOI {
            Some(Exit::Eoi)
        } else {
            assert forall|e: Exit| #[trigger] e.spec_reason() != reason by {
                match e {
                    _ => {},
                }
            }
            None
        };
        proof {
            if r is Some {
                let e = r->0;
                assert(e.spec_reason() == reason);
            }
        }
        r
    }
}

/// No two kinds of exit share a tag, so a tag names at most one kind.
pub proof fn lemma_exit_tags_distinct(a: Exit, b: Exit)
    ensures
        a.spec_reason() == b.spec_reason() ==> a == b,
{
}

/// An exit record whose tag names a kind of exit: the kind and the payload
/// bytes, which the typed readers below interpret for that kind only.
#[derive(Debug, Clone, Copy, PartialEq, Eq)]
pub struct ExitView {
    pub kind: Exit,
    pub payload: [u8; PAYLOAD_LEN],
}

/// The payload of a hypercall exit.
#[derive(Debug, Clone, Copy, PartialEq, Eq)]
pub struct Hypercall {
    pub nr: u64,
    pub args: [u64; 6],
    pub ret: u64,
    pub longmode: u32,
}

/// The payload of a TPR-access exit.
#[derive(Debug, Clone, Copy, PartialEq, Eq, Structural)]
pub struct TprAccess {
    pub rip: u64,
    pub is_write: u32,
}

/// The payload of a DCR exit.
#[derive(Debug, Clone, Copy, PartialEq, Eq, Structural)]
pub struct Dcr {
    pub dcrn: u32,
    pub data: u32,
    pub is_write: u8,
}

impl ExitView {
    /// The view of the exit record (`reason`, `raw`); `None` when the tag
    /// names no kind of exit.
    pub fn from(reason: u32, raw: &[u8; PAYLOAD_LEN]) -> (r: Option<ExitView>)
        ensures
            r is None <==> forall|e: Exit| #[trigger] e.spec_reason() != reason,
            r matches Some(v) ==> v.kind.spec_reason() == reason && v.payload@ == raw@,
    {
        match Exit::from(reason) {
            Some(kind) => Some(ExitView { kind, payload: *raw }),
            None => None,
        }
    }

    /// The tag and payload this view stands for.
    pub fn split(&self) -> (r: (u32, [u8; PAYLOAD_LEN]))
        ensures
            r.0 == self.kind.spec_reason(),
            r.1@ == self.payload@,
    {
        (self.kind.reason(), self.payload)
    }

    /// The hypercall number, arguments, return value and mode.
    pub fn hypercall(&self) -> (r: Option<Hypercall>)
        ensures
            r is Some <==> self.kind == Exit::Hypercall,
            r matches Some(h) ==> {
                &&& h.nr == u64_at(self.payload@, 0)
                &&& forall|i: int| 0 <= i < 6 ==> h.args@[i] == u64_at(self.payload@, 8 + 8 * i)
                &&& h.ret == u64_at(self.payload@, 56)
                &&& h.longmode == u32_at(self.payload@, 64)
            },
    {
        if self.kind != Exit::Hypercall {
            return None;
        }
        let p = &self.payload;
        let args: [u64; 6] = [
            u64_from_le_bytes(&p[8..16]),
            u64_from_le_bytes(&p[16..24]),
            u64_from_le_bytes(&p[24..32]),
            u64_from_le_bytes(&p[32..40]),
            u64_from_le_bytes(&p[40..48]),
            u64_from_le_bytes(&p[48..56]),
        ];
        assert forall|i: int| 0 <= i < 6 implies args@[i] == u64_at(p@, 8 + 8 * i) by {
            if i == 0 {
            } else if i == 1 {
            } else if i == 2 {
            } else if i == 3 {
            } else if i == 4 {
            } else {
            }
        }
        Some(Hypercall {
            nr: u64_from_le_bytes(&p[0..8]),
            args,
            ret: u64_from_le_bytes(&p[56..64]),
            longmode: u32_from_le_bytes(&p[64..68]),
        })
    }

    /// The instruction pointer and access direction of a TPR access.
    pub fn tpr_access(&self) -> (r: Option<TprAccess>)
        ensures
            r is Some <==> self.kind == Exit::TprAccess,
            r matches Some(t) ==> t.rip == u64_at(self.payload@, 0) && t.is_write == u32_at(self.payload@, 8),
    {
        if self.kind != Exit::TprAccess {
            return None;
        }
        let p = &self.payload;
        Some(TprAccess { rip: u64_from_le_bytes(&p[0..8]), is_write: u32_from_le_bytes(&p[8..12]) })
    }

    /// The register number, data and direction of a DCR access.
    pub fn dcr(&self) -> (r: Option<Dcr>)
        ensures
            r is Some <==> self.kind == Exit::Dcr,
            r matches Some(d) ==> d.dcrn == u32_at(self.payload@, 0) && d.data == u32_at(self.payload@, 4)
                && d.is_write == self.payload@[8],
    {
        if self.kind != Exit::Dcr {
            return None;
        }
        let p = &self.payload;
        Some(Dcr { dcrn: u32_from_le_bytes(&p[0..4]), data: u32_from_le_bytes(&p[4..8]), is_write: p[8] })
    }

    /// The vector of an end-of-interrupt exit.
    pub fn eoi(&self) -> (r: Option<u8>)
        ensures
            r is Some <==> self.kind == Exit::Eoi,
            r matches Some(v) ==> v == self.payload@[0],
    {
        if self.kind != Exit::Eoi {
            return None;
        }
        Some(self.payload[0])
    }

    /// The value of an external-proxy exit.
    pub fn epr(&self) -> (r: Option<u32>)
        ensures
            r is Some <==> self.kind == Exit::Epr,
            r matches Some(v) ==> v == u32_at(self.payload@, 0),
    {
        if self.kind != Exit::Epr {
            return None;
        }
        Some(u32_from_le_bytes(&self.payload[0..4]))
    }

    /// The flags of an s390 reset exit.
    pub fn s390_reset_flags(&self) -> (r: Option<u64>)
        ensures
            r is Some <==> self.kind == Exit::S390ResetFlags,
            r matches Some(v) ==> v == u64_at(self.payload@, 0),
    {
        if self.kind != Exit::S390ResetFlags {
            return None;
        }
        Some(u64_from_le_bytes(&self.payload[0..8]))
    }

    /// The sub-error and data count of an internal-error exit.
    pub fn internal(&self) -> (r: Option<(u32, u32)>)
        ensures
            r is Some <==> self.kind == Exit::Internal,
            r matches Some((e, n)) ==> e == u32_at(self.payload@, 0) && n == u32_at(self.payload@, 4),
    {
        if self.kind != Exit::Internal {
            return None;
        }
        Some((u32_from_le_bytes(&self.payload[0..4]), u32_from_le_bytes(&self.payload[4..8])))
    }
}

/// The part of a core's kernel-shared page that this library reads and
/// writes: the header flags, the exit tag and the exit payload.
#[derive(Debug, Clone, Copy, PartialEq, Eq)]
pub struct ControlPage {
    pub request_interrupt_window: u8,
    pub immediate_exit: u8,
    pub exit_reason: u32,
    pub ready_for_interrupt_injection: u8,
    pub if_flag: u8,
    pub flags: u16,
    pub cr8: u64,
    pub apic_base: u64,
    pub payload: [u8; PAYLOAD_LEN],
}

/// True when `a` and `b` agree on every field but the exit tag, the exit
/// payload and the immediate-exit flag.
pub open spec fn same_state(a: ControlPage, b: ControlPage) -> bool {
    &&& a.request_interrupt_window == b.request_interrupt_window
    &&& a.ready_for_interrupt_injection == b.ready_for_interrupt_injection
    &&& a.if_flag == b.if_flag
    &&& a.flags == b.flags
    &&& a.cr8 == b.cr8
    &&& a.apic_base == b.apic_base
}

impl ControlPage {
    /// A page with every field zero.
    pub fn new() -> (r: ControlPage)
        ensures
            r.exit_reason == 0,
            r.immediate_exit == 0,
            r.request_interrupt_window == 0,
            r.ready_for_interrupt_injection == 0,
            r.if_flag == 0,
            r.flags == 0,
            r.cr8 == 0,
            r.apic_base == 0,
            r.payload@ == Seq::new(PAYLOAD_LEN as nat, |i: int| 0u8),
    {
        let payload = [0u8; PAYLOAD_LEN];
        assert(payload@ =~= Seq::new(PAYLOAD_LEN as nat, |i: int| 0u8));
        ControlPage {
            request_interrupt_window: 0,
            immediate_exit: 0,
            exit_reason: 0,
            ready_for_interrupt_injection: 0,
            if_flag: 0,
            flags: 0,
            cr8: 0,
            apic_base: 0,
            payload,
        }
    }

    /// The kind of exit the tag names, if it names one.
    pub fn exit(&self) -> (r: Option<Exit>)
        ensures
            r matches Some(e) ==> e.spec_reason() == self.exit_reason,
            r is None <==> forall|e: Exit| #[trigger] e.spec_reason() != self.exit_reason,
    {
        Exit::from(self.exit_reason)
    }

    /// The exit record as a view of its kind, if the tag names one.
    pub fn exit_view(&self) -> (r: Option<ExitView>)
        ensures
            r is None <==> forall|e: Exit| #[trigger] e.spec_reason() != self.exit_reason,
            r matches Some(v) ==> v.kind.spec_reason() == self.exit_reason && v.payload@ == self.payload@,
    {
        ExitView::from(self.exit_reason, &self.payload)
    }

    /// Stores `view` as the exit record: its tag and its whole payload.
    /// Every other field is kept.
    pub fn set_exit(&mut self, view: &ExitView)
        ensures
            final(self).exit_reason == view.kind.spec_reason(),
            final(self).payload@ == view.payload@,
            final(self).immediate_exit == old(self).immediate_exit,
            same_state(*final(self), *old(self)),
    {
        let (tag, payload) = view.split();
        self.exit_reason = tag;
        self.payload = payload;
    }

    /// The exit record decoded under the tag the page holds.
    pub fn pause(&self) -> (r: Pause)
        ensures
            decodes_to(self.exit_reason, self.payload@, r),
    {
        decode(self.exit_reason, &self.payload)
    }

    /// Stores `pause` as the exit record: its tag and the payload fields it
    /// exposes.  Every other field and payload byte is kept.
    pub fn set_pause(&mut self, pause: &Pause)
        ensures
            final(self).exit_reason == encoded_tag(*pause),
            final(self).payload@ == encoded_payload(*pause, old(self).payload@),
            final(self).immediate_exit == old(self).immediate_exit,
            same_state(*final(self), *old(self)),
    {
        let mut payload = self.payload;
        let tag = encode(pause, &mut payload);
        self.payload = payload;
        self.exit_reason = tag;
    }
}

/// Where a core stands in its run loop.
#[derive(Debug, Clone, Copy, PartialEq, Eq, Structural)]
pub enum RunState {
    /// Not run yet, or the last run call failed.
    Idle,
    /// The last run call returned; its exit record is in the page.
    Paused,
}

/// One virtual CPU: its control page and its run-loop state.
#[derive(Debug)]
pub struct Core {
    page: ControlPage,
    state: RunState,
}

impl Core {
    /// A core over the page the kernel mapped for it.
    pub fn new(page: ControlPage) -> (r: Core)
        ensures
            r.page() == page,
            r.run_state() == RunState::Idle,
    {
        Core { page, state: RunState::Idle }
    }

    pub closed spec fn page(&self) -> ControlPage {
        self.page
    }

    pub closed spec fn run_state(&self) -> RunState {
        self.state
    }

    /// The control page as it stands.
    pub fn data(&self) -> (r: &ControlPage)
        ensures
            *r == self.page(),
    {
        &self.page
    }

    /// Where the core stands in its run loop.
    pub fn state(&self) -> (r: RunState)
        ensures
            r == self.run_state(),
    {
        self.state
    }

    /// Stores `pause` as the exit record the guest sees on the next run.
    pub fn set_pause(&mut self, pause: &Pause)
        ensures
            final(self).page().exit_reason == encoded_tag(*pause),
            final(self).page().payload@ == encoded_payload(*pause, old(self).page().payload@),
            final(self).page().immediate_exit == old(self).page().immediate_exit,
            same_state(final(self).page(), old(self).page()),
            final(self).run_state() == old(self).run_state(),
    {
        self.page.set_pause(pause);
    }

    /// Takes in what the run call returned: the page the kernel left, or its
    /// error number.  On success the core is paused on the decoded exit.
    pub fn finish_run(&mut self, outcome: Result<ControlPage, i32>) -> (r: Result<Pause, Error>)
        ensures
            outcome matches Ok(page) ==> {
                &&& final(self).page() == page
                &&& final(self).run_state() == RunState::Paused
                &&& r matches Ok(p) && decodes_to(page.exit_reason, page.payload@, p)
            },
            outcome matches Err(e) ==> {
                &&& final(self).page() == old(self).page()
                &&& final(self).run_state() == RunState::Idle
                &&& r == Err::<Pause, Error>(Error::CoreApi(Request::Run, e))
            },
    {
        match outcome {
            Ok(page) => {
                self.page = page;
                self.state = RunState::Paused;
                Ok(page.pause())
            },
            Err(e) => {
                self.state = RunState::Idle;
                Err(Error::CoreApi(Request::Run, e))
            },
        }
    }

    /// Sets the immediate-exit flag before a run that must not let the
    /// guest execute, and returns the flag's previous value.
    pub fn begin_immediate_run(&mut self) -> (previous: u8)
        ensures
            previous == old(self).page().immediate_exit,
            final(self).page() == (ControlPage { immediate_exit: 1, ..old(self).page() }),
            final(self).run_state() == old(self).run_state(),
    {
        let previous = self.page.immediate_exit;
        self.page.immediate_exit = 1;
        previous
    }

    /// Takes in what the immediate run returned and puts the immediate-exit
    /// flag back to `previous`, on success and on failure alike.
    pub fn finish_immediate_run(&mut self, previous: u8, outcome: Result<ControlPage, i32>) -> (r: Result<Pause, Error>)
        ensures
            final(self).page().immediate_exit == previous,
            outcome matches Ok(page) ==> {
                &&& final(self).page() == (ControlPage { immediate_exit: previous, ..page })
                &&& final(self).run_state() == RunState::Paused
                &&& r matches Ok(p) && decodes_to(page.exit_reason, page.payload@, p)
            },
            outcome matches Err(e) ==> {
                &&& final(self).page() == (ControlPage { immediate_exit: previous, ..old(self).page() })
                &&& final(self).run_state() == RunState::Idle
                &&& r == Err::<Pause, Error>(Error::CoreApi(Request::Run, e))
            },
    {
        let r = self.finish_run(outcome);
        self.page.immediate_exit = previous;
        r
    }
}

} // verus!
