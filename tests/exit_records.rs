use kvm::pause::{decode, encode, Direction, Pause, EXIT_HYPERCALL, EXIT_IO, EXIT_MMIO, PAYLOAD_LEN};
use kvm::vcpu::{ControlPage, Core, Exit, ExitView, RunState};
use kvm::error::{Error, Request};

fn patterned_payload() -> [u8; PAYLOAD_LEN] {
    let mut p = [0u8; PAYLOAD_LEN];
    for (i, b) in p.iter_mut().enumerate() {
        *b = (i * 7 + 3) as u8;
    }
    p
}

fn round_trip(tag: u32, payload: [u8; PAYLOAD_LEN]) -> (Pause, u32, [u8; PAYLOAD_LEN]) {
    let pause = decode(tag, &payload);
    let mut out = payload;
    let back = encode(&pause, &mut out);
    (pause, back, out)
}

#[test]
fn decode_encode_round_trip_every_recognized_tag() {
    for tag in [0u32, 1, 8, 9, 17, 24] {
        let payload = patterned_payload();
        let (_, back, out) = round_trip(tag, payload);
        assert_eq!(back, tag);
        assert_eq!(out[..], payload[..]);
    }
    let mut io = patterned_payload();
    io[0] = 1;
    let (pause, back, out) = round_trip(EXIT_IO, io);
    assert!(matches!(pause, Pause::Io { direction: Direction::Out, .. }));
    assert_eq!(back, EXIT_IO);
    assert_eq!(out[..], io[..]);
    let mut mmio = patterned_payload();
    mmio[20] = 0;
    let (pause, back, out) = round_trip(EXIT_MMIO, mmio);
    assert!(matches!(pause, Pause::Mmio { is_write: false, .. }));
    assert_eq!(back, EXIT_MMIO);
    assert_eq!(out[..], mmio[..]);
}

#[test]
fn decode_io_fields() {
    let mut p = [0u8; PAYLOAD_LEN];
    p[0] = 1;
    p[1] = 1;
    p[2] = 0xf8;
    p[3] = 0x03;
    p[4] = 1;
    p[8] = 0x00;
    p[9] = 0x10;
    assert_eq!(
        decode(EXIT_IO, &p),
        Pause::Io { direction: Direction::Out, size: 1, port: 0x3f8, count: 1, data_offset: 0x1000 }
    );
}

#[test]
fn decode_mmio_fields() {
    let mut p = [0u8; PAYLOAD_LEN];
    p[0..8].copy_from_slice(&0xfee0_0000u64.to_le_bytes());
    p[8..16].copy_from_slice(&[1, 2, 3, 4, 5, 6, 7, 8]);
    p[16..20].copy_from_slice(&4u32.to_le_bytes());
    p[20] = 1;
    assert_eq!(
        decode(EXIT_MMIO, &p),
        Pause::Mmio { address: 0xfee0_0000, data: [1, 2, 3, 4, 5, 6, 7, 8], length: 4, is_write: true }
    );
}

#[test]
fn decode_exception_and_system_event() {
    let mut p = [0u8; PAYLOAD_LEN];
    p[0..4].copy_from_slice(&14u32.to_le_bytes());
    p[4..8].copy_from_slice(&2u32.to_le_bytes());
    assert_eq!(decode(1, &p), Pause::Exception(14, 2));
    let mut q = [0u8; PAYLOAD_LEN];
    q[0..4].copy_from_slice(&3u32.to_le_bytes());
    q[8..16].copy_from_slice(&0x55u64.to_le_bytes());
    assert_eq!(decode(24, &q), Pause::SystemEvent(3, 0x55));
    assert_eq!(decode(8, &q), Pause::Shutdown);
}

#[test]
fn unrecognized_tag_is_invalid_and_kept() {
    let payload = patterned_payload();
    for tag in [EXIT_HYPERCALL, 5, 100, u32::MAX] {
        let (pause, back, out) = round_trip(tag, payload);
        assert_eq!(pause, Pause::Invalid(tag));
        assert_eq!(back, tag);
        assert_eq!(out[..], payload[..]);
    }
}

#[test]
fn malformed_direction_byte_is_invalid() {
    let mut p = patterned_payload();
    p[0] = 7;
    let (pause, back, out) = round_trip(EXIT_IO, p);
    assert_eq!(pause, Pause::Invalid(EXIT_IO));
    assert_eq!(back, EXIT_IO);
    assert_eq!(out[..], p[..]);
}

#[test]
fn encode_writes_fields_and_keeps_the_rest() {
    let mut page = ControlPage::new();
    page.cr8 = 9;
    page.apic_base = 0xfee0_0000;
    page.payload[100] = 0xaa;
    page.set_pause(&Pause::InternalError(3));
    assert_eq!(page.exit_reason, 17);
    assert_eq!(&page.payload[0..4], &3u32.to_le_bytes());
    assert_eq!(page.payload[100], 0xaa);
    assert_eq!(page.cr8, 9);
    assert_eq!(page.apic_base, 0xfee0_0000);
    assert_eq!(page.pause(), Pause::InternalError(3));
}

#[test]
fn exit_table_is_consistent() {
    for reason in 0u32..40 {
        if let Some(e) = Exit::from(reason) {
            assert_eq!(e.reason(), reason);
        }
    }
    assert_eq!(Exit::from(2), Some(Exit::Io));
    assert_eq!(Exit::from(26), Some(Exit::Eoi));
    assert_eq!(Exit::from(27), None);
    assert_eq!(Exit::from(8), None);
}

#[test]
fn direction_reverse_and_codes() {
    assert_eq!(Direction::In.reverse(), Direction::Out);
    assert_eq!(Direction::Out.reverse(), Direction::In);
    assert_eq!(Direction::from_code(0), Some(Direction::In));
    assert_eq!(Direction::from_code(1), Some(Direction::Out));
    assert_eq!(Direction::from_code(2), None);
}

#[test]
fn run_outcomes_drive_the_core() {
    let mut core = Core::new(ControlPage::new());
    assert_eq!(core.state(), RunState::Idle);
    let mut page = ControlPage::new();
    page.exit_reason = 8;
    assert_eq!(core.finish_run(Ok(page)), Ok(Pause::Shutdown));
    assert_eq!(core.state(), RunState::Paused);
    assert_eq!(core.finish_run(Err(4)), Err(Error::CoreApi(Request::Run, 4)));
    assert_eq!(core.state(), RunState::Idle);
}

#[test]
fn immediate_run_restores_flag_on_both_paths() {
    let mut core = Core::new(ControlPage::new());
    let previous = core.begin_immediate_run();
    assert_eq!(previous, 0);
    assert_eq!(core.data().immediate_exit, 1);
    let r = core.finish_immediate_run(previous, Err(11));
    assert_eq!(r, Err(Error::CoreApi(Request::Run, 11)));
    assert_eq!(core.data().immediate_exit, 0);
    let previous = core.begin_immediate_run();
    let mut left = *core.data();
    left.exit_reason = 8;
    assert_eq!(core.finish_immediate_run(previous, Ok(left)), Ok(Pause::Shutdown));
    assert_eq!(core.data().immediate_exit, 0);
}

#[test]
fn encode_then_decode_gives_the_value_back() {
    let values = [
        Pause::Unknown(0x1234_5678_9abc_def0),
        Pause::FailEntry(7),
        Pause::Exception(13, 0xffff_ffff),
        Pause::Io { direction: Direction::In, size: 2, port: 0x60, count: 3, data_offset: 0x1000 },
        Pause::Mmio { address: 0xd000_0000, data: [9, 8, 7, 6, 5, 4, 3, 2], length: 8, is_write: true },
        Pause::SystemEvent(1, 0xff),
        Pause::InternalError(4),
        Pause::Shutdown,
        Pause::Invalid(1000),
    ];
    for v in values {
        let mut payload = patterned_payload();
        let tag = encode(&v, &mut payload);
        assert_eq!(decode(tag, &payload), v);
    }
}

#[test]
fn exit_views_read_typed_fields() {
    let mut p = [0u8; PAYLOAD_LEN];
    p[0..8].copy_from_slice(&9u64.to_le_bytes());
    for i in 0..6 {
        p[8 + 8 * i..16 + 8 * i].copy_from_slice(&(i as u64 + 100).to_le_bytes());
    }
    p[56..64].copy_from_slice(&7u64.to_le_bytes());
    p[64..68].copy_from_slice(&1u32.to_le_bytes());
    let v = ExitView::from(EXIT_HYPERCALL, &p).unwrap();
    let h = v.hypercall().unwrap();
    assert_eq!((h.nr, h.args, h.ret, h.longmode), (9, [100, 101, 102, 103, 104, 105], 7, 1));
    assert_eq!(v.tpr_access(), None);
    assert_eq!(v.split(), (EXIT_HYPERCALL, p));
    assert_eq!(ExitView::from(8, &p), None);
    let t = ExitView::from(12, &p).unwrap().tpr_access().unwrap();
    assert_eq!((t.rip, t.is_write), (9, 100));
    assert_eq!(ExitView::from(26, &p).unwrap().eoi(), Some(9));
    assert_eq!(ExitView::from(23, &p).unwrap().epr(), Some(9));
    assert_eq!(ExitView::from(14, &p).unwrap().s390_reset_flags(), Some(9));
    assert_eq!(ExitView::from(17, &p).unwrap().internal(), Some((9, 0)));
    let d = ExitView::from(15, &p).unwrap().dcr().unwrap();
    assert_eq!((d.dcrn, d.data, d.is_write), (9, 0, 100));
}

#[test]
fn set_exit_stores_tag_and_payload() {
    let mut page = ControlPage::new();
    page.cr8 = 5;
    let mut p = [0u8; PAYLOAD_LEN];
    p[0] = 0x31;
    let v = ExitView { kind: Exit::Eoi, payload: p };
    page.set_exit(&v);
    assert_eq!(page.exit_reason, 26);
    assert_eq!(page.payload[0], 0x31);
    assert_eq!(page.cr8, 5);
    assert_eq!(page.exit_view(), Some(v));
}
