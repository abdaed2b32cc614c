//! The exit record of a virtual CPU: a tag plus a fixed-size payload whose
//! meaning is selected by the tag alone.  `decodes_to` is the table that maps
//! a (tag, payload) pair to a typed `Pause`, and `encoded_tag` /
//! `encoded_payload` are its inverse.  Multi-byte fields are little-endian,
//! as in the x86-64 layout of the kernel's run structure.
use vstd::bytes::*;
use vstd::prelude::*;

verus! {

/// Size in bytes of the exit payload union of the control page.
pub const PAYLOAD_LEN: usize = 256;

pub const EXIT_UNKNOWN: u32 = 0;
pub const EXIT_EXCEPTION: u32 = 1;
pub const EXIT_IO: u32 = 2;
pub const EXIT_HYPERCALL: u32 = 3;
pub const EXIT_MMIO: u32 = 6;
pub const EXIT_SHUTDOWN: u32 = 8;
pub const EXIT_FAIL_ENTRY: u32 = 9;
pub const EXIT_TPR_ACCESS: u32 = 12;
pub const EXIT_S390_SIEIC: u32 = 13;
pub const EXIT_S390_RESET: u32 = 14;
pub const EXIT_DCR: u32 = 15;
pub const EXIT_INTERNAL_ERROR: u32 = 17;
pub const EXIT_OSI: u32 = 18;
pub const EXIT_PAPR_HCALL: u32 = 19;
pub const EXIT_S390_UCONTROL: u32 = 20;
pub const EXIT_S390_TSCH: u32 = 22;
pub const EXIT_EPR: u32 = 23;
pub const EXIT_SYSTEM_EVENT: u32 = 24;
pub const EXIT_S390_STSI: u32 = 25;
pub const EXIT_IOAPIC_EOI: u32 = 26;

/// Direction byte of a port I/O exit: the guest reads from the port.
pub const IO_IN: u8 = 0;
/// Direction byte of a port I/O exit: the guest writes to the port.
pub const IO_OUT: u8 = 1;

/// Direction of a port I/O access, seen from the guest.
#[derive(Debug, Clone, Copy, PartialEq, Eq, Hash, Structural)]
pub enum Direction {
    In,
    Out,
}

impl Direction {
    /// The byte that stands for this direction in an I/O exit record.
    pub open spec fn spec_code(self) -> u8 {
        match self {
            Direction::In => IO_IN,
            Direction::Out => IO_OUT,
        }
    }

    /// The opposite direction.
    pub fn reverse(&self) -> (r: Direction)
        ensures
            r != *self,
    {
        match self {
            Direction::In => Direction::Out,
            Direction::Out => Direction::In,
        }
    }

    /// The byte that stands for this direction in an I/O exit record.
    pub fn code(&self) -> (r: u8)
        ensures
            r == self.spec_code(),
    {
        match self {
            Direction::In => IO_IN,
            Direction::Out => IO_OUT,
        }
    }

    /// The direction a byte stands for, if it stands for one.
    pub fn from_code(v: u8) -> (r: Option<Direction>)
        ensures
            r == (if v == IO_IN {
                Some(Direction::In)
            } else if v == IO_OUT {
                Some(Direction::Out)
            } else {
                None::<Direction>
            }),
    {
        if v == IO_IN {
            Some(Direction::In)
        } else if v == IO_OUT {
            Some(Direction::Out)
        } else {
            None
        }
    }
}

/// Why a virtual CPU stopped running, decoded from its exit record.
#[derive(Debug, Clone, Copy, PartialEq, Eq)]
pub enum Pause {
    /// The hardware exit reason the kernel could not classify.
    Unknown(u64),
    /// The hardware reason why entering the guest failed.
    FailEntry(u64),
    /// Exception vector and error code.
    Exception(u32, u32),
    /// Port I/O; `data_offset` is an offset into the control page.
    Io { direction: Direction, size: u8, port: u16, count: u32, data_offset: u64 },
    /// Memory-mapped I/O; only the first `length` bytes of `data` matter.
    Mmio { address: u64, data: [u8; 8], length: u32, is_write: bool },
    /// System event kind and flags.
    SystemEvent(u32, u64),
    /// Internal error sub-code.
    InternalError(u32),
    Shutdown,
    /// A tag this library does not decode, or a record of a known kind whose
    /// payload does not hold a valid value of that kind.
    Invalid(u32),
}

/// The `n` bytes of `p` starting at `off`.
pub open spec fn bytes_at(p: Seq<u8>, off: int, n: int) -> Seq<u8> {
    p.subrange(off, off + n)
}

pub open spec fn u16_at(p: Seq<u8>, off: int) -> u16 {
    spec_u16_from_le_bytes(bytes_at(p, off, 2))
}

pub open spec fn u32_at(p: Seq<u8>, off: int) -> u32 {
    spec_u32_from_le_bytes(bytes_at(p, off, 4))
}

pub open spec fn u64_at(p: Seq<u8>, off: int) -> u64 {
    spec_u64_from_le_bytes(bytes_at(p, off, 8))
}

/// `p` with the bytes from `off` on replaced by `b`.
pub open spec fn put(p: Seq<u8>, off: int, b: Seq<u8>) -> Seq<u8> {
    p.subrange(0, off) + b + p.subrange(off + b.len(), p.len() as int)
}

/// True when the tag has a variant of its own in `Pause`.
pub open spec fn is_decoded_tag(tag: u32) -> bool {
    ||| tag == EXIT_UNKNOWN
    ||| tag == EXIT_FAIL_ENTRY
    ||| tag == EXIT_EXCEPTION
    ||| tag == EXIT_IO
    ||| tag == EXIT_MMIO
    ||| tag == EXIT_SYSTEM_EVENT
    ||| tag == EXIT_INTERNAL_ERROR
    ||| tag == EXIT_SHUTDOWN
}

/// The decoding table: `r` is what the exit record (`tag`, `p`) means.
pub open spec fn decodes_to(tag: u32, p: Seq<u8>, r: Pause) -> bool {
    if tag == EXIT_UNKNOWN {
        r == Pause::Unknown(u64_at(p, 0))
    } else if tag == EXIT_FAIL_ENTRY {
        r == Pause::FailEntry(u64_at(p, 0))
    } else if tag == EXIT_EXCEPTION {
        r == Pause::Exception(u32_at(p, 0), u32_at(p, 4))
    } else if tag == EXIT_IO {
        if p[0] == IO_IN || p[0] == IO_OUT {
            r == (Pause::Io {
                direction: if p[0] == IO_IN {
                    Direction::In
                } else {
                    Direction::Out
                },
                size: p[1],
                port: u16_at(p, 2),
                count: u32_at(p, 4),
                data_offset: u64_at(p, 8),
            })
        } else {
            r == Pause::Invalid(tag)
        }
    } else if tag == EXIT_MMIO {
        if p[20] == 0 || p[20] == 1 {
            match r {
                Pause::Mmio { address, data, length, is_write } => {
                    &&& address == u64_at(p, 0)
                    &&& data@ == bytes_at(p, 8, 8)
                    &&& length == u32_at(p, 16)
                    &&& is_write == (p[20] == 1)
                },
                _ => false,
            }
        } else {
            r == Pause::Invalid(tag)
        }
    } else if tag == EXIT_SYSTEM_EVENT {
        r == Pause::SystemEvent(u32_at(p, 0), u64_at(p, 8))
    } else if tag == EXIT_INTERNAL_ERROR {
        r == Pause::InternalError(u32_at(p, 0))
    } else if tag == EXIT_SHUTDOWN {
        r == Pause::Shutdown
    } else {
        r == Pause::Invalid(tag)
    }
}

/// The tag that encoding `r` stores.
pub open spec fn encoded_tag(r: Pause) -> u32 {
    match r {
        Pause::Unknown(_) => EXIT_UNKNOWN,
        Pause::FailEntry(_) => EXIT_FAIL_ENTRY,
        Pause::Exception(_, _) => EXIT_EXCEPTION,
        Pause::Io { .. } => EXIT_IO,
        Pause::Mmio { .. } => EXIT_MMIO,
        Pause::SystemEvent(_, _) => EXIT_SYSTEM_EVENT,
        Pause::InternalError(_) => EXIT_INTERNAL_ERROR,
        Pause::Shutdown => EXIT_SHUTDOWN,
        Pause::Invalid(t) => t,
    }
}

/// The payload that encoding `r` over the payload `p` leaves: the fields
/// that `r` exposes are written, every other byte of `p` is kept.
pub open spec fn encoded_payload(r: Pause, p: Seq<u8>) -> Seq<u8> {
    match r {
        Pause::Unknown(v) => put(p, 0, spec_u64_to_le_bytes(v)),
        Pause::FailEntry(v) => put(p, 0, spec_u64_to_le_bytes(v)),
        Pause::Exception(e, c) => put(
            put(p, 0, spec_u32_to_le_bytes(e)),
            4,
            spec_u32_to_le_bytes(c),
        ),
        Pause::Io { direction, size, port, count, data_offset } => put(
            put(
                put(put(put(p, 0, seq![direction.spec_code()]), 1, seq![size]), 2, spec_u16_to_le_bytes(port)),
                4,
                spec_u32_to_le_bytes(count),
            ),
            8,
            spec_u64_to_le_bytes(data_offset),
        ),
        Pause::Mmio { address, data, length, is_write } => put(
            put(
                put(put(p, 0, spec_u64_to_le_bytes(address)), 8, data@),
                16,
                spec_u32_to_le_bytes(length),
            ),
            20,
            seq![if is_write { 1u8 } else { 0u8 }],
        ),
        Pause::SystemEvent(k, f) => put(
            put(p, 0, spec_u32_to_le_bytes(k)),
            8,
            spec_u64_to_le_bytes(f),
        ),
        Pause::InternalError(s) => put(p, 0, spec_u32_to_le_bytes(s)),
        Pause::Shutdown => p,
        Pause::Invalid(_) => p,
    }
}

/// Overwrites `v` from `off` on with the bytes of `b`.
fn store(v: &mut [u8], off: usize, b: &[u8])
    requires
        off + b@.len() <= old(v)@.len(),
    ensures
        final(v)@ == put(old(v)@, off as int, b@),
{
    let n = b.len();
    let mut i: usize = 0;
    while i < n
        invariant
            n == b@.len(),
            off + n <= v.len(),
            i <= n,
            v@.len() == old(v)@.len(),
            v@ == put(old(v)@, off as int, b@.subrange(0, i as int)),
        decreases n - i,
    {
        v[off + i] = b[i];
        i = i + 1;
        assert(v@ =~= put(old(v)@, off as int, b@.subrange(0, i as int)));
    }
    assert(b@.subrange(0, n as int) =~= b@);
}

/// Decodes the exit record (`tag`, `payload`).  Never fails: an unknown tag,
/// or a payload that is not a valid record of its kind, gives `Invalid`.
pub fn decode(tag: u32, payload: &[u8]) -> (r: Pause)
    requires
        payload@.len() == PAYLOAD_LEN,
    ensures
        decodes_to(tag, payload@, r),
{
    let p = payload;
    if tag == EXIT_UNKNOWN {
        Pause::Unknown(u64_from_le_bytes(&p[0..8]))
    } else if tag == EXIT_FAIL_ENTRY {
        Pause::FailEntry(u64_from_le_bytes(&p[0..8]))
    } else if tag == EXIT_EXCEPTION {
        Pause::Exception(u32_from_le_bytes(&p[0..4]), u32_from_le_bytes(&p[4..8]))
    } else if tag == EXIT_IO {
        match Direction::from_code(p[0]) {
            Some(direction) => Pause::Io {
                direction,
                size: p[1],
                port: u16_from_le_bytes(&p[2..4]),
                count: u32_from_le_bytes(&p[4..8]),
                data_offset: u64_from_le_bytes(&p[8..16]),
            },
            None => Pause::Invalid(tag),
        }
    } else if tag == EXIT_MMIO {
        if p[20] == 0 || p[20] == 1 {
            let data: [u8; 8] = [p[8], p[9], p[10], p[11], p[12], p[13], p[14], p[15]];
            assert(data@ =~= bytes_at(p@, 8, 8));
            Pause::Mmio {
                address: u64_from_le_bytes(&p[0..8]),
                data,
                length: u32_from_le_bytes(&p[16..20]),
                is_write: p[20] == 1,
            }
        } else {
            Pause::Invalid(tag)
        }
    } else if tag == EXIT_SYSTEM_EVENT {
        Pause::SystemEvent(u32_from_le_bytes(&p[0..4]), u64_from_le_bytes(&p[8..16]))
    } else if tag == EXIT_INTERNAL_ERROR {
        Pause::InternalError(u32_from_le_bytes(&p[0..4]))
    } else if tag == EXIT_SHUTDOWN {
        Pause::Shutdown
    } else {
        Pause::Invalid(tag)
    }
}

/// Writes the fields that `pause` exposes into `payload`, keeping every
/// other byte, and returns the tag that goes with it.
pub fn encode(pause: &Pause, payload: &mut [u8]) -> (tag: u32)
    requires
        old(payload)@.len() == PAYLOAD_LEN,
    ensures
        tag == encoded_tag(*pause),
        final(payload)@ == encoded_payload(*pause, old(payload)@),
        final(payload)@.len() == PAYLOAD_LEN,
{
    proof {
        lemma_auto_spec_u16_to_from_le_bytes();
        lemma_auto_spec_u32_to_from_le_bytes();
        lemma_auto_spec_u64_to_from_le_bytes();
    }
    match pause {
        Pause::Unknown(v) => {
            store(payload, 0, u64_to_le_bytes(*v).as_slice());
            EXIT_UNKNOWN
        },
        Pause::FailEntry(v) => {
            store(payload, 0, u64_to_le_bytes(*v).as_slice());
            EXIT_FAIL_ENTRY
        },
        Pause::Exception(e, c) => {
            store(payload, 0, u32_to_le_bytes(*e).as_slice());
            store(payload, 4, u32_to_le_bytes(*c).as_slice());
            EXIT_EXCEPTION
        },
        Pause::Io { direction, size, port, count, data_offset } => {
            let d: [u8; 1] = [direction.code()];
            let s: [u8; 1] = [*size];
            assert(d@ =~= seq![direction.spec_code()]);
            assert(s@ =~= seq![*size]);
            store(payload, 0, d.as_slice());
            store(payload, 1, s.as_slice());
            store(payload, 2, u16_to_le_bytes(*port).as_slice());
            store(payload, 4, u32_to_le_bytes(*count).as_slice());
            store(payload, 8, u64_to_le_bytes(*data_offset).as_slice());
            EXIT_IO
        },
        Pause::Mmio { address, data, length, is_write } => {
            let w: [u8; 1] = [if *is_write { 1u8 } else { 0u8 }];
            assert(w@ =~= seq![if *is_write { 1u8 } else { 0u8 }]);
            store(payload, 0, u64_to_le_bytes(*address).as_slice());
            store(payload, 8, data.as_slice());
            store(payload, 16, u32_to_le_bytes(*length).as_slice());
            store(payload, 20, w.as_slice());
            EXIT_MMIO
        },
        Pause::SystemEvent(k, f) => {
            store(payload, 0, u32_to_le_bytes(*k).as_slice());
            store(payload, 8, u64_to_le_bytes(*f).as_slice());
            EXIT_SYSTEM_EVENT
        },
        Pause::InternalError(s) => {
            store(payload, 0, u32_to_le_bytes(*s).as_slice());
            EXIT_INTERNAL_ERROR
        },
        Pause::Shutdown => EXIT_SHUTDOWN,
        Pause::Invalid(t) => *t,
    }
}

proof fn lemma_put_same(p: Seq<u8>, off: int, n: int)
    requires
        0 <= off,
        0 <= n,
        off + n <= p.len(),
    ensures
        put(p, off, bytes_at(p, off, n)) == p,
{
    assert(put(p, off, bytes_at(p, off, n)) =~= p);
}

/// Re-encoding a decoded exit record reproduces its tag and its payload
/// bytes exactly.
pub proof fn lemma_encode_decode(tag: u32, p: Seq<u8>, r: Pause)
    requires
        p.len() == PAYLOAD_LEN,
        decodes_to(tag, p, r),
    ensures
        encoded_tag(r) == tag,
        encoded_payload(r, p) == p,
{
    lemma_auto_spec_u16_to_from_le_bytes();
    lemma_auto_spec_u32_to_from_le_bytes();
    lemma_auto_spec_u64_to_from_le_bytes();
    lemma_put_same(p, 0, 8);
    lemma_put_same(p, 0, 4);
    lemma_put_same(p, 4, 4);
    lemma_put_same(p, 8, 8);
    lemma_put_same(p, 16, 4);
    lemma_put_same(p, 0, 1);
    lemma_put_same(p, 1, 1);
    lemma_put_same(p, 2, 2);
    lemma_put_same(p, 20, 1);
    if tag == EXIT_IO && (p[0] == IO_IN || p[0] == IO_OUT) {
        assert(seq![r->direction.spec_code()] =~= bytes_at(p, 0, 1));
        assert(seq![r->size] =~= bytes_at(p, 1, 1));
    } else if tag == EXIT_MMIO && (p[20] == 0 || p[20] == 1) {
        assert(seq![if r->is_write { 1u8 } else { 0u8 }] =~= bytes_at(p, 20, 1));
    }
}

/// A tag without a variant of its own decodes, whatever the payload, to
/// `Invalid` with that tag, and re-encoding that value changes neither the
/// tag nor any payload byte.
pub proof fn lemma_unrecognized_tag(tag: u32, p: Seq<u8>, r: Pause)
    requires
        p.len() == PAYLOAD_LEN,
        !is_decoded_tag(tag),
        decodes_to(tag, p, r),
    ensures
        r == Pause::Invalid(tag),
        encoded_tag(r) == tag,
        encoded_payload(r, p) == p,
{
}

proof fn lemma_put_read(q: Seq<u8>, off: int, b: Seq<u8>)
    requires
        0 <= off,
        off + b.len() <= q.len(),
    ensures
        put(q, off, b).len() == q.len(),
        bytes_at(put(q, off, b), off, b.len() as int) == b,
{
    assert(bytes_at(put(q, off, b), off, b.len() as int) =~= b);
}

proof fn lemma_put_other(q: Seq<u8>, off: int, b: Seq<u8>, off2: int, n: int)
    requires
        0 <= off,
        off + b.len() <= q.len(),
        0 <= off2,
        0 <= n,
        off2 + n <= q.len(),
        off2 + n <= off || off + b.len() <= off2,
    ensures
        bytes_at(put(q, off, b), off2, n) == bytes_at(q, off2, n),
{
    assert(bytes_at(put(q, off, b), off2, n) =~= bytes_at(q, off2, n));
}

/// Decoding what encoding wrote gives back the value encoded, for every
/// value but an `Invalid` that carries a tag with a variant of its own.
pub proof fn lemma_decode_encode(r: Pause, p: Seq<u8>)
    requires
        p.len() == PAYLOAD_LEN,
        !(r is Invalid && is_decoded_tag(r->Invalid_0)),
    ensures
        encoded_payload(r, p).len() == PAYLOAD_LEN,
        decodes_to(encoded_tag(r), encoded_payload(r, p), r),
{
    lemma_auto_spec_u16_to_from_le_bytes();
    lemma_auto_spec_u32_to_from_le_bytes();
    lemma_auto_spec_u64_to_from_le_bytes();
    match r {
        Pause::Unknown(v) => {
            lemma_put_read(p, 0, spec_u64_to_le_bytes(v));
        },
        Pause::FailEntry(v) => {
            lemma_put_read(p, 0, spec_u64_to_le_bytes(v));
        },
        Pause::Exception(e, c) => {
            let q1 = put(p, 0, spec_u32_to_le_bytes(e));
            lemma_put_read(p, 0, spec_u32_to_le_bytes(e));
            lemma_put_read(q1, 4, spec_u32_to_le_bytes(c));
            lemma_put_other(q1, 4, spec_u32_to_le_bytes(c), 0, 4);
        },
        Pause::Io { direction, size, port, count, data_offset } => {
            let d = seq![direction.spec_code()];
            let s = seq![size];
            let q1 = put(p, 0, d);
            let q2 = put(q1, 1, s);
            let q3 = put(q2, 2, spec_u16_to_le_bytes(port));
            let q4 = put(q3, 4, spec_u32_to_le_bytes(count));
            let q5 = put(q4, 8, spec_u64_to_le_bytes(data_offset));
            lemma_put_read(p, 0, d);
            lemma_put_read(q1, 1, s);
            lemma_put_other(q1, 1, s, 0, 1);
            lemma_put_read(q2, 2, spec_u16_to_le_bytes(port));
            lemma_put_other(q2, 2, spec_u16_to_le_bytes(port), 0, 2);
            lemma_put_read(q3, 4, spec_u32_to_le_bytes(count));
            lemma_put_other(q3, 4, spec_u32_to_le_bytes(count), 0, 4);
            lemma_put_read(q4, 8, spec_u64_to_le_bytes(data_offset));
            lemma_put_other(q4, 8, spec_u64_to_le_bytes(data_offset), 0, 8);
            assert(bytes_at(q2, 0, 2) == bytes_at(q1, 0, 1) + seq![size]) by {
                assert(bytes_at(q2, 0, 2) =~= bytes_at(q1, 0, 1) + bytes_at(q2, 1, 1));
            }
            lemma_put_other(q4, 8, spec_u64_to_le_bytes(data_offset), 2, 2);
            lemma_put_other(q3, 4, spec_u32_to_le_bytes(count), 2, 2);
            assert(bytes_at(q5, 4, 4) == bytes_at(q4, 4, 4)) by {
                lemma_put_other(q4, 8, spec_u64_to_le_bytes(data_offset), 4, 4);
            }
        },
        Pause::Mmio { address, data, length, is_write } => {
            let w = seq![if is_write { 1u8 } else { 0u8 }];
            let q1 = put(p, 0, spec_u64_to_le_bytes(address));
            let q2 = put(q1, 8, data@);
            let q3 = put(q2, 16, spec_u32_to_le_bytes(length));
            let q4 = put(q3, 20, w);
            lemma_put_read(p, 0, spec_u64_to_le_bytes(address));
            lemma_put_read(q1, 8, data@);
            lemma_put_other(q1, 8, data@, 0, 8);
            lemma_put_read(q2, 16, spec_u32_to_le_bytes(length));
            lemma_put_other(q2, 16, spec_u32_to_le_bytes(length), 0, 8);
            lemma_put_other(q2, 16, spec_u32_to_le_bytes(length), 8, 8);
            lemma_put_read(q3, 20, w);
            lemma_put_other(q3, 20, w, 0, 8);
            lemma_put_other(q3, 20, w, 8, 8);
            lemma_put_other(q3, 20, w, 16, 4);
            assert(q4[20] == bytes_at(q4, 20, 1)[0]);
        },
        Pause::SystemEvent(k, f) => {
            let q1 = put(p, 0, spec_u32_to_le_bytes(k));
            lemma_put_read(p, 0, spec_u32_to_le_bytes(k));
            lemma_put_read(q1, 8, spec_u64_to_le_bytes(f));
            lemma_put_other(q1, 8, spec_u64_to_le_bytes(f), 0, 4);
        },
        Pause::InternalError(v) => {
            lemma_put_read(p, 0, spec_u32_to_le_bytes(v));
        },
        Pause::Shutdown => {},
        Pause::Invalid(t) => {},
    }
}

} // verus!
