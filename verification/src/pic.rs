//! Interrupt Controller Bridge: the chained pair of legacy 8259-style
//! controllers. The remap handshake and the end-of-interrupt protocol are
//! modeled as the exact byte sequences written to the controller I/O
//! ports; the hardware binding performs these writes verbatim.

use vstd::prelude::*;

verus! {

pub const PIC_1_COMMAND_PORT: u16 = 0x20;

pub const PIC_1_DATA_PORT: u16 = 0x21;

pub const PIC_2_COMMAND_PORT: u16 = 0xA0;

pub const PIC_2_DATA_PORT: u16 = 0xA1;

/// Port written only to burn a little time between configuration writes.
pub const WAIT_PORT: u16 = 0x80;

/// Command that begins the initialization handshake.
pub const CMD_INIT: u8 = 0x11;

/// Command that acknowledges a serviced interrupt.
pub const CMD_END_OF_INTERRUPT: u8 = 0x20;

/// Mode byte selecting 8086 operation.
pub const MODE_8086: u8 = 0x01;

/// Number of interrupt lines each controller serves.
pub const LINES_PER_PIC: u8 = 8;

/// Number of CPU-reserved exception vectors; controller offsets must lie
/// above them.
pub const RESERVED_VECTORS: u8 = 32;

/// One byte written to an I/O port: the unit of the hardware protocol.
#[derive(Clone, Copy, PartialEq, Eq, Structural, Debug)]
pub struct PortWrite {
    pub port: u16,
    pub value: u8,
}

/// One 8259-style controller: its programmed vector offset, its two ports,
/// and the line mask restored after the remap handshake (a set bit disables
/// a line; 0 keeps every line enabled).
#[derive(Clone, Copy, PartialEq, Eq, Structural, Debug)]
pub struct Pic {
    pub offset: u8,
    pub command_port: u16,
    pub data_port: u16,
    pub mask: u8,
}

impl Pic {
    /// This controller serves `vector` iff it lies in its 8-line window.
    pub open spec fn spec_handles(self, vector: u8) -> bool {
        self.offset <= vector < self.offset + LINES_PER_PIC
    }

    pub fn handles_interrupt(&self, vector: u8) -> (r: bool)
        ensures
            r == self.spec_handles(vector),
    {
        self.offset <= vector && (vector as u16) < (self.offset as u16) + (LINES_PER_PIC as u16)
    }
}

/// The chained controller pair, with the secondary wired through line 2 of
/// the primary.
#[derive(Clone, Copy, PartialEq, Eq, Structural, Debug)]
pub struct ChainedPics {
    pub primary: Pic,
    pub secondary: Pic,
    pub initialized: bool,
}

impl ChainedPics {
    /// Well-formed controller pair: standard ports, offsets above the
    /// CPU-reserved vectors, both 8-line windows inside the vector space
    /// and not overlapping each other.
    pub open spec fn wf(self) -> bool {
        &&& self.primary.command_port == PIC_1_COMMAND_PORT
        &&& self.primary.data_port == PIC_1_DATA_PORT
        &&& self.secondary.command_port == PIC_2_COMMAND_PORT
        &&& self.secondary.data_port == PIC_2_DATA_PORT
        &&& self.primary.offset >= RESERVED_VECTORS
        &&& self.secondary.offset >= RESERVED_VECTORS
        &&& self.primary.offset + LINES_PER_PIC <= 256
        &&& self.secondary.offset + LINES_PER_PIC <= 256
        &&& (self.primary.offset + LINES_PER_PIC <= self.secondary.offset
            || self.secondary.offset + LINES_PER_PIC <= self.primary.offset)
    }

    /// Create the pair with the given vector offsets. All lines start
    /// enabled (mask 0) and the remap handshake has not run yet.
    pub fn new(offset1: u8, offset2: u8) -> (r: ChainedPics)
        requires
            offset1 >= RESERVED_VECTORS,
            offset2 >= RESERVED_VECTORS,
            offset1 + LINES_PER_PIC <= 256,
            offset2 + LINES_PER_PIC <= 256,
            offset1 + LINES_PER_PIC <= offset2 || offset2 + LINES_PER_PIC <= offset1,
        ensures
            r.wf(),
            r.primary.offset == offset1,
            r.secondary.offset == offset2,
            r.primary.mask == 0,
            r.secondary.mask == 0,
            !r.initialized,
    {
        ChainedPics {
            primary: Pic {
                offset: offset1,
                command_port: PIC_1_COMMAND_PORT,
                data_port: PIC_1_DATA_PORT,
                mask: 0,
            },
            secondary: Pic {
                offset: offset2,
                command_port: PIC_2_COMMAND_PORT,
                data_port: PIC_2_DATA_PORT,
                mask: 0,
            },
            initialized: false,
        }
    }

    /// Either controller serves `vector`.
    pub open spec fn spec_handles(self, vector: u8) -> bool {
        self.primary.spec_handles(vector) || self.secondary.spec_handles(vector)
    }

    pub fn handles_interrupt(&self, vector: u8) -> (r: bool)
        ensures
            r == self.spec_handles(vector),
    {
        self.primary.handles_interrupt(vector) || self.secondary.handles_interrupt(vector)
    }

    /// Run the four-step remap handshake. The returned writes are the whole
    /// wire protocol, in order; the caller must put them on the ports
    /// verbatim.
    pub fn initialize(&mut self) -> (writes: Vec<PortWrite>)
        requires
            old(self).wf(),
            !old(self).initialized,
        ensures
            final(self).wf(),
            final(self).initialized,
            final(self).primary == old(self).primary,
            final(self).secondary == old(self).secondary,
            writes@ =~= spec_initialize_writes(*old(self)),
    {
        let mut writes: Vec<PortWrite> = Vec::new();
        writes.push(PortWrite { port: PIC_1_COMMAND_PORT, value: CMD_INIT });
        writes.push(PortWrite { port: WAIT_PORT, value: 0 });
        writes.push(PortWrite { port: PIC_2_COMMAND_PORT, value: CMD_INIT });
        writes.push(PortWrite { port: WAIT_PORT, value: 0 });
        writes.push(PortWrite { port: PIC_1_DATA_PORT, value: self.primary.offset });
        writes.push(PortWrite { port: WAIT_PORT, value: 0 });
        writes.push(PortWrite { port: PIC_2_DATA_PORT, value: self.secondary.offset });
        writes.push(PortWrite { port: WAIT_PORT, value: 0 });
        writes.push(PortWrite { port: PIC_1_DATA_PORT, value: 4 });
        writes.push(PortWrite { port: WAIT_PORT, value: 0 });
        writes.push(PortWrite { port: PIC_2_DATA_PORT, value: 2 });
        writes.push(PortWrite { port: WAIT_PORT, value: 0 });
        writes.push(PortWrite { port: PIC_1_DATA_PORT, value: MODE_8086 });
        writes.push(PortWrite { port: WAIT_PORT, value: 0 });
        writes.push(PortWrite { port: PIC_2_DATA_PORT, value: MODE_8086 });
        writes.push(PortWrite { port: WAIT_PORT, value: 0 });
        writes.push(PortWrite { port: PIC_1_DATA_PORT, value: self.primary.mask });
        writes.push(PortWrite { port: PIC_2_DATA_PORT, value: self.secondary.mask });
        self.initialized = true;
        writes
    }

    /// Acknowledge one serviced interrupt. The returned writes are exactly
    /// the acknowledgment bytes owed for `vector`: none if no controller
    /// serves it; the primary's if it is a primary line; the secondary's
    /// followed by the primary's if it is a secondary line, because every
    /// secondary interrupt is chained through the primary.
    pub fn notify_end_of_interrupt(&self, vector: u8) -> (writes: Vec<PortWrite>)
        requires
            self.wf(),
            self.initialized,
        ensures
            writes@ =~= spec_eoi_writes(*self, vector),
    {
        let mut writes: Vec<PortWrite> = Vec::new();
        if self.handles_interrupt(vector) {
            if self.secondary.handles_interrupt(vector) {
                writes.push(
                    PortWrite { port: PIC_2_COMMAND_PORT, value: CMD_END_OF_INTERRUPT },
                );
            }
            writes.push(PortWrite { port: PIC_1_COMMAND_PORT, value: CMD_END_OF_INTERRUPT });
        }
        writes
    }
}

/// The exact wire protocol of the remap handshake: an init command to each
/// controller, then on each data port the vector offset, the chaining byte
/// (the secondary hangs off line 2 of the primary), and the 8086 mode byte,
/// with a dummy write to the wait port between steps, and finally the
/// restored line masks.
pub open spec fn spec_initialize_writes(p: ChainedPics) -> Seq<PortWrite> {
    seq![
        PortWrite { port: PIC_1_COMMAND_PORT, value: CMD_INIT },
        PortWrite { port: WAIT_PORT, value: 0 },
        PortWrite { port: PIC_2_COMMAND_PORT, value: CMD_INIT },
        PortWrite { port: WAIT_PORT, value: 0 },
        PortWrite { port: PIC_1_DATA_PORT, value: p.primary.offset },
        PortWrite { port: WAIT_PORT, value: 0 },
        PortWrite { port: PIC_2_DATA_PORT, value: p.secondary.offset },
        PortWrite { port: WAIT_PORT, value: 0 },
        PortWrite { port: PIC_1_DATA_PORT, value: 4 },
        PortWrite { port: WAIT_PORT, value: 0 },
        PortWrite { port: PIC_2_DATA_PORT, value: 2 },
        PortWrite { port: WAIT_PORT, value: 0 },
        PortWrite { port: PIC_1_DATA_PORT, value: MODE_8086 },
        PortWrite { port: WAIT_PORT, value: 0 },
        PortWrite { port: PIC_2_DATA_PORT, value: MODE_8086 },
        PortWrite { port: WAIT_PORT, value: 0 },
        PortWrite { port: PIC_1_DATA_PORT, value: p.primary.mask },
        PortWrite { port: PIC_2_DATA_PORT, value: p.secondary.mask },
    ]
}

/// The acknowledgment bytes owed for one serviced vector.
pub open spec fn spec_eoi_writes(p: ChainedPics, vector: u8) -> Seq<PortWrite> {
    if p.secondary.spec_handles(vector) {
        seq![
            PortWrite { port: PIC_2_COMMAND_PORT, value: CMD_END_OF_INTERRUPT },
            PortWrite { port: PIC_1_COMMAND_PORT, value: CMD_END_OF_INTERRUPT },
        ]
    } else if p.primary.spec_handles(vector) {
        seq![PortWrite { port: PIC_1_COMMAND_PORT, value: CMD_END_OF_INTERRUPT }]
    } else {
        Seq::empty()
    }
}

/// Number of writes in `s` that send `value` to `port`.
pub open spec fn count_writes(s: Seq<PortWrite>, port: u16, value: u8) -> nat
    decreases s.len(),
{
    if s.len() == 0 {
        0
    } else {
        (if s[0].port == port && s[0].value == value {
            1nat
        } else {
            0nat
        }) + count_writes(s.drop_first(), port, value)
    }
}

pub proof fn lemma_count_writes_concat(a: Seq<PortWrite>, b: Seq<PortWrite>, port: u16, value: u8)
    ensures
        count_writes(a + b, port, value) == count_writes(a, port, value) + count_writes(
            b,
            port,
            value,
        ),
    decreases a.len(),
{
    if a.len() == 0 {
        assert(a + b =~= b);
    } else {
        assert((a + b).drop_first() =~= a.drop_first() + b);
        lemma_count_writes_concat(a.drop_first(), b, port, value);
    }
}

/// Chaining law, one serviced interrupt: the primary controller receives
/// exactly one acknowledgment iff some controller serves the vector, the
/// secondary exactly one iff the vector lies in the secondary's window —
/// so a secondary acknowledgment never goes out without the primary's, and
/// a vector outside both windows produces none at all.
pub proof fn lemma_eoi_exactly_once(p: ChainedPics, vector: u8)
    requires
        p.wf(),
    ensures
        count_writes(spec_eoi_writes(p, vector), PIC_1_COMMAND_PORT, CMD_END_OF_INTERRUPT) == (
        if p.spec_handles(vector) {
            1nat
        } else {
            0nat
        }),
        count_writes(spec_eoi_writes(p, vector), PIC_2_COMMAND_PORT, CMD_END_OF_INTERRUPT) == (
        if p.secondary.spec_handles(vector) {
            1nat
        } else {
            0nat
        }),
{
    reveal_with_fuel(count_writes, 4);
}

/// The acknowledgments produced by a whole sequence of serviced vectors.
pub open spec fn spec_eoi_log(p: ChainedPics, vectors: Seq<u8>) -> Seq<PortWrite>
    decreases vectors.len(),
{
    if vectors.len() == 0 {
        Seq::empty()
    } else {
        spec_eoi_writes(p, vectors[0]) + spec_eoi_log(p, vectors.drop_first())
    }
}

/// How many of `vectors` some controller serves.
pub open spec fn count_serviced(p: ChainedPics, vectors: Seq<u8>) -> nat
    decreases vectors.len(),
{
    if vectors.len() == 0 {
        0
    } else {
        (if p.spec_handles(vectors[0]) {
            1nat
        } else {
            0nat
        }) + count_serviced(p, vectors.drop_first())
    }
}

/// How many of `vectors` lie in the secondary controller's window.
pub open spec fn count_secondary(p: ChainedPics, vectors: Seq<u8>) -> nat
    decreases vectors.len(),
{
    if vectors.len() == 0 {
        0
    } else {
        (if p.secondary.spec_handles(vectors[0]) {
            1nat
        } else {
            0nat
        }) + count_secondary(p, vectors.drop_first())
    }
}

/// Chaining law, all call sequences: over any sequence of serviced
/// interrupts the primary controller receives exactly one acknowledgment
/// per serviced interrupt, and the secondary exactly one per interrupt in
/// its own window — never fewer, never doubled.
pub proof fn lemma_eoi_log_counts(p: ChainedPics, vectors: Seq<u8>)
    requires
        p.wf(),
    ensures
        count_writes(spec_eoi_log(p, vectors), PIC_1_COMMAND_PORT, CMD_END_OF_INTERRUPT)
            == count_serviced(p, vectors),
        count_writes(spec_eoi_log(p, vectors), PIC_2_COMMAND_PORT, CMD_END_OF_INTERRUPT)
            == count_secondary(p, vectors),
    decreases vectors.len(),
{
    if vectors.len() == 0 {
    } else {
        lemma_eoi_exactly_once(p, vectors[0]);
        lemma_count_writes_concat(
            spec_eoi_writes(p, vectors[0]),
            spec_eoi_log(p, vectors.drop_first()),
            PIC_1_COMMAND_PORT,
            CMD_END_OF_INTERRUPT,
        );
        lemma_count_writes_concat(
            spec_eoi_writes(p, vectors[0]),
            spec_eoi_log(p, vectors.drop_first()),
            PIC_2_COMMAND_PORT,
            CMD_END_OF_INTERRUPT,
        );
        lemma_eoi_log_counts(p, vectors.drop_first());
    }
}

} // verus!
