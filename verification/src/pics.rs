//! Model of the two cascaded 8259 interrupt controllers.
//!
//! The physical pair sits behind four fixed I/O ports.  The model keeps the
//! controllers' configuration (the two vector offsets and whether the remap
//! handshake has run) and a log of every acknowledgment sent, and computes
//! the exact port writes that each operation asks the hardware for.  The
//! surrounding program performs those writes; nothing here touches a port.

use vstd::prelude::*;

verus! {

/// Command port of the primary controller.
pub const PIC_1_COMMAND_PORT: u16 = 0x20;

/// Data port of the primary controller.
pub const PIC_1_DATA_PORT: u16 = 0x21;

/// Command port of the secondary controller.
pub const PIC_2_COMMAND_PORT: u16 = 0xA0;

/// Data port of the secondary controller.
pub const PIC_2_DATA_PORT: u16 = 0xA1;

/// Command byte that opens the initialization handshake.
pub const CMD_INIT: u8 = 0x11;

/// Command byte acknowledging the end of an interrupt.
pub const CMD_END_OF_INTERRUPT: u8 = 0x20;

/// Mode byte selecting 8086/88 mode during the handshake.
pub const MODE_8086: u8 = 0x01;

/// Each controller serves eight interrupt lines.
pub const LINES_PER_PIC: u8 = 8;

/// One byte written to one I/O port: the unit of communication with the
/// controllers.
#[derive(Debug, Clone, Copy, PartialEq, Eq, Structural)]
pub struct PortWrite {
    pub port: u16,
    pub value: u8,
}

/// Offsets are acceptable when both controllers sit above the 32 vectors the
/// CPU reserves for exceptions, and the secondary's range follows the
/// primary's immediately.  Anything else makes hardware interrupts collide
/// with exception vectors and silently corrupt exception delivery.
pub open spec fn valid_offsets(primary_offset: u8, secondary_offset: u8) -> bool {
    &&& primary_offset >= 32
    &&& secondary_offset == primary_offset + LINES_PER_PIC
}

/// The pair of cascaded interrupt controllers.
///
/// Lifecycle: constructed once at startup, remapped once by [`ChainedPics::initialize`],
/// then asked for one acknowledgment per serviced hardware interrupt for the
/// rest of program life.  The acknowledgment log exists so that the
/// end-of-interrupt discipline (exactly one acknowledgment per serviced
/// interrupt) is visible in contracts and observable by a harness.
pub struct ChainedPics {
    primary_offset: u8,
    secondary_offset: u8,
    initialized: bool,
    acks: Vec<u8>,
}

impl ChainedPics {
    /// Base vector of the primary controller.
    pub closed spec fn primary_offset(self) -> u8 {
        self.primary_offset
    }

    /// Base vector of the secondary controller.
    pub closed spec fn secondary_offset(self) -> u8 {
        self.secondary_offset
    }

    /// Whether the remap handshake has been performed.
    pub closed spec fn is_initialized(self) -> bool {
        self.initialized
    }

    /// Every acknowledged vector, in the order the acknowledgments were sent.
    pub closed spec fn acks(self) -> Seq<u8> {
        self.acks@
    }

    /// A well-formed pair has acceptable offsets.
    pub open spec fn wf(self) -> bool {
        valid_offsets(self.primary_offset(), self.secondary_offset())
    }

    /// The primary controller serves `vector`.
    pub open spec fn primary_handles(self, vector: u8) -> bool {
        self.primary_offset() <= vector < self.primary_offset() + LINES_PER_PIC
    }

    /// The secondary controller serves `vector`.
    pub open spec fn secondary_handles(self, vector: u8) -> bool {
        self.secondary_offset() <= vector < self.secondary_offset() + LINES_PER_PIC
    }

    /// One of the two controllers serves `vector`.
    pub open spec fn handles(self, vector: u8) -> bool {
        self.primary_handles(vector) || self.secondary_handles(vector)
    }

    /// Every acknowledged vector in order, for an observer of the
    /// end-of-interrupt discipline.
    pub fn acknowledged(&self) -> (r: &Vec<u8>)
        ensures
            r@ == self.acks(),
    {
        &self.acks
    }

    /// Value construction.  Wrong offsets cause interrupts to collide with
    /// CPU exception vectors, so acceptable offsets are a precondition of
    /// construction, not a runtime check.
    pub fn new(primary_offset: u8, secondary_offset: u8) -> (r: ChainedPics)
        requires
            valid_offsets(primary_offset, secondary_offset),
        ensures
            r.primary_offset() == primary_offset,
            r.secondary_offset() == secondary_offset,
            !r.is_initialized(),
            r.acks() == Seq::<u8>::empty(),
            r.wf(),
    {
        ChainedPics { primary_offset, secondary_offset, initialized: false, acks: Vec::new() }
    }

    /// Construction with the offset precondition checked: returns a pair
    /// exactly when the offsets are acceptable.
    pub fn new_checked(primary_offset: u8, secondary_offset: u8) -> (r: Option<ChainedPics>)
        ensures
            r is Some <==> valid_offsets(primary_offset, secondary_offset),
            match r {
                Some(p) => {
                    &&& p.primary_offset() == primary_offset
                    &&& p.secondary_offset() == secondary_offset
                    &&& !p.is_initialized()
                    &&& p.acks() == Seq::<u8>::empty()
                },
                None => true,
            },
    {
        if primary_offset >= 32 && secondary_offset as u16 == primary_offset as u16 + LINES_PER_PIC as u16 {
            Some(Self::new(primary_offset, secondary_offset))
        } else {
            None
        }
    }

    /// The port writes of the one-time remap handshake, in order: the
    /// initialization command to both controllers, each controller's new
    /// vector offset, the cascade wiring (the secondary hangs off line 2 of
    /// the primary), the 8086/88 mode byte, and finally the restored line
    /// masks that were read off the two data ports before the handshake.
    pub open spec fn spec_handshake(
        primary_offset: u8,
        secondary_offset: u8,
        saved_mask_1: u8,
        saved_mask_2: u8,
    ) -> Seq<PortWrite> {
        seq![
            PortWrite { port: PIC_1_COMMAND_PORT, value: CMD_INIT },
            PortWrite { port: PIC_2_COMMAND_PORT, value: CMD_INIT },
            PortWrite { port: PIC_1_DATA_PORT, value: primary_offset },
            PortWrite { port: PIC_2_DATA_PORT, value: secondary_offset },
            PortWrite { port: PIC_1_DATA_PORT, value: 4 },
            PortWrite { port: PIC_2_DATA_PORT, value: 2 },
            PortWrite { port: PIC_1_DATA_PORT, value: MODE_8086 },
            PortWrite { port: PIC_2_DATA_PORT, value: MODE_8086 },
            PortWrite { port: PIC_1_DATA_PORT, value: saved_mask_1 },
            PortWrite { port: PIC_2_DATA_PORT, value: saved_mask_2 },
        ]
    }

    /// Performs the one-time remap handshake.  The two mask bytes are what
    /// the caller read off the controllers' data ports just before; they are
    /// written back at the end of the handshake.  Returns the port writes
    /// for the caller to perform, in order.
    pub fn initialize(&mut self, saved_mask_1: u8, saved_mask_2: u8) -> (writes: Vec<PortWrite>)
        requires
            old(self).wf(),
            !old(self).is_initialized(),
        ensures
            final(self).wf(),
            final(self).is_initialized(),
            final(self).primary_offset() == old(self).primary_offset(),
            final(self).secondary_offset() == old(self).secondary_offset(),
            final(self).acks() == old(self).acks(),
            writes@ =~= Self::spec_handshake(
                old(self).primary_offset(),
                old(self).secondary_offset(),
                saved_mask_1,
                saved_mask_2,
            ),
    {
        self.initialized = true;
        let mut writes: Vec<PortWrite> = Vec::new();
        writes.push(PortWrite { port: PIC_1_COMMAND_PORT, value: CMD_INIT });
        writes.push(PortWrite { port: PIC_2_COMMAND_PORT, value: CMD_INIT });
        writes.push(PortWrite { port: PIC_1_DATA_PORT, value: self.primary_offset });
        writes.push(PortWrite { port: PIC_2_DATA_PORT, value: self.secondary_offset });
        writes.push(PortWrite { port: PIC_1_DATA_PORT, value: 4 });
        writes.push(PortWrite { port: PIC_2_DATA_PORT, value: 2 });
        writes.push(PortWrite { port: PIC_1_DATA_PORT, value: MODE_8086 });
        writes.push(PortWrite { port: PIC_2_DATA_PORT, value: MODE_8086 });
        writes.push(PortWrite { port: PIC_1_DATA_PORT, value: saved_mask_1 });
        writes.push(PortWrite { port: PIC_2_DATA_PORT, value: saved_mask_2 });
        writes
    }

    /// Whether one of the two controllers serves `vector`.
    pub fn handles_interrupt(&self, vector: u8) -> (r: bool)
        requires
            self.wf(),
        ensures
            r == self.handles(vector),
    {
        (vector >= self.primary_offset && (vector as u16) < self.primary_offset as u16 + LINES_PER_PIC as u16)
            || (vector >= self.secondary_offset && (vector as u16) < self.secondary_offset as u16 + LINES_PER_PIC as u16)
    }

    /// The port writes that acknowledge `vector`: the secondary controller
    /// is chained through the primary, so a vector it serves is acknowledged
    /// on both; a vector of the primary is acknowledged there alone.
    pub open spec fn spec_eoi_writes(self, vector: u8) -> Seq<PortWrite> {
        if self.secondary_handles(vector) {
            seq![
                PortWrite { port: PIC_2_COMMAND_PORT, value: CMD_END_OF_INTERRUPT },
                PortWrite { port: PIC_1_COMMAND_PORT, value: CMD_END_OF_INTERRUPT },
            ]
        } else {
            seq![PortWrite { port: PIC_1_COMMAND_PORT, value: CMD_END_OF_INTERRUPT }]
        }
    }

    /// Acknowledges one serviced interrupt.  Must be called exactly once per
    /// serviced hardware interrupt, after the handler's work and before the
    /// handler returns: the log gains exactly one entry.  Acknowledging a
    /// vector that no pending interrupt was serviced for is a spurious
    /// acknowledgment with undefined effect on the hardware, so servicing is
    /// a precondition; within the model that is expressed by asking that the
    /// pair is initialized and actually serves the vector.  Returns the port
    /// writes for the caller to perform, in order.
    pub fn notify_end_of_interrupt(&mut self, vector: u8) -> (writes: Vec<PortWrite>)
        requires
            old(self).wf(),
            old(self).is_initialized(),
            old(self).handles(vector),
        ensures
            final(self).wf(),
            final(self).is_initialized(),
            final(self).primary_offset() == old(self).primary_offset(),
            final(self).secondary_offset() == old(self).secondary_offset(),
            final(self).acks() =~= old(self).acks().push(vector),
            writes@ =~= old(self).spec_eoi_writes(vector),
    {
        let mut writes: Vec<PortWrite> = Vec::new();
        if vector >= self.secondary_offset && (vector as u16) < self.secondary_offset as u16 + LINES_PER_PIC as u16 {
            writes.push(PortWrite { port: PIC_2_COMMAND_PORT, value: CMD_END_OF_INTERRUPT });
            writes.push(PortWrite { port: PIC_1_COMMAND_PORT, value: CMD_END_OF_INTERRUPT });
        } else {
            writes.push(PortWrite { port: PIC_1_COMMAND_PORT, value: CMD_END_OF_INTERRUPT });
        }
        self.acks.push(vector);
        writes
    }
}

} // verus!
