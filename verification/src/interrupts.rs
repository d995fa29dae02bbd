//! The interrupt vector table and the per-vector handler routines.
//!
//! The vector table binds vector numbers to handlers and, for the double
//! fault, to the backup stack of the task-state segment.  It is built once
//! at startup, loaded once, and never mutated afterward.  The handler
//! routines are the glue run on each vector: the breakpoint report, the
//! fatal double-fault report, the timer tick mark, and the keyboard byte
//! consumption — the hardware-interrupt ones ending with exactly one
//! acknowledgment to the controller pair.

use vstd::prelude::*;
use vstd::string::StringExecFns;
use vstd::utf8::encode_utf8;

use crate::gdt::DOUBLE_FAULT_IST_INDEX;
use crate::kernel::{step_allowed, step_apply, BootState, BootStep};
use crate::keyboard::{spec_event_of, spec_process_keyevent, Key, ScancodeDecoder};
use crate::pics::{ChainedPics, PortWrite};
use crate::vga_buffer::{spec_char_bytes, spec_write_text, Writer};

verus! {

/// Base vector of the primary interrupt controller: the first value above
/// the range the CPU reserves for exceptions.
pub const PIC_1_OFFSET: u8 = 32;

/// Base vector of the secondary controller, whose eight lines follow the
/// primary's immediately.
pub const PIC_2_OFFSET: u8 = PIC_1_OFFSET + 8;

/// I/O port on which keyboard scancodes are read.  The byte must be read
/// exactly once per keyboard interrupt, before the acknowledgment.
pub const PS2_CONTROLLER_IO_PORT: u16 = 0x60;

/// Vector of the breakpoint exception.
pub const BREAKPOINT_VECTOR: u8 = 3;

/// Vector of the double-fault exception.
pub const DOUBLE_FAULT_VECTOR: u8 = 8;

/// Number of entries of the vector table.
pub const IDT_ENTRIES: usize = 256;

/// The hardware interrupt vectors, counted from the primary controller's
/// base so they sit above the CPU exception range.
#[derive(Debug, Clone, Copy, PartialEq, Eq, Structural)]
pub enum InterruptIndex {
    Timer,
    Keyboard,
}

impl InterruptIndex {
    /// The vector number: the timer sits on the primary controller's first
    /// line, the keyboard on its second.
    pub open spec fn spec_as_u8(self) -> u8 {
        match self {
            InterruptIndex::Timer => PIC_1_OFFSET,
            InterruptIndex::Keyboard => (PIC_1_OFFSET + 1) as u8,
        }
    }

    /// The vector number.
    #[verifier::when_used_as_spec(spec_as_u8)]
    pub fn as_u8(self) -> (r: u8)
        ensures
            r == self.spec_as_u8(),
    {
        match self {
            InterruptIndex::Timer => PIC_1_OFFSET,
            InterruptIndex::Keyboard => PIC_1_OFFSET + 1,
        }
    }

    /// The vector number, as a table index.
    pub fn as_usize(self) -> (r: usize)
        ensures
            r == self.spec_as_u8() as usize,
    {
        self.as_u8() as usize
    }
}

/// The snapshot the CPU hands a fault handler: where execution stopped and
/// on which stack.  Addresses and selector values are plain integers.
#[derive(Debug, Clone, Copy, PartialEq, Eq, Structural)]
pub struct InterruptStackFrame {
    pub instruction_pointer: u64,
    pub code_segment: u64,
    pub cpu_flags: u64,
    pub stack_pointer: u64,
    pub stack_segment: u64,
}

/// The sixteen hexadecimal digit characters.
pub open spec fn spec_hex_digit(d: u64) -> char {
    if d == 0 {
        '0'
    } else if d == 1 {
        '1'
    } else if d == 2 {
        '2'
    } else if d == 3 {
        '3'
    } else if d == 4 {
        '4'
    } else if d == 5 {
        '5'
    } else if d == 6 {
        '6'
    } else if d == 7 {
        '7'
    } else if d == 8 {
        '8'
    } else if d == 9 {
        '9'
    } else if d == 10 {
        'a'
    } else if d == 11 {
        'b'
    } else if d == 12 {
        'c'
    } else if d == 13 {
        'd'
    } else if d == 14 {
        'e'
    } else {
        'f'
    }
}

/// A 64-bit value as sixteen hexadecimal digits, most significant first.
pub open spec fn spec_hex(v: u64) -> Seq<char> {
    Seq::new(16, |i: int| spec_hex_digit((v >> ((60 - 4 * i) as u64)) & 0xF))
}

/// One hexadecimal digit as text.
fn hex_digit_str(d: u64) -> (r: &'static str)
    requires
        d < 16,
    ensures
        r@ =~= seq![spec_hex_digit(d)],
{
    proof {
        reveal_strlit("0");
        reveal_strlit("1");
        reveal_strlit("2");
        reveal_strlit("3");
        reveal_strlit("4");
        reveal_strlit("5");
        reveal_strlit("6");
        reveal_strlit("7");
        reveal_strlit("8");
        reveal_strlit("9");
        reveal_strlit("a");
        reveal_strlit("b");
        reveal_strlit("c");
        reveal_strlit("d");
        reveal_strlit("e");
        reveal_strlit("f");
    }
    if d == 0 {
        "0"
    } else if d == 1 {
        "1"
    } else if d == 2 {
        "2"
    } else if d == 3 {
        "3"
    } else if d == 4 {
        "4"
    } else if d == 5 {
        "5"
    } else if d == 6 {
        "6"
    } else if d == 7 {
        "7"
    } else if d == 8 {
        "8"
    } else if d == 9 {
        "9"
    } else if d == 10 {
        "a"
    } else if d == 11 {
        "b"
    } else if d == 12 {
        "c"
    } else if d == 13 {
        "d"
    } else if d == 14 {
        "e"
    } else {
        "f"
    }
}

/// Renders a 64-bit value as its sixteen hexadecimal digits, most
/// significant first.
pub fn hex_u64(v: u64) -> (s: String)
    ensures
        s@ =~= spec_hex(v),
{
    let mut s = String::new();
    let mut i: usize = 0;
    while i < 16
        invariant
            i <= 16,
            s@ =~= spec_hex(v).take(i as int),
        decreases 16 - i,
    {
        let sh: u64 = 60 - 4 * (i as u64);
        let d: u64 = (v >> sh) & 0xF;
        assert((v >> sh) & 0xF < 16) by (bit_vector);
        let ds = hex_digit_str(d);
        s.append(ds);
        proof {
            assert(spec_hex(v).take(i + 1) =~= spec_hex(v).take(i as int).push(
                spec_hex(v)[i as int],
            ));
        }
        i = i + 1;
    }
    proof {
        assert(spec_hex(v).take(16) =~= spec_hex(v));
    }
    s
}

/// The stable, human-diffable rendering of a fault snapshot: one line per
/// field, each value as sixteen hexadecimal digits.
pub open spec fn spec_render_frame(isf: InterruptStackFrame) -> Seq<char> {
    "    instruction_pointer: 0x"@ + spec_hex(isf.instruction_pointer)
        + "\n    code_segment: 0x"@ + spec_hex(isf.code_segment) + "\n    cpu_flags: 0x"@
        + spec_hex(isf.cpu_flags) + "\n    stack_pointer: 0x"@ + spec_hex(isf.stack_pointer)
        + "\n    stack_segment: 0x"@ + spec_hex(isf.stack_segment) + "\n"@
}

/// Renders a fault snapshot for the diagnostic output.
pub fn render_frame(isf: &InterruptStackFrame) -> (s: String)
    ensures
        s@ =~= spec_render_frame(*isf),
{
    let mut s = String::new();
    s.append("    instruction_pointer: 0x");
    let h = hex_u64(isf.instruction_pointer);
    s.append(h.as_str());
    s.append("\n    code_segment: 0x");
    let h = hex_u64(isf.code_segment);
    s.append(h.as_str());
    s.append("\n    cpu_flags: 0x");
    let h = hex_u64(isf.cpu_flags);
    s.append(h.as_str());
    s.append("\n    stack_pointer: 0x");
    let h = hex_u64(isf.stack_pointer);
    s.append(h.as_str());
    s.append("\n    stack_segment: 0x");
    let h = hex_u64(isf.stack_segment);
    s.append(h.as_str());
    s.append("\n");
    s
}

/// Which handler routine a vector is bound to.
#[derive(Debug, Clone, Copy, PartialEq, Eq, Structural)]
pub enum HandlerId {
    Breakpoint,
    DoubleFault,
    Timer,
    Keyboard,
}

/// One populated vector table entry: the handler's identity and, if the
/// handler must run on a known-good stack, the interrupt-stack-table slot to
/// switch to on entry.
#[derive(Debug, Clone, Copy, PartialEq, Eq, Structural)]
pub struct IdtEntry {
    pub handler: HandlerId,
    pub ist_index: Option<u16>,
}

/// The CPU's dispatch table: one slot per vector number.  Built once at
/// startup, loaded once, never mutated afterward.
pub struct InterruptDescriptorTable {
    entries: Vec<Option<IdtEntry>>,
}

impl InterruptDescriptorTable {
    /// All 256 slots, populated or not.
    pub closed spec fn entries(self) -> Seq<Option<IdtEntry>> {
        self.entries@
    }

    /// The slot of one vector.
    pub open spec fn entry(self, vector: u8) -> Option<IdtEntry> {
        self.entries()[vector as int]
    }

    /// A well-formed table has exactly one slot per vector.
    pub open spec fn wf(self) -> bool {
        self.entries().len() == IDT_ENTRIES
    }

    /// Some populated entry switches stacks on entry.  Loading such a table
    /// is only sound once the segment table and task-state segment that
    /// define those stacks are loaded.
    pub open spec fn uses_stack_switch(self) -> bool {
        exists|v: int|
            0 <= v < IDT_ENTRIES && match #[trigger] self.entries()[v] {
                Some(e) => e.ist_index is Some,
                None => false,
            }
    }

    /// The slot of one vector, for an observer of the finished table.
    pub fn get_entry(&self, vector: u8) -> (r: Option<IdtEntry>)
        requires
            self.wf(),
        ensures
            r == self.entry(vector),
    {
        self.entries[vector as usize]
    }

    /// An empty table: every vector unpopulated.  A vector that fires while
    /// unpopulated is undefined at the CPU level, so the boot sequence must
    /// populate and load the table before such a vector can fire.
    pub fn new() -> (r: InterruptDescriptorTable)
        ensures
            r.wf(),
            forall|v: int| 0 <= v < IDT_ENTRIES ==> r.entries()[v] is None,
    {
        InterruptDescriptorTable { entries: vec![None; IDT_ENTRIES] }
    }

    /// Binds `vector` to a handler that runs on the interrupted stack.
    pub fn set_handler(&mut self, vector: u8, handler: HandlerId)
        requires
            old(self).wf(),
        ensures
            final(self).wf(),
            final(self).entries() =~= old(self).entries().update(
                vector as int,
                Some(IdtEntry { handler, ist_index: None }),
            ),
    {
        self.entries[vector as usize] = Some(IdtEntry { handler, ist_index: None });
    }

    /// Binds `vector` to a handler and makes the CPU switch to the given
    /// interrupt-stack-table slot on entry.  The slot must be one of the
    /// seven the task-state segment offers, and the table may only be loaded
    /// once that segment is.
    pub fn set_handler_with_stack_index(&mut self, vector: u8, handler: HandlerId, ist_index: u16)
        requires
            old(self).wf(),
            ist_index < 7,
        ensures
            final(self).wf(),
            final(self).entries() =~= old(self).entries().update(
                vector as int,
                Some(IdtEntry { handler, ist_index: Some(ist_index) }),
            ),
    {
        self.entries[vector as usize] = Some(IdtEntry { handler, ist_index: Some(ist_index) });
    }
}

/// The table the kernel runs on: the breakpoint vector bound to its report
/// handler; the double-fault vector bound to the fatal handler and switched
/// to backup-stack slot 0 on entry; the timer and keyboard vectors bound to
/// their handlers; everything else unpopulated.
pub open spec fn is_kernel_idt(idt: InterruptDescriptorTable) -> bool {
    &&& idt.wf()
    &&& idt.entry(BREAKPOINT_VECTOR) == Some(
        IdtEntry { handler: HandlerId::Breakpoint, ist_index: None },
    )
    &&& idt.entry(DOUBLE_FAULT_VECTOR) == Some(
        IdtEntry { handler: HandlerId::DoubleFault, ist_index: Some(DOUBLE_FAULT_IST_INDEX) },
    )
    &&& idt.entry(InterruptIndex::Timer.spec_as_u8()) == Some(
        IdtEntry { handler: HandlerId::Timer, ist_index: None },
    )
    &&& idt.entry(InterruptIndex::Keyboard.spec_as_u8()) == Some(
        IdtEntry { handler: HandlerId::Keyboard, ist_index: None },
    )
    &&& forall|v: int|
        0 <= v < IDT_ENTRIES && v != BREAKPOINT_VECTOR && v != DOUBLE_FAULT_VECTOR && v
            != InterruptIndex::Timer.spec_as_u8() && v != InterruptIndex::Keyboard.spec_as_u8()
            ==> idt.entries()[v] is None
}

/// Builds the kernel's vector table.  The double-fault binding is the one
/// safety-critical configuration: on entering that vector the CPU must
/// already be able to switch to the backup stack, so the table may only be
/// loaded after the segment table.
pub fn build_idt() -> (idt: InterruptDescriptorTable)
    ensures
        is_kernel_idt(idt),
        idt.uses_stack_switch(),
{
    let mut idt = InterruptDescriptorTable::new();
    idt.set_handler(BREAKPOINT_VECTOR, HandlerId::Breakpoint);
    idt.set_handler_with_stack_index(
        DOUBLE_FAULT_VECTOR,
        HandlerId::DoubleFault,
        DOUBLE_FAULT_IST_INDEX,
    );
    idt.set_handler(InterruptIndex::Timer.as_u8(), HandlerId::Timer);
    idt.set_handler(InterruptIndex::Keyboard.as_u8(), HandlerId::Keyboard);
    assert(idt.entry(DOUBLE_FAULT_VECTOR) == Some(
        IdtEntry { handler: HandlerId::DoubleFault, ist_index: Some(DOUBLE_FAULT_IST_INDEX) },
    ));
    idt
}

/// The vector-table stage of startup: builds the kernel's table and records
/// that the caller loads it into the CPU.  After this transition all five
/// dispatch paths are active; before it, only the CPU's default
/// reset-on-fault behavior applies.  The precondition demands the segment
/// table first, because the built table switches the double-fault vector to
/// a stack that only the loaded task-state segment provides.
pub fn init_idt(boot: &mut BootState) -> (idt: InterruptDescriptorTable)
    requires
        step_allowed(*old(boot), BootStep::LoadIdt),
    ensures
        *final(boot) == step_apply(*old(boot), BootStep::LoadIdt),
        is_kernel_idt(idt),
{
    let idt = build_idt();
    boot.idt_loaded = true;
    idt
}

/// The diagnostic text of a breakpoint report.
pub open spec fn spec_breakpoint_text(isf: InterruptStackFrame) -> Seq<char> {
    "EXCEPTION: BREAKPOINT\n"@ + spec_render_frame(isf)
}

/// The diagnostic text of the fatal double-fault report.
pub open spec fn spec_double_fault_text(isf: InterruptStackFrame) -> Seq<char> {
    "EXCEPTION: DOUBLE FAULT\n"@ + spec_render_frame(isf)
}

/// Breakpoint exceptions pause a program when the breakpoint instruction is
/// reached: the handler emits the captured snapshot to the primary text
/// output and execution resumes at the next instruction.  Nothing but the
/// text output changes, so issuing the instruction repeatedly reports
/// repeatedly with no state drift.
pub fn breakpoint_handler(writer: &mut Writer, isf: &InterruptStackFrame)
    requires
        old(writer).wf(),
    ensures
        final(writer).wf(),
        final(writer)@ == spec_write_text(old(writer)@, encode_utf8(spec_breakpoint_text(*isf))),
{
    let mut s = String::new();
    s.append("EXCEPTION: BREAKPOINT\n");
    let body = render_frame(isf);
    s.append(body.as_str());
    writer.write_string(s.as_str());
}

/// Called when an exception occurs that is not otherwise handled.  A double
/// fault never permits resuming the faulting context: the handler's only
/// valid action is to report and halt, so it produces the report and the
/// caller halts computation permanently.  The CPU always pushes an error
/// code of zero for this vector; it carries no information.
pub fn double_fault_handler(isf: &InterruptStackFrame, _error_code: u64) -> (msg: String)
    ensures
        msg@ =~= spec_double_fault_text(*isf),
{
    let mut s = String::new();
    s.append("EXCEPTION: DOUBLE FAULT\n");
    let body = render_frame(isf);
    s.append(body.as_str());
    s
}

/// The periodic interval timer tick: emits one progress mark, then sends
/// exactly one acknowledgment for the timer vector.  Returns the
/// acknowledgment's port writes for the caller to perform.
pub fn timer_interrupt_handler(writer: &mut Writer, pics: &mut ChainedPics) -> (writes: Vec<
    PortWrite,
>)
    requires
        old(writer).wf(),
        old(pics).wf(),
        old(pics).is_initialized(),
        old(pics).handles(InterruptIndex::Timer.spec_as_u8()),
    ensures
        final(writer).wf(),
        final(writer)@ == spec_write_text(old(writer)@, encode_utf8("."@)),
        final(pics).wf(),
        final(pics).is_initialized(),
        final(pics).primary_offset() == old(pics).primary_offset(),
        final(pics).secondary_offset() == old(pics).secondary_offset(),
        final(pics).acks() =~= old(pics).acks().push(InterruptIndex::Timer.spec_as_u8()),
        writes@ =~= old(pics).spec_eoi_writes(InterruptIndex::Timer.spec_as_u8()),
{
    writer.write_string(".");
    pics.notify_end_of_interrupt(InterruptIndex::Timer.as_u8())
}

/// What the keyboard handler paints for a decoded key: a Unicode character
/// as the character's own bytes, a raw key as its name, nothing when no key
/// was decoded.
pub open spec fn spec_key_text(writer: crate::vga_buffer::WriterView, key: Option<Key>) -> crate::vga_buffer::WriterView {
    match key {
        Some(Key::Unicode(c)) => spec_write_text(writer, spec_char_bytes(c)),
        Some(Key::RawKey(name)) => spec_write_text(writer, encode_utf8(name@)),
        None => writer,
    }
}

/// One keyboard interrupt: the caller has read one scancode byte off the
/// keyboard port; the handler feeds it to the decoder, emits the decoded
/// character or key name if the byte completed an event the layout maps to
/// one, and sends exactly one acknowledgment for the keyboard vector.
/// Returns the decoded key — pinned to what the decoder's histories yield
/// for this byte — and the acknowledgment's port writes.
pub fn keyboard_interrupt_handler(
    writer: &mut Writer,
    decoder: &mut ScancodeDecoder,
    pics: &mut ChainedPics,
    scancode: u8,
) -> (r: (Option<Key>, Vec<PortWrite>))
    requires
        old(writer).wf(),
        old(pics).wf(),
        old(pics).is_initialized(),
        old(pics).handles(InterruptIndex::Keyboard.spec_as_u8()),
    ensures
        final(writer).wf(),
        final(writer)@ == spec_key_text(old(writer)@, r.0),
        final(decoder).bytes() == old(decoder).bytes().push(scancode),
        final(decoder).events() == (match spec_event_of(old(decoder).bytes().push(scancode)) {
            Some(ev) => old(decoder).events().push(ev),
            None => old(decoder).events(),
        }),
        r.0 == (match spec_event_of(old(decoder).bytes().push(scancode)) {
            Some(ev) => spec_process_keyevent(old(decoder).events(), ev),
            None => None::<Key>,
        }),
        final(pics).wf(),
        final(pics).is_initialized(),
        final(pics).primary_offset() == old(pics).primary_offset(),
        final(pics).secondary_offset() == old(pics).secondary_offset(),
        final(pics).acks() =~= old(pics).acks().push(InterruptIndex::Keyboard.spec_as_u8()),
        r.1@ =~= old(pics).spec_eoi_writes(InterruptIndex::Keyboard.spec_as_u8()),
{
    let key: Option<Key> = match decoder.add_byte(scancode) {
        Some(key_event) => decoder.process_keyevent(key_event),
        None => None,
    };
    let key = match key {
        Some(Key::Unicode(character)) => {
            writer.write_unicode_char(character);
            Some(Key::Unicode(character))
        },
        Some(Key::RawKey(name)) => {
            writer.write_string(name.as_str());
            Some(Key::RawKey(name))
        },
        None => None,
    };
    let writes = pics.notify_end_of_interrupt(InterruptIndex::Keyboard.as_u8());
    (key, writes)
}

} // verus!
