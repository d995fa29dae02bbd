//! Startup sequence and whole-subsystem state.
//!
//! Boot code must bring the dispatch tables up in a fixed order: segment
//! table first (it carries the task-state segment whose backup stack the
//! double-fault vector switches to), then the vector table, then the remapped
//! interrupt controllers, and only then may interrupts be enabled globally.
//! The order lives in the preconditions of the four transitions, so a
//! reordered boot sequence is rejected when the caller is verified; the
//! proof below shows every reachable state keeps the order invariant.

use vstd::prelude::*;
use vstd::utf8::encode_utf8;

use crate::gdt::{GlobalDescriptorTable, Selectors, TaskStateSegment, DOUBLE_FAULT_IST_INDEX};
use crate::interrupts::{
    breakpoint_handler, double_fault_handler, is_kernel_idt, keyboard_interrupt_handler,
    spec_breakpoint_text, spec_double_fault_text, spec_key_text, timer_interrupt_handler,
    HandlerId, IdtEntry, InterruptDescriptorTable, InterruptIndex, InterruptStackFrame,
    DOUBLE_FAULT_VECTOR, PIC_1_OFFSET, PIC_2_OFFSET,
};
use crate::keyboard::{spec_event_of, spec_process_keyevent, Key, ScancodeDecoder};
use pc_keyboard::KeyEvent;
use crate::pics::{ChainedPics, PortWrite};
use crate::vga_buffer::{spec_write_text, Writer};

verus! {

/// Which one-time startup transitions have happened.
#[derive(Debug, Clone, Copy, PartialEq, Eq, Structural)]
pub struct BootState {
    /// The segment descriptor table, the kernel code selector and the
    /// task-state segment have been loaded into the CPU.
    pub gdt_loaded: bool,
    /// The interrupt vector table has been loaded into the CPU.
    pub idt_loaded: bool,
    /// The interrupt controllers have run their remap handshake.
    pub pics_initialized: bool,
    /// The CPU accepts hardware interrupts.
    pub interrupts_enabled: bool,
}

impl BootState {
    /// The state at power-on: nothing loaded, nothing enabled.
    pub open spec fn spec_fresh() -> BootState {
        BootState {
            gdt_loaded: false,
            idt_loaded: false,
            pics_initialized: false,
            interrupts_enabled: false,
        }
    }

    /// The state at power-on: nothing loaded, nothing enabled.
    pub fn fresh() -> (r: BootState)
        ensures
            r == BootState::spec_fresh(),
    {
        BootState {
            gdt_loaded: false,
            idt_loaded: false,
            pics_initialized: false,
            interrupts_enabled: false,
        }
    }

    /// Every startup transition has happened: the five dispatch paths are
    /// active and hardware interrupts are being delivered.
    pub open spec fn fully_initialized(self) -> bool {
        self.gdt_loaded && self.idt_loaded && self.pics_initialized && self.interrupts_enabled
    }

    /// The initialization-order invariant: the vector table is never loaded
    /// before the segment table, and interrupts are never enabled before the
    /// vector table is loaded and the controllers are remapped.
    pub open spec fn ordered(self) -> bool {
        &&& self.idt_loaded ==> self.gdt_loaded
        &&& self.interrupts_enabled ==> self.idt_loaded && self.pics_initialized
    }
}

/// The four one-time startup transitions.
#[derive(Debug, Clone, Copy, PartialEq, Eq, Structural)]
pub enum BootStep {
    LoadGdt,
    LoadIdt,
    InitPics,
    EnableInterrupts,
}

/// When a transition may fire.  Each fires at most once; loading the vector
/// table needs the segment table in place (its double-fault entry switches to
/// a stack that only a loaded task-state segment provides), and enabling
/// interrupts needs the vector table loaded and the controllers remapped
/// (else the first hardware interrupt hits an unregistered vector).
pub open spec fn step_allowed(b: BootState, s: BootStep) -> bool {
    match s {
        BootStep::LoadGdt => !b.gdt_loaded,
        BootStep::LoadIdt => b.gdt_loaded && !b.idt_loaded,
        BootStep::InitPics => !b.pics_initialized,
        BootStep::EnableInterrupts => b.idt_loaded && b.pics_initialized
            && !b.interrupts_enabled,
    }
}

/// The state after a transition fires.
pub open spec fn step_apply(b: BootState, s: BootStep) -> BootState {
    match s {
        BootStep::LoadGdt => BootState { gdt_loaded: true, ..b },
        BootStep::LoadIdt => BootState { idt_loaded: true, ..b },
        BootStep::InitPics => BootState { pics_initialized: true, ..b },
        BootStep::EnableInterrupts => BootState { interrupts_enabled: true, ..b },
    }
}

/// Every transition of the sequence fires in a state that allows it.
pub open spec fn steps_allowed(b: BootState, steps: Seq<BootStep>) -> bool
    decreases steps.len(),
{
    if steps.len() == 0 {
        true
    } else {
        step_allowed(b, steps[0]) && steps_allowed(step_apply(b, steps[0]), steps.drop_first())
    }
}

/// The state after a sequence of transitions.
pub open spec fn run_steps(b: BootState, steps: Seq<BootStep>) -> BootState
    decreases steps.len(),
{
    if steps.len() == 0 {
        b
    } else {
        run_steps(step_apply(b, steps[0]), steps.drop_first())
    }
}

/// One allowed transition keeps the initialization order.
proof fn lemma_ordered_step(b: BootState, s: BootStep)
    requires
        b.ordered(),
        step_allowed(b, s),
    ensures
        step_apply(b, s).ordered(),
{
}

/// Initialization order invariant: however boot code sequences the allowed
/// startup transitions, it can never reach a state where the vector table is
/// loaded but the segment table is not, nor one where interrupts are enabled
/// before the vector table is loaded and the controllers remapped.  In
/// particular the vector table load cannot occur before the segment table
/// load.
pub proof fn lemma_initialization_order(b: BootState, steps: Seq<BootStep>)
    requires
        b.ordered(),
        steps_allowed(b, steps),
    ensures
        run_steps(b, steps).ordered(),
    decreases steps.len(),
{
    if steps.len() > 0 {
        lemma_ordered_step(b, steps[0]);
        lemma_initialization_order(step_apply(b, steps[0]), steps.drop_first());
    }
}

/// Performs the remap handshake on the controller pair and records the
/// transition.  Returns the port writes for the caller to perform.
pub fn init_pics(
    boot: &mut BootState,
    pics: &mut ChainedPics,
    saved_mask_1: u8,
    saved_mask_2: u8,
) -> (writes: Vec<PortWrite>)
    requires
        step_allowed(*old(boot), BootStep::InitPics),
        old(pics).wf(),
        !old(pics).is_initialized(),
    ensures
        *final(boot) == step_apply(*old(boot), BootStep::InitPics),
        final(pics).wf(),
        final(pics).is_initialized(),
        final(pics).primary_offset() == old(pics).primary_offset(),
        final(pics).secondary_offset() == old(pics).secondary_offset(),
        final(pics).acks() == old(pics).acks(),
        writes@ =~= ChainedPics::spec_handshake(
            old(pics).primary_offset(),
            old(pics).secondary_offset(),
            saved_mask_1,
            saved_mask_2,
        ),
{
    let writes = pics.initialize(saved_mask_1, saved_mask_2);
    boot.pics_initialized = true;
    writes
}

/// Records that the CPU has been told to accept hardware interrupts (the
/// caller executes the actual enabling instruction).  All vectors the
/// controller mapping uses must be populated first, which the precondition
/// guarantees by asking for a loaded vector table and remapped controllers.
pub fn enable_interrupts(boot: &mut BootState)
    requires
        step_allowed(*old(boot), BootStep::EnableInterrupts),
    ensures
        *final(boot) == step_apply(*old(boot), BootStep::EnableInterrupts),
{
    boot.interrupts_enabled = true;
}

/// The whole subsystem's state: the built tables, the controller pair, the
/// scancode decoder, the text output, and whether the machine has halted on
/// a fatal fault.  Constructed once by [`crate::init`]; torn down never.
pub struct Kernel {
    pub boot: BootState,
    pub tss: TaskStateSegment,
    pub gdt: GlobalDescriptorTable,
    pub selectors: Selectors,
    pub idt: InterruptDescriptorTable,
    pub pics: ChainedPics,
    pub decoder: ScancodeDecoder,
    pub writer: Writer,
    pub halted: bool,
}

impl Kernel {
    /// Well-formed: the vector table is the kernel's, the controller pair
    /// sits at the standard offsets, and the text output is intact.
    pub open spec fn wf(self) -> bool {
        &&& is_kernel_idt(self.idt)
        &&& self.pics.wf()
        &&& self.pics.primary_offset() == PIC_1_OFFSET
        &&& self.pics.secondary_offset() == PIC_2_OFFSET
        &&& self.writer.wf()
    }

    /// Fully initialized and still computing: every dispatch path is active.
    pub open spec fn running(self) -> bool {
        &&& self.wf()
        &&& self.boot.fully_initialized()
        &&& self.pics.is_initialized()
        &&& !self.halted
    }
}

/// The stack-overflow protection path, standing in every running state: the
/// double-fault vector is populated, bound to the fatal handler, and
/// configured to switch to backup-stack slot 0 on entry — and the segment
/// table that provides that slot was loaded first.  A stack overflow that
/// escalates to a double fault therefore enters its handler on a
/// guaranteed-valid stack and reaches the diagnostic halt, instead of
/// faulting again on the overflowed stack and resetting the machine.
pub proof fn lemma_double_fault_protected(k: Kernel)
    requires
        k.running(),
    ensures
        k.idt.entry(DOUBLE_FAULT_VECTOR) == Some(
            IdtEntry { handler: HandlerId::DoubleFault, ist_index: Some(DOUBLE_FAULT_IST_INDEX) },
        ),
        k.boot.gdt_loaded,
{
}

/// One occurrence the CPU dispatches on: a synchronous fault with its
/// captured snapshot, or an asynchronous hardware interrupt (the keyboard
/// one carrying the scancode byte read off the keyboard port).
#[derive(Debug, Clone, Copy, PartialEq, Eq, Structural)]
pub enum Event {
    Breakpoint(InterruptStackFrame),
    DoubleFault(InterruptStackFrame, u64),
    Timer,
    Keyboard(u8),
}

/// What one dispatch asks of its surroundings: port writes to perform (the
/// acknowledgments), the key decoded on a keyboard interrupt, and the fatal
/// report when the machine must halt.
pub struct HandlerOutput {
    pub key: Option<Key>,
    pub port_writes: Vec<PortWrite>,
    pub halt_message: Option<String>,
}

/// Everything a dispatch never touches: the startup record and the loaded
/// tables, plus the controller pair's configuration.
pub open spec fn dispatch_preserves(a: Kernel, b: Kernel) -> bool {
    &&& b.boot == a.boot
    &&& b.tss == a.tss
    &&& b.gdt.entries() == a.gdt.entries()
    &&& b.selectors == a.selectors
    &&& b.idt.entries() == a.idt.entries()
    &&& b.pics.primary_offset() == a.pics.primary_offset()
    &&& b.pics.secondary_offset() == a.pics.secondary_offset()
    &&& b.pics.is_initialized() == a.pics.is_initialized()
}

/// The dispatch-visible state as mathematics: the screen, the decoder's two
/// histories (bytes fed, events processed), the acknowledgment log, and
/// whether the machine has halted.  Everything else a dispatch preserves.
pub ghost struct DispatchState {
    pub writer: crate::vga_buffer::WriterView,
    pub bytes: Seq<u8>,
    pub events: Seq<KeyEvent>,
    pub acks: Seq<u8>,
    pub halted: bool,
}

impl Kernel {
    /// The dispatch-visible state.
    pub open spec fn state(self) -> DispatchState {
        DispatchState {
            writer: self.writer@,
            bytes: self.decoder.bytes(),
            events: self.decoder.events(),
            acks: self.pics.acks(),
            halted: self.halted,
        }
    }
}

/// The key one event yields: only a keyboard interrupt decodes one, and the
/// decoder's two histories fix it — the byte either completes no event, or
/// completes one that the layout and the modifier state map to a key or to
/// nothing.
pub open spec fn spec_step_key(s: DispatchState, ev: Event) -> Option<Key> {
    match ev {
        Event::Keyboard(scancode) => match spec_event_of(s.bytes.push(scancode)) {
            Some(completed) => spec_process_keyevent(s.events, completed),
            None => None,
        },
        _ => None,
    }
}

/// The port writes one event asks its surroundings for: the acknowledgment
/// of its vector for a hardware interrupt, nothing for a CPU exception.
pub open spec fn event_eoi_writes(pics: ChainedPics, ev: Event) -> Seq<PortWrite> {
    match ev {
        Event::Timer => pics.spec_eoi_writes(InterruptIndex::Timer.spec_as_u8()),
        Event::Keyboard(_) => pics.spec_eoi_writes(InterruptIndex::Keyboard.spec_as_u8()),
        _ => Seq::empty(),
    }
}

/// The dispatch-visible state after one event: the breakpoint appends its
/// report to the screen; the double fault halts; the timer appends its tick
/// mark and one acknowledgment; a keyboard interrupt advances the decoder by
/// the byte and, when the byte completes an event, by that event, paints the
/// decoded key if there is one, and appends one acknowledgment.
pub open spec fn spec_step(s: DispatchState, ev: Event) -> DispatchState {
    match ev {
        Event::Breakpoint(isf) => DispatchState {
            writer: spec_write_text(s.writer, encode_utf8(spec_breakpoint_text(isf))),
            ..s
        },
        Event::DoubleFault(_isf, _error_code) => DispatchState { halted: true, ..s },
        Event::Timer => DispatchState {
            writer: spec_write_text(s.writer, encode_utf8("."@)),
            acks: s.acks.push(InterruptIndex::Timer.spec_as_u8()),
            ..s
        },
        Event::Keyboard(scancode) => DispatchState {
            writer: spec_key_text(s.writer, spec_step_key(s, ev)),
            bytes: s.bytes.push(scancode),
            events: match spec_event_of(s.bytes.push(scancode)) {
                Some(completed) => s.events.push(completed),
                None => s.events,
            },
            acks: s.acks.push(InterruptIndex::Keyboard.spec_as_u8()),
            halted: s.halted,
        },
    }
}

/// The dispatch-visible state after a sequence of events, serviced in order.
pub open spec fn spec_run(s: DispatchState, events: Seq<Event>) -> DispatchState
    decreases events.len(),
{
    if events.len() == 0 {
        s
    } else {
        spec_step(spec_run(s, events.drop_last()), events.last())
    }
}

/// The acknowledgments one event owes: exactly one for a hardware interrupt
/// vector, none for a CPU exception.
pub open spec fn event_acks(ev: Event) -> Seq<u8> {
    match ev {
        Event::Timer => seq![InterruptIndex::Timer.spec_as_u8()],
        Event::Keyboard(_) => seq![InterruptIndex::Keyboard.spec_as_u8()],
        _ => Seq::empty(),
    }
}

/// The acknowledgments a sequence of events owes, in order.
pub open spec fn acks_of_events(events: Seq<Event>) -> Seq<u8>
    decreases events.len(),
{
    if events.len() == 0 {
        Seq::empty()
    } else {
        acks_of_events(events.drop_last()) + event_acks(events.last())
    }
}

/// A hardware interrupt, as opposed to a CPU exception.
pub open spec fn is_hardware_interrupt(ev: Event) -> bool {
    ev is Timer || ev is Keyboard
}

/// End-of-interrupt discipline, counted: a sequence of hardware interrupts
/// owes exactly one acknowledgment per interrupt — no event acknowledged
/// twice, none forgotten.
pub proof fn lemma_one_ack_per_interrupt(events: Seq<Event>)
    requires
        forall|i: int| 0 <= i < events.len() ==> is_hardware_interrupt(#[trigger] events[i]),
    ensures
        acks_of_events(events).len() == events.len(),
    decreases events.len(),
{
    if events.len() > 0 {
        lemma_one_ack_per_interrupt(events.drop_last());
    }
}

/// Runs one handler, as the CPU would on the event's vector.  The breakpoint
/// report returns to the interrupted code; the double fault reports and
/// halts the machine for good; the two hardware interrupts do their work and
/// send exactly one acknowledgment each.  Nothing reorders or batches:
/// exactly one event is serviced at a time.
pub fn dispatch(k: &mut Kernel, ev: Event) -> (out: HandlerOutput)
    requires
        old(k).running(),
    ensures
        final(k).wf(),
        dispatch_preserves(*old(k), *final(k)),
        final(k).state() == spec_step(old(k).state(), ev),
        final(k).halted == (ev is DoubleFault),
        !final(k).halted ==> final(k).running(),
        final(k).pics.acks() =~= old(k).pics.acks() + event_acks(ev),
        out.key == spec_step_key(old(k).state(), ev),
        out.port_writes@ =~= event_eoi_writes(old(k).pics, ev),
        out.halt_message is Some <==> ev is DoubleFault,
        (match out.halt_message {
            Some(msg) => ev matches Event::DoubleFault(isf, _error_code) && msg@
                == spec_double_fault_text(isf),
            None => true,
        }),
{
    match ev {
        Event::Breakpoint(isf) => {
            breakpoint_handler(&mut k.writer, &isf);
            proof {
                assert(k.state() == spec_step(old(k).state(), ev));
            }
            HandlerOutput { key: None, port_writes: Vec::new(), halt_message: None }
        },
        Event::DoubleFault(isf, error_code) => {
            let msg = double_fault_handler(&isf, error_code);
            k.halted = true;
            proof {
                assert(k.state() == spec_step(old(k).state(), ev));
            }
            HandlerOutput { key: None, port_writes: Vec::new(), halt_message: Some(msg) }
        },
        Event::Timer => {
            let writes = timer_interrupt_handler(&mut k.writer, &mut k.pics);
            proof {
                assert(k.state() == spec_step(old(k).state(), ev));
            }
            HandlerOutput { key: None, port_writes: writes, halt_message: None }
        },
        Event::Keyboard(scancode) => {
            let (key, writes) = keyboard_interrupt_handler(
                &mut k.writer,
                &mut k.decoder,
                &mut k.pics,
                scancode,
            );
            proof {
                assert(key == spec_step_key(old(k).state(), ev));
                assert(k.state() == spec_step(old(k).state(), ev));
            }
            HandlerOutput { key, port_writes: writes, halt_message: None }
        },
    }
}

/// Services a sequence of events, one at a time, in order, stopping for
/// good at the first fatal double fault.  The machine ends halted exactly
/// when the last serviced event was that fault; the final screen, decoder
/// and acknowledgment log are the fold of the per-event transitions over the
/// serviced prefix; and each returned output carries the key that prefix's
/// histories decode, the acknowledgment port writes of its vector, and the
/// fatal report exactly for the double fault.
pub fn run_events(k: &mut Kernel, events: &Vec<Event>) -> (outs: Vec<HandlerOutput>)
    requires
        old(k).running(),
    ensures
        outs@.len() <= events@.len(),
        final(k).wf(),
        dispatch_preserves(*old(k), *final(k)),
        final(k).state() == spec_run(old(k).state(), events@.take(outs@.len() as int)),
        final(k).pics.acks() =~= old(k).pics.acks() + acks_of_events(
            events@.take(outs@.len() as int),
        ),
        forall|j: int| 0 <= j < outs@.len() - 1 ==> !(#[trigger] events@[j] is DoubleFault),
        final(k).halted <==> outs@.len() > 0 && events@[outs@.len() - 1] is DoubleFault,
        !final(k).halted ==> outs@.len() == events@.len(),
        forall|j: int|
            0 <= j < outs@.len() ==> (#[trigger] outs@[j]).key == spec_step_key(
                spec_run(old(k).state(), events@.take(j)),
                events@[j],
            ),
        forall|j: int|
            0 <= j < outs@.len() ==> (#[trigger] outs@[j]).port_writes@ =~= event_eoi_writes(
                old(k).pics,
                events@[j],
            ),
        forall|j: int|
            0 <= j < outs@.len() ==> ((#[trigger] outs@[j]).halt_message is Some <==> events@[j]
                is DoubleFault),
{
    let mut outs: Vec<HandlerOutput> = Vec::new();
    let mut i: usize = 0;
    while i < events.len()
        invariant
            i <= events@.len(),
            outs@.len() == i,
            k.running(),
            dispatch_preserves(*old(k), *k),
            k.state() == spec_run(old(k).state(), events@.take(i as int)),
            k.pics.acks() =~= old(k).pics.acks() + acks_of_events(events@.take(i as int)),
            old(k).running(),
            forall|j: int| 0 <= j < i ==> !(#[trigger] events@[j] is DoubleFault),
            forall|j: int|
                0 <= j < i ==> (#[trigger] outs@[j]).key == spec_step_key(
                    spec_run(old(k).state(), events@.take(j)),
                    events@[j],
                ),
            forall|j: int|
                0 <= j < i ==> (#[trigger] outs@[j]).port_writes@ =~= event_eoi_writes(
                    old(k).pics,
                    events@[j],
                ),
            forall|j: int|
                0 <= j < i ==> ((#[trigger] outs@[j]).halt_message is Some <==> events@[j]
                    is DoubleFault),
        decreases events@.len() - i,
    {
        let ev = events[i];
        let ghost pre = *k;
        proof {
            assert(events@.take(i + 1).drop_last() =~= events@.take(i as int));
            assert(events@.take(i + 1).last() == events@[i as int]);
        }
        let out = dispatch(k, ev);
        proof {
            // The acknowledgment writes read only the controller offsets,
            // which every dispatch preserves.
            assert(event_eoi_writes(pre.pics, ev) =~= event_eoi_writes(old(k).pics, ev));
            assert(k.pics.acks() =~= old(k).pics.acks() + acks_of_events(events@.take(i + 1)));
        }
        outs.push(out);
        i = i + 1;
        if k.halted {
            return outs;
        }
    }
    outs
}

/// Breakpoint idempotence, in operation: issuing the breakpoint instruction
/// `n` times in sequence invokes the report handler `n` times, execution
/// resumes after each, and nothing drifts — the controllers, the decoder and
/// the startup record are exactly as before, and the text output is the
/// `n`-fold report.  Servicing one breakpoint behaves identically whether it
/// stands alone or amid other work: its effect is a function of the current
/// state alone.
pub fn repeat_breakpoint(k: &mut Kernel, isf: &InterruptStackFrame, n: usize)
    requires
        old(k).running(),
    ensures
        final(k).running(),
        dispatch_preserves(*old(k), *final(k)),
        final(k).pics.acks() == old(k).pics.acks(),
        final(k).decoder.bytes() == old(k).decoder.bytes(),
        final(k).writer@ == spec_breakpoints(old(k).writer@, *isf, n as nat),
{
    let mut i: usize = 0;
    while i < n
        invariant
            i <= n,
            k.running(),
            dispatch_preserves(*old(k), *k),
            k.pics.acks() == old(k).pics.acks(),
            k.decoder.bytes() == old(k).decoder.bytes(),
            k.writer@ == spec_breakpoints(old(k).writer@, *isf, i as nat),
        decreases n - i,
    {
        dispatch(k, Event::Breakpoint(*isf));
        i = i + 1;
    }
}

/// The text output after `n` breakpoint reports in a row.
pub open spec fn spec_breakpoints(
    w: crate::vga_buffer::WriterView,
    isf: InterruptStackFrame,
    n: nat,
) -> crate::vga_buffer::WriterView
    decreases n,
{
    if n == 0 {
        w
    } else {
        spec_write_text(
            spec_breakpoints(w, isf, (n - 1) as nat),
            encode_utf8(spec_breakpoint_text(isf)),
        )
    }
}

} // verus!
