//! Exception- and interrupt-handling core of a bare-metal, single-core
//! kernel, as a verified model.
//!
//! The crate builds the CPU dispatch tables (segment descriptor table with a
//! task-state segment, and the interrupt vector table), models the chained
//! 8259 interrupt controllers and their acknowledgment protocol, decodes the
//! keyboard scancode stream, and runs the per-vector handler routines as a
//! state machine.  Everything that touches hardware (privileged register
//! loads, port reads and writes) is left to the surrounding program, which
//! receives the values and command sequences computed here and performs
//! them.

use vstd::prelude::*;

pub mod gdt;
pub mod interrupts;
pub mod kernel;
pub mod keyboard;
pub mod pics;
pub mod vga_buffer;

use crate::gdt::STACK_SIZE;
use crate::interrupts::{is_kernel_idt, PIC_1_OFFSET, PIC_2_OFFSET};
use crate::kernel::{BootState, Kernel};
use crate::keyboard::ScancodeDecoder;
use crate::pics::{ChainedPics, PortWrite};
use crate::vga_buffer::{Color, ColorCode, Writer};

verus! {

/// I/O port of the hosting environment's exit device: writing a code there
/// asks the host to stop the machine.
pub const IOBASE_PORT: u16 = 0xf4;

/// Codes sent to the hosting environment's exit device.  The exact values
/// are a host-tooling convention, not a hardware requirement; this pair is
/// fixed here as the stable sentinels, chosen not to clash with the host's
/// own exit codes.
#[derive(Debug, Clone, Copy, PartialEq, Eq, Structural)]
pub enum QemuExitCode {
    Success,
    Failed,
}

impl QemuExitCode {
    /// The 32-bit value written to the exit device.
    pub open spec fn spec_code(self) -> u32 {
        match self {
            QemuExitCode::Success => 0b1010,
            QemuExitCode::Failed => 0b1011,
        }
    }

    /// The 32-bit value written to the exit device.
    #[verifier::when_used_as_spec(spec_code)]
    pub fn code(self) -> (r: u32)
        ensures
            r == self.spec_code(),
    {
        match self {
            QemuExitCode::Success => 0b1010,
            QemuExitCode::Failed => 0b1011,
        }
    }
}

/// Brings the whole subsystem up in the one safe order: segment table and
/// task-state segment first, then the vector table, then the controller
/// remap, and only then interrupts.  `stack_start` is the address of the
/// statically reserved backup stack, `tss_addr` the address at which the
/// returned task-state segment will live for the rest of program life;
/// `saved_mask_1` and `saved_mask_2` are the interrupt line masks the caller
/// read off the two controller data ports.  Returns the ready kernel state
/// and the remap handshake's port writes for the caller to perform.
pub fn init(stack_start: u64, tss_addr: u64, saved_mask_1: u8, saved_mask_2: u8) -> (r: (
    Kernel,
    Vec<PortWrite>,
))
    requires
        stack_start + STACK_SIZE <= u64::MAX,
    ensures
        r.0.running(),
        r.0.boot == (BootState {
            gdt_loaded: true,
            idt_loaded: true,
            pics_initialized: true,
            interrupts_enabled: true,
        }),
        r.0.tss.interrupt_stack_table[gdt::DOUBLE_FAULT_IST_INDEX as int] == stack_start
            + STACK_SIZE,
        r.0.gdt.entries() =~= seq![
            0u64,
            gdt::KERNEL_CODE64,
            gdt::Descriptor::spec_tss_low(tss_addr),
            gdt::Descriptor::spec_tss_high(tss_addr),
        ],
        r.0.selectors.code_selector.index() == 1,
        r.0.selectors.tss_selector.index() == 2,
        is_kernel_idt(r.0.idt),
        r.0.pics.acks() == Seq::<u8>::empty(),
        r.0.decoder.bytes() == Seq::<u8>::empty(),
        r.0.writer@.column == 0,
        !r.0.halted,
        r.1@ =~= ChainedPics::spec_handshake(
            PIC_1_OFFSET,
            PIC_2_OFFSET,
            saved_mask_1,
            saved_mask_2,
        ),
{
    let mut boot = BootState::fresh();
    let (tss, table, selectors) = gdt::init(&mut boot, stack_start, tss_addr);
    let idt = interrupts::init_idt(&mut boot);
    let mut pics = ChainedPics::new(PIC_1_OFFSET, PIC_2_OFFSET);
    let writes = kernel::init_pics(&mut boot, &mut pics, saved_mask_1, saved_mask_2);
    kernel::enable_interrupts(&mut boot);
    let writer = Writer::new(ColorCode::new(Color::Black, Color::White));
    let decoder = ScancodeDecoder::new();
    let k = Kernel {
        boot,
        tss,
        gdt: table,
        selectors,
        idt,
        pics,
        decoder,
        writer,
        halted: false,
    };
    (k, writes)
}

} // verus!
