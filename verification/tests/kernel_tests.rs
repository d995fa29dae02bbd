use thompson_rust_os::interrupts::{
    render_frame, HandlerId, IdtEntry, InterruptStackFrame, BREAKPOINT_VECTOR,
    DOUBLE_FAULT_VECTOR,
};
use thompson_rust_os::kernel::{dispatch, repeat_breakpoint, run_events, Event, Kernel};
use thompson_rust_os::keyboard::Key;
use thompson_rust_os::pics::PortWrite;
use thompson_rust_os::vga_buffer::{BUFFER_HEIGHT, BUFFER_WIDTH};
use thompson_rust_os::{init, QemuExitCode};

fn test_kernel() -> Kernel {
    let (kernel, _writes) = init(0x0010_0000, 0x0020_0000, 0xfd, 0xff);
    kernel
}

fn test_frame() -> InterruptStackFrame {
    InterruptStackFrame {
        instruction_pointer: 0xdead_beef,
        code_segment: 8,
        cpu_flags: 0x202,
        stack_pointer: 0x0005_7ac0,
        stack_segment: 0x10,
    }
}

fn row_string(k: &Kernel, row: usize) -> String {
    let mut s = String::new();
    for col in 0..BUFFER_WIDTH {
        s.push(k.writer.buffer.chars[row * BUFFER_WIDTH + col].ascii_character as char);
    }
    s.trim_end().to_string()
}

#[test]
fn init_reaches_the_fully_initialized_state() {
    let k = test_kernel();
    assert!(k.boot.gdt_loaded);
    assert!(k.boot.idt_loaded);
    assert!(k.boot.pics_initialized);
    assert!(k.boot.interrupts_enabled);
    assert!(!k.halted);
    assert!(k.pics.acknowledged().is_empty());
}

#[test]
fn init_emits_the_handshake_for_the_standard_offsets() {
    let (_, writes) = init(0x0010_0000, 0x0020_0000, 0xaa, 0xbb);
    assert_eq!(writes.len(), 10);
    assert_eq!(writes[2], PortWrite { port: 0x21, value: 32 });
    assert_eq!(writes[3], PortWrite { port: 0xa1, value: 40 });
    assert_eq!(writes[8], PortWrite { port: 0x21, value: 0xaa });
    assert_eq!(writes[9], PortWrite { port: 0xa1, value: 0xbb });
}

#[test]
fn the_vector_table_binds_the_five_dispatch_paths() {
    let k = test_kernel();
    assert_eq!(
        k.idt.get_entry(BREAKPOINT_VECTOR),
        Some(IdtEntry { handler: HandlerId::Breakpoint, ist_index: None }),
    );
    assert_eq!(
        k.idt.get_entry(DOUBLE_FAULT_VECTOR),
        Some(IdtEntry { handler: HandlerId::DoubleFault, ist_index: Some(0) }),
    );
    assert_eq!(
        k.idt.get_entry(32),
        Some(IdtEntry { handler: HandlerId::Timer, ist_index: None }),
    );
    assert_eq!(
        k.idt.get_entry(33),
        Some(IdtEntry { handler: HandlerId::Keyboard, ist_index: None }),
    );
    for v in [0u8, 1, 2, 4, 7, 9, 31, 34, 100, 255] {
        assert_eq!(k.idt.get_entry(v), None);
    }
}

#[test]
fn frame_rendering_is_stable() {
    let text = render_frame(&test_frame());
    assert_eq!(
        text,
        "    instruction_pointer: 0x00000000deadbeef\n\
         \x20   code_segment: 0x0000000000000008\n\
         \x20   cpu_flags: 0x0000000000000202\n\
         \x20   stack_pointer: 0x0000000000057ac0\n\
         \x20   stack_segment: 0x0000000000000010\n",
    );
}

#[test]
fn breakpoint_reports_and_resumes() {
    let mut k = test_kernel();
    let out = dispatch(&mut k, Event::Breakpoint(test_frame()));
    assert!(!k.halted);
    assert!(out.halt_message.is_none());
    assert!(out.port_writes.is_empty());
    assert!(k.pics.acknowledged().is_empty());
    assert_eq!(row_string(&k, BUFFER_HEIGHT - 7), "EXCEPTION: BREAKPOINT");
    assert_eq!(
        row_string(&k, BUFFER_HEIGHT - 6),
        "    instruction_pointer: 0x00000000deadbeef",
    );
    assert_eq!(
        row_string(&k, BUFFER_HEIGHT - 2),
        "    stack_segment: 0x0000000000000010",
    );
}

#[test]
fn n_breakpoints_report_n_times_without_drift() {
    let mut by_loop = test_kernel();
    repeat_breakpoint(&mut by_loop, &test_frame(), 3);
    let mut by_hand = test_kernel();
    for _ in 0..3 {
        dispatch(&mut by_hand, Event::Breakpoint(test_frame()));
    }
    assert!(!by_loop.halted);
    assert!(by_loop.pics.acknowledged().is_empty());
    for row in 0..BUFFER_HEIGHT {
        assert_eq!(row_string(&by_loop, row), row_string(&by_hand, row));
    }
    // Three six-line reports: the last three stand stacked on the screen.
    assert_eq!(row_string(&by_loop, BUFFER_HEIGHT - 7), "EXCEPTION: BREAKPOINT");
    assert_eq!(row_string(&by_loop, BUFFER_HEIGHT - 13), "EXCEPTION: BREAKPOINT");
    assert_eq!(row_string(&by_loop, BUFFER_HEIGHT - 19), "EXCEPTION: BREAKPOINT");
}

#[test]
fn double_fault_reports_and_halts() {
    let mut k = test_kernel();
    let out = dispatch(&mut k, Event::DoubleFault(test_frame(), 0));
    assert!(k.halted);
    assert!(out.port_writes.is_empty());
    let msg = out.halt_message.expect("the fatal report");
    assert_eq!(
        msg,
        "EXCEPTION: DOUBLE FAULT\n\
         \x20   instruction_pointer: 0x00000000deadbeef\n\
         \x20   code_segment: 0x0000000000000008\n\
         \x20   cpu_flags: 0x0000000000000202\n\
         \x20   stack_pointer: 0x0000000000057ac0\n\
         \x20   stack_segment: 0x0000000000000010\n",
    );
}

#[test]
fn timer_ticks_and_acknowledges_once() {
    let mut k = test_kernel();
    let out = dispatch(&mut k, Event::Timer);
    assert_eq!(out.port_writes, vec![PortWrite { port: 0x20, value: 0x20 }]);
    assert_eq!(k.pics.acknowledged(), &vec![32u8]);
    assert_eq!(row_string(&k, BUFFER_HEIGHT - 1), ".");
}

#[test]
fn keyboard_interrupt_prints_the_decoded_key() {
    let mut k = test_kernel();
    let out = dispatch(&mut k, Event::Keyboard(0x1e));
    assert_eq!(out.key, Some(Key::Unicode('a')));
    assert_eq!(out.port_writes, vec![PortWrite { port: 0x20, value: 0x20 }]);
    assert_eq!(k.pics.acknowledged(), &vec![33u8]);
    assert_eq!(row_string(&k, BUFFER_HEIGHT - 1), "a");
}

#[test]
fn keyboard_interrupt_with_no_decoded_key_prints_nothing() {
    let mut k = test_kernel();
    // Left shift press: an event, but no printable mapping.
    let out = dispatch(&mut k, Event::Keyboard(0x2a));
    assert_eq!(out.key, None);
    assert_eq!(k.pics.acknowledged(), &vec![33u8]);
    assert_eq!(row_string(&k, BUFFER_HEIGHT - 1), "");
}

#[test]
fn multi_byte_scancode_across_two_interrupts() {
    let mut k = test_kernel();
    let out1 = dispatch(&mut k, Event::Keyboard(0xe0));
    assert_eq!(out1.key, None);
    let out2 = dispatch(&mut k, Event::Keyboard(0x48));
    assert_eq!(out2.key, Some(Key::RawKey("ArrowUp".to_string())));
    assert_eq!(k.pics.acknowledged(), &vec![33u8, 33]);
    assert_eq!(row_string(&k, BUFFER_HEIGHT - 1), "ArrowUp");
}

#[test]
fn n_interrupts_yield_n_acknowledgments() {
    let mut k = test_kernel();
    let events = vec![
        Event::Timer,
        Event::Keyboard(0x1e),
        Event::Timer,
        Event::Timer,
        Event::Keyboard(0x9e),
        Event::Timer,
    ];
    let outs = run_events(&mut k, &events);
    assert_eq!(outs.len(), 6);
    assert_eq!(k.pics.acknowledged(), &vec![32u8, 33, 32, 32, 33, 32]);
    assert!(!k.halted);
}

#[test]
fn a_double_fault_stops_the_event_loop() {
    let mut k = test_kernel();
    let events = vec![
        Event::Timer,
        Event::DoubleFault(test_frame(), 0),
        Event::Timer,
        Event::Timer,
    ];
    let outs = run_events(&mut k, &events);
    assert_eq!(outs.len(), 2);
    assert!(k.halted);
    assert_eq!(k.pics.acknowledged(), &vec![32u8]);
    assert!(outs[1].halt_message.is_some());
}

#[test]
fn exit_codes_are_the_stable_sentinels() {
    assert_eq!(QemuExitCode::Success.code(), 0b1010);
    assert_eq!(QemuExitCode::Failed.code(), 0b1011);
    assert_ne!(QemuExitCode::Success, QemuExitCode::Failed);
}
