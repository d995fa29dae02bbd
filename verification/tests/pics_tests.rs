use thompson_rust_os::pics::{
    ChainedPics, PortWrite, CMD_END_OF_INTERRUPT, CMD_INIT, MODE_8086, PIC_1_COMMAND_PORT,
    PIC_1_DATA_PORT, PIC_2_COMMAND_PORT, PIC_2_DATA_PORT,
};

#[test]
fn offsets_below_32_are_rejected() {
    assert!(ChainedPics::new_checked(31, 39).is_none());
    assert!(ChainedPics::new_checked(0, 8).is_none());
    assert!(ChainedPics::new_checked(16, 24).is_none());
}

#[test]
fn offsets_not_eight_apart_are_rejected() {
    assert!(ChainedPics::new_checked(32, 41).is_none());
    assert!(ChainedPics::new_checked(32, 39).is_none());
    assert!(ChainedPics::new_checked(40, 32).is_none());
    // An offset pair whose secondary range would wrap past the last vector
    // cannot be eight apart either.
    assert!(ChainedPics::new_checked(248, 0).is_none());
}

#[test]
fn acceptable_offsets_are_accepted() {
    assert!(ChainedPics::new_checked(32, 40).is_some());
    assert!(ChainedPics::new_checked(240, 248).is_some());
    assert!(ChainedPics::new_checked(100, 108).is_some());
}

#[test]
fn handles_interrupt_covers_both_ranges() {
    let pics = ChainedPics::new(32, 40);
    assert!(!pics.handles_interrupt(31));
    assert!(pics.handles_interrupt(32));
    assert!(pics.handles_interrupt(39));
    assert!(pics.handles_interrupt(40));
    assert!(pics.handles_interrupt(47));
    assert!(!pics.handles_interrupt(48));
    assert!(!pics.handles_interrupt(0));
    assert!(!pics.handles_interrupt(255));
}

#[test]
fn initialize_emits_the_remap_handshake() {
    let mut pics = ChainedPics::new(32, 40);
    let writes = pics.initialize(0xfd, 0xff);
    let expected = vec![
        PortWrite { port: PIC_1_COMMAND_PORT, value: CMD_INIT },
        PortWrite { port: PIC_2_COMMAND_PORT, value: CMD_INIT },
        PortWrite { port: PIC_1_DATA_PORT, value: 32 },
        PortWrite { port: PIC_2_DATA_PORT, value: 40 },
        PortWrite { port: PIC_1_DATA_PORT, value: 4 },
        PortWrite { port: PIC_2_DATA_PORT, value: 2 },
        PortWrite { port: PIC_1_DATA_PORT, value: MODE_8086 },
        PortWrite { port: PIC_2_DATA_PORT, value: MODE_8086 },
        PortWrite { port: PIC_1_DATA_PORT, value: 0xfd },
        PortWrite { port: PIC_2_DATA_PORT, value: 0xff },
    ];
    assert_eq!(writes, expected);
    assert!(pics.acknowledged().is_empty());
}

#[test]
fn eoi_for_a_primary_vector_writes_the_primary_alone() {
    let mut pics = ChainedPics::new(32, 40);
    pics.initialize(0, 0);
    let writes = pics.notify_end_of_interrupt(32);
    assert_eq!(
        writes,
        vec![PortWrite { port: PIC_1_COMMAND_PORT, value: CMD_END_OF_INTERRUPT }],
    );
    assert_eq!(pics.acknowledged(), &vec![32u8]);
}

#[test]
fn eoi_for_a_secondary_vector_writes_both_controllers() {
    let mut pics = ChainedPics::new(32, 40);
    pics.initialize(0, 0);
    let writes = pics.notify_end_of_interrupt(44);
    assert_eq!(
        writes,
        vec![
            PortWrite { port: PIC_2_COMMAND_PORT, value: CMD_END_OF_INTERRUPT },
            PortWrite { port: PIC_1_COMMAND_PORT, value: CMD_END_OF_INTERRUPT },
        ],
    );
    assert_eq!(pics.acknowledged(), &vec![44u8]);
}

#[test]
fn acknowledgments_are_logged_in_order() {
    let mut pics = ChainedPics::new(32, 40);
    pics.initialize(0, 0);
    pics.notify_end_of_interrupt(32);
    pics.notify_end_of_interrupt(33);
    pics.notify_end_of_interrupt(32);
    pics.notify_end_of_interrupt(44);
    assert_eq!(pics.acknowledged(), &vec![32u8, 33, 32, 44]);
}
