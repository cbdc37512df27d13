use kfs::kb::{classify, kbhandler, reboot_step, scancode_to_ascii};
use kfs::pic::{remap, send_eoi, Pic8259, PortBus};
use kfs::vga::Writer;

fn pic(mask: u8, expecting: u8, in_service: u8) -> Pic8259 {
    Pic8259 { mask, offset: 8, cascade: 0, mode: 0, icw1: 0, expecting, in_service }
}

fn remapped_master() -> Pic8259 {
    Pic8259 { mask: 0xFD, offset: 32, cascade: 4, mode: 1, icw1: 0x11, expecting: 0, in_service: 0 }
}

fn remapped_slave() -> Pic8259 {
    Pic8259 { mask: 0xFF, offset: 40, cascade: 2, mode: 1, icw1: 0x11, expecting: 0, in_service: 0 }
}

#[test]
fn remap_sets_documented_masks_from_any_state() {
    let starts = [
        (pic(0x00, 0, 0), pic(0x00, 0, 0)),
        (pic(0xFF, 0, 0), pic(0xFF, 0, 0)),
        (pic(0x5A, 3, 0x02), pic(0xA5, 4, 0x80)),
        (pic(0xB8, 2, 0xFF), pic(0x8E, 0, 0x01)),
    ];
    for (m, s) in starts.iter() {
        let mut bus = PortBus::new(*m, *s, 0, 0);
        let mut out = Writer::new();
        remap(&mut bus, &mut out);
        assert_eq!(bus.master(), remapped_master());
        assert_eq!(bus.slave(), remapped_slave());
        assert_eq!(bus.master().mask, 0xFD);
        assert_eq!(bus.slave().mask, 0xFF);
    }
}

#[test]
fn remap_writes_the_four_step_sequence_with_delays() {
    let mut bus = PortBus::new(pic(0, 0, 0), pic(0, 0, 0), 0, 0);
    let mut out = Writer::new();
    remap(&mut bus, &mut out);
    let expected: Vec<(u16, u8)> = vec![
        (0x20, 0x11), (0x80, 0), (0xA0, 0x11), (0x80, 0),
        (0x21, 32), (0x80, 0), (0xA1, 40), (0x80, 0),
        (0x21, 4), (0x80, 0), (0xA1, 2), (0x80, 0),
        (0x21, 1), (0x80, 0), (0xA1, 1), (0x80, 0),
        (0x21, 0xFD), (0x80, 0), (0xA1, 0xFF), (0x80, 0),
    ];
    assert_eq!(bus.writes(), &expected);
    assert_eq!(out.char_at(0, 0), b'[');
    assert_eq!(out.char_at(0, 1), b'2');
}

#[test]
fn mask_write_after_remap_changes_mask_only() {
    let mut bus = PortBus::new(pic(0, 0, 0), pic(0, 0, 0), 0, 0);
    let mut out = Writer::new();
    remap(&mut bus, &mut out);
    bus.write_port(0x21, 0xFC);
    assert_eq!(bus.master().mask, 0xFC);
    assert_eq!(bus.master().offset, 32);
    assert_eq!(bus.read_port(0x21), 0xFC);
    assert_eq!(bus.read_port(0xA1), 0xFF);
}

#[test]
fn eoi_for_master_line_goes_to_master_only() {
    let mut bus = PortBus::new(pic(0, 0, 0x02), pic(0, 0, 0x01), 0, 0);
    send_eoi(&mut bus, 1);
    assert_eq!(bus.writes(), &vec![(0x20u16, 0x20u8)]);
    assert_eq!(bus.master().in_service, 0);
    assert_eq!(bus.slave().in_service, 0x01);
}

#[test]
fn eoi_for_slave_line_goes_to_both() {
    let mut bus = PortBus::new(pic(0, 0, 0x04), pic(0, 0, 0x01), 0, 0);
    send_eoi(&mut bus, 8);
    assert_eq!(bus.writes(), &vec![(0xA0u16, 0x20u8), (0x20, 0x20)]);
    assert_eq!(bus.master().in_service, 0);
    assert_eq!(bus.slave().in_service, 0);
}

#[test]
fn eoi_clears_highest_priority_in_service_line() {
    let mut bus = PortBus::new(pic(0, 0, 0b0000_0110), pic(0, 0, 0), 0, 0);
    send_eoi(&mut bus, 1);
    assert_eq!(bus.master().in_service, 0b0000_0100);
}

#[test]
fn spurious_keyboard_interrupt_is_only_acknowledged() {
    let mut bus = PortBus::new(remapped_master(), remapped_slave(), 0x00, 0x1E);
    let r = kbhandler(&mut bus);
    assert_eq!(r, None);
    assert_eq!(bus.writes(), &vec![(0x20u16, 0x20u8)]);
}

#[test]
fn key_press_hands_over_one_character() {
    let mut bus = PortBus::new(remapped_master(), remapped_slave(), 0, 0);
    bus.key_event(0x1E);
    assert_eq!(bus.master().in_service, 0x02);
    let r = kbhandler(&mut bus);
    assert_eq!(r, Some(b'a'));
    assert_eq!(bus.writes(), &vec![(0x20u16, 0x20u8)]);
    assert_eq!(bus.master().in_service, 0);
    // the read emptied the output buffer: a second interrupt is spurious
    let again = kbhandler(&mut bus);
    assert_eq!(again, None);
    assert_eq!(bus.writes().len(), 2);
}

#[test]
fn key_release_hands_over_nothing() {
    let mut bus = PortBus::new(remapped_master(), remapped_slave(), 0, 0);
    bus.key_event(0x9E);
    assert_eq!(kbhandler(&mut bus), None);
    assert_eq!(bus.writes(), &vec![(0x20u16, 0x20u8)]);
}

#[test]
fn scan_code_zero_and_unmapped_codes_hand_over_nothing() {
    let mut bus = PortBus::new(remapped_master(), remapped_slave(), 0, 0);
    bus.key_event(0x00);
    assert_eq!(kbhandler(&mut bus), None);
    bus.key_event(0x3B);
    assert_eq!(kbhandler(&mut bus), None);
    bus.key_event(0x1D);
    assert_eq!(kbhandler(&mut bus), None);
}

#[test]
fn classification_of_every_code() {
    for code in 128..=255u8 {
        assert_eq!(classify(code), None);
    }
    assert_eq!(classify(0), None);
    let mut mapped = 0;
    for code in 1..128u8 {
        let c = scancode_to_ascii(code);
        if c == 0 {
            assert_eq!(classify(code), None);
        } else {
            mapped += 1;
            assert_eq!(classify(code), Some(c));
        }
    }
    assert_eq!(mapped, 53);
}

#[test]
fn scancode_table_uses_qwertz_layout() {
    assert_eq!(scancode_to_ascii(0x10), b'q');
    assert_eq!(scancode_to_ascii(0x15), b'z');
    assert_eq!(scancode_to_ascii(0x2C), b'y');
    assert_eq!(scancode_to_ascii(0x1C), b'\n');
    assert_eq!(scancode_to_ascii(0x0E), 0x08);
    assert_eq!(scancode_to_ascii(0x39), b' ');
    assert_eq!(scancode_to_ascii(0x02), b'1');
    assert_eq!(scancode_to_ascii(0x0B), b'0');
    assert_eq!(scancode_to_ascii(0x01), 27);
    assert_eq!(scancode_to_ascii(0x3B), 0);
}

#[test]
fn reboot_waits_until_controller_is_ready() {
    let mut bus = PortBus::new(remapped_master(), remapped_slave(), 0x02, 0);
    assert!(!reboot_step(&mut bus));
    assert!(!bus.reset_pulsed());
    assert!(bus.writes().is_empty());
    bus.set_keyboard_status(0x00);
    assert!(reboot_step(&mut bus));
    assert!(bus.reset_pulsed());
    assert_eq!(bus.writes(), &vec![(0x64u16, 0xFEu8)]);
}
