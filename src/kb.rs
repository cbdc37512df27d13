//! Keyboard input: scan-code decoding and the keyboard interrupt handler.

use vstd::prelude::*;
use crate::pic::{
    bus_read_effect, bus_write, eoi, send_eoi, PortBus, PortsView, KBC_RESET, KEYBOARD_DATA_PORT,
    KEYBOARD_STATUS_PORT, PIC1_COMMAND, PIC_EOI,
};

verus! {

/// Keyboard line on the master controller.
pub const KEYBOARD_IRQ: u8 = 1;

/// Character of a key-press scan code (German QWERTZ layout, lowercase);
/// 0 where the code has no character.
pub open spec fn keymap(code: u8) -> u8 {
    match code {
        0x01 => 0x1B,
        0x02 => 0x31,
        0x03 => 0x32,
        0x04 => 0x33,
        0x05 => 0x34,
        0x06 => 0x35,
        0x07 => 0x36,
        0x08 => 0x37,
        0x09 => 0x38,
        0x0A => 0x39,
        0x0B => 0x30,
        0x0C => 0x2D,
        0x0D => 0x3D,
        0x0E => 0x08,
        0x0F => 0x09,
        0x10 => 0x71,
        0x11 => 0x77,
        0x12 => 0x65,
        0x13 => 0x72,
        0x14 => 0x74,
        0x15 => 0x7A,
        0x16 => 0x75,
        0x17 => 0x69,
        0x18 => 0x6F,
        0x19 => 0x70,
        0x1A => 0x5B,
        0x1B => 0x5D,
        0x1C => 0x0A,
        0x1E => 0x61,
        0x1F => 0x73,
        0x20 => 0x64,
        0x21 => 0x66,
        0x22 => 0x67,
        0x23 => 0x68,
        0x24 => 0x6A,
        0x25 => 0x6B,
        0x26 => 0x6C,
        0x27 => 0x3B,
        0x28 => 0x27,
        0x29 => 0x60,
        0x2B => 0x5C,
        0x2C => 0x79,
        0x2D => 0x78,
        0x2E => 0x63,
        0x2F => 0x76,
        0x30 => 0x62,
        0x31 => 0x6E,
        0x32 => 0x6D,
        0x33 => 0x2C,
        0x34 => 0x2E,
        0x35 => 0x2F,
        0x37 => 0x2A,
        0x39 => 0x20,
        _ => 0,
    }
}

/// Looks `code` up in the scan-code table.
pub fn scancode_to_ascii(code: u8) -> (r: u8)
    ensures
        r == keymap(code),
{
    match code {
        0x01 => 0x1B,
        0x02 => 0x31,
        0x03 => 0x32,
        0x04 => 0x33,
        0x05 => 0x34,
        0x06 => 0x35,
        0x07 => 0x36,
        0x08 => 0x37,
        0x09 => 0x38,
        0x0A => 0x39,
        0x0B => 0x30,
        0x0C => 0x2D,
        0x0D => 0x3D,
        0x0E => 0x08,
        0x0F => 0x09,
        0x10 => 0x71,
        0x11 => 0x77,
        0x12 => 0x65,
        0x13 => 0x72,
        0x14 => 0x74,
        0x15 => 0x7A,
        0x16 => 0x75,
        0x17 => 0x69,
        0x18 => 0x6F,
        0x19 => 0x70,
        0x1A => 0x5B,
        0x1B => 0x5D,
        0x1C => 0x0A,
        0x1E => 0x61,
        0x1F => 0x73,
        0x20 => 0x64,
        0x21 => 0x66,
        0x22 => 0x67,
        0x23 => 0x68,
        0x24 => 0x6A,
        0x25 => 0x6B,
        0x26 => 0x6C,
        0x27 => 0x3B,
        0x28 => 0x27,
        0x29 => 0x60,
        0x2B => 0x5C,
        0x2C => 0x79,
        0x2D => 0x78,
        0x2E => 0x63,
        0x2F => 0x76,
        0x30 => 0x62,
        0x31 => 0x6E,
        0x32 => 0x6D,
        0x33 => 0x2C,
        0x34 => 0x2E,
        0x35 => 0x2F,
        0x37 => 0x2A,
        0x39 => 0x20,
        _ => 0,
    }
}

/// The character a scan code hands to the shell: none for key releases
/// (128 and up), for code 0 and for codes without a character.
pub open spec fn spec_classify(code: u8) -> Option<u8> {
    if code >= 128 || code == 0 || keymap(code) == 0 {
        None
    } else {
        Some(keymap(code))
    }
}

/// Decodes a scan code into the character handed to the shell, if any.
pub fn classify(code: u8) -> (r: Option<u8>)
    ensures
        r == spec_classify(code),
{
    if code < 128 && code != 0 {
        let c = scancode_to_ascii(code);
        if c != 0 {
            Some(c)
        } else {
            None
        }
    } else {
        None
    }
}

/// Release codes and code 0 hand nothing to the shell; a press code with a
/// character hands over exactly that one character.
pub proof fn lemma_scan_code_classification(code: u8)
    ensures
        code >= 128 ==> spec_classify(code) is None,
        code == 0 ==> spec_classify(code) is None,
        (code < 128 && code != 0 && keymap(code) != 0) ==> spec_classify(code) == Some(
            keymap(code),
        ),
{
}

/// Ports and handed-over character after a keyboard interrupt: with the
/// output buffer empty the interrupt is spurious and only acknowledged;
/// otherwise the scan code is read (emptying the buffer), acknowledged, and
/// decoded.
pub open spec fn keyboard_irq(v: PortsView) -> (PortsView, Option<u8>) {
    if v.kbd_status & 0x01 == 0 {
        (eoi(v, KEYBOARD_IRQ), None)
    } else {
        (eoi(bus_read_effect(v, KEYBOARD_DATA_PORT), KEYBOARD_IRQ), spec_classify(v.kbd_data))
    }
}

/// A keyboard interrupt is acknowledged exactly once, on the master
/// controller only: the one byte it writes is the end-of-interrupt command.
pub proof fn lemma_keyboard_irq_acknowledges_once(v: PortsView)
    ensures
        keyboard_irq(v).0.writes == v.writes.push((PIC1_COMMAND, PIC_EOI)),
{
}

/// Keyboard interrupt: reads the status register; with the output buffer
/// empty the interrupt is spurious and only acknowledged. Otherwise reads
/// the scan code, acknowledges, and gives the character for the shell.
/// The interrupt is acknowledged exactly once either way.
pub fn kbhandler(bus: &mut PortBus) -> (r: Option<u8>)
    ensures
        (final(bus)@, r) == keyboard_irq(old(bus)@),
{
    let status = bus.read_port(KEYBOARD_STATUS_PORT);
    if status & 0x01 == 0 {
        send_eoi(bus, KEYBOARD_IRQ);
        return None;
    }
    let scancode = bus.read_port(KEYBOARD_DATA_PORT);
    send_eoi(bus, KEYBOARD_IRQ);
    classify(scancode)
}

/// Status bit of the keyboard controller: its input buffer is full, so it
/// takes no command yet.
pub const KBC_INPUT_FULL: u8 = 0x02;

/// Status polls before a reboot gives up on the keyboard controller.
pub const REBOOT_POLLS: u32 = 0x10000;

/// One round of the reboot protocol: reads the controller status and, once
/// the controller takes commands, pulses the CPU reset line. Says whether it
/// pulsed.
pub fn reboot_step(bus: &mut PortBus) -> (r: bool)
    ensures
        r == (old(bus)@.kbd_status & KBC_INPUT_FULL == 0),
        r ==> final(bus)@ == bus_write(old(bus)@, KEYBOARD_STATUS_PORT, KBC_RESET),
        !r ==> final(bus)@ == old(bus)@,
{
    let status = bus.read_port(KEYBOARD_STATUS_PORT);
    if status & KBC_INPUT_FULL == 0 {
        bus.write_port(KEYBOARD_STATUS_PORT, KBC_RESET);
        true
    } else {
        false
    }
}

} // verus!
