use kfs::exc::{
    rust_default_interrupt, rust_divide_by_zero, rust_double_fault,
    rust_general_protection_fault, rust_invalid_opcode, rust_page_fault, Fault,
};
use kfs::idt::init;
use kfs::gdt::StackSnapshot;
use kfs::idt::{enable_interrupts, Cpu, Handlers};
use kfs::kernel::{init_and_print, kernel_main};
use kfs::nps::Request;
use kfs::pic::{Pic8259, PortBus};
use kfs::vga::{Writer, VGA_WIDTH};

fn row_text(w: &Writer, row: usize) -> String {
    let mut s = String::new();
    for col in 0..VGA_WIDTH {
        s.push(w.char_at(row, col) as char);
    }
    s.trim_end().to_string()
}

fn handlers() -> Handlers {
    Handlers {
        divide_by_zero: 0x1000,
        invalid_opcode: 0x1006,
        double_fault: 0x1008,
        general_protection_fault: 0x100D,
        page_fault: 0x100E,
        keyboard: 0x2021,
        default: 0x3000,
    }
}

fn power_on_bus() -> PortBus {
    let p = Pic8259 { mask: 0xB8, offset: 8, cascade: 0, mode: 0, icw1: 0, expecting: 0, in_service: 0 };
    PortBus::new(p, p, 0, 0)
}

fn stack() -> StackSnapshot {
    StackSnapshot { esp: 0x9000, ebp: 0x9010, words: [0u32; 16] }
}

#[test]
fn boot_reports_each_step_and_starts_shell() {
    let k = kernel_main(power_on_bus(), &handlers(), 0x0010_0000, 0x800);
    assert_eq!(row_text(&k.out, 0), "");
    assert_eq!(row_text(&k.out, 1), "KFS_2 - Kernel From Scratch");
    assert_eq!(row_text(&k.out, 6), "=== Starting System initialization ===");
    assert_eq!(row_text(&k.out, 8), "[1/4] Initializing IDT...");
    assert_eq!(row_text(&k.out, 11), "[2/4] Remapping PIC...");
    assert_eq!(row_text(&k.out, 14), "[3/4] Initializing GDT...");
    assert_eq!(row_text(&k.out, 15), "      GDT loaded!");
    assert_eq!(row_text(&k.out, 17), "[4/4] Interrupts come on once the shell is up.");
    assert_eq!(row_text(&k.out, 19), "System initialized. Lets go!");
    assert_eq!(row_text(&k.out, 21), "NPS - Not a POSIX Shell - Type 'help' for commands");
    assert_eq!(row_text(&k.out, 22), ">");
    assert!(k.out.cursor_visible());
    assert!(k.cpu.interrupts_enabled);
    assert!(!k.cpu.halted);
    assert_eq!(k.bus.master().mask, 0xFD);
    assert_eq!(k.bus.slave().mask, 0xFF);
    assert_eq!(k.idt.entry(33).address(), 0x2021);
    assert_eq!(k.idt_pointer.limit, 2047);
    assert_eq!(k.gdt_pointer.limit, 47);
    assert_eq!(k.gdt_pointer.base, 0x800);
    assert_eq!(k.shell.len(), 0);
}

#[test]
fn foreground_boot_keeps_interrupts_off_until_the_last_step() {
    let mut k = init_and_print(power_on_bus(), &handlers(), 0, 0x800);
    assert!(!k.cpu.interrupts_enabled);
    let screen: Vec<(u8, u8)> = (0..25)
        .flat_map(|r| (0..VGA_WIDTH).map(move |c| (r, c)))
        .map(|(r, c)| (k.out.char_at(r, c), k.out.attr_at(r, c)))
        .collect();
    let cursor = k.out.get_cursor_position();
    let writes = k.bus.writes().len();
    k.enable_interrupts();
    assert!(k.cpu.interrupts_enabled);
    let after: Vec<(u8, u8)> = (0..25)
        .flat_map(|r| (0..VGA_WIDTH).map(move |c| (r, c)))
        .map(|(r, c)| (k.out.char_at(r, c), k.out.attr_at(r, c)))
        .collect();
    assert_eq!(screen, after);
    assert_eq!(k.out.get_cursor_position(), cursor);
    assert_eq!(k.bus.writes().len(), writes);
}

#[test]
fn keystrokes_reach_the_shell_through_the_interrupt() {
    let mut k = kernel_main(power_on_bus(), &handlers(), 0, 0x800);
    for code in [0x1Eu8, 0x9E, 0x30, 0xB0] {
        k.bus.key_event(code);
        assert_eq!(k.keyboard_interrupt(stack()), Request::Continue);
    }
    assert_eq!(k.shell.line(), b"ab".to_vec());
    assert_eq!(row_text(&k.out, 22), "> ab");
    // every delivered interrupt was acknowledged once
    let eois = k.bus.writes().iter().filter(|w| **w == (0x20, 0x20)).count();
    assert_eq!(eois, 4);
}

#[test]
fn spurious_interrupt_leaves_shell_alone() {
    let mut k = kernel_main(power_on_bus(), &handlers(), 0, 0x800);
    let before = k.bus.writes().len();
    assert_eq!(k.keyboard_interrupt(stack()), Request::Continue);
    assert_eq!(k.shell.len(), 0);
    assert_eq!(k.bus.writes().len(), before + 1);
}

#[test]
fn halt_command_stops_the_cpu() {
    let mut k = kernel_main(power_on_bus(), &handlers(), 0, 0x800);
    // h a l t enter
    let mut last = Request::Continue;
    for code in [0x23u8, 0x1E, 0x26, 0x14, 0x1C] {
        k.bus.key_event(code);
        last = k.keyboard_interrupt(stack());
    }
    assert_eq!(last, Request::Halt);
    assert!(k.cpu.halted);
    assert!(!k.cpu.interrupts_enabled);
}

#[test]
fn enable_interrupts_sets_flag() {
    let mut table_out = Writer::new();
    let (idt, _) = init(&mut table_out, &handlers(), 0);
    let mut cpu = Cpu::new();
    enable_interrupts(&mut cpu, &idt);
    assert!(cpu.interrupts_enabled);
    assert!(!cpu.halted);
}

#[test]
fn reboot_pulses_reset_when_controller_is_ready() {
    let mut k = kernel_main(power_on_bus(), &handlers(), 0, 0x800);
    let writes = k.bus.writes().len();
    assert!(k.reboot());
    assert!(k.bus.reset_pulsed());
    assert_eq!(k.bus.writes().len(), writes + 1);
    assert_eq!(k.bus.writes()[writes], (0x64, 0xFE));
    assert!(k.cpu.halted);
    assert!(!k.cpu.interrupts_enabled);
}

#[test]
fn reboot_gives_up_and_halts_when_controller_stays_busy() {
    let mut k = kernel_main(power_on_bus(), &handlers(), 0, 0x800);
    k.bus.set_keyboard_status(0x02);
    let writes = k.bus.writes().len();
    assert!(!k.reboot());
    assert!(!k.bus.reset_pulsed());
    assert_eq!(k.bus.writes().len(), writes);
    assert!(k.cpu.halted);
}

#[test]
fn fault_handlers_write_their_message_on_row_ten() {
    let cases: [(fn(&mut Writer, &mut Cpu), &str); 6] = [
        (rust_divide_by_zero, "EXCEPTION #0: DIVIDE BY ZERO"),
        (rust_invalid_opcode, "EXCEPTION #6: INVALID OPCODE"),
        (rust_double_fault, "EXCEPTION #8: DOUBLE FAULT (STACK OVERFLOW?)"),
        (rust_general_protection_fault, "EXCEPTION #13: GENERAL PROTECTION FAULT"),
        (rust_page_fault, "EXCEPTION #14: PAGE FAULT"),
        (rust_default_interrupt, "UNHANDLED INTERRUPT!"),
    ];
    for (handler, msg) in cases.iter() {
        let mut out = Writer::new();
        let mut cpu = Cpu { interrupts_enabled: true, halted: false };
        handler(&mut out, &mut cpu);
        assert!(cpu.halted);
        assert!(!cpu.interrupts_enabled);
        assert_eq!(row_text(&out, 10), *msg);
        assert_eq!(out.attr_at(10, 0), 0x4F);
        assert_eq!(out.get_cursor_position(), (0, 0));
    }
    assert_eq!(Fault::PageFault.message(), "EXCEPTION #14: PAGE FAULT");
}

#[test]
fn kernel_fault_reports_and_halts() {
    let mut k = kernel_main(power_on_bus(), &handlers(), 0, 0x800);
    let writes = k.bus.writes().len();
    k.fault(Fault::GeneralProtection);
    assert!(k.cpu.halted);
    assert!(!k.cpu.interrupts_enabled);
    assert_eq!(row_text(&k.out, 10), "EXCEPTION #13: GENERAL PROTECTION FAULT");
    assert_eq!(k.out.attr_at(10, 0), 0x4F);
    assert_eq!(k.out.get_cursor_position(), (22, 2));
    assert_eq!(k.bus.writes().len(), writes);
    assert_eq!(k.shell.len(), 0);
}
