//! The kernel's owned state, how boot sets it up, and what a keyboard
//! interrupt does to it.

use vstd::prelude::*;
use vstd::string::StringSliceAdditionalSpecFns;
use crate::gdt::{kernel_entries, DescriptorPointer, Gdt, StackSnapshot, GDT_BYTES};
use crate::idt::{
    enable_interrupts, fully_populated, initialized_table, Cpu, Handlers, Idt, IDT_BYTES,
};
use crate::exc::{fault_message, report_fault, Fault, ERROR_COLOR, ERROR_ROW};
use crate::kb::{kbhandler, keyboard_irq, reboot_step, KBC_INPUT_FULL, REBOOT_POLLS};
use crate::nps::{banner_text, prompted, shell_step, NPShell, Request, ShellContext};
use crate::pic::{
    bus_write, lemma_remap_determinism, master_remapped, remap, remapped, slave_remapped, PortBus,
    KBC_RESET, KEYBOARD_STATUS_PORT,
};
use crate::vga::{
    cleared, fresh_screen, printc_effect, put_text, written_at, Color, ScreenView, Writer,
};

verus! {

/// Everything the core owns once booted. The console, the shell and the
/// ports belong to this one value: boot builds it, and afterwards an
/// interrupt reaches them only through `keyboard_interrupt`, which borrows
/// the whole kernel mutably, so foreground and interrupt-context writes
/// cannot interleave.
pub struct Kernel {
    pub out: Writer,
    pub bus: PortBus,
    pub cpu: Cpu,
    pub shell: NPShell,
    pub idt: Idt,
    pub idt_pointer: DescriptorPointer,
    pub gdt_pointer: DescriptorPointer,
    pub ctx: ShellContext,
}

impl Kernel {
    pub open spec fn wf(&self) -> bool {
        &&& self.out.wf()
        &&& self.shell.wf()
    }
}

/// The boot screen: banner, the four setup steps, and the shell's prompt.
/// All of it is written before interrupts come on.
pub open spec fn boot_screen() -> ScreenView {
    let v = ScreenView { cursor_visible: true, ..cleared(fresh_screen()) };
    let v = put_text(v, "\nKFS_2 - Kernel From Scratch\n".spec_bytes());
    let v = put_text(v, "===========================\n\n".spec_bytes());
    let v = put_text(v, "A bare-metal i386 kernel written in Rust\n\n".spec_bytes());
    let v = put_text(v, "=== Starting System initialization ===\n\n".spec_bytes());
    let v = printc_effect(
        printc_effect(v, "[1/4] Initializing IDT...\n".spec_bytes(), Color::Yellow, Color::Black),
        "      IDT initialized!\n\n".spec_bytes(),
        Color::Green,
        Color::Black,
    );
    let v = printc_effect(
        printc_effect(v, "[2/4] Remapping PIC...\n".spec_bytes(), Color::Yellow, Color::Black),
        "      PIC Remapped!\n\n".spec_bytes(),
        Color::Green,
        Color::Black,
    );
    let v = printc_effect(
        printc_effect(v, "[3/4] Initializing GDT...\n".spec_bytes(), Color::Yellow, Color::Black),
        "      GDT loaded!\n\n".spec_bytes(),
        Color::Green,
        Color::Black,
    );
    let v = printc_effect(
        v,
        "[4/4] Interrupts come on once the shell is up.\n\n".spec_bytes(),
        Color::Yellow,
        Color::Black,
    );
    let v = printc_effect(
        v,
        "System initialized. Lets go!\n\n".spec_bytes(),
        Color::Green,
        Color::Black,
    );
    prompted(put_text(v, banner_text()))
}

/// The foreground part of boot, run with interrupts off: clears the
/// screen, shows the cursor and the banner, builds the interrupt table for
/// `h` (handler stubs, never at address 0; to be loaded from `idt_address`), remaps the
/// interrupt controllers on `bus`, sets up the descriptor table (to be
/// loaded from `gdt_address`) and starts the shell. Interrupts stay off:
/// every console write of boot happens here.
pub fn init_and_print(bus: PortBus, h: &Handlers, idt_address: u32, gdt_address: u32) -> (k: Kernel)
    requires
        h.all_non_null(),
    ensures
        k.wf(),
        k.out@ == boot_screen(),
        k.bus@ == remapped(bus@),
        k.cpu == (Cpu { interrupts_enabled: false, halted: false }),
        k.idt@ == initialized_table(*h),
        fully_populated(k.idt@),
        k.idt_pointer == (DescriptorPointer { limit: (IDT_BYTES - 1) as u16, base: idt_address }),
        k.gdt_pointer == (DescriptorPointer { limit: (GDT_BYTES - 1) as u16, base: gdt_address }),
        k.ctx.gdt@ == kernel_entries(),
        k.ctx.gdt_address == gdt_address,
        k.shell@ == Seq::<u8>::empty(),
{
    let mut bus = bus;
    let mut out = Writer::new();
    let cpu = Cpu::new();
    out.clear_screen();
    out.set_cursor_visible(true);
    out.write_string("\nKFS_2 - Kernel From Scratch\n");
    out.write_string("===========================\n\n");
    out.write_string("A bare-metal i386 kernel written in Rust\n\n");
    out.write_string("=== Starting System initialization ===\n\n");
    let (idt, idt_pointer) = crate::idt::init(&mut out, h, idt_address);
    remap(&mut bus, &mut out);
    let gdt_pointer = crate::gdt::init(&mut out, gdt_address);
    out.printc("[4/4] Interrupts come on once the shell is up.\n\n", Color::Yellow, Color::Black);
    out.printc("System initialized. Lets go!\n\n", Color::Green, Color::Black);
    let shell = NPShell::new();
    crate::nps::init(&shell, &mut out);
    let ctx = ShellContext {
        gdt: Gdt::new(),
        gdt_address,
        stack: StackSnapshot { esp: 0, ebp: 0, words: [0u32; 16] },
    };
    Kernel { out, bus, cpu, shell, idt, idt_pointer, gdt_pointer, ctx }
}

/// Boot: the foreground part (`init_and_print`), then interrupts on as the
/// very last step. What is on screen is exactly what the foreground wrote
/// before interrupts came on; from here on only interrupts touch the kernel.
pub fn kernel_main(bus: PortBus, h: &Handlers, idt_address: u32, gdt_address: u32) -> (k: Kernel)
    requires
        h.all_non_null(),
    ensures
        k.wf(),
        k.out@ == boot_screen(),
        k.bus@ == remapped(bus@),
        k.cpu == (Cpu { interrupts_enabled: true, halted: false }),
        k.idt@ == initialized_table(*h),
        fully_populated(k.idt@),
        k.idt_pointer == (DescriptorPointer { limit: (IDT_BYTES - 1) as u16, base: idt_address }),
        k.gdt_pointer == (DescriptorPointer { limit: (GDT_BYTES - 1) as u16, base: gdt_address }),
        k.ctx.gdt@ == kernel_entries(),
        k.ctx.gdt_address == gdt_address,
        k.shell@ == Seq::<u8>::empty(),
{
    let mut k = init_and_print(bus, h, idt_address, gdt_address);
    proof {
        lemma_remap_determinism(bus@);
    }
    k.enable_interrupts();
    k
}

impl Kernel {
    /// Turns interrupts on. Needs every vector populated and the controllers
    /// remapped, and changes nothing but the interrupt flag: no console or
    /// shell write comes with it.
    pub fn enable_interrupts(&mut self)
        requires
            old(self).wf(),
            fully_populated(old(self).idt@),
            old(self).bus@.master == master_remapped(),
            old(self).bus@.slave == slave_remapped(),
            !old(self).cpu.halted,
        ensures
            final(self).wf(),
            final(self).cpu == (Cpu { interrupts_enabled: true, halted: false }),
            final(self).out@ == old(self).out@,
            final(self).shell@ == old(self).shell@,
            final(self).bus@ == old(self).bus@,
            final(self).idt@ == old(self).idt@,
            final(self).idt_pointer == old(self).idt_pointer,
            final(self).gdt_pointer == old(self).gdt_pointer,
            final(self).ctx.gdt@ == old(self).ctx.gdt@,
            final(self).ctx.gdt_address == old(self).ctx.gdt_address,
            final(self).ctx.stack == old(self).ctx.stack,
    {
        enable_interrupts(&mut self.cpu, &self.idt);
    }

    /// Keyboard interrupt, with the stack as read on entry; it can only come
    /// while interrupts are on. The handler runs on the ports, and a decoded
    /// character goes to the shell. A `halt` command stops the CPU here; a
    /// `reboot` request is for the caller to carry out with `reboot`.
    pub fn keyboard_interrupt(&mut self, stack: StackSnapshot) -> (r: Request)
        requires
            old(self).wf(),
            old(self).cpu.interrupts_enabled,
            !old(self).cpu.halted,
        ensures
            final(self).wf(),
            final(self).idt_pointer == old(self).idt_pointer,
            final(self).gdt_pointer == old(self).gdt_pointer,
            final(self).bus@ == keyboard_irq(old(self).bus@).0,
            final(self).ctx.stack == stack,
            final(self).ctx.gdt@ == old(self).ctx.gdt@,
            final(self).ctx.gdt_address == old(self).ctx.gdt_address,
            final(self).idt@ == old(self).idt@,
            keyboard_irq(old(self).bus@).1 is None ==> {
                &&& r == Request::Continue
                &&& final(self).shell@ == old(self).shell@
                &&& final(self).out@ == old(self).out@
                &&& final(self).cpu == old(self).cpu
            },
            keyboard_irq(old(self).bus@).1 is Some ==> {
                &&& (final(self).shell@, final(self).out@, r) == shell_step(
                    old(self).shell@,
                    old(self).out@,
                    final(self).ctx,
                    keyboard_irq(old(self).bus@).1->0,
                )
                &&& final(self).cpu == if r == Request::Halt {
                    Cpu { interrupts_enabled: false, halted: true }
                } else {
                    old(self).cpu
                }
            },
    {
        self.ctx.stack = stack;
        let c = kbhandler(&mut self.bus);
        match c {
            None => Request::Continue,
            Some(ch) => {
                let r = self.shell.handle_char(ch, &mut self.out, &self.ctx);
                if r == Request::Halt {
                    self.cpu.halt();
                }
                r
            },
        }
    }

    /// A CPU fault: its message goes on the error row and the CPU halts for
    /// good; nothing else changes.
    pub fn fault(&mut self, f: Fault)
        requires
            old(self).wf(),
        ensures
            final(self).wf(),
            final(self).out@ == written_at(
                old(self).out@,
                ERROR_ROW as int,
                fault_message(f),
                ERROR_COLOR,
            ),
            final(self).cpu == (Cpu { interrupts_enabled: false, halted: true }),
            final(self).shell@ == old(self).shell@,
            final(self).bus@ == old(self).bus@,
            final(self).idt@ == old(self).idt@,
            final(self).idt_pointer == old(self).idt_pointer,
            final(self).gdt_pointer == old(self).gdt_pointer,
            final(self).ctx.gdt@ == old(self).ctx.gdt@,
            final(self).ctx.gdt_address == old(self).ctx.gdt_address,
            final(self).ctx.stack == old(self).ctx.stack,
    {
        report_fault(&mut self.out, &mut self.cpu, f);
    }

    /// The reboot protocol: polls the keyboard controller up to
    /// `REBOOT_POLLS` times until it takes commands, then pulses the reset
    /// line; halts for good afterwards either way (the fallback when the
    /// controller never gets ready or the reset does not take). Says whether
    /// it pulsed.
    pub fn reboot(&mut self) -> (pulsed: bool)
        requires
            old(self).wf(),
        ensures
            final(self).wf(),
            pulsed == (old(self).bus@.kbd_status & KBC_INPUT_FULL == 0),
            pulsed ==> final(self).bus@ == bus_write(
                old(self).bus@,
                KEYBOARD_STATUS_PORT,
                KBC_RESET,
            ),
            !pulsed ==> final(self).bus@ == old(self).bus@,
            final(self).cpu == (Cpu { interrupts_enabled: false, halted: true }),
            final(self).out@ == old(self).out@,
            final(self).shell@ == old(self).shell@,
            final(self).idt@ == old(self).idt@,
            final(self).idt_pointer == old(self).idt_pointer,
            final(self).gdt_pointer == old(self).gdt_pointer,
            final(self).ctx.gdt@ == old(self).ctx.gdt@,
            final(self).ctx.gdt_address == old(self).ctx.gdt_address,
            final(self).ctx.stack == old(self).ctx.stack,
    {
        let mut pulsed = false;
        let mut polls: u32 = 0;
        while polls < REBOOT_POLLS && !pulsed
            invariant
                polls <= REBOOT_POLLS,
                !pulsed ==> self.bus@ == old(self).bus@,
                pulsed ==> self.bus@ == bus_write(old(self).bus@, KEYBOARD_STATUS_PORT, KBC_RESET)
                    && old(self).bus@.kbd_status & KBC_INPUT_FULL == 0,
                polls > 0 ==> pulsed == (old(self).bus@.kbd_status & KBC_INPUT_FULL == 0),
                self.out == old(self).out,
                self.shell == old(self).shell,
                self.idt == old(self).idt,
                self.cpu == old(self).cpu,
                self.idt_pointer == old(self).idt_pointer,
                self.gdt_pointer == old(self).gdt_pointer,
                self.ctx == old(self).ctx,
            decreases REBOOT_POLLS - polls,
        {
            pulsed = reboot_step(&mut self.bus);
            polls = polls + 1;
        }
        self.cpu.halt();
        pulsed
    }
}

} // verus!
