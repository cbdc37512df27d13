//! The I/O ports the core talks to, with the two cascaded 8259 interrupt
//! controllers and the keyboard controller behind them, and the controller
//! driver (remap, end of interrupt).

use vstd::prelude::*;
use vstd::string::StringSliceAdditionalSpecFns;
use crate::vga::{printc_effect, Color, Writer};

verus! {

pub const PIC1_COMMAND: u16 = 0x20;

pub const PIC1_DATA: u16 = 0x21;

pub const PIC2_COMMAND: u16 = 0xA0;

pub const PIC2_DATA: u16 = 0xA1;

pub const KEYBOARD_DATA_PORT: u16 = 0x60;

pub const KEYBOARD_STATUS_PORT: u16 = 0x64;

/// Unused port written to for a short delay.
pub const IO_WAIT_PORT: u16 = 0x80;

/// Initialization command word 1: start initialization, cascade mode,
/// initialization word 4 follows.
pub const ICW1_INIT: u8 = 0x11;

/// Initialization command word 4: 8086 mode.
pub const ICW4_8086: u8 = 0x01;

pub const PIC_EOI: u8 = 0x20;

/// Keyboard-controller command that pulses the CPU reset line.
pub const KBC_RESET: u8 = 0xFE;

/// Master mask after remap: every line masked but IRQ1 (keyboard).
pub const MASTER_MASK: u8 = 0xFD;

/// Slave mask after remap: every line masked.
pub const SLAVE_MASK: u8 = 0xFF;

/// One 8259 controller: its registers and where it is in the
/// initialization sequence (0 ready; 2, 3, 4 waiting for that command word).
#[derive(Clone, Copy, Debug, PartialEq, Eq, Structural)]
pub struct Pic8259 {
    pub mask: u8,
    pub offset: u8,
    pub cascade: u8,
    pub mode: u8,
    pub icw1: u8,
    pub expecting: u8,
    pub in_service: u8,
}

/// `bits` without its lowest set bit.
pub open spec fn lowest_cleared(bits: u8) -> u8 {
    if bits == 0 {
        0
    } else {
        bits & ((bits - 1) as u8)
    }
}

/// Effect of a byte written to a controller's command port. An ICW1 (bit 4
/// set) restarts initialization and clears the mask and in-service
/// registers; a non-specific EOI clears the highest-priority in-service bit.
pub open spec fn pic_command(p: Pic8259, v: u8) -> Pic8259 {
    if v & 0x10 != 0 {
        Pic8259 { icw1: v, expecting: 2, mask: 0, in_service: 0, ..p }
    } else if v == PIC_EOI {
        Pic8259 { in_service: lowest_cleared(p.in_service), ..p }
    } else {
        p
    }
}

/// Effect of a byte written to a controller's data port: the next
/// initialization word while initializing, else the interrupt mask.
pub open spec fn pic_data(p: Pic8259, v: u8) -> Pic8259 {
    if p.expecting == 2 {
        Pic8259 {
            offset: v,
            expecting: if p.icw1 & 0x02 == 0 {
                3
            } else if p.icw1 & 0x01 != 0 {
                4
            } else {
                0
            },
            ..p
        }
    } else if p.expecting == 3 {
        Pic8259 { cascade: v, expecting: if p.icw1 & 0x01 != 0 { 4 } else { 0 }, ..p }
    } else if p.expecting == 4 {
        Pic8259 { mode: v, expecting: 0, ..p }
    } else {
        Pic8259 { mask: v, ..p }
    }
}

/// The devices behind the ports, and every byte written so far.
pub struct PortsView {
    pub master: Pic8259,
    pub slave: Pic8259,
    pub kbd_status: u8,
    pub kbd_data: u8,
    pub reset_pulsed: bool,
    pub writes: Seq<(u16, u8)>,
}

/// Effect of writing `value` to `port`.
pub open spec fn bus_write(v: PortsView, port: u16, value: u8) -> PortsView {
    let w = PortsView { writes: v.writes.push((port, value)), ..v };
    if port == PIC1_COMMAND {
        PortsView { master: pic_command(w.master, value), ..w }
    } else if port == PIC1_DATA {
        PortsView { master: pic_data(w.master, value), ..w }
    } else if port == PIC2_COMMAND {
        PortsView { slave: pic_command(w.slave, value), ..w }
    } else if port == PIC2_DATA {
        PortsView { slave: pic_data(w.slave, value), ..w }
    } else if port == KEYBOARD_STATUS_PORT && value == KBC_RESET {
        PortsView { reset_pulsed: true, ..w }
    } else {
        w
    }
}

/// Value read from `port`.
pub open spec fn bus_read_value(v: PortsView, port: u16) -> u8 {
    if port == KEYBOARD_DATA_PORT {
        v.kbd_data
    } else if port == KEYBOARD_STATUS_PORT {
        v.kbd_status
    } else if port == PIC1_DATA {
        v.master.mask
    } else if port == PIC2_DATA {
        v.slave.mask
    } else {
        0xFF
    }
}

/// Side effect of reading `port`: reading the keyboard data port empties
/// the controller's output buffer.
pub open spec fn bus_read_effect(v: PortsView, port: u16) -> PortsView {
    if port == KEYBOARD_DATA_PORT {
        PortsView { kbd_status: v.kbd_status & 0xFE, ..v }
    } else {
        v
    }
}

/// A write followed by the delay write to the unused port.
pub open spec fn write_wait(v: PortsView, port: u16, value: u8) -> PortsView {
    bus_write(bus_write(v, port, value), IO_WAIT_PORT, 0)
}

/// The remap sequence: the four initialization command words to both
/// controllers (start, vector offsets 32 and 40, cascade wiring, 8086
/// mode), then the masks, each write followed by a delay.
pub open spec fn remapped(v: PortsView) -> PortsView {
    let v = write_wait(v, PIC1_COMMAND, ICW1_INIT);
    let v = write_wait(v, PIC2_COMMAND, ICW1_INIT);
    let v = write_wait(v, PIC1_DATA, 32);
    let v = write_wait(v, PIC2_DATA, 40);
    let v = write_wait(v, PIC1_DATA, 4);
    let v = write_wait(v, PIC2_DATA, 2);
    let v = write_wait(v, PIC1_DATA, ICW4_8086);
    let v = write_wait(v, PIC2_DATA, ICW4_8086);
    let v = write_wait(v, PIC1_DATA, MASTER_MASK);
    write_wait(v, PIC2_DATA, SLAVE_MASK)
}

/// Acknowledgement of `irq`: to the slave too when the line is on it.
pub open spec fn eoi(v: PortsView, irq: u8) -> PortsView {
    let w = if irq >= 8 {
        bus_write(v, PIC2_COMMAND, PIC_EOI)
    } else {
        v
    };
    bus_write(w, PIC1_COMMAND, PIC_EOI)
}

/// The port bus with its devices.
pub struct PortBus {
    master: Pic8259,
    slave: Pic8259,
    kbd_status: u8,
    kbd_data: u8,
    reset_pulsed: bool,
    writes: Vec<(u16, u8)>,
}

impl View for PortBus {
    type V = PortsView;

    closed spec fn view(&self) -> PortsView {
        PortsView {
            master: self.master,
            slave: self.slave,
            kbd_status: self.kbd_status,
            kbd_data: self.kbd_data,
            reset_pulsed: self.reset_pulsed,
            writes: self.writes@,
        }
    }
}

fn pic_command_exec(p: Pic8259, v: u8) -> (r: Pic8259)
    ensures
        r == pic_command(p, v),
{
    if v & 0x10 != 0 {
        Pic8259 { icw1: v, expecting: 2, mask: 0, in_service: 0, ..p }
    } else if v == PIC_EOI {
        let r: u8 = if p.in_service == 0 {
            0
        } else {
            p.in_service & (p.in_service - 1)
        };
        Pic8259 { in_service: r, ..p }
    } else {
        p
    }
}

fn pic_data_exec(p: Pic8259, v: u8) -> (r: Pic8259)
    ensures
        r == pic_data(p, v),
{
    if p.expecting == 2 {
        let next: u8 = if p.icw1 & 0x02 == 0 {
            3
        } else if p.icw1 & 0x01 != 0 {
            4
        } else {
            0
        };
        Pic8259 { offset: v, expecting: next, ..p }
    } else if p.expecting == 3 {
        let next: u8 = if p.icw1 & 0x01 != 0 {
            4
        } else {
            0
        };
        Pic8259 { cascade: v, expecting: next, ..p }
    } else if p.expecting == 4 {
        Pic8259 { mode: v, expecting: 0, ..p }
    } else {
        Pic8259 { mask: v, ..p }
    }
}

impl PortBus {
    /// Devices in the given state, with nothing written yet.
    pub fn new(master: Pic8259, slave: Pic8259, kbd_status: u8, kbd_data: u8) -> (r: PortBus)
        ensures
            r@ == (PortsView {
                master,
                slave,
                kbd_status,
                kbd_data,
                reset_pulsed: false,
                writes: Seq::empty(),
            }),
    {
        PortBus { master, slave, kbd_status, kbd_data, reset_pulsed: false, writes: Vec::new() }
    }

    pub fn write_port(&mut self, port: u16, value: u8)
        ensures
            final(self)@ == bus_write(old(self)@, port, value),
    {
        self.writes.push((port, value));
        if port == PIC1_COMMAND {
            self.master = pic_command_exec(self.master, value);
        } else if port == PIC1_DATA {
            self.master = pic_data_exec(self.master, value);
        } else if port == PIC2_COMMAND {
            self.slave = pic_command_exec(self.slave, value);
        } else if port == PIC2_DATA {
            self.slave = pic_data_exec(self.slave, value);
        } else if port == KEYBOARD_STATUS_PORT && value == KBC_RESET {
            self.reset_pulsed = true;
        }
    }

    pub fn read_port(&mut self, port: u16) -> (r: u8)
        ensures
            r == bus_read_value(old(self)@, port),
            final(self)@ == bus_read_effect(old(self)@, port),
    {
        if port == KEYBOARD_DATA_PORT {
            let d = self.kbd_data;
            self.kbd_status = self.kbd_status & 0xFE;
            d
        } else if port == KEYBOARD_STATUS_PORT {
            self.kbd_status
        } else if port == PIC1_DATA {
            self.master.mask
        } else if port == PIC2_DATA {
            self.slave.mask
        } else {
            0xFF
        }
    }

    /// The keyboard controller receives `scancode`: it fills the output
    /// buffer and raises IRQ1 on the master controller.
    pub fn key_event(&mut self, scancode: u8)
        ensures
            final(self)@ == (PortsView {
                kbd_data: scancode,
                kbd_status: old(self)@.kbd_status | 0x01,
                master: Pic8259 { in_service: old(self)@.master.in_service | 0x02, ..old(self)@.master },
                ..old(self)@
            }),
    {
        self.kbd_data = scancode;
        self.kbd_status = self.kbd_status | 0x01;
        self.master.in_service = self.master.in_service | 0x02;
    }

    /// Sets the keyboard controller's status register.
    pub fn set_keyboard_status(&mut self, status: u8)
        ensures
            final(self)@ == (PortsView { kbd_status: status, ..old(self)@ }),
    {
        self.kbd_status = status;
    }

    pub fn master(&self) -> (r: Pic8259)
        ensures
            r == self@.master,
    {
        self.master
    }

    pub fn slave(&self) -> (r: Pic8259)
        ensures
            r == self@.slave,
    {
        self.slave
    }

    pub fn reset_pulsed(&self) -> (r: bool)
        ensures
            r == self@.reset_pulsed,
    {
        self.reset_pulsed
    }

    /// Every (port, byte) written, oldest first.
    pub fn writes(&self) -> (r: &Vec<(u16, u8)>)
        ensures
            r@ == self@.writes,
    {
        &self.writes
    }
}

/// Short delay: a throwaway write to an unused port.
pub fn io_wait(bus: &mut PortBus)
    ensures
        final(bus)@ == bus_write(old(bus)@, IO_WAIT_PORT, 0),
{
    bus.write_port(IO_WAIT_PORT, 0);
}

fn write_and_wait(bus: &mut PortBus, port: u16, value: u8)
    ensures
        final(bus)@ == write_wait(old(bus)@, port, value),
{
    bus.write_port(port, value);
    io_wait(bus);
}

/// Reprograms both controllers (see `remapped`) and reports it.
pub fn remap(bus: &mut PortBus, out: &mut Writer)
    requires
        old(out).wf(),
    ensures
        final(bus)@ == remapped(old(bus)@),
        final(out).wf(),
        final(out)@ == printc_effect(
            printc_effect(old(out)@, "[2/4] Remapping PIC...\n".spec_bytes(), Color::Yellow, Color::Black),
            "      PIC Remapped!\n\n".spec_bytes(),
            Color::Green,
            Color::Black,
        ),
{
    out.printc("[2/4] Remapping PIC...\n", Color::Yellow, Color::Black);
    write_and_wait(bus, PIC1_COMMAND, ICW1_INIT);
    write_and_wait(bus, PIC2_COMMAND, ICW1_INIT);
    write_and_wait(bus, PIC1_DATA, 32);
    write_and_wait(bus, PIC2_DATA, 40);
    write_and_wait(bus, PIC1_DATA, 4);
    write_and_wait(bus, PIC2_DATA, 2);
    write_and_wait(bus, PIC1_DATA, ICW4_8086);
    write_and_wait(bus, PIC2_DATA, ICW4_8086);
    write_and_wait(bus, PIC1_DATA, MASTER_MASK);
    write_and_wait(bus, PIC2_DATA, SLAVE_MASK);
    out.printc("      PIC Remapped!\n\n", Color::Green, Color::Black);
}

/// Acknowledges `irq`: the slave controller first when the line is on it,
/// then the master.
pub fn send_eoi(bus: &mut PortBus, irq: u8)
    ensures
        final(bus)@ == eoi(old(bus)@, irq),
{
    if irq >= 8 {
        bus.write_port(PIC2_COMMAND, PIC_EOI);
    }
    bus.write_port(PIC1_COMMAND, PIC_EOI);
}

/// The master after remap: vectors 32-39, only the keyboard line unmasked,
/// slave on IRQ2, 8086 mode, initialization complete, nothing in service.
pub open spec fn master_remapped() -> Pic8259 {
    Pic8259 {
        mask: MASTER_MASK,
        offset: 32,
        cascade: 4,
        mode: ICW4_8086,
        icw1: ICW1_INIT,
        expecting: 0,
        in_service: 0,
    }
}

/// The slave after remap: vectors 40-47, every line masked, cascade
/// identity 2, 8086 mode, initialization complete, nothing in service.
pub open spec fn slave_remapped() -> Pic8259 {
    Pic8259 {
        mask: SLAVE_MASK,
        offset: 40,
        cascade: 2,
        mode: ICW4_8086,
        icw1: ICW1_INIT,
        expecting: 0,
        in_service: 0,
    }
}

/// Whatever state the controllers were in, the remap sequence leaves the
/// master at vectors 32-39 with only the keyboard line unmasked (0xFD), the
/// slave at vectors 40-47 with every line masked (0xFF), both wired as a
/// cascade on IRQ2, in 8086 mode, with initialization complete.
pub proof fn lemma_remap_determinism(v: PortsView)
    ensures
        remapped(v).master == master_remapped(),
        remapped(v).slave == slave_remapped(),
{
    assert(ICW1_INIT & 0x10 != 0) by (bit_vector);
    assert(ICW1_INIT & 0x02 == 0) by (bit_vector);
    assert(ICW1_INIT & 0x01 != 0) by (bit_vector);
}

} // verus!
