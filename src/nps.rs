//! The line shell: a bounded line buffer fed one character at a time, and
//! the fixed command set run on enter.

use vstd::prelude::*;
use vstd::string::StringSliceAdditionalSpecFns;
use crate::gdt::{gdt_report, print_gdt, print_stack, stack_report, Gdt, StackSnapshot};
use crate::text::push_str;
use crate::vga::{
    backspaced, cleared, put_byte, put_text, recolored, spec_color_byte, Color, ScreenView, Writer,
};

verus! {

/// Size of the line buffer; one byte of it stays free.
pub const MAX_COMMAND_LEN: usize = 64;

/// Longest line the buffer holds.
pub const MAX_LINE: usize = 63;

pub const BACKSPACE: u8 = 0x08;

pub const NEWLINE: u8 = 0x0a;

pub const SPACE: u8 = 0x20;

/// What the shell has to read from the machine to run a command.
pub struct ShellContext {
    pub gdt: Gdt,
    pub gdt_address: u32,
    pub stack: StackSnapshot,
}

/// The commands, as recognized on a trimmed line.
#[derive(Clone, Copy, Debug, PartialEq, Eq, Structural)]
pub enum Command {
    Help,
    Stack,
    Gdt,
    Clear,
    About,
    Reboot,
    Halt,
    Blank,
    Unknown,
}

/// What the caller has to do after a character: go on, or stop the CPU for
/// good (halt, or reboot through the keyboard controller).
#[derive(Clone, Copy, Debug, PartialEq, Eq, Structural)]
pub enum Request {
    Continue,
    Halt,
    Reboot,
}

/// `s` without leading spaces.
pub open spec fn skip_leading(s: Seq<u8>) -> Seq<u8>
    decreases s.len(),
{
    if s.len() > 0 && s[0] == SPACE {
        skip_leading(s.drop_first())
    } else {
        s
    }
}

/// `s` without trailing spaces.
pub open spec fn skip_trailing(s: Seq<u8>) -> Seq<u8>
    decreases s.len(),
{
    if s.len() > 0 && s.last() == SPACE {
        skip_trailing(s.drop_last())
    } else {
        s
    }
}

/// `s` without leading and trailing spaces.
pub open spec fn trim(s: Seq<u8>) -> Seq<u8> {
    skip_trailing(skip_leading(s))
}

pub open spec fn spec_parse_command(line: Seq<u8>) -> Command {
    let t = trim(line);
    if t == "help".spec_bytes() {
        Command::Help
    } else if t == "stack".spec_bytes() {
        Command::Stack
    } else if t == "gdt".spec_bytes() {
        Command::Gdt
    } else if t == "clear".spec_bytes() {
        Command::Clear
    } else if t == "about".spec_bytes() {
        Command::About
    } else if t == "reboot".spec_bytes() {
        Command::Reboot
    } else if t == "halt".spec_bytes() {
        Command::Halt
    } else if t.len() == 0 {
        Command::Blank
    } else {
        Command::Unknown
    }
}

pub open spec fn help_text() -> Seq<u8> {
    "Available commands:\n  help   - Show this help message\n  stack  - Print kernel stack information\n  gdt    - Print GDT information\n  clear  - Clear the screen\n  about  - About this kernel\n  halt   - Halt the CPU\n  reboot - Reboot the system\n".spec_bytes()
}

pub open spec fn about_text() -> Seq<u8> {
    "KFS_2 - Kernel From Scratch\nA bare-metal i386 kernel written in Rust\nFeatures:\n  - Custom GDT implementation\n  - Interrupt handling (IDT + PIC)\n  - Keyboard input\n  - VGA text mode with colors\n  - This shell!\n".spec_bytes()
}

pub open spec fn banner_text() -> Seq<u8> {
    "NPS - Not a POSIX Shell - Type 'help' for commands\n".spec_bytes()
}

pub open spec fn unknown_text(line: Seq<u8>) -> Seq<u8> {
    "Unknown command: '".spec_bytes() + line + "'. Type 'help' for commands.\n".spec_bytes()
}

/// Text a command prints (after the screen is cleared, for `clear`).
pub open spec fn command_output(c: Command, line: Seq<u8>, ctx: ShellContext) -> Seq<u8> {
    match c {
        Command::Help => help_text(),
        Command::Stack => stack_report(ctx.stack),
        Command::Gdt => gdt_report(ctx.gdt@, ctx.gdt_address),
        Command::Clear => banner_text(),
        Command::About => about_text(),
        Command::Reboot => "Rebooting...\n".spec_bytes(),
        Command::Halt => "Halting CPU...\n".spec_bytes(),
        Command::Blank => Seq::empty(),
        Command::Unknown => unknown_text(line),
    }
}

/// What running `line` asks of the caller.
pub open spec fn request_of(line: Seq<u8>) -> Request {
    if line.len() == 0 {
        Request::Continue
    } else {
        match spec_parse_command(line) {
            Command::Halt => Request::Halt,
            Command::Reboot => Request::Reboot,
            _ => Request::Continue,
        }
    }
}

/// Screen after running `line`: nothing for an empty line; otherwise a
/// newline, then the command's text (on a cleared screen for `clear`).
pub open spec fn executed(line: Seq<u8>, v: ScreenView, ctx: ShellContext) -> ScreenView {
    if line.len() == 0 {
        v
    } else {
        let w = put_text(v, "\n".spec_bytes());
        let c = spec_parse_command(line);
        if c == Command::Clear {
            put_text(cleared(w), command_output(c, line, ctx))
        } else {
            put_text(w, command_output(c, line, ctx))
        }
    }
}

/// Screen after the prompt is drawn: "> " in light green, then white text.
pub open spec fn prompted(v: ScreenView) -> ScreenView {
    recolored(
        put_text(recolored(v, spec_color_byte(Color::LightGreen, Color::Black)), "> ".spec_bytes()),
        spec_color_byte(Color::White, Color::Black),
    )
}

/// Screen after enter on `line` when the shell goes on: the command's
/// output, a newline and a fresh prompt.
pub open spec fn after_enter(line: Seq<u8>, v: ScreenView, ctx: ShellContext) -> ScreenView {
    prompted(put_text(executed(line, v, ctx), "\n".spec_bytes()))
}

/// One character through the shell: the new line, the new screen and the
/// request to the caller. Enter runs the line, then (unless the command
/// stops the CPU) empties it and draws a new prompt; backspace removes the
/// last character and erases it on screen; a printable character is
/// appended and echoed while there is room, and dropped otherwise; any other
/// byte is ignored.
pub open spec fn shell_step(line: Seq<u8>, v: ScreenView, ctx: ShellContext, ch: u8) -> (
    Seq<u8>,
    ScreenView,
    Request,
) {
    if ch == NEWLINE {
        let r = request_of(line);
        if r == Request::Continue {
            (Seq::empty(), after_enter(line, v, ctx), r)
        } else {
            (line, executed(line, v, ctx), r)
        }
    } else if ch == BACKSPACE {
        if line.len() > 0 {
            (line.drop_last(), backspaced(v), Request::Continue)
        } else {
            (line, v, Request::Continue)
        }
    } else if SPACE <= ch <= 0x7e {
        if line.len() < MAX_LINE {
            (line.push(ch), put_byte(v, ch), Request::Continue)
        } else {
            (line, v, Request::Continue)
        }
    } else {
        (line, v, Request::Continue)
    }
}

/// Line editing at the bounds: on a full line a printable character is
/// dropped and nothing changes; on an empty line a backspace changes
/// nothing; enter always leaves an empty line when the shell goes on.
pub proof fn lemma_line_editing_bounds(line: Seq<u8>, v: ScreenView, ctx: ShellContext, ch: u8)
    ensures
        line.len() >= MAX_LINE && SPACE <= ch <= 0x7e ==> shell_step(line, v, ctx, ch) == (
            line,
            v,
            Request::Continue,
        ),
        line.len() == 0 ==> shell_step(line, v, ctx, BACKSPACE) == (line, v, Request::Continue),
        shell_step(line, v, ctx, NEWLINE).2 == Request::Continue ==> shell_step(
            line,
            v,
            ctx,
            NEWLINE,
        ).0.len() == 0,
        shell_step(line, v, ctx, ch).0.len() <= if line.len() < MAX_LINE {
            MAX_LINE as int
        } else {
            line.len() as int
        },
{
}

/// Whether `a` and `b` hold the same bytes.
pub fn bytes_eq(a: &[u8], b: &[u8]) -> (r: bool)
    ensures
        r == (a@ == b@),
{
    if a.len() != b.len() {
        return false;
    }
    let mut i: usize = 0;
    while i < a.len()
        invariant
            i <= a@.len(),
            a@.len() == b@.len(),
            forall|j: int| 0 <= j < i ==> a@[j] == b@[j],
        decreases a@.len() - i,
    {
        if a[i] != b[i] {
            return false;
        }
        i = i + 1;
    }
    assert(a@ =~= b@);
    true
}

/// `line` without leading and trailing spaces.
pub fn trim_spaces(line: &[u8]) -> (r: Vec<u8>)
    ensures
        r@ == trim(line@),
{
    let n = line.len();
    let mut i: usize = 0;
    assert(line@.subrange(0, n as int) =~= line@);
    while i < n && line[i] == SPACE
        invariant
            i <= n,
            n == line@.len(),
            skip_leading(line@) == skip_leading(line@.subrange(i as int, n as int)),
        decreases n - i,
    {
        assert(line@.subrange(i as int, n as int).drop_first() =~= line@.subrange(
            i + 1,
            n as int,
        ));
        i = i + 1;
    }
    assert(line@.subrange(i as int, n as int) =~= skip_leading(line@));
    let mut j: usize = n;
    while j > i && line[j - 1] == SPACE
        invariant
            i <= j <= n,
            n == line@.len(),
            trim(line@) == skip_trailing(line@.subrange(i as int, j as int)),
        decreases j - i,
    {
        assert(line@.subrange(i as int, j as int).drop_last() =~= line@.subrange(
            i as int,
            j - 1,
        ));
        j = j - 1;
    }
    let mut r: Vec<u8> = Vec::new();
    let mut k: usize = i;
    while k < j
        invariant
            i <= k <= j,
            j <= n,
            n == line@.len(),
            r@ == line@.subrange(i as int, k as int),
        decreases j - k,
    {
        r.push(line[k]);
        k = k + 1;
        assert(r@ =~= line@.subrange(i as int, k as int));
    }
    r
}

/// Recognizes the command on `line` (spaces around it are ignored).
pub fn parse_command(line: &[u8]) -> (r: Command)
    ensures
        r == spec_parse_command(line@),
{
    let t = trim_spaces(line);
    let t = t.as_slice();
    if bytes_eq(t, "help".as_bytes()) {
        Command::Help
    } else if bytes_eq(t, "stack".as_bytes()) {
        Command::Stack
    } else if bytes_eq(t, "gdt".as_bytes()) {
        Command::Gdt
    } else if bytes_eq(t, "clear".as_bytes()) {
        Command::Clear
    } else if bytes_eq(t, "about".as_bytes()) {
        Command::About
    } else if bytes_eq(t, "reboot".as_bytes()) {
        Command::Reboot
    } else if bytes_eq(t, "halt".as_bytes()) {
        Command::Halt
    } else if t.len() == 0 {
        Command::Blank
    } else {
        Command::Unknown
    }
}

/// The shell: a line buffer and the write position in it.
pub struct NPShell {
    buffer: [u8; 64],
    pos: usize,
}

impl View for NPShell {
    type V = Seq<u8>;

    /// The line typed so far.
    closed spec fn view(&self) -> Seq<u8> {
        self.buffer@.take(self.pos as int)
    }
}

impl NPShell {
    pub closed spec fn wf(&self) -> bool {
        self.pos <= MAX_LINE
    }

    /// A well-formed shell holds at most `MAX_LINE` bytes, leaving one byte
    /// of the buffer free.
    pub proof fn lemma_line_bound(&self)
        requires
            self.wf(),
        ensures
            self@.len() <= MAX_LINE,
    {
    }

    pub fn new() -> (r: NPShell)
        ensures
            r.wf(),
            r@ == Seq::<u8>::empty(),
    {
        NPShell { buffer: [0u8; 64], pos: 0 }
    }

    /// Length of the line typed so far.
    pub fn len(&self) -> (r: usize)
        requires
            self.wf(),
        ensures
            r == self@.len(),
    {
        self.pos
    }

    /// The line typed so far.
    pub fn line(&self) -> (r: Vec<u8>)
        requires
            self.wf(),
        ensures
            r@ == self@,
    {
        let mut r: Vec<u8> = Vec::new();
        let mut i: usize = 0;
        while i < self.pos
            invariant
                i <= self.pos <= MAX_LINE,
                r@ == self.buffer@.take(i as int),
            decreases self.pos - i,
        {
            r.push(self.buffer[i]);
            i = i + 1;
            assert(r@ =~= self.buffer@.take(i as int));
        }
        r
    }

    /// Draws the prompt.
    pub fn show_prompt(&self, out: &mut Writer)
        requires
            old(out).wf(),
        ensures
            final(out).wf(),
            final(out)@ == prompted(old(out)@),
    {
        out.set_color(Color::LightGreen, Color::Black);
        out.write_string("> ");
        out.set_color(Color::White, Color::Black);
    }

    /// Empties the line.
    fn clear(&mut self)
        ensures
            final(self).wf(),
            final(self)@ == Seq::<u8>::empty(),
    {
        self.buffer = [0u8; 64];
        self.pos = 0;
    }

    fn cmd_help(&self, out: &mut Writer)
        requires
            old(out).wf(),
        ensures
            final(out).wf(),
            final(out)@ == put_text(old(out)@, help_text()),
    {
        out.write_string(
            "Available commands:\n  help   - Show this help message\n  stack  - Print kernel stack information\n  gdt    - Print GDT information\n  clear  - Clear the screen\n  about  - About this kernel\n  halt   - Halt the CPU\n  reboot - Reboot the system\n",
        );
    }

    fn cmd_stack(&self, out: &mut Writer, ctx: &ShellContext)
        requires
            old(out).wf(),
        ensures
            final(out).wf(),
            final(out)@ == put_text(old(out)@, stack_report(ctx.stack)),
    {
        print_stack(out, &ctx.stack);
    }

    fn cmd_gdt(&self, out: &mut Writer, ctx: &ShellContext)
        requires
            old(out).wf(),
        ensures
            final(out).wf(),
            final(out)@ == put_text(old(out)@, gdt_report(ctx.gdt@, ctx.gdt_address)),
    {
        print_gdt(out, &ctx.gdt, ctx.gdt_address);
    }

    fn cmd_clear(&self, out: &mut Writer)
        requires
            old(out).wf(),
        ensures
            final(out).wf(),
            final(out)@ == put_text(cleared(old(out)@), banner_text()),
    {
        out.clear_screen();
        out.write_string("NPS - Not a POSIX Shell - Type 'help' for commands\n");
    }

    fn cmd_about(&self, out: &mut Writer)
        requires
            old(out).wf(),
        ensures
            final(out).wf(),
            final(out)@ == put_text(old(out)@, about_text()),
    {
        out.write_string(
            "KFS_2 - Kernel From Scratch\nA bare-metal i386 kernel written in Rust\nFeatures:\n  - Custom GDT implementation\n  - Interrupt handling (IDT + PIC)\n  - Keyboard input\n  - VGA text mode with colors\n  - This shell!\n",
        );
    }

    fn cmd_halt(&self, out: &mut Writer)
        requires
            old(out).wf(),
        ensures
            final(out).wf(),
            final(out)@ == put_text(old(out)@, "Halting CPU...\n".spec_bytes()),
    {
        out.write_string("Halting CPU...\n");
    }

    fn cmd_reboot(&self, out: &mut Writer)
        requires
            old(out).wf(),
        ensures
            final(out).wf(),
            final(out)@ == put_text(old(out)@, "Rebooting...\n".spec_bytes()),
    {
        out.write_string("Rebooting...\n");
    }

    fn cmd_unknown(&self, out: &mut Writer, line: &[u8])
        requires
            old(out).wf(),
        ensures
            final(out).wf(),
            final(out)@ == put_text(old(out)@, unknown_text(line@)),
    {
        let mut msg: Vec<u8> = Vec::new();
        push_str(&mut msg, "Unknown command: '");
        msg.extend_from_slice(line);
        push_str(&mut msg, "'. Type 'help' for commands.\n");
        assert(msg@ =~= unknown_text(line@));
        out.write_text(msg.as_slice());
    }

    /// Runs the line typed so far.
    fn execute(&self, out: &mut Writer, ctx: &ShellContext) -> (r: Request)
        requires
            self.wf(),
            old(out).wf(),
        ensures
            final(out).wf(),
            final(out)@ == executed(self@, old(out)@, *ctx),
            r == request_of(self@),
    {
        if self.pos == 0 {
            return Request::Continue;
        }
        let line = self.line();
        out.write_string("\n");
        let c = parse_command(line.as_slice());
        match c {
            Command::Help => self.cmd_help(out),
            Command::Stack => self.cmd_stack(out, ctx),
            Command::Gdt => self.cmd_gdt(out, ctx),
            Command::Clear => self.cmd_clear(out),
            Command::About => self.cmd_about(out),
            Command::Reboot => {
                self.cmd_reboot(out);
                return Request::Reboot;
            },
            Command::Halt => {
                self.cmd_halt(out);
                return Request::Halt;
            },
            Command::Blank => {},
            Command::Unknown => self.cmd_unknown(out, line.as_slice()),
        }
        Request::Continue
    }

    /// Takes one character (see `shell_step`).
    pub fn handle_char(&mut self, ch: u8, out: &mut Writer, ctx: &ShellContext) -> (r: Request)
        requires
            old(self).wf(),
            old(out).wf(),
        ensures
            final(self).wf(),
            final(out).wf(),
            (final(self)@, final(out)@, r) == shell_step(old(self)@, old(out)@, *ctx, ch),
            final(self)@.len() <= MAX_LINE,
    {
        if ch == NEWLINE {
            let r = self.execute(out, ctx);
            if r != Request::Continue {
                return r;
            }
            self.clear();
            out.write_string("\n");
            self.show_prompt(out);
            Request::Continue
        } else if ch == BACKSPACE {
            if self.pos > 0 {
                self.pos = self.pos - 1;
                out.backspace();
                assert(self@ =~= old(self)@.drop_last());
            }
            Request::Continue
        } else if SPACE <= ch && ch <= 0x7e {
            if self.pos < MAX_LINE {
                self.buffer[self.pos] = ch;
                self.pos = self.pos + 1;
                out.write_byte(ch);
                assert(self@ =~= old(self)@.push(ch));
            }
            Request::Continue
        } else {
            Request::Continue
        }
    }
}

/// Greets and draws the first prompt.
pub fn init(shell: &NPShell, out: &mut Writer)
    requires
        old(out).wf(),
    ensures
        final(out).wf(),
        final(out)@ == prompted(put_text(old(out)@, banner_text())),
{
    out.write_string("NPS - Not a POSIX Shell - Type 'help' for commands\n");
    shell.show_prompt(out);
}

} // verus!
