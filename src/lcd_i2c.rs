//! The display handle: configuration, control registers and the bus plan of
//! every operation.
use core::marker::PhantomData;
use vstd::prelude::*;
use vstd::string::StringSliceAdditionalSpecFns;
use crate::bus::{
    frame, frames, pulse, push_frame, push_frames, push_pulse, BusOp, Step, Transfer, MODE_CMD,
    MODE_DATA,
};

verus! {

pub const DEFAULT_ADDR: u8 = 0x27;

pub const CFG_1LINE: u8 = 0x00;
pub const CFG_2LINE: u8 = 0x08;
pub const CFG_5X8DOTS: u8 = 0x00;
pub const CFG_5X10DOTS: u8 = 0x04;

pub const BACKLIGHT_ON: u8 = 0x08;

pub const CMD_CLEAR_DISPLAY: u8 = 0x01;
pub const CMD_RETURN_HOME: u8 = 0x02;
pub const CMD_ENTRY_MODE_SET: u8 = 0x04;
pub const CMD_DISPLAY_CONTROL: u8 = 0x08;
pub const CMD_SHIFT_CURSOR: u8 = 0x10;
pub const CMD_FUNCTION_SET: u8 = 0x20;
pub const CMD_SET_CGRAM_ADDR: u8 = 0x40;
pub const CMD_SET_DDRAM_ADDR: u8 = 0x80;

pub const DISPLAY_CURSOR_BLINK_ON: u8 = 0x01;
pub const DISPLAY_CURSOR_ON: u8 = 0x02;
pub const DISPLAY_ON: u8 = 0x04;

pub const ENTRY_LEFT: u8 = 0x02;

pub const MOVE_DISPLAY: u8 = 0x08;
pub const MOVE_RIGHT: u8 = 0x04;

/// Wait after power-up before the first bus write, in milliseconds.
pub const POWER_ON_MS: u32 = 50;

/// Output bits of the reset nibble that is sent three times.
pub const RESET_BITS: u8 = 0x30;

/// Output bits of the nibble that commits 4-bit mode.
pub const FOUR_BIT_BITS: u8 = 0x20;

/// Lifecycle tag of a handle that has not been initialized.
pub struct Idle;

/// Lifecycle tag of an initialized handle.
pub struct Enabled;

/// A display handle. Its lifecycle is the type parameter: the steady-state
/// commands exist only on `Lcd<Enabled>`.
pub struct Lcd<State> {
    addr: u8,
    rows: u8,
    cell_size: u8,
    backlight: u8,
    display_control: u8,
    entry_mode: u8,
    marker: PhantomData<State>,
}

/// What a handle holds: its configuration and its three control bytes.
pub struct LcdModel {
    pub addr: u8,
    pub rows: u8,
    pub cell_size: u8,
    pub backlight: u8,
    pub display_control: u8,
    pub entry_mode: u8,
}

/// DDRAM address of the first column of `row`.
pub open spec fn row_offset(row: u8) -> u8 {
    if row == 0 {
        0x00
    } else if row == 1 {
        0x40
    } else if row == 2 {
        0x14
    } else {
        0x54
    }
}

/// `row`, or the last of `rows` rows when it lies beyond them.
pub open spec fn clamp_row(row: u8, rows: u8) -> u8 {
    if row as int > rows as int - 1 {
        (rows - 1) as u8
    } else {
        row
    }
}

/// Function-set bit for the line layout: two-line addressing for more than
/// one row.
pub open spec fn line_config(rows: u8) -> u8 {
    if rows > 1 {
        CFG_2LINE
    } else {
        CFG_1LINE
    }
}

/// The CGRAM slot that a custom glyph request for `slot` uses: the larger of
/// `slot` and 7.
pub open spec fn custom_char_slot(slot: u8) -> u8 {
    if slot < 7 {
        7
    } else {
        slot
    }
}

/// CGRAM address bits of `slot`: eight rows per glyph, kept to one byte.
pub open spec fn cgram_address(slot: u8) -> u8 {
    ((slot as int * 8) % 256) as u8
}

impl LcdModel {
    pub open spec fn wf(self) -> bool {
        1 <= self.rows <= 4
    }

    /// The frame of command byte `byte`.
    pub open spec fn command(self, byte: u8) -> Seq<BusOp> {
        frame(self.addr, self.backlight, byte, MODE_CMD)
    }

    /// The frames of data bytes `bytes`.
    pub open spec fn data(self, bytes: Seq<u8>) -> Seq<BusOp> {
        frames(self.addr, self.backlight, bytes, MODE_DATA)
    }

    /// The whole display-control byte, sent as a command.
    pub open spec fn display_control_ops(self) -> Seq<BusOp> {
        self.command(CMD_DISPLAY_CONTROL | self.display_control)
    }

    /// The whole entry-mode byte, sent as a command.
    pub open spec fn entry_mode_ops(self) -> Seq<BusOp> {
        self.command(CMD_ENTRY_MODE_SET | self.entry_mode)
    }

    pub open spec fn set_display(self, flag: u8, on: bool) -> LcdModel {
        LcdModel {
            display_control: if on {
                self.display_control | flag
            } else {
                self.display_control & !flag
            },
            ..self
        }
    }

    pub open spec fn set_entry(self, flag: u8, on: bool) -> LcdModel {
        LcdModel {
            entry_mode: if on {
                self.entry_mode | flag
            } else {
                self.entry_mode & !flag
            },
            ..self
        }
    }

    pub open spec fn set_backlight(self, on: bool) -> LcdModel {
        LcdModel { backlight: if on { BACKLIGHT_ON } else { 0 }, ..self }
    }

    pub open spec fn slept(self) -> LcdModel {
        self.set_backlight(false).set_display(DISPLAY_ON, false)
    }

    pub open spec fn woken(self) -> LcdModel {
        self.set_backlight(true).set_display(DISPLAY_ON, true)
    }

    pub open spec fn sleep_ops(self) -> Seq<BusOp> {
        self.set_backlight(false).display_control_ops() + self.slept().display_control_ops()
    }

    pub open spec fn wakeup_ops(self) -> Seq<BusOp> {
        self.set_backlight(true).display_control_ops() + self.woken().display_control_ops()
    }

    /// DDRAM address of (`row`, `col`), the row clamped to the configured rows.
    pub open spec fn cursor_address(self, row: u8, col: u8) -> int {
        row_offset(clamp_row(row, self.rows)) as int + col as int
    }

    pub open spec fn move_ops(self, row: u8, col: u8) -> Seq<BusOp> {
        self.command(CMD_SET_DDRAM_ADDR | (self.cursor_address(row, col) as u8))
    }

    pub open spec fn clear_ops(self) -> Seq<BusOp> {
        self.command(CMD_CLEAR_DISPLAY) + self.move_ops(0, 0)
    }

    /// The state right after initialization.
    pub open spec fn enabled(self) -> LcdModel {
        self.set_entry(ENTRY_LEFT, true).woken()
    }

    /// The power-on sequence: the wait, three reset nibbles, the 4-bit
    /// commit nibble, one function-set command, then the default
    /// configuration (left-to-right entry, backlight and display on, return
    /// home, clear).
    pub open spec fn init_ops(self) -> Seq<BusOp> {
        let ltr = self.set_entry(ENTRY_LEFT, true);
        seq![BusOp::DelayMs(POWER_ON_MS)] + pulse(self.addr, self.backlight, RESET_BITS) + pulse(
            self.addr,
            self.backlight,
            RESET_BITS,
        ) + pulse(self.addr, self.backlight, RESET_BITS) + pulse(
            self.addr,
            self.backlight,
            FOUR_BIT_BITS,
        ) + self.command(CMD_FUNCTION_SET | self.cell_size | line_config(self.rows))
            + ltr.entry_mode_ops() + ltr.wakeup_ops() + ltr.woken().command(CMD_RETURN_HOME)
            + ltr.woken().clear_ops()
    }
}

impl<State> View for Lcd<State> {
    type V = LcdModel;

    closed spec fn view(&self) -> LcdModel {
        LcdModel {
            addr: self.addr,
            rows: self.rows,
            cell_size: self.cell_size,
            backlight: self.backlight,
            display_control: self.display_control,
            entry_mode: self.entry_mode,
        }
    }
}

impl<State> Lcd<State> {
    fn cmd(&self, ops: &mut Vec<BusOp>, byte: u8)
        ensures
            final(ops)@ == old(ops)@ + self@.command(byte),
    {
        push_frame(ops, self.addr, self.backlight, byte, MODE_CMD);
    }

    pub fn addr(&self) -> (r: u8)
        ensures
            r == self@.addr,
    {
        self.addr
    }

    pub fn rows(&self) -> (r: u8)
        ensures
            r == self@.rows,
    {
        self.rows
    }

    pub fn cell_size(&self) -> (r: u8)
        ensures
            r == self@.cell_size,
    {
        self.cell_size
    }

    pub fn backlight(&self) -> (r: u8)
        ensures
            r == self@.backlight,
    {
        self.backlight
    }

    pub fn display_control(&self) -> (r: u8)
        ensures
            r == self@.display_control,
    {
        self.display_control
    }

    pub fn entry_mode(&self) -> (r: u8)
        ensures
            r == self@.entry_mode,
    {
        self.entry_mode
    }
}

impl Lcd<Enabled> {
    /// Re-sends the whole display-control byte.
    fn send_display_control(&self) -> (ops: Vec<BusOp>)
        ensures
            ops@ == self@.display_control_ops(),
    {
        let mut ops: Vec<BusOp> = Vec::new();
        self.cmd(&mut ops, CMD_DISPLAY_CONTROL | self.display_control);
        ops
    }

    /// Re-sends the whole entry-mode byte.
    fn send_entry_mode(&self) -> (ops: Vec<BusOp>)
        ensures
            ops@ == self@.entry_mode_ops(),
    {
        let mut ops: Vec<BusOp> = Vec::new();
        self.cmd(&mut ops, CMD_ENTRY_MODE_SET | self.entry_mode);
        ops
    }

    /// One command byte on its own.
    fn single_cmd(&self, byte: u8) -> (ops: Vec<BusOp>)
        ensures
            ops@ == self@.command(byte),
    {
        let mut ops: Vec<BusOp> = Vec::new();
        self.cmd(&mut ops, byte);
        ops
    }

    pub fn write_str(&mut self, s: &str) -> (ops: Vec<BusOp>)
        ensures
            final(self)@ == old(self)@,
            ops@ == old(self)@.data(s.spec_bytes()),
    {
        self.write_bytes(s.as_bytes())
    }

    pub fn write_bytes(&mut self, bytes: &[u8]) -> (ops: Vec<BusOp>)
        ensures
            final(self)@ == old(self)@,
            ops@ == old(self)@.data(bytes@),
    {
        let mut ops: Vec<BusOp> = Vec::new();
        push_frames(&mut ops, self.addr, self.backlight, bytes, MODE_DATA);
        assert(ops@ =~= old(self)@.data(bytes@));
        ops
    }

    pub fn write_u8(&mut self, byte: u8) -> (ops: Vec<BusOp>)
        ensures
            final(self)@ == old(self)@,
            ops@ == frame(old(self)@.addr, old(self)@.backlight, byte, MODE_DATA),
    {
        let mut ops: Vec<BusOp> = Vec::new();
        push_frame(&mut ops, self.addr, self.backlight, byte, MODE_DATA);
        assert(ops@ =~= frame(old(self)@.addr, old(self)@.backlight, byte, MODE_DATA));
        ops
    }

    /// Uploads a glyph bitmap; returns the slot used and the plan.
    pub fn register_custom_char(&mut self, slot: u8, data: &[u8]) -> (r: (u8, Vec<BusOp>))
        ensures
            final(self)@ == old(self)@,
            r.0 == custom_char_slot(slot),
            r.1@ == old(self)@.command(CMD_SET_CGRAM_ADDR | cgram_address(r.0)) + old(
                self,
            )@.data(data@),
    {
        let slot: u8 = if slot < 7 {
            7
        } else {
            slot
        };
        let bits: u8 = slot << 3;
        assert(bits == cgram_address(slot)) by (bit_vector)
            requires
                bits == slot << 3,
        ;
        let mut ops: Vec<BusOp> = Vec::new();
        self.cmd(&mut ops, CMD_SET_CGRAM_ADDR | bits);
        push_frames(&mut ops, self.addr, self.backlight, data, MODE_DATA);
        (slot, ops)
    }

    /// Backlight and rendering off.
    pub fn sleep(&mut self) -> (ops: Vec<BusOp>)
        ensures
            final(self)@ == old(self)@.slept(),
            ops@ == old(self)@.sleep_ops(),
    {
        let mut ops = self.backlight_off();
        let mut more = self.rendering_off();
        ops.append(&mut more);
        ops
    }

    /// Backlight and rendering on.
    pub fn wakeup(&mut self) -> (ops: Vec<BusOp>)
        ensures
            final(self)@ == old(self)@.woken(),
            ops@ == old(self)@.wakeup_ops(),
    {
        let mut ops = self.backlight_on();
        let mut more = self.rendering_on();
        ops.append(&mut more);
        ops
    }

    pub fn backlight_on(&mut self) -> (ops: Vec<BusOp>)
        ensures
            final(self)@ == old(self)@.set_backlight(true),
            ops@ == final(self)@.display_control_ops(),
    {
        self.backlight = BACKLIGHT_ON;
        self.send_display_control()
    }

    pub fn backlight_off(&mut self) -> (ops: Vec<BusOp>)
        ensures
            final(self)@ == old(self)@.set_backlight(false),
            ops@ == final(self)@.display_control_ops(),
    {
        self.backlight = 0x00;
        self.send_display_control()
    }

    pub fn rendering_on(&mut self) -> (ops: Vec<BusOp>)
        ensures
            final(self)@ == old(self)@.set_display(DISPLAY_ON, true),
            ops@ == final(self)@.display_control_ops(),
    {
        self.display_control = self.display_control | DISPLAY_ON;
        self.send_display_control()
    }

    pub fn rendering_off(&mut self) -> (ops: Vec<BusOp>)
        ensures
            final(self)@ == old(self)@.set_display(DISPLAY_ON, false),
            ops@ == final(self)@.display_control_ops(),
    {
        self.display_control = self.display_control & !DISPLAY_ON;
        self.send_display_control()
    }

    pub fn cursor_on(&mut self) -> (ops: Vec<BusOp>)
        ensures
            final(self)@ == old(self)@.set_display(DISPLAY_CURSOR_ON, true),
            ops@ == final(self)@.display_control_ops(),
    {
        self.display_control = self.display_control | DISPLAY_CURSOR_ON;
        self.send_display_control()
    }

    pub fn cursor_off(&mut self) -> (ops: Vec<BusOp>)
        ensures
            final(self)@ == old(self)@.set_display(DISPLAY_CURSOR_ON, false),
            ops@ == final(self)@.display_control_ops(),
    {
        self.display_control = self.display_control & !DISPLAY_CURSOR_ON;
        self.send_display_control()
    }

    pub fn cursor_blink_on(&mut self) -> (ops: Vec<BusOp>)
        ensures
            final(self)@ == old(self)@.set_display(DISPLAY_CURSOR_BLINK_ON, true),
            ops@ == final(self)@.display_control_ops(),
    {
        self.display_control = self.display_control | DISPLAY_CURSOR_BLINK_ON;
        self.send_display_control()
    }

    pub fn cursor_blink_off(&mut self) -> (ops: Vec<BusOp>)
        ensures
            final(self)@ == old(self)@.set_display(DISPLAY_CURSOR_BLINK_ON, false),
            ops@ == final(self)@.display_control_ops(),
    {
        self.display_control = self.display_control & !DISPLAY_CURSOR_BLINK_ON;
        self.send_display_control()
    }

    pub fn left_to_right(&mut self) -> (ops: Vec<BusOp>)
        ensures
            final(self)@ == old(self)@.set_entry(ENTRY_LEFT, true),
            ops@ == final(self)@.entry_mode_ops(),
    {
        self.entry_mode = self.entry_mode | ENTRY_LEFT;
        self.send_entry_mode()
    }

    pub fn right_to_left(&mut self) -> (ops: Vec<BusOp>)
        ensures
            final(self)@ == old(self)@.set_entry(ENTRY_LEFT, false),
            ops@ == final(self)@.entry_mode_ops(),
    {
        self.entry_mode = self.entry_mode & !ENTRY_LEFT;
        self.send_entry_mode()
    }

    pub fn scroll_left(&mut self) -> (ops: Vec<BusOp>)
        ensures
            final(self)@ == old(self)@,
            ops@ == old(self)@.command(CMD_SHIFT_CURSOR | MOVE_DISPLAY),
    {
        self.single_cmd(CMD_SHIFT_CURSOR | MOVE_DISPLAY)
    }

    pub fn scroll_right(&mut self) -> (ops: Vec<BusOp>)
        ensures
            final(self)@ == old(self)@,
            ops@ == old(self)@.command(CMD_SHIFT_CURSOR | MOVE_DISPLAY | MOVE_RIGHT),
    {
        self.single_cmd(CMD_SHIFT_CURSOR | MOVE_DISPLAY | MOVE_RIGHT)
    }

    pub fn scroll_reset(&mut self) -> (ops: Vec<BusOp>)
        ensures
            final(self)@ == old(self)@,
            ops@ == old(self)@.command(CMD_RETURN_HOME),
    {
        self.single_cmd(CMD_RETURN_HOME)
    }

    /// Clear-display, then an explicit move to (0, 0).
    pub fn clear(&mut self) -> (ops: Vec<BusOp>)
        requires
            old(self)@.wf(),
        ensures
            final(self)@ == old(self)@,
            ops@ == old(self)@.clear_ops(),
    {
        let mut ops = self.single_cmd(CMD_CLEAR_DISPLAY);
        let mut more = self.move_cursor_to(0, 0);
        ops.append(&mut more);
        ops
    }

    pub fn move_cursor_to(&mut self, row: u8, col: u8) -> (ops: Vec<BusOp>)
        requires
            old(self)@.wf(),
            old(self)@.cursor_address(row, col) <= 0xff,
        ensures
            final(self)@ == old(self)@,
            ops@ == old(self)@.move_ops(row, col),
    {
        let row: u8 = if row > self.rows - 1 {
            self.rows - 1
        } else {
            row
        };
        let offset: u8 = if row == 0 {
            0x00
        } else if row == 1 {
            0x40
        } else if row == 2 {
            0x14
        } else {
            0x54
        };
        self.single_cmd(CMD_SET_DDRAM_ADDR | (offset + col))
    }
}

impl Lcd<Idle> {
    /// A handle with the defaults: address 0x27, one row, 5x8 cells, all
    /// control bytes zero.
    pub fn new() -> (r: Lcd<Idle>)
        ensures
            r@ == (LcdModel {
                addr: DEFAULT_ADDR,
                rows: 1,
                cell_size: CFG_5X8DOTS,
                backlight: 0,
                display_control: 0,
                entry_mode: 0,
            }),
    {
        Lcd {
            addr: DEFAULT_ADDR,
            rows: 1,
            cell_size: CFG_5X8DOTS,
            backlight: 0,
            display_control: 0,
            entry_mode: 0,
            marker: PhantomData,
        }
    }

    pub fn with_addr(self, addr: u8) -> (r: Lcd<Idle>)
        ensures
            r@ == (LcdModel { addr, ..self@ }),
    {
        Lcd { addr, ..self }
    }

    pub fn with_1row(self) -> (r: Lcd<Idle>)
        ensures
            r@ == (LcdModel { rows: 1, ..self@ }),
    {
        Lcd { rows: 1, ..self }
    }

    pub fn with_2rows(self) -> (r: Lcd<Idle>)
        ensures
            r@ == (LcdModel { rows: 2, ..self@ }),
    {
        Lcd { rows: 2, ..self }
    }

    pub fn with_3rows(self) -> (r: Lcd<Idle>)
        ensures
            r@ == (LcdModel { rows: 3, ..self@ }),
    {
        Lcd { rows: 3, ..self }
    }

    pub fn with_4rows(self) -> (r: Lcd<Idle>)
        ensures
            r@ == (LcdModel { rows: 4, ..self@ }),
    {
        Lcd { rows: 4, ..self }
    }

    pub fn with_5x8dots(self) -> (r: Lcd<Idle>)
        ensures
            r@ == (LcdModel { cell_size: CFG_5X8DOTS, ..self@ }),
    {
        Lcd { cell_size: CFG_5X8DOTS, ..self }
    }

    pub fn with_5x10dots(self) -> (r: Lcd<Idle>)
        ensures
            r@ == (LcdModel { cell_size: CFG_5X10DOTS, ..self@ }),
    {
        Lcd { cell_size: CFG_5X10DOTS, ..self }
    }

    /// Starts initialization: the initialized handle is held back until the
    /// whole power-on plan has been performed.
    pub fn enable(self) -> (r: Startup)
        requires
            self@.wf(),
        ensures
            r.model() == self@.enabled(),
            r.transfer().plan() == self@.init_ops(),
            r.transfer().position() == 0,
            !r.transfer().is_aborted(),
            r.transfer().wf(),
    {
        let mut ops: Vec<BusOp> = Vec::new();
        ops.push(BusOp::DelayMs(POWER_ON_MS));
        push_pulse(&mut ops, self.addr, self.backlight, RESET_BITS);
        push_pulse(&mut ops, self.addr, self.backlight, RESET_BITS);
        push_pulse(&mut ops, self.addr, self.backlight, RESET_BITS);
        push_pulse(&mut ops, self.addr, self.backlight, FOUR_BIT_BITS);
        let lines: u8 = if self.rows > 1 {
            CFG_2LINE
        } else {
            CFG_1LINE
        };
        self.cmd(&mut ops, CMD_FUNCTION_SET | self.cell_size | lines);
        let mut lcd: Lcd<Enabled> = Lcd {
            addr: self.addr,
            rows: self.rows,
            cell_size: self.cell_size,
            backlight: self.backlight,
            display_control: self.display_control,
            entry_mode: self.entry_mode,
            marker: PhantomData,
        };
        let mut more = lcd.left_to_right();
        ops.append(&mut more);
        let mut more = lcd.wakeup();
        ops.append(&mut more);
        let mut more = lcd.scroll_reset();
        ops.append(&mut more);
        let mut more = lcd.clear();
        ops.append(&mut more);
        assert(ops@ =~= self@.init_ops());
        Startup { lcd, transfer: Transfer::new(ops) }
    }
}

/// A handle whose power-on plan is being performed. The initialized handle
/// comes out only once every operation of the plan has succeeded.
pub struct Startup {
    lcd: Lcd<Enabled>,
    transfer: Transfer,
}

impl Startup {
    /// The state of the handle that initialization yields.
    pub closed spec fn model(&self) -> LcdModel {
        self.lcd@
    }

    pub closed spec fn transfer(&self) -> Transfer {
        self.transfer
    }

    pub fn next_step(&self) -> (s: Step)
        requires
            self.transfer().wf(),
        ensures
            s == self.transfer().step(),
    {
        self.transfer.next_step()
    }

    /// Records the outcome of the operation that `next_step` handed out.
    pub fn report(&mut self, ok: bool)
        requires
            old(self).transfer().wf(),
            old(self).transfer().step() is Perform,
        ensures
            final(self).model() == old(self).model(),
            final(self).transfer().wf(),
            final(self).transfer().plan() == old(self).transfer().plan(),
            ok ==> final(self).transfer().position() == old(self).transfer().position() + 1
                && !final(self).transfer().is_aborted(),
            !ok ==> final(self).transfer().position() == old(self).transfer().position()
                && final(self).transfer().is_aborted(),
    {
        self.transfer.report(ok);
    }

    /// The initialized handle, when the whole plan succeeded; nothing otherwise.
    pub fn finish(self) -> (r: Option<Lcd<Enabled>>)
        requires
            self.transfer().wf(),
        ensures
            r is Some <==> self.transfer().completed(),
            r matches Some(lcd) ==> lcd@ == self.model(),
    {
        if self.transfer.is_complete() {
            Some(self.lcd)
        } else {
            None
        }
    }
}

/// The three display-control flags.
pub open spec fn is_display_flag(f: u8) -> bool {
    f == DISPLAY_CURSOR_BLINK_ON || f == DISPLAY_CURSOR_ON || f == DISPLAY_ON
}

/// A cursor move sends exactly one command frame, whose byte is the
/// set-DDRAM-address command with the offset of the requested row, clamped to
/// the last configured row, plus the column.
pub proof fn cursor_move_is_one_command(m: LcdModel, row: u8, col: u8)
    requires
        m.wf(),
        m.cursor_address(row, col) <= 0xff,
    ensures
        m.move_ops(row, col) == m.command(
            CMD_SET_DDRAM_ADDR | ((row_offset(
                vstd::math::min(row as int, m.rows as int - 1) as u8,
            ) + col) as u8),
        ),
{
}

/// Clearing sends clear-display and then a move to row 0, column 0.
pub proof fn clear_homes_cursor(m: LcdModel)
    requires
        m.wf(),
    ensures
        m.clear_ops() == m.command(CMD_CLEAR_DISPLAY) + m.command(CMD_SET_DDRAM_ADDR),
{
    assert((CMD_SET_DDRAM_ADDR | 0u8) == CMD_SET_DDRAM_ADDR) by (bit_vector);
}

/// Setting or clearing one display-control flag leaves the other two as they
/// were; in particular cursor-on followed by rendering-off leaves the cursor
/// bit set, the display bit clear and the blink bit unchanged.
pub proof fn display_flags_independent(m: LcdModel)
    ensures
        forall|f: u8, g: u8, on: bool|
            is_display_flag(f) && #[trigger] is_display_flag(g) && f != g ==> (#[trigger] m.set_display(
                f,
                on,
            ).display_control & g) == (m.display_control & g),
        m.set_display(DISPLAY_CURSOR_ON, true).set_display(DISPLAY_ON, false).display_control
            & DISPLAY_CURSOR_ON == DISPLAY_CURSOR_ON,
        m.set_display(DISPLAY_CURSOR_ON, true).set_display(DISPLAY_ON, false).display_control
            & DISPLAY_ON == 0,
        m.set_display(DISPLAY_CURSOR_ON, true).set_display(DISPLAY_ON, false).display_control
            & DISPLAY_CURSOR_BLINK_ON == m.display_control & DISPLAY_CURSOR_BLINK_ON,
{
    let x = m.display_control;
    assert forall|f: u8, g: u8, on: bool|
        is_display_flag(f) && #[trigger] is_display_flag(g) && f != g implies (#[trigger] m.set_display(
            f,
            on,
        ).display_control & g) == (x & g) by {
        assert(((x | f) & g) == (x & g)) by (bit_vector)
            requires
                f == 1 || f == 2 || f == 4,
                g == 1 || g == 2 || g == 4,
                f != g,
        ;
        assert(((x & !f) & g) == (x & g)) by (bit_vector)
            requires
                f == 1 || f == 2 || f == 4,
                g == 1 || g == 2 || g == 4,
                f != g,
        ;
    }
    assert(((x | 2) & !4u8) & 2 == 2) by (bit_vector);
    assert(((x | 2) & !4u8) & 4 == 0) by (bit_vector);
    assert(((x | 2) & !4u8) & 1 == x & 1) by (bit_vector);
}

/// Sleeping and then waking up turns backlight and display back on, and
/// leaves the handle as waking up alone would.
pub proof fn sleep_then_wakeup(m: LcdModel)
    ensures
        m.slept().woken().backlight == BACKLIGHT_ON,
        m.slept().woken().display_control & DISPLAY_ON == DISPLAY_ON,
        m.slept().woken() == m.woken(),
{
    let x = m.display_control;
    assert(((x & !4u8) | 4) == (x | 4)) by (bit_vector);
    assert((((x & !4u8) | 4) & 4) == 4) by (bit_vector);
}

/// Every requested slot up to 7 uploads to slot 7, at CGRAM address 0x38.
pub proof fn custom_char_below_seven_uses_slot_seven(slot: u8)
    requires
        slot <= 7,
    ensures
        custom_char_slot(slot) == 7,
        CMD_SET_CGRAM_ADDR | cgram_address(custom_char_slot(slot)) == 0x78,
{
    assert((0x40u8 | 0x38u8) == 0x78) by (bit_vector);
}

} // verus!
