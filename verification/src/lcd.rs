//! Encoder for an HD44780-class character display behind a byte-wide bus
//! expander. Every operation yields the exact bus writes and settle delays,
//! in order; whoever owns the bus carries them out and stops at the first
//! write that fails.

use vstd::prelude::*;
use vstd::string::StringSliceAdditionalSpecFns;
use crate::text::{append_deci, append_str, clipped, deci_text};

verus! {

/// Bits of the display-control command. `DisplayOn` is also the line that
/// latches a nibble into the controller.
#[derive(Clone, Copy, Debug, PartialEq, Eq, Structural)]
pub enum DisplayControl {
    Off,
    CursorBlink,
    CursosOn,
    DisplayOn,
}

/// State of the backlight line of the expander.
#[derive(Clone, Copy, Debug, PartialEq, Eq, Structural)]
pub enum Backlight {
    Off,
    On,
}

/// Register select and command class bits.
#[derive(Clone, Copy, Debug, PartialEq, Eq, Structural)]
pub enum Mode {
    Cmd,
    Data,
    DisplayControl,
    FunctionSet,
}

/// One step on the expander bus.
#[derive(Clone, Copy, Debug, PartialEq, Eq, Structural)]
pub enum BusOp {
    /// Write one byte to the device at `address`.
    Write { address: u8, byte: u8 },
    /// Block for `ms` milliseconds.
    DelayMs { ms: u8 },
}

/// Command byte: clear the display.
pub const CLEAR: u8 = 0x01;

/// Command byte: return the cursor to the upper left corner.
pub const RETURN_HOME: u8 = 0x02;

/// Command byte: move the cursor one cell to the right.
pub const SHIFT_CURSOR: u8 = 0x14;

/// Command byte: entry mode, the cursor moves right after each character.
pub const ENTRY_RIGHT: u8 = 0x04;

/// Function-set flag: eight data lines.
pub const BIT8: u8 = 0x10;

/// Function-set flag: four data lines.
pub const BIT4: u8 = 0x00;

/// Function-set flag: two display lines.
pub const TWO_LINES: u8 = 0x08;

/// Cells that the controller keeps per row.
pub const ROW_STRIDE: u8 = 40;

/// Characters that one formatted line can carry.
pub const LINE_WIDTH: usize = 16;

impl DisplayControl {
    pub open spec fn mask(self) -> u8 {
        match self {
            DisplayControl::Off => 0x00,
            DisplayControl::CursorBlink => 0x01,
            DisplayControl::CursosOn => 0x02,
            DisplayControl::DisplayOn => 0x04,
        }
    }

    /// The flag as a bit mask.
    pub fn bits(self) -> (r: u8)
        ensures
            r == self.mask(),
    {
        match self {
            DisplayControl::Off => 0x00,
            DisplayControl::CursorBlink => 0x01,
            DisplayControl::CursosOn => 0x02,
            DisplayControl::DisplayOn => 0x04,
        }
    }
}

impl Backlight {
    pub open spec fn mask(self) -> u8 {
        match self {
            Backlight::Off => 0x00,
            Backlight::On => 0x08,
        }
    }

    /// The state as a bit mask.
    pub fn bits(self) -> (r: u8)
        ensures
            r == self.mask(),
    {
        match self {
            Backlight::Off => 0x00,
            Backlight::On => 0x08,
        }
    }
}

impl Mode {
    pub open spec fn mask(self) -> u8 {
        match self {
            Mode::Cmd => 0x00,
            Mode::Data => 0x01,
            Mode::DisplayControl => 0x08,
            Mode::FunctionSet => 0x20,
        }
    }

    /// The mode as a bit mask.
    pub fn bits(self) -> (r: u8)
        ensures
            r == self.mask(),
    {
        match self {
            Mode::Cmd => 0x00,
            Mode::Data => 0x01,
            Mode::DisplayControl => 0x08,
            Mode::FunctionSet => 0x20,
        }
    }
}

/// Latching one nibble: the byte with the enable line raised, a settle delay,
/// the enable line released, a settle delay.
pub open spec fn strobe(address: u8, light: u8, data: u8) -> Seq<BusOp> {
    seq![
        BusOp::Write { address, byte: data | 0x04u8 | light },
        BusOp::DelayMs { ms: 1 },
        BusOp::Write { address, byte: 0x00u8 | light },
        BusOp::DelayMs { ms: 1 },
    ]
}

/// Sending one byte over four data lines: high nibble, then low nibble, each
/// with the mode bits.
pub open spec fn transfer(address: u8, light: u8, data: u8, mode: u8) -> Seq<BusOp> {
    strobe(address, light, (data & 0xf0u8) | mode) + strobe(
        address,
        light,
        ((data << 4u8) & 0xf0u8) | mode,
    )
}

/// Sending each byte of `bytes` as character data, first to last.
pub open spec fn data_ops(address: u8, light: u8, bytes: Seq<u8>) -> Seq<BusOp>
    decreases bytes.len(),
{
    if bytes.len() == 0 {
        Seq::empty()
    } else {
        data_ops(address, light, bytes.drop_last()) + transfer(
            address,
            light,
            bytes.last(),
            Mode::Data.mask(),
        )
    }
}

/// `count` shifts of the cursor by one cell.
pub open spec fn shift_ops(address: u8, light: u8, count: nat) -> Seq<BusOp>
    decreases count,
{
    if count == 0 {
        Seq::empty()
    } else {
        shift_ops(address, light, (count - 1) as nat) + transfer(
            address,
            light,
            SHIFT_CURSOR,
            Mode::Cmd.mask(),
        )
    }
}

/// The byte that the display shows for each character: its low eight bits.
pub open spec fn glyphs(text: Seq<char>) -> Seq<u8> {
    Seq::new(text.len(), |i: int| text[i] as u8)
}

/// The temperature row for `temp` tenths of a degree, cut to the line
/// width.
pub open spec fn temperature_line(temp: int) -> Seq<u8> {
    clipped("Temp: ".spec_bytes() + deci_text(temp) + "C  ".spec_bytes(), LINE_WIDTH as nat)
}

/// The humidity row for `hum` tenths of a percent, cut to the line width.
pub open spec fn humidity_line(hum: int) -> Seq<u8> {
    clipped("Humidity: ".spec_bytes() + deci_text(hum) + "%".spec_bytes(), LINE_WIDTH as nat)
}

/// Formats the temperature row.
pub fn format_temperature_line(temp: i32) -> (r: Vec<u8>)
    ensures
        r@ == temperature_line(temp as int),
{
    let mut line: Vec<u8> = Vec::new();
    append_str(&mut line, "Temp: ");
    append_deci(&mut line, temp);
    append_str(&mut line, "C  ");
    assert(line@ =~= "Temp: ".spec_bytes() + deci_text(temp as int) + "C  ".spec_bytes());
    line.truncate(LINE_WIDTH);
    line
}

/// Formats the humidity row.
pub fn format_humidity_line(hum: i32) -> (r: Vec<u8>)
    ensures
        r@ == humidity_line(hum as int),
{
    let mut line: Vec<u8> = Vec::new();
    append_str(&mut line, "Humidity: ");
    append_deci(&mut line, hum);
    append_str(&mut line, "%");
    assert(line@ =~= "Humidity: ".spec_bytes() + deci_text(hum as int) + "%".spec_bytes());
    line.truncate(LINE_WIDTH);
    line
}

/// What a run of bus steps does after `done` of them, given how the last
/// one went: a failed write ends the run with its error and the steps after
/// it are not carried out; otherwise the next step follows, until none is
/// left.
pub fn next_step<E>(ops: &[BusOp], done: usize, last: Result<(), E>) -> (r: Result<
    Option<BusOp>,
    E,
>)
    ensures
        match last {
            Err(e) => r == Err::<Option<BusOp>, E>(e),
            Ok(()) => r == Ok::<Option<BusOp>, E>(
                if done < ops@.len() {
                    Some(ops@[done as int])
                } else {
                    None
                },
            ),
        },
{
    match last {
        Err(e) => Err(e),
        Ok(()) => {
            if done < ops.len() {
                Ok(Some(ops[done]))
            } else {
                Ok(None)
            }
        },
    }
}

/// Configuration of one display, and the backlight state that every write
/// carries.
#[derive(Clone, Copy, Debug, PartialEq, Eq, Structural)]
pub struct Lcd {
    pub address: u8,
    pub rows: u8,
    pub backlight_state: Backlight,
    pub cursor_on: bool,
    pub cursor_blink: bool,
}

fn emit_strobe(out: &mut Vec<BusOp>, address: u8, light: u8, data: u8)
    ensures
        final(out)@ == old(out)@ + strobe(address, light, data),
{
    out.push(BusOp::Write { address, byte: data | 0x04u8 | light });
    out.push(BusOp::DelayMs { ms: 1 });
    out.push(BusOp::Write { address, byte: 0x00u8 | light });
    out.push(BusOp::DelayMs { ms: 1 });
    assert(out@ =~= old(out)@ + strobe(address, light, data));
}

fn emit_transfer(out: &mut Vec<BusOp>, address: u8, light: u8, data: u8, mode: u8)
    ensures
        final(out)@ == old(out)@ + transfer(address, light, data, mode),
{
    emit_strobe(out, address, light, (data & 0xf0u8) | mode);
    emit_strobe(out, address, light, ((data << 4u8) & 0xf0u8) | mode);
    assert(out@ =~= old(out)@ + transfer(address, light, data, mode));
}

fn emit_data(out: &mut Vec<BusOp>, address: u8, light: u8, bytes: &[u8])
    ensures
        final(out)@ == old(out)@ + data_ops(address, light, bytes@),
{
    let mut i: usize = 0;
    assert(bytes@.take(0) =~= Seq::<u8>::empty());
    assert(out@ =~= old(out)@ + data_ops(address, light, bytes@.take(0)));
    while i < bytes.len()
        invariant
            i <= bytes.len(),
            out@ == old(out)@ + data_ops(address, light, bytes@.take(i as int)),
        decreases bytes.len() - i,
    {
        let ghost before = out@;
        emit_transfer(out, address, light, bytes[i], Mode::Data.bits());
        proof {
            let next = bytes@.take(i + 1);
            assert(next.drop_last() =~= bytes@.take(i as int));
            assert(next.last() == bytes@[i as int]);
            assert(out@ =~= old(out)@ + data_ops(address, light, next));
        }
        i += 1;
    }
    assert(bytes@.take(i as int) =~= bytes@);
}

impl Lcd {
    /// The bits of the display-control command that the configuration asks
    /// for: display on, and the cursor and blink flags as set.
    pub open spec fn control_bits(self) -> u8 {
        let shown = if self.cursor_on {
            DisplayControl::DisplayOn.mask() | DisplayControl::CursosOn.mask()
        } else {
            DisplayControl::DisplayOn.mask()
        };
        if self.cursor_blink {
            shown | DisplayControl::CursorBlink.mask()
        } else {
            shown
        }
    }

    /// The line-count flag of the function-set command.
    pub open spec fn line_bits(self) -> u8 {
        if self.rows == 0 {
            0x00
        } else {
            TWO_LINES
        }
    }

    /// A command byte sent with the current backlight state.
    pub open spec fn command_ops(self, data: u8) -> Seq<BusOp> {
        transfer(self.address, self.backlight_state.mask(), data, Mode::Cmd.mask())
    }

    /// One nibble latched with the current backlight state.
    pub open spec fn strobe_ops(self, data: u8) -> Seq<BusOp> {
        strobe(self.address, self.backlight_state.mask(), data)
    }

    /// The single write that applies a backlight state.
    pub open spec fn backlight_ops(self, backlight: Backlight) -> Seq<BusOp> {
        seq![
            BusOp::Write {
                address: self.address,
                byte: DisplayControl::DisplayOn.mask() | backlight.mask(),
            },
        ]
    }

    /// The characters of `text` sent as data.
    pub open spec fn text_ops(self, text: Seq<u8>) -> Seq<BusOp> {
        data_ops(self.address, self.backlight_state.mask(), text)
    }

    /// Return home, then one shift per cell up to the target.
    pub open spec fn cursor_ops(self, row: u8, col: u8) -> Seq<BusOp> {
        self.command_ops(RETURN_HOME) + shift_ops(
            self.address,
            self.backlight_state.mask(),
            (row * ROW_STRIDE + col) as nat,
        )
    }

    /// The power-up sequence: the wait, three function-set commands on eight
    /// lines, the switch to four lines, function set, display control, clear,
    /// entry mode, backlight.
    pub open spec fn init_ops(self) -> Seq<BusOp> {
        let wide = Mode::FunctionSet.mask() | BIT8;
        let narrow = Mode::FunctionSet.mask() | BIT4;
        let pause = seq![BusOp::DelayMs { ms: 1 }];
        seq![BusOp::DelayMs { ms: 80 }]
            + self.strobe_ops(wide) + pause
            + self.strobe_ops(wide) + pause
            + self.strobe_ops(wide) + pause
            + self.strobe_ops(narrow)
            + self.command_ops(Mode::FunctionSet.mask() | self.line_bits())
            + self.command_ops(Mode::DisplayControl.mask() | self.control_bits())
            + self.command_ops(Mode::Cmd.mask() | CLEAR)
            + self.command_ops(ENTRY_RIGHT)
            + self.backlight_ops(self.backlight_state)
    }

    /// Rendering one reading: home, the temperature row and three blanks
    /// over what an earlier, longer row left, the humidity row on row 1, and
    /// home again.
    pub open spec fn reading_ops(self, temp: int, hum: int) -> Seq<BusOp> {
        self.command_ops(RETURN_HOME) + self.text_ops(temperature_line(temp)) + self.text_ops(
            "   ".spec_bytes(),
        ) + self.cursor_ops(1, 0) + self.text_ops(humidity_line(hum)) + self.cursor_ops(0, 0)
    }

    /// A display at address 0 with no rows, no cursor and the backlight on.
    pub fn new() -> (r: Self)
        ensures
            r == (Lcd {
                address: 0,
                rows: 0,
                backlight_state: Backlight::On,
                cursor_on: false,
                cursor_blink: false,
            }),
    {
        Lcd {
            address: 0,
            rows: 0,
            backlight_state: Backlight::On,
            cursor_on: false,
            cursor_blink: false,
        }
    }

    /// Sets the row count.
    pub fn rows(self, rows: u8) -> (r: Self)
        ensures
            r == (Lcd { rows, ..self }),
    {
        Lcd { rows, ..self }
    }

    /// Sets the bus address.
    pub fn address(self, address: u8) -> (r: Self)
        ensures
            r == (Lcd { address, ..self }),
    {
        Lcd { address, ..self }
    }

    /// Sets whether the cursor is shown.
    pub fn cursor_on(self, on: bool) -> (r: Self)
        ensures
            r == (Lcd { cursor_on: on, ..self }),
    {
        Lcd { cursor_on: on, ..self }
    }

    /// Latches the nibble `data` into the controller.
    pub fn write4bits(&self, data: u8) -> (r: Vec<BusOp>)
        ensures
            r@ == self.strobe_ops(data),
    {
        let mut out: Vec<BusOp> = Vec::new();
        emit_strobe(&mut out, self.address, self.backlight_state.bits(), data);
        assert(out@ =~= self.strobe_ops(data));
        out
    }

    /// Brings the controller from an unknown state to a cleared display in
    /// four-line mode with the configured lines, cursor and backlight.
    pub fn init(self) -> (r: (Self, Vec<BusOp>))
        ensures
            r.0 == self,
            r.1@ == self.init_ops(),
    {
        let light = self.backlight_state.bits();
        let wide = Mode::FunctionSet.bits() | BIT8;
        let narrow = Mode::FunctionSet.bits() | BIT4;
        let mut out: Vec<BusOp> = Vec::new();
        out.push(BusOp::DelayMs { ms: 80 });
        assert(out@ =~= seq![BusOp::DelayMs { ms: 80 }]);
        emit_strobe(&mut out, self.address, light, wide);
        self.pause(&mut out);
        emit_strobe(&mut out, self.address, light, wide);
        self.pause(&mut out);
        emit_strobe(&mut out, self.address, light, wide);
        self.pause(&mut out);
        emit_strobe(&mut out, self.address, light, narrow);
        let lines: u8 = if self.rows == 0 {
            0x00
        } else {
            TWO_LINES
        };
        self.command(&mut out, Mode::FunctionSet.bits() | lines);
        let shown: u8 = if self.cursor_on {
            DisplayControl::DisplayOn.bits() | DisplayControl::CursosOn.bits()
        } else {
            DisplayControl::DisplayOn.bits()
        };
        let control: u8 = if self.cursor_blink {
            shown | DisplayControl::CursorBlink.bits()
        } else {
            shown
        };
        self.command(&mut out, Mode::DisplayControl.bits() | control);
        self.command(&mut out, Mode::Cmd.bits() | CLEAR);
        self.command(&mut out, ENTRY_RIGHT);
        out.push(
            BusOp::Write { address: self.address, byte: DisplayControl::DisplayOn.bits() | light },
        );
        assert(out@ =~= self.init_ops());
        (self, out)
    }

    fn pause(&self, out: &mut Vec<BusOp>)
        ensures
            final(out)@ == old(out)@ + seq![BusOp::DelayMs { ms: 1 }],
    {
        out.push(BusOp::DelayMs { ms: 1 });
        assert(out@ =~= old(out)@ + seq![BusOp::DelayMs { ms: 1 }]);
    }

    fn send(&self, out: &mut Vec<BusOp>, data: u8, mode: Mode)
        ensures
            final(out)@ == old(out)@ + transfer(
                self.address,
                self.backlight_state.mask(),
                data,
                mode.mask(),
            ),
    {
        emit_transfer(out, self.address, self.backlight_state.bits(), data, mode.bits());
    }

    fn command(&self, out: &mut Vec<BusOp>, data: u8)
        ensures
            final(out)@ == old(out)@ + self.command_ops(data),
    {
        self.send(out, data, Mode::Cmd);
    }

    /// Records the backlight state and applies it with one write.
    pub fn backlight(&mut self, backlight: Backlight) -> (r: Vec<BusOp>)
        ensures
            *final(self) == (Lcd { backlight_state: backlight, ..*old(self) }),
            r@ == old(self).backlight_ops(backlight),
    {
        self.backlight_state = backlight;
        let mut out: Vec<BusOp> = Vec::new();
        out.push(
            BusOp::Write {
                address: self.address,
                byte: DisplayControl::DisplayOn.bits() | backlight.bits(),
            },
        );
        assert(out@ =~= old(self).backlight_ops(backlight));
        out
    }

    /// Sends each character of `data` to the display, first to last.
    pub fn write_str(&self, data: &str) -> (r: Vec<BusOp>)
        ensures
            r@ == self.text_ops(glyphs(data@)),
    {
        let mut out: Vec<BusOp> = Vec::new();
        let count = data.unicode_len();
        let mut i: usize = 0;
        assert(glyphs(data@).take(0) =~= Seq::<u8>::empty());
        assert(out@ =~= self.text_ops(glyphs(data@).take(0)));
        while i < count
            invariant
                i <= count,
                count == data@.len(),
                out@ == self.text_ops(glyphs(data@).take(i as int)),
            decreases count - i,
        {
            let c = data.get_char(i);
            self.send(&mut out, c as u8, Mode::Data);
            proof {
                let next = glyphs(data@).take(i + 1);
                assert(next.drop_last() =~= glyphs(data@).take(i as int));
                assert(next.last() == c as u8);
            }
            i += 1;
        }
        assert(glyphs(data@).take(i as int) =~= glyphs(data@));
        out
    }

    /// Sends each byte of `text` to the display, first to last.
    pub fn write_bytes(&self, text: &[u8]) -> (r: Vec<BusOp>)
        ensures
            r@ == self.text_ops(text@),
    {
        let mut out: Vec<BusOp> = Vec::new();
        emit_data(&mut out, self.address, self.backlight_state.bits(), text);
        assert(out@ =~= self.text_ops(text@));
        out
    }

    /// Renders a reading given in tenths of a degree and of a percent. The
    /// result depends on the configuration and the two values alone.
    pub fn send_temp(&self, temp: i32, hum: i32) -> (r: Vec<BusOp>)
        ensures
            r@ == self.reading_ops(temp as int, hum as int),
    {
        let light = self.backlight_state.bits();
        let upper = format_temperature_line(temp);
        let lower = format_humidity_line(hum);
        let mut out: Vec<BusOp> = Vec::new();
        self.command(&mut out, RETURN_HOME);
        emit_data(&mut out, self.address, light, upper.as_slice());
        emit_data(&mut out, self.address, light, "   ".as_bytes());
        self.emit_cursor(&mut out, 1, 0);
        emit_data(&mut out, self.address, light, lower.as_slice());
        self.emit_cursor(&mut out, 0, 0);
        assert(out@ =~= self.reading_ops(temp as int, hum as int));
        out
    }

    /// Clears the display.
    pub fn clear(&self) -> (r: Vec<BusOp>)
        ensures
            r@ == self.command_ops(CLEAR),
    {
        let mut out: Vec<BusOp> = Vec::new();
        self.command(&mut out, CLEAR);
        assert(out@ =~= self.command_ops(CLEAR));
        out
    }

    /// Returns the cursor to the upper left corner.
    pub fn return_home(&self) -> (r: Vec<BusOp>)
        ensures
            r@ == self.command_ops(RETURN_HOME),
    {
        let mut out: Vec<BusOp> = Vec::new();
        self.command(&mut out, RETURN_HOME);
        assert(out@ =~= self.command_ops(RETURN_HOME));
        out
    }

    fn emit_cursor(&self, out: &mut Vec<BusOp>, row: u8, col: u8)
        requires
            row * ROW_STRIDE + col <= u8::MAX,
        ensures
            final(out)@ == old(out)@ + self.cursor_ops(row, col),
    {
        self.command(out, RETURN_HOME);
        let shift: u8 = row * ROW_STRIDE + col;
        let light = self.backlight_state.bits();
        let ghost home = out@;
        let mut i: u8 = 0;
        assert(out@ =~= home + shift_ops(self.address, light, 0));
        while i < shift
            invariant
                i <= shift,
                light == self.backlight_state.mask(),
                out@ == home + shift_ops(self.address, light, i as nat),
            decreases shift - i,
        {
            self.command(out, SHIFT_CURSOR);
            assert(out@ =~= home + shift_ops(self.address, light, (i + 1) as nat));
            i += 1;
        }
        assert(out@ =~= old(out)@ + self.cursor_ops(row, col));
    }

    /// Moves the cursor to (`row`, `col`), both counted from zero, by
    /// returning home and shifting `row * 40 + col` times.
    pub fn set_cursor(&self, row: u8, col: u8) -> (r: Vec<BusOp>)
        requires
            row * ROW_STRIDE + col <= u8::MAX,
        ensures
            r@ == self.cursor_ops(row, col),
    {
        let mut out: Vec<BusOp> = Vec::new();
        self.emit_cursor(&mut out, row, col);
        assert(out@ =~= self.cursor_ops(row, col));
        out
    }
}

} // verus!
