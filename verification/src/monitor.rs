//! The decisions of the foreground loop: what a failed measurement is
//! replaced by, what the display shows for a reading, and the status line
//! that goes out over the serial link.

use vstd::prelude::*;
use vstd::string::StringSliceAdditionalSpecFns;
use crate::lcd::{glyphs, BusOp, Lcd, CLEAR};
use crate::text::{append_deci, append_str, deci_text};

verus! {

/// Raw value that stands for "no valid reading".
pub const SENTINEL: i32 = 2555;

/// Milliseconds between two rounds of the loop.
pub const PACING_MS: u16 = 800;

/// One reading of the sensor, in tenths of a degree and of a percent.
#[derive(Clone, Copy, Debug, PartialEq, Eq, Structural)]
pub struct Measurement {
    pub temperature: i32,
    pub humidity: i32,
}

impl Measurement {
    /// The reading that replaces a failed measurement.
    pub fn sentinel() -> (r: Self)
        ensures
            r == (Measurement { temperature: SENTINEL, humidity: SENTINEL }),
    {
        Measurement { temperature: SENTINEL, humidity: SENTINEL }
    }

    pub open spec fn spec_is_sentinel(self) -> bool {
        self.temperature == SENTINEL
    }

    /// Whether the temperature is the sentinel.
    #[verifier::when_used_as_spec(spec_is_sentinel)]
    pub fn is_sentinel(self) -> (r: bool)
        ensures
            r == self.spec_is_sentinel(),
    {
        self.temperature == SENTINEL
    }
}

/// The sensor's reading, or the sentinel where the sensor failed.
pub fn reading_or_sentinel(outcome: Option<Measurement>) -> (r: Measurement)
    ensures
        r == match outcome {
            Some(m) => m,
            None => Measurement { temperature: SENTINEL, humidity: SENTINEL },
        },
{
    match outcome {
        Some(m) => m,
        None => Measurement::sentinel(),
    }
}

/// What the display is sent for a reading: the two rows of values, or,
/// for the sentinel, a cleared display and the request to connect the
/// sensor.
pub open spec fn display_ops(lcd: Lcd, m: Measurement) -> Seq<BusOp> {
    if m.is_sentinel() {
        lcd.command_ops(CLEAR) + lcd.text_ops(glyphs("Connect DHT11!"@))
    } else {
        lcd.reading_ops(m.temperature as int, m.humidity as int)
    }
}

/// Renders a reading. The sentinel never reaches the numeric rows.
pub fn render(lcd: &Lcd, m: Measurement) -> (r: Vec<BusOp>)
    ensures
        r@ == display_ops(*lcd, m),
        m.is_sentinel() ==> r@ == lcd.command_ops(CLEAR) + lcd.text_ops(
            glyphs("Connect DHT11!"@),
        ),
        !m.is_sentinel() ==> r@ == lcd.reading_ops(m.temperature as int, m.humidity as int),
{
    if m.is_sentinel() {
        let mut out = lcd.clear();
        let mut text = lcd.write_str("Connect DHT11!");
        out.append(&mut text);
        out
    } else {
        lcd.send_temp(m.temperature, m.humidity)
    }
}

/// The status line for a reading.
pub open spec fn status_text(m: Measurement) -> Seq<u8> {
    "Temp: ".spec_bytes() + deci_text(m.temperature as int) + ", Hum: ".spec_bytes() + deci_text(
        m.humidity as int,
    ) + "\n".spec_bytes()
}

/// Formats the status line that each round sends to the host.
pub fn status_report(m: Measurement) -> (r: Vec<u8>)
    ensures
        r@ == status_text(m),
{
    let mut out: Vec<u8> = Vec::new();
    append_str(&mut out, "Temp: ");
    append_deci(&mut out, m.temperature);
    append_str(&mut out, ", Hum: ");
    append_deci(&mut out, m.humidity);
    append_str(&mut out, "\n");
    assert(out@ =~= status_text(m));
    out
}

} // verus!
