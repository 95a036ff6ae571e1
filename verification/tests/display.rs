use climate_monitor::lcd::{
    format_humidity_line, format_temperature_line, next_step, Backlight, BusOp, DisplayControl,
    Lcd, Mode,
};
use climate_monitor::monitor::{reading_or_sentinel, render, status_report, Measurement};

fn strobe(address: u8, light: u8, data: u8) -> Vec<BusOp> {
    vec![
        BusOp::Write { address, byte: data | 0x04 | light },
        BusOp::DelayMs { ms: 1 },
        BusOp::Write { address, byte: light },
        BusOp::DelayMs { ms: 1 },
    ]
}

fn transfer(address: u8, light: u8, data: u8, mode: u8) -> Vec<BusOp> {
    let mut ops = strobe(address, light, (data & 0xf0) | mode);
    ops.extend(strobe(address, light, ((data << 4) & 0xf0) | mode));
    ops
}

fn text(address: u8, light: u8, bytes: &[u8]) -> Vec<BusOp> {
    let mut ops = Vec::new();
    for b in bytes {
        ops.extend(transfer(address, light, *b, 0x01));
    }
    ops
}

fn board() -> Lcd {
    Lcd::new().address(0x3f).cursor_on(false).rows(2)
}

#[test]
fn flag_bits_have_their_documented_values() {
    assert_eq!(DisplayControl::Off.bits(), 0x00);
    assert_eq!(DisplayControl::CursorBlink.bits(), 0x01);
    assert_eq!(DisplayControl::CursosOn.bits(), 0x02);
    assert_eq!(DisplayControl::DisplayOn.bits(), 0x04);
    assert_eq!(Backlight::Off.bits(), 0x00);
    assert_eq!(Backlight::On.bits(), 0x08);
    assert_eq!(Mode::Cmd.bits(), 0x00);
    assert_eq!(Mode::Data.bits(), 0x01);
    assert_eq!(Mode::DisplayControl.bits(), 0x08);
    assert_eq!(Mode::FunctionSet.bits(), 0x20);
}

#[test]
fn new_display_has_defaults_and_builders_set_one_field() {
    let lcd = Lcd::new();
    assert_eq!(lcd.address, 0);
    assert_eq!(lcd.rows, 0);
    assert_eq!(lcd.backlight_state, Backlight::On);
    assert!(!lcd.cursor_on);
    assert!(!lcd.cursor_blink);
    let lcd = lcd.address(0x27).rows(2).cursor_on(true);
    assert_eq!(lcd.address, 0x27);
    assert_eq!(lcd.rows, 2);
    assert!(lcd.cursor_on);
    assert!(!lcd.cursor_blink);
}

#[test]
fn write4bits_raises_then_releases_enable() {
    let lcd = board();
    assert_eq!(
        lcd.write4bits(0x30),
        vec![
            BusOp::Write { address: 0x3f, byte: 0x3c },
            BusOp::DelayMs { ms: 1 },
            BusOp::Write { address: 0x3f, byte: 0x08 },
            BusOp::DelayMs { ms: 1 },
        ]
    );
}

#[test]
fn init_runs_the_power_up_sequence() {
    let (lcd, ops) = board().init();
    assert_eq!(lcd, board());
    let mut expected = vec![BusOp::DelayMs { ms: 80 }];
    for _ in 0..3 {
        expected.extend(strobe(0x3f, 0x08, 0x30));
        expected.push(BusOp::DelayMs { ms: 1 });
    }
    expected.extend(strobe(0x3f, 0x08, 0x20));
    expected.extend(transfer(0x3f, 0x08, 0x28, 0x00));
    expected.extend(transfer(0x3f, 0x08, 0x0c, 0x00));
    expected.extend(transfer(0x3f, 0x08, 0x01, 0x00));
    expected.extend(transfer(0x3f, 0x08, 0x04, 0x00));
    expected.push(BusOp::Write { address: 0x3f, byte: 0x0c });
    assert_eq!(ops, expected);
    assert_eq!(ops.len(), 1 + 3 * 5 + 4 + 4 * 8 + 1);
}

#[test]
fn init_with_cursor_and_single_line() {
    let mut lcd = Lcd::new().address(0x27).cursor_on(true);
    lcd.cursor_blink = true;
    let (_, ops) = lcd.init();
    let function_set = transfer(0x27, 0x08, 0x20, 0x00);
    let control = transfer(0x27, 0x08, 0x0f, 0x00);
    assert_eq!(&ops[20..28], &function_set[..]);
    assert_eq!(&ops[28..36], &control[..]);
}

#[test]
fn backlight_is_recorded_and_sent() {
    let mut lcd = board();
    let ops = lcd.backlight(Backlight::Off);
    assert_eq!(ops, vec![BusOp::Write { address: 0x3f, byte: 0x04 }]);
    assert_eq!(lcd.backlight_state, Backlight::Off);
    assert_eq!(lcd.write4bits(0x10)[0], BusOp::Write { address: 0x3f, byte: 0x14 });
    let ops = lcd.backlight(Backlight::On);
    assert_eq!(ops, vec![BusOp::Write { address: 0x3f, byte: 0x0c }]);
}

#[test]
fn write_str_sends_two_nibbles_per_character() {
    let lcd = board();
    let ops = lcd.write_str("Hi");
    assert_eq!(ops, text(0x3f, 0x08, b"Hi"));
    assert_eq!(ops[0], BusOp::Write { address: 0x3f, byte: 0x40 | 0x01 | 0x04 | 0x08 });
    assert_eq!(ops[4], BusOp::Write { address: 0x3f, byte: 0x80 | 0x01 | 0x04 | 0x08 });
    assert_eq!(lcd.write_str(""), Vec::new());
    assert_eq!(lcd.write_bytes(b"Hi"), ops);
}

#[test]
fn write_str_keeps_the_low_byte_of_a_wide_character() {
    let lcd = board();
    assert_eq!(lcd.write_str("\u{141}"), text(0x3f, 0x08, &[0x41]));
}

#[test]
fn clear_and_return_home_are_single_commands() {
    let lcd = board();
    assert_eq!(lcd.clear(), transfer(0x3f, 0x08, 0x01, 0x00));
    assert_eq!(lcd.return_home(), transfer(0x3f, 0x08, 0x02, 0x00));
}

#[test]
fn set_cursor_goes_home_and_shifts_cell_by_cell() {
    let lcd = board();
    let mut expected = transfer(0x3f, 0x08, 0x02, 0x00);
    for _ in 0..43 {
        expected.extend(transfer(0x3f, 0x08, 0x14, 0x00));
    }
    assert_eq!(lcd.set_cursor(1, 3), expected);
    assert_eq!(lcd.set_cursor(0, 0), lcd.return_home());
    assert_eq!(lcd.set_cursor(1, 0).len(), 8 + 40 * 8);
    assert_eq!(lcd.set_cursor(6, 15).len(), 8 + 255 * 8);
}

#[test]
fn formatted_lines_follow_the_display_layout() {
    assert_eq!(format_temperature_line(255), b"Temp: 25.5C  ".to_vec());
    assert_eq!(format_temperature_line(250), b"Temp: 25C  ".to_vec());
    assert_eq!(format_humidity_line(500), b"Humidity: 50%".to_vec());
    assert_eq!(format_humidity_line(1005), b"Humidity: 100.5%".to_vec());
}

#[test]
fn overlong_lines_are_cut_to_sixteen_characters() {
    assert_eq!(format_temperature_line(-1234567), b"Temp: -123456.7C".to_vec());
    assert_eq!(format_temperature_line(12345678), b"Temp: 1234567.8C".to_vec());
    assert_eq!(format_humidity_line(123456), b"Humidity: 12345.".to_vec());
    assert_eq!(format_humidity_line(i32::MIN).len(), 16);
}

#[test]
fn send_temp_renders_both_rows() {
    let lcd = board();
    let mut expected = transfer(0x3f, 0x08, 0x02, 0x00);
    expected.extend(text(0x3f, 0x08, b"Temp: 25C  "));
    expected.extend(text(0x3f, 0x08, b"   "));
    expected.extend(lcd.set_cursor(1, 0));
    expected.extend(text(0x3f, 0x08, b"Humidity: 50%"));
    expected.extend(transfer(0x3f, 0x08, 0x02, 0x00));
    assert_eq!(lcd.send_temp(250, 500), expected);
}

#[test]
fn rendering_the_same_reading_twice_gives_the_same_rows() {
    let lcd = board();
    let first = lcd.send_temp(250, 500);
    let second = lcd.send_temp(250, 500);
    assert_eq!(first, second);
    assert_eq!(format_temperature_line(250), format_temperature_line(250));
    assert_eq!(format_humidity_line(500), format_humidity_line(500));
    assert_ne!(lcd.send_temp(251, 500), first);
}

#[test]
fn failed_measurement_becomes_the_sentinel() {
    assert_eq!(reading_or_sentinel(None), Measurement { temperature: 2555, humidity: 2555 });
    assert_eq!(Measurement::sentinel(), Measurement { temperature: 2555, humidity: 2555 });
    let m = Measurement { temperature: 231, humidity: 402 };
    assert_eq!(reading_or_sentinel(Some(m)), m);
    assert!(Measurement::sentinel().is_sentinel());
    assert!(!m.is_sentinel());
}

#[test]
fn sentinel_reading_asks_for_the_sensor() {
    let lcd = board();
    let mut expected = lcd.clear();
    expected.extend(lcd.write_str("Connect DHT11!"));
    assert_eq!(render(&lcd, Measurement::sentinel()), expected);
    assert_eq!(render(&lcd, Measurement { temperature: 2555, humidity: 410 }), expected);
    assert_ne!(render(&lcd, Measurement::sentinel()), lcd.send_temp(2555, 2555));
}

#[test]
fn ordinary_reading_is_rendered_as_numbers() {
    let lcd = board();
    let m = Measurement { temperature: 250, humidity: 500 };
    assert_eq!(render(&lcd, m), lcd.send_temp(250, 500));
    let near = Measurement { temperature: 2554, humidity: 2555 };
    assert_eq!(render(&lcd, near), lcd.send_temp(2554, 2555));
}

#[test]
fn status_line_lists_temperature_and_humidity() {
    assert_eq!(
        status_report(Measurement { temperature: 235, humidity: 400 }),
        b"Temp: 23.5, Hum: 40\n".to_vec()
    );
    assert_eq!(status_report(Measurement::sentinel()), b"Temp: 255.5, Hum: 255.5\n".to_vec());
}

#[test]
fn scaled_float_reading_prints_like_the_fixed_point_text() {
    for raw in [0i32, 5, 10, 235, 250, 999, 2555, -5, -250] {
        let scaled = (raw as f32) / 10.0;
        let line = format!("Temp: {}, Hum: {}\n", scaled, scaled);
        let m = Measurement { temperature: raw, humidity: raw };
        assert_eq!(status_report(m), line.into_bytes());
    }
}

#[test]
fn a_run_goes_step_by_step_to_its_end() {
    let ops = board().write4bits(0x30);
    let ok: Result<(), u8> = Ok(());
    assert_eq!(next_step(&ops, 0, ok), Ok(Some(BusOp::Write { address: 0x3f, byte: 0x3c })));
    assert_eq!(next_step(&ops, 1, ok), Ok(Some(BusOp::DelayMs { ms: 1 })));
    assert_eq!(next_step(&ops, 3, ok), Ok(Some(BusOp::DelayMs { ms: 1 })));
    assert_eq!(next_step(&ops, 4, ok), Ok(None));
    assert_eq!(next_step(&ops, 9, ok), Ok(None));
}

#[test]
fn a_failed_write_ends_the_run() {
    let ops = board().write4bits(0x30);
    assert_eq!(next_step(&ops, 1, Err(17u8)), Err(17));
    assert_eq!(next_step(&ops, 4, Err(17u8)), Err(17));
}
