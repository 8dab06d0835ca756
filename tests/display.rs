use waterplant::bus::{BusOp, Step, Transfer};
use waterplant::lcd_i2c::{Enabled, Idle, Lcd};

const E: u8 = 0x04;
const BL: u8 = 0x08;

fn perform_all(mut startup: waterplant::lcd_i2c::Startup) -> Lcd<Enabled> {
    loop {
        match startup.next_step() {
            Step::Perform(_) => startup.report(true),
            Step::Done => break,
            Step::Aborted => panic!("aborted"),
        }
    }
    startup.finish().expect("initialized")
}

fn enabled(lcd: Lcd<Idle>) -> Lcd<Enabled> {
    perform_all(lcd.enable())
}

/// The bytes written with the enable line raised, in order.
fn strobes(ops: &[BusOp]) -> Vec<u8> {
    ops.iter()
        .filter_map(|op| match op {
            BusOp::Write { byte, .. } if byte & E != 0 => Some(*byte),
            _ => None,
        })
        .collect()
}

/// Controller bytes reassembled from nibble pairs, with their register select.
fn decode(ops: &[BusOp]) -> Vec<(u8, u8)> {
    let s = strobes(ops);
    assert_eq!(s.len() % 2, 0);
    s.chunks(2)
        .map(|p| {
            assert_eq!(p[0] & 0x01, p[1] & 0x01);
            ((p[0] & 0xf0) | (p[1] >> 4), p[0] & 0x01)
        })
        .collect()
}

fn writes(ops: &[BusOp]) -> usize {
    ops.iter().filter(|op| matches!(op, BusOp::Write { .. })).count()
}

#[test]
fn new_has_defaults() {
    let lcd = Lcd::new();
    assert_eq!(lcd.addr(), 0x27);
    assert_eq!(lcd.rows(), 1);
    assert_eq!(lcd.cell_size(), 0x00);
    assert_eq!(lcd.backlight(), 0);
    assert_eq!(lcd.display_control(), 0);
    assert_eq!(lcd.entry_mode(), 0);
}

#[test]
fn builders_set_configuration() {
    let lcd = Lcd::new().with_addr(0x3f).with_4rows().with_5x10dots();
    assert_eq!(lcd.addr(), 0x3f);
    assert_eq!(lcd.rows(), 4);
    assert_eq!(lcd.cell_size(), 0x04);
    let lcd = lcd.with_3rows().with_5x8dots();
    assert_eq!(lcd.rows(), 3);
    assert_eq!(lcd.cell_size(), 0x00);
    assert_eq!(lcd.with_2rows().rows(), 2);
    assert_eq!(Lcd::new().with_4rows().with_1row().rows(), 1);
}

#[test]
fn pulse_keeps_data_when_enable_drops() {
    let mut lcd = enabled(Lcd::new());
    let ops = lcd.write_u8(0x41);
    assert_eq!(
        ops,
        vec![
            BusOp::Write { addr: 0x27, byte: 0x40 | 0x01 | E | BL },
            BusOp::DelayMs(1),
            BusOp::Write { addr: 0x27, byte: 0x40 | 0x01 | BL },
            BusOp::DelayMs(5),
            BusOp::Write { addr: 0x27, byte: 0x10 | 0x01 | E | BL },
            BusOp::DelayMs(1),
            BusOp::Write { addr: 0x27, byte: 0x10 | 0x01 | BL },
            BusOp::DelayMs(5),
        ]
    );
}

#[test]
fn init_sequence_order() {
    let lcd = Lcd::new().with_addr(0x20).with_2rows();
    let mut startup = lcd.enable();
    let mut ops = Vec::new();
    while let Step::Perform(op) = startup.next_step() {
        ops.push(op);
        startup.report(true);
    }
    assert_eq!(ops[0], BusOp::DelayMs(50));
    let s = strobes(&ops);
    // three resets and the 4-bit commit, backlight still off
    assert_eq!(&s[0..4], &[0x30 | E, 0x30 | E, 0x30 | E, 0x20 | E]);
    let bytes = decode(&ops[17..]);
    assert_eq!(
        bytes,
        vec![
            (0x28, 0), // function set, two-line layout, 5x8
            (0x06, 0), // entry mode, left to right
            (0x08, 0), // display control with backlight on
            (0x0c, 0), // display on
            (0x02, 0), // return home
            (0x01, 0), // clear
            (0x80, 0), // cursor to (0, 0)
        ]
    );
    assert!(ops.iter().all(|op| match op {
        BusOp::Write { addr, .. } => *addr == 0x20,
        BusOp::DelayMs(_) => true,
    }));
    let lcd = startup.finish().expect("initialized");
    assert_eq!(lcd.backlight(), BL);
    assert_eq!(lcd.display_control(), 0x04);
    assert_eq!(lcd.entry_mode(), 0x02);
}

#[test]
fn init_one_row_5x10() {
    let mut startup = Lcd::new().with_5x10dots().enable();
    let mut ops = Vec::new();
    while let Step::Perform(op) = startup.next_step() {
        ops.push(op);
        startup.report(true);
    }
    assert_eq!(decode(&ops[17..25]), vec![(0x24, 0)]);
}

#[test]
fn init_failure_on_second_reset_yields_no_handle() {
    let mut startup = Lcd::new().enable();
    let mut writes_seen = 0;
    loop {
        match startup.next_step() {
            Step::Perform(BusOp::Write { .. }) => {
                writes_seen += 1;
                // the second reset write is the third write of the plan
                startup.report(writes_seen != 3);
            }
            Step::Perform(BusOp::DelayMs(_)) => startup.report(true),
            Step::Done => panic!("plan completed"),
            Step::Aborted => break,
        }
    }
    assert_eq!(writes_seen, 3);
    assert!(startup.finish().is_none());
}

#[test]
fn move_cursor_offsets_for_each_row() {
    let mut lcd = enabled(Lcd::new().with_4rows());
    for (row, offset) in [(0u8, 0x00u8), (1, 0x40), (2, 0x14), (3, 0x54)] {
        let ops = lcd.move_cursor_to(row, 5);
        assert_eq!(decode(&ops), vec![(0x80 | (offset + 5), 0)]);
    }
}

#[test]
fn move_cursor_clamps_row() {
    let mut lcd = enabled(Lcd::new().with_2rows());
    assert_eq!(decode(&lcd.move_cursor_to(3, 1)), vec![(0xc1, 0)]);
    let mut one = enabled(Lcd::new());
    assert_eq!(decode(&one.move_cursor_to(2, 7)), vec![(0x87, 0)]);
    let mut three = enabled(Lcd::new().with_3rows());
    assert_eq!(decode(&three.move_cursor_to(3, 0)), vec![(0x94, 0)]);
}

#[test]
fn clear_then_home() {
    let mut lcd = enabled(Lcd::new().with_2rows());
    let ops = lcd.clear();
    assert_eq!(decode(&ops), vec![(0x01, 0), (0x80, 0)]);
}

#[test]
fn cursor_on_then_rendering_off() {
    let mut lcd = enabled(Lcd::new());
    lcd.cursor_blink_on();
    let ops = lcd.cursor_on();
    assert_eq!(decode(&ops), vec![(0x0f, 0)]);
    let ops = lcd.rendering_off();
    assert_eq!(decode(&ops), vec![(0x0b, 0)]);
    assert_eq!(lcd.display_control(), 0x03);
    lcd.cursor_blink_off();
    let ops = lcd.cursor_off();
    assert_eq!(decode(&ops), vec![(0x08, 0)]);
    lcd.rendering_on();
    assert_eq!(lcd.display_control(), 0x04);
}

#[test]
fn sleep_then_wakeup_restores() {
    let mut lcd = enabled(Lcd::new());
    lcd.cursor_on();
    let ops = lcd.sleep();
    assert_eq!(lcd.backlight(), 0);
    assert_eq!(lcd.display_control(), 0x02);
    // backlight off applies from the first frame on
    assert!(strobes(&ops).iter().all(|b| b & BL == 0));
    assert_eq!(decode(&ops), vec![(0x0e, 0), (0x0a, 0)]);
    let ops = lcd.wakeup();
    assert_eq!(lcd.backlight(), BL);
    assert_eq!(lcd.display_control(), 0x06);
    assert!(strobes(&ops).iter().all(|b| b & BL == BL));
    assert_eq!(decode(&ops), vec![(0x0a, 0), (0x0e, 0)]);
}

#[test]
fn backlight_toggles() {
    let mut lcd = enabled(Lcd::new());
    let ops = lcd.backlight_off();
    assert!(strobes(&ops).iter().all(|b| b & BL == 0));
    assert_eq!(decode(&ops), vec![(0x0c, 0)]);
    let ops = lcd.backlight_on();
    assert!(strobes(&ops).iter().all(|b| b & BL == BL));
}

#[test]
fn write_str_ab() {
    let mut lcd = enabled(Lcd::new());
    let ops = lcd.write_str("AB");
    let s = strobes(&ops);
    assert_eq!(s.len(), 4);
    assert_eq!(s, vec![0x41 | E | BL, 0x11 | E | BL, 0x41 | E | BL, 0x21 | E | BL]);
    assert_eq!(decode(&ops), vec![(b'A', 1), (b'B', 1)]);
    assert_eq!(writes(&ops), 8);
}

#[test]
fn write_bytes_in_order() {
    let mut lcd = enabled(Lcd::new());
    let ops = lcd.write_bytes(&[0x00, 0xff, 0x5a]);
    assert_eq!(decode(&ops), vec![(0x00, 1), (0xff, 1), (0x5a, 1)]);
    assert!(lcd.write_bytes(&[]).is_empty());
    assert!(lcd.write_str("").is_empty());
}

#[test]
fn entry_direction() {
    let mut lcd = enabled(Lcd::new());
    let ops = lcd.right_to_left();
    assert_eq!(decode(&ops), vec![(0x04, 0)]);
    assert_eq!(lcd.entry_mode(), 0);
    let ops = lcd.left_to_right();
    assert_eq!(decode(&ops), vec![(0x06, 0)]);
}

#[test]
fn scrolling_commands() {
    let mut lcd = enabled(Lcd::new());
    assert_eq!(decode(&lcd.scroll_left()), vec![(0x18, 0)]);
    assert_eq!(decode(&lcd.scroll_right()), vec![(0x1c, 0)]);
    assert_eq!(decode(&lcd.scroll_reset()), vec![(0x02, 0)]);
}

#[test]
fn custom_char_low_slot_goes_to_seven() {
    let mut lcd = enabled(Lcd::new());
    let glyph = [0x1f, 0x11, 0x11, 0x11, 0x11, 0x11, 0x11, 0x1f];
    let (slot, ops) = lcd.register_custom_char(3, &glyph);
    assert_eq!(slot, 7);
    let bytes = decode(&ops);
    assert_eq!(bytes[0], (0x78, 0));
    assert_eq!(bytes.len(), 9);
    for (i, g) in glyph.iter().enumerate() {
        assert_eq!(bytes[i + 1], (*g, 1));
    }
    let (slot, _) = lcd.register_custom_char(0, &glyph);
    assert_eq!(slot, 7);
}

#[test]
fn custom_char_high_slot_passes_through() {
    let mut lcd = enabled(Lcd::new());
    let (slot, ops) = lcd.register_custom_char(9, &[]);
    assert_eq!(slot, 9);
    assert_eq!(decode(&ops), vec![(0x48, 0)]);
    let (slot, ops) = lcd.register_custom_char(255, &[]);
    assert_eq!(slot, 255);
    assert_eq!(decode(&ops), vec![(0x40 | 0xf8, 0)]);
}

#[test]
fn transfer_steps() {
    let mut t = Transfer::new(vec![BusOp::DelayMs(2), BusOp::Write { addr: 1, byte: 2 }]);
    assert_eq!(t.next_step(), Step::Perform(BusOp::DelayMs(2)));
    t.report(true);
    assert_eq!(t.next_step(), Step::Perform(BusOp::Write { addr: 1, byte: 2 }));
    assert!(!t.is_complete());
    t.report(true);
    assert_eq!(t.next_step(), Step::Done);
    assert!(t.is_complete());

    let mut t = Transfer::new(vec![BusOp::Write { addr: 1, byte: 2 }, BusOp::DelayMs(1)]);
    t.report(false);
    assert_eq!(t.next_step(), Step::Aborted);
    assert!(!t.is_complete());

    let t = Transfer::new(Vec::new());
    assert_eq!(t.next_step(), Step::Done);
    assert!(t.is_complete());
}
