use embedded_graphics_core::pixelcolor::raw::RawU16;
use embedded_graphics_core::pixelcolor::Rgb565;
use embedded_graphics_core::prelude::RawData;
use gc9d01::{
    check_buffer, Action, Config, Error, Event, Instruction, Orientation, Timer, BUF_SIZE, GC9D01,
    MAX_DATA_LEN,
};

#[derive(Debug, Clone, PartialEq)]
enum Seen {
    DcLow,
    DcHigh,
    RstLow,
    RstHigh,
    Delay(u64),
    Write(Vec<u8>),
}

type Outcome = Result<(), Error<u32, u32>>;

/// Plays the host: carries out every action, and lets the bus write with the
/// given numbers (counted from 0 over all bus writes) and the line change
/// with the given number fail.
fn drive(
    driver: &mut GC9D01<u32>,
    first: Action,
    failing_writes: &[usize],
    failing_pin: Option<usize>,
) -> (Vec<Seen>, Outcome) {
    let mut seen: Vec<Seen> = Vec::new();
    let mut writes = 0usize;
    let mut pins = 0usize;
    let mut action = first;
    loop {
        let event: Event<u32, u32> = match action {
            Action::Delay(ms) => {
                seen.push(Seen::Delay(ms));
                Event::Done
            }
            Action::Write(bytes) => {
                seen.push(Seen::Write(bytes));
                writes += 1;
                if failing_writes.contains(&(writes - 1)) {
                    Event::BusFailed(100 + (writes as u32 - 1))
                } else {
                    Event::Done
                }
            }
            line => {
                seen.push(match line {
                    Action::SetDcLow => Seen::DcLow,
                    Action::SetDcHigh => Seen::DcHigh,
                    Action::SetRstLow => Seen::RstLow,
                    _ => Seen::RstHigh,
                });
                pins += 1;
                if failing_pin == Some(pins - 1) {
                    Event::PinFailed(200 + (pins as u32 - 1))
                } else {
                    Event::Done
                }
            }
        };
        match driver.resume(event) {
            Ok(Some(next)) => action = next,
            Ok(None) => return (seen, Ok(())),
            Err(e) => return (seen, Err(e)),
        }
    }
}

fn color(raw: u16) -> Rgb565 {
    Rgb565::from(RawU16::new(raw))
}

fn colors(raw: &[u16]) -> Vec<Rgb565> {
    raw.iter().map(|r| color(*r)).collect()
}

fn panel(width: u16, height: u16, dx: u16, dy: u16) -> Config {
    Config { rgb: false, inverted: false, orientation: Orientation::Landscape, height, width, dx, dy }
}

fn driver_with(config: Config, capacity: usize) -> GC9D01<u32> {
    assert!(config.is_valid());
    assert!(check_buffer(capacity));
    GC9D01::new(config, vec![0u8; capacity])
}

fn writes_of(seen: &[Seen]) -> Vec<Vec<u8>> {
    seen.iter()
        .filter_map(|s| match s {
            Seen::Write(b) => Some(b.clone()),
            _ => None,
        })
        .collect()
}

fn window_and_start(rows: [u8; 4], columns: [u8; 4]) -> Vec<Seen> {
    vec![
        Seen::DcLow,
        Seen::Write(vec![0x2B]),
        Seen::DcHigh,
        Seen::Write(rows.to_vec()),
        Seen::DcLow,
        Seen::Write(vec![0x2A]),
        Seen::DcHigh,
        Seen::Write(columns.to_vec()),
        Seen::DcLow,
        Seen::Write(vec![0x2C]),
        Seen::DcHigh,
    ]
}

#[test]
fn constants_and_defaults() {
    assert_eq!(BUF_SIZE, 2304);
    assert_eq!(MAX_DATA_LEN, 1152);
    let c = Config::default();
    assert!(!c.rgb);
    assert!(!c.inverted);
    assert_eq!(c.orientation, Orientation::Landscape);
    assert_eq!(c.height, 160);
    assert_eq!(c.width, 60);
    assert_eq!(c.dx, 0);
    assert_eq!(c.dy, 0);
    assert!(c.is_valid());
    assert!(c.is_addressable());
}

#[test]
fn buffer_sizes_accepted() {
    assert!(check_buffer(2));
    assert!(check_buffer(2304));
    assert!(!check_buffer(0));
    assert!(!check_buffer(7));
    assert!(!check_buffer(2306));
}

#[test]
fn config_checks() {
    assert!(!panel(0, 10, 0, 0).is_valid());
    assert!(!panel(10, 0, 0, 0).is_valid());
    assert!(panel(10, 10, 65526, 0).is_addressable());
    assert!(!panel(10, 10, 65527, 0).is_addressable());
    assert!(!panel(10, 10, 0, 65527).is_addressable());
    let c = panel(10, 10, 5, 3);
    assert!(c.can_reach(0, 0, 65530, 65532));
    assert!(!c.can_reach(0, 0, 65531, 0));
    assert!(!c.can_reach(0, 0, 0, 65533));
    assert!(c.can_hold_area(2, 3, 4, 5));
    assert!(!c.can_hold_area(0, 0, 0, 1));
    assert!(!c.can_hold_area(65530, 0, 2, 1));
    assert!(c.can_hold_area(65529, 0, 2, 1));
}

#[test]
fn opcodes() {
    assert_eq!(Instruction::Nop.opcode(), 0x00);
    assert_eq!(Instruction::SleepOut.opcode(), 0x11);
    assert_eq!(Instruction::DisplayOn.opcode(), 0x29);
    assert_eq!(Instruction::ColumnAddressSet.opcode(), 0x2A);
    assert_eq!(Instruction::RowAddressSet.opcode(), 0x2B);
    assert_eq!(Instruction::MemoryWrite.opcode(), 0x2C);
    assert_eq!(Instruction::MemoryAccessControl.opcode(), 0x36);
    assert_eq!(Instruction::InterRegisterEnable1.opcode(), 0xFE);
    assert_eq!(Instruction::InterRegisterEnable2.opcode(), 0xEF);
    assert_eq!(Instruction::Cmd91.opcode(), 0x91);
}

#[test]
fn orientation_register_values() {
    assert_eq!(Orientation::Portrait.register_value(), 0x00);
    assert_eq!(Orientation::Landscape.register_value(), 0x60);
    assert_eq!(Orientation::PortraitSwapped.register_value(), 0x80);
    assert_eq!(Orientation::LandscapeSwapped.register_value(), 0xA0);
}

#[test]
fn new_keeps_config_and_buffer() {
    let d = driver_with(panel(60, 160, 1, 2), 64);
    assert_eq!(d.buffer_len(), 64);
    assert_eq!(d.config().width, 60);
    assert_eq!(d.config().dy, 2);
}

#[test]
fn resume_without_operation_finishes() {
    let mut d = driver_with(panel(4, 4, 0, 0), 8);
    assert!(matches!(d.resume(Event::<u32, u32>::Done), Ok(None)));
    assert!(matches!(d.resume(Event::<u32, u32>::BusFailed(9)), Err(Error::Bus(9))));
    assert!(matches!(d.resume(Event::<u32, u32>::PinFailed(8)), Err(Error::Pin(8))));
}

#[test]
fn reset_sequence() {
    let mut d = driver_with(panel(4, 4, 0, 0), 8);
    let first = d.reset();
    let (seen, result) = drive(&mut d, first, &[], None);
    assert!(result.is_ok());
    assert_eq!(seen, vec![Seen::RstLow, Seen::Delay(10), Seen::RstHigh, Seen::Delay(120)]);
}

#[test]
fn reset_pin_failure_aborts() {
    let mut d = driver_with(panel(4, 4, 0, 0), 8);
    let first = d.reset();
    let (seen, result) = drive(&mut d, first, &[], Some(0));
    assert!(matches!(result, Err(Error::Pin(200))));
    assert_eq!(seen, vec![Seen::RstLow]);
    let first = d.reset();
    let (seen, result) = drive(&mut d, first, &[], Some(1));
    assert!(matches!(result, Err(Error::Pin(201))));
    assert_eq!(seen, vec![Seen::RstLow, Seen::Delay(10), Seen::RstHigh]);
}

#[test]
fn command_without_params_is_one_write() {
    let mut d = driver_with(panel(4, 4, 0, 0), 8);
    let first = d.write_command(Instruction::SleepOut, &[]);
    let (seen, result) = drive(&mut d, first, &[], None);
    assert!(result.is_ok());
    assert_eq!(seen, vec![Seen::DcLow, Seen::Write(vec![0x11])]);
}

#[test]
fn command_with_params_has_two_phases() {
    let mut d = driver_with(panel(4, 4, 0, 0), 8);
    let first = d.write_command(Instruction::Cmd93, &[0x33, 0x7F, 0x00]);
    let (seen, result) = drive(&mut d, first, &[], None);
    assert!(result.is_ok());
    assert_eq!(
        seen,
        vec![Seen::DcLow, Seen::Write(vec![0x93]), Seen::DcHigh, Seen::Write(vec![0x33, 0x7F, 0x00])]
    );
}

#[test]
fn command_failures() {
    let mut d = driver_with(panel(4, 4, 0, 0), 8);
    let first = d.write_command(Instruction::Cmd93, &[1, 2]);
    let (seen, result) = drive(&mut d, first, &[], Some(0));
    assert!(matches!(result, Err(Error::Pin(200))));
    assert_eq!(seen, vec![Seen::DcLow]);

    let first = d.write_command(Instruction::Cmd93, &[1, 2]);
    let (seen, result) = drive(&mut d, first, &[0], None);
    assert!(matches!(result, Err(Error::Bus(100))));
    assert_eq!(seen, vec![Seen::DcLow, Seen::Write(vec![0x93])]);

    let first = d.write_command(Instruction::Cmd93, &[1, 2]);
    let (seen, result) = drive(&mut d, first, &[], Some(1));
    assert!(matches!(result, Err(Error::Pin(201))));
    assert_eq!(seen, vec![Seen::DcLow, Seen::Write(vec![0x93]), Seen::DcHigh]);

    let first = d.write_command(Instruction::Cmd93, &[1, 2]);
    let (seen, result) = drive(&mut d, first, &[1], None);
    assert!(matches!(result, Err(Error::Bus(101))));
    assert_eq!(seen.len(), 4);

    // The driver is usable again after a failure.
    let first = d.write_command(Instruction::DisplayOn, &[]);
    let (seen, result) = drive(&mut d, first, &[], None);
    assert!(result.is_ok());
    assert_eq!(seen, vec![Seen::DcLow, Seen::Write(vec![0x29])]);
}

fn init_trace(orientation: Orientation) -> Vec<Seen> {
    let mut config = panel(60, 160, 0, 0);
    config.orientation = orientation;
    let mut d = driver_with(config, 8);
    let first = d.init();
    let (seen, result) = drive(&mut d, first, &[], None);
    assert!(result.is_ok());
    seen
}

fn madctl_param(seen: &[Seen]) -> Vec<u8> {
    let at = seen.iter().position(|s| *s == Seen::Write(vec![0x36])).unwrap();
    assert_eq!(at, 245);
    assert_eq!(seen[at - 1], Seen::DcLow);
    assert_eq!(seen[at + 1], Seen::DcHigh);
    match &seen[at + 2] {
        Seen::Write(b) => b.clone(),
        other => panic!("no parameter write: {:?}", other),
    }
}

#[test]
fn init_sets_orientation_portrait() {
    assert_eq!(madctl_param(&init_trace(Orientation::Portrait)), vec![0x00]);
}

#[test]
fn init_sets_orientation_landscape() {
    assert_eq!(madctl_param(&init_trace(Orientation::Landscape)), vec![0x60]);
}

#[test]
fn init_sets_orientation_portrait_swapped() {
    assert_eq!(madctl_param(&init_trace(Orientation::PortraitSwapped)), vec![0x80]);
}

#[test]
fn init_sets_orientation_landscape_swapped() {
    assert_eq!(madctl_param(&init_trace(Orientation::LandscapeSwapped)), vec![0xA0]);
}

#[test]
fn init_program_in_order() {
    let seen = init_trace(Orientation::Landscape);
    assert_eq!(seen.len(), 257);
    assert_eq!(&seen[..4], &[Seen::RstLow, Seen::Delay(10), Seen::RstHigh, Seen::Delay(120)]);
    assert_eq!(
        &seen[4..8],
        &[Seen::DcLow, Seen::Write(vec![0xFE]), Seen::DcLow, Seen::Write(vec![0xEF])]
    );
    // The sixteen bank-enable writes, 0x80 to 0x8F, each with 0xFF.
    for i in 0..16usize {
        let at = 8 + 4 * i;
        assert_eq!(
            &seen[at..at + 4],
            &[
                Seen::DcLow,
                Seen::Write(vec![0x80 + i as u8]),
                Seen::DcHigh,
                Seen::Write(vec![0xFF])
            ]
        );
    }
    assert_eq!(seen[73], Seen::Write(vec![0x3A]));
    assert_eq!(seen[75], Seen::Write(vec![0x05]));
    let opcodes: Vec<u8> = seen
        .iter()
        .enumerate()
        .filter_map(|(i, s)| match s {
            Seen::Write(b) if i > 0 && seen[i - 1] == Seen::DcLow => Some(b[0]),
            _ => None,
        })
        .collect();
    let expected: Vec<u8> = vec![
        0xFE, 0xEF, 0x80, 0x81, 0x82, 0x83, 0x84, 0x85, 0x86, 0x87, 0x88, 0x89, 0x8A, 0x8B, 0x8C,
        0x8D, 0x8E, 0x8F, 0x3A, 0x7E, 0x74, 0x98, 0x99, 0xB5, 0x60, 0x63, 0x64, 0x66, 0x6A, 0x68,
        0x6C, 0x6E, 0xA9, 0xA8, 0xA8, 0xA7, 0xAD, 0xAF, 0xAF, 0xAC, 0xA3, 0xCB, 0xCD, 0xC2, 0xC5,
        0xC6, 0xC7, 0xC8, 0xBF, 0xF9, 0x9B, 0x93, 0x70, 0x71, 0x91, 0xC3, 0xC4, 0xF0, 0xF2, 0xF1,
        0xF3, 0x36, 0xB6, 0x11, 0x29,
    ];
    assert_eq!(opcodes, expected);
    let n = seen.len();
    assert_eq!(
        &seen[n - 9..],
        &[
            Seen::DcLow,
            Seen::Write(vec![0xB6]),
            Seen::DcHigh,
            Seen::Write(vec![0x0A, 0x80, 0x27, 0x00]),
            Seen::DcLow,
            Seen::Write(vec![0x11]),
            Seen::Delay(200),
            Seen::DcLow,
            Seen::Write(vec![0x29]),
        ]
    );
}

#[test]
fn init_parameter_blocks() {
    let seen = init_trace(Orientation::Landscape);
    let param_of = |opcode: u8| -> Vec<u8> {
        let at = seen.iter().position(|s| *s == Seen::Write(vec![opcode])).unwrap();
        match &seen[at + 2] {
            Seen::Write(b) => b.clone(),
            other => panic!("no parameter write: {:?}", other),
        }
    };
    assert_eq!(param_of(0x74), vec![0x02, 0x0E, 0x00, 0x00, 0x28, 0x00, 0x00]);
    assert_eq!(param_of(0xB5), vec![0x0E, 0x0E]);
    assert_eq!(param_of(0x63), vec![0x38, 0xAD, 0x6D, 0x67, 0x05]);
    assert_eq!(
        param_of(0x6E),
        vec![
            0x00, 0x00, 0x00, 0x00, 0x07, 0x01, 0x13, 0x11, 0x0B, 0x09, 0x16, 0x15, 0x1D, 0x1E,
            0x00, 0x00, 0x00, 0x00, 0x1E, 0x1D, 0x15, 0x16, 0x0A, 0x0C, 0x12, 0x14, 0x02, 0x08,
            0x00, 0x00, 0x00, 0x00,
        ]
    );
    assert_eq!(param_of(0xF0), vec![0x51, 0x13, 0x0C, 0x06, 0x00, 0x2F]);
    assert_eq!(param_of(0xF2), vec![0x51, 0x13, 0x0C, 0x06, 0x00, 0x33]);
    assert_eq!(param_of(0xF1), vec![0x3C, 0x94, 0x4F, 0x33, 0x34, 0xCF]);
    assert_eq!(param_of(0xF3), vec![0x4D, 0x94, 0x4F, 0x33, 0x34, 0xCF]);
    assert_eq!(param_of(0xC3), vec![0x2C]);
    assert_eq!(param_of(0xC4), vec![0x1A]);
}

#[test]
fn init_aborts_on_first_failure() {
    let mut d = driver_with(panel(60, 160, 0, 0), 8);
    let first = d.init();
    let (seen, result) = drive(&mut d, first, &[2], None);
    assert!(matches!(result, Err(Error::Bus(102))));
    // reset (4), two bare commands (4), select low and the third opcode.
    assert_eq!(seen.len(), 10);
    assert_eq!(seen[9], Seen::Write(vec![0x80]));

    let first = d.init();
    let (seen, result) = drive(&mut d, first, &[], Some(1));
    assert!(matches!(result, Err(Error::Pin(201))));
    assert_eq!(seen, vec![Seen::RstLow, Seen::Delay(10), Seen::RstHigh]);
}

#[test]
fn address_window_with_offsets() {
    let config = panel(60, 160, 5, 3);
    assert!(config.can_reach(1, 2, 300, 400));
    let mut d = driver_with(config, 8);
    let first = d.set_address_window(1, 2, 300, 400);
    let (seen, result) = drive(&mut d, first, &[], None);
    assert!(result.is_ok());
    assert_eq!(
        seen,
        vec![
            Seen::DcLow,
            Seen::Write(vec![0x2B]),
            Seen::DcHigh,
            Seen::Write(vec![0x00, 0x06, 0x01, 0x31]),
            Seen::DcLow,
            Seen::Write(vec![0x2A]),
            Seen::DcHigh,
            Seen::Write(vec![0x00, 0x05, 0x01, 0x93]),
        ]
    );
}

#[test]
fn address_window_out_of_panel_is_forwarded() {
    let mut d = driver_with(panel(4, 4, 0, 0), 8);
    let first = d.set_address_window(1000, 2000, 0xFFFF, 0xABCD);
    let (seen, result) = drive(&mut d, first, &[], None);
    assert!(result.is_ok());
    assert_eq!(seen[3], Seen::Write(vec![0x03, 0xE8, 0xFF, 0xFF]));
    assert_eq!(seen[7], Seen::Write(vec![0x07, 0xD0, 0xAB, 0xCD]));
}

#[test]
fn address_window_first_error_wins() {
    let mut d = driver_with(panel(4, 4, 0, 0), 8);
    let first = d.set_address_window(0, 0, 1, 1);
    let (seen, result) = drive(&mut d, first, &[1], None);
    assert!(matches!(result, Err(Error::Bus(101))));
    assert_eq!(seen.len(), 4);
}

#[test]
fn fill_color_chunks_default_panel() {
    let config = Config::default();
    let mut d = driver_with(config, BUF_SIZE);
    let first = d.fill_color(color(0x1234));
    let (seen, result) = drive(&mut d, first, &[], None);
    assert!(result.is_ok());
    assert_eq!(&seen[..11], &window_and_start([0, 0, 0, 59], [0, 0, 0, 159])[..]);
    let data = writes_of(&seen[11..]);
    assert_eq!(seen.len(), 11 + data.len());
    // 9600 pixels in chunks of 1152: nine writes, the last of 384 pixels.
    assert_eq!(data.len(), 9);
    for chunk in &data[..8] {
        assert_eq!(chunk.len(), 2304);
    }
    assert_eq!(data[8].len(), 768);
    let total: usize = data.iter().map(|c| c.len()).sum();
    assert_eq!(total, 60 * 160 * 2);
    for chunk in &data {
        for pair in chunk.chunks(2) {
            assert_eq!(pair, &[0x12, 0x34]);
        }
    }
}

#[test]
fn fill_color_last_chunk_is_remainder() {
    let mut d = driver_with(panel(3, 3, 2, 1), 8);
    let first = d.fill_color(color(0xABCD));
    let (seen, result) = drive(&mut d, first, &[], None);
    assert!(result.is_ok());
    assert_eq!(&seen[..11], &window_and_start([0, 2, 0, 4], [0, 1, 0, 3])[..]);
    let data = writes_of(&seen[11..]);
    assert_eq!(
        data,
        vec![
            vec![0xAB, 0xCD, 0xAB, 0xCD, 0xAB, 0xCD, 0xAB, 0xCD],
            vec![0xAB, 0xCD, 0xAB, 0xCD, 0xAB, 0xCD, 0xAB, 0xCD],
            vec![0xAB, 0xCD],
        ]
    );
}

#[test]
fn fill_color_exact_multiple() {
    let mut d = driver_with(panel(4, 2, 0, 0), 8);
    let first = d.fill_color_raw(0x0001);
    let (seen, result) = drive(&mut d, first, &[], None);
    assert!(result.is_ok());
    let data = writes_of(&seen[11..]);
    assert_eq!(data.len(), 2);
    assert_eq!(data[0].len(), 8);
    assert_eq!(data[1].len(), 8);
}

#[test]
fn fill_color_stops_at_first_bus_failure() {
    let mut d = driver_with(panel(4, 4, 0, 0), 8);
    let first = d.fill_color(color(0xFFFF));
    // Bus writes 0 to 4 are the header; 5 is the first chunk, 6 the second.
    let (seen, result) = drive(&mut d, first, &[6], None);
    assert!(matches!(result, Err(Error::Bus(106))));
    assert_eq!(writes_of(&seen[11..]).len(), 2);
    assert_eq!(seen.len(), 13);
}

#[test]
fn fill_color_pin_failure_before_data() {
    let mut d = driver_with(panel(4, 4, 0, 0), 8);
    let first = d.fill_color(color(0xFFFF));
    // Line changes: four for the window, one for the command, then the data phase.
    let (seen, result) = drive(&mut d, first, &[], Some(5));
    assert!(matches!(result, Err(Error::Pin(205))));
    assert_eq!(seen.len(), 11);
}

#[test]
fn pure_red_goes_out_high_byte_first() {
    let red = Rgb565::new(31, 0, 0);
    assert_eq!(RawU16::from(red).into_inner(), 0xF800);
    let mut d = driver_with(panel(2, 1, 0, 0), 8);
    let first = d.fill_color(red);
    let (seen, result) = drive(&mut d, first, &[], None);
    assert!(result.is_ok());
    assert_eq!(writes_of(&seen[11..]), vec![vec![0xF8, 0x00, 0xF8, 0x00]]);

    let first = d.write_area(0, 0, 1, 1, &[red]);
    let (seen, result) = drive(&mut d, first, &[], None);
    assert!(result.is_ok());
    assert_eq!(writes_of(&seen[11..]), vec![vec![0xF8, 0x00]]);
}

#[test]
fn raw_values_go_out_high_byte_first() {
    let mut d = driver_with(panel(2, 1, 0, 0), 8);
    let first = d.fill_color_raw(0xF800);
    let (seen, result) = drive(&mut d, first, &[], None);
    assert!(result.is_ok());
    assert_eq!(writes_of(&seen[11..]), vec![vec![0xF8, 0x00, 0xF8, 0x00]]);

    let first = d.write_area_raw(0, 0, 2, 1, &[0xF800, 0x07E0]);
    let (seen, result) = drive(&mut d, first, &[], None);
    assert!(result.is_ok());
    assert_eq!(writes_of(&seen[11..]), vec![vec![0xF8, 0x00, 0x07, 0xE0]]);
}

#[test]
fn colours_are_sent_as_stored() {
    // Green at full strength and a mixed colour: five, six and five bits from the top.
    let mut d = driver_with(panel(2, 1, 0, 0), 8);
    let first = d.write_area(0, 0, 2, 1, &[Rgb565::new(0, 63, 0), Rgb565::new(1, 2, 3)]);
    let (seen, result) = drive(&mut d, first, &[], None);
    assert!(result.is_ok());
    assert_eq!(writes_of(&seen[11..]), vec![vec![0x07, 0xE0, 0x08, 0x43]]);
}

#[test]
fn write_area_streams_pixels() {
    let config = panel(60, 160, 5, 3);
    assert!(config.can_hold_area(10, 20, 3, 2));
    let mut d = driver_with(config, 4);
    let data = colors(&[0x0102u16, 0x0304, 0x0506, 0x0708, 0x090A, 0x0B0C]);
    let first = d.write_area(10, 20, 3, 2, &data);
    let (seen, result) = drive(&mut d, first, &[], None);
    assert!(result.is_ok());
    assert_eq!(&seen[..11], &window_and_start([0, 15, 0, 17], [0, 23, 0, 24])[..]);
    assert_eq!(
        writes_of(&seen[11..]),
        vec![vec![1, 2, 3, 4], vec![5, 6, 7, 8], vec![9, 10, 11, 12]]
    );
    assert_eq!(seen.len(), 14);
}

#[test]
fn write_area_short_data_sends_what_is_given() {
    let mut d = driver_with(panel(60, 160, 0, 0), 4);
    let data = colors(&[0x1111u16, 0x2222, 0x3333, 0x4444, 0x5555]);
    let first = d.write_area(0, 0, 4, 4, &data);
    let (seen, result) = drive(&mut d, first, &[], None);
    assert!(result.is_ok());
    let chunks = writes_of(&seen[11..]);
    assert_eq!(
        chunks,
        vec![vec![0x11, 0x11, 0x22, 0x22], vec![0x33, 0x33, 0x44, 0x44], vec![0x55, 0x55]]
    );
}

#[test]
fn write_area_without_pixels_sends_header_only() {
    let mut d = driver_with(panel(60, 160, 0, 0), 4);
    let first = d.write_area(0, 0, 4, 4, &[]);
    let (seen, result) = drive(&mut d, first, &[], None);
    assert!(result.is_ok());
    assert_eq!(seen, window_and_start([0, 0, 0, 3], [0, 0, 0, 3]));
}

#[test]
fn write_area_goes_on_after_bus_failure() {
    let mut d = driver_with(panel(60, 160, 0, 0), 4);
    let data = colors(&[1u16, 2, 3, 4, 5, 6, 7]);
    let first = d.write_area(0, 0, 7, 1, &data);
    // Bus writes 5, 6, 7, 8 are the four chunks.
    let (seen, result) = drive(&mut d, first, &[6, 7], None);
    assert!(matches!(result, Err(Error::Bus(106))));
    assert_eq!(writes_of(&seen[11..]).len(), 4);

    let first = d.write_area(0, 0, 7, 1, &data);
    let (seen, result) = drive(&mut d, first, &[8], None);
    assert!(matches!(result, Err(Error::Bus(108))));
    assert_eq!(writes_of(&seen[11..]).len(), 4);

    // Nothing of the failure is left for the next operation.
    let first = d.write_area(0, 0, 7, 1, &data);
    let (_, result) = drive(&mut d, first, &[], None);
    assert!(result.is_ok());
}

#[test]
fn write_area_header_failure_aborts() {
    let mut d = driver_with(panel(60, 160, 0, 0), 4);
    let data = colors(&[1u16, 2, 3]);
    let first = d.write_area(0, 0, 3, 1, &data);
    let (seen, result) = drive(&mut d, first, &[4], None);
    assert!(matches!(result, Err(Error::Bus(104))));
    assert_eq!(seen.len(), 10);

    let first = d.write_area(0, 0, 3, 1, &data);
    let (seen, result) = drive(&mut d, first, &[], Some(5));
    assert!(matches!(result, Err(Error::Pin(205))));
    assert_eq!(seen.len(), 11);
}

struct Instant;

impl Timer for Instant {
    fn after_millis(_milliseconds: u64) {}
}

fn wait_all<T: Timer>(delays: &[u64]) -> u64 {
    let mut total = 0;
    for ms in delays {
        T::after_millis(*ms);
        total += *ms;
    }
    total
}

#[test]
fn timer_is_implementable() {
    let mut d = driver_with(panel(4, 4, 0, 0), 8);
    let first = d.reset();
    let (seen, _) = drive(&mut d, first, &[], None);
    let delays: Vec<u64> = seen
        .iter()
        .filter_map(|s| match s {
            Seen::Delay(ms) => Some(*ms),
            _ => None,
        })
        .collect();
    assert_eq!(wait_all::<Instant>(&delays), 130);
}
