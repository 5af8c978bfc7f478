use airqual::sensor_reading::PlantowerFrame;

/// A frame whose thirteen 16-bit fields are `fields`, with the right
/// header and checksum.
fn raw_frame(fields: [u16; 13], reserved: [u8; 2]) -> [u8; 32] {
    let mut raw = [0u8; 32];
    raw[0] = 0x42;
    raw[1] = 0x4D;
    for (i, value) in fields.iter().enumerate() {
        raw[2 + 2 * i] = (value >> 8) as u8;
        raw[3 + 2 * i] = (value & 0xFF) as u8;
    }
    raw[28] = reserved[0];
    raw[29] = reserved[1];
    let sum: u32 = raw[..30].iter().map(|&b| b as u32).sum();
    raw[30] = ((sum >> 8) & 0xFF) as u8;
    raw[31] = (sum & 0xFF) as u8;
    raw
}

fn sample_fields() -> [u16; 13] {
    [28, 0x0102, 0x0304, 0x0506, 0x0708, 0x090A, 0x0B0C, 0x0D0E, 0x0F10, 0x1112, 0x1314, 0x1516, 0x1718]
}

#[test]
fn parse_reads_every_field_big_endian() {
    let raw = raw_frame(sample_fields(), [0xAA, 0xBB]);
    let frame = PlantowerFrame::parse(&raw).expect("valid frame");
    assert_eq!(frame.header, [0x42, 0x4D]);
    assert_eq!(frame.length, 28);
    assert_eq!(frame.pm1_0_std, 0x0102);
    assert_eq!(frame.pm2_5_std, 0x0304);
    assert_eq!(frame.pm10_std, 0x0506);
    assert_eq!(frame.pm1_0_atm, 0x0708);
    assert_eq!(frame.pm2_5_atm, 0x090A);
    assert_eq!(frame.pm10_atm, 0x0B0C);
    assert_eq!(frame.counts_0_3, 0x0D0E);
    assert_eq!(frame.counts_0_5, 0x0F10);
    assert_eq!(frame.counts_1_0, 0x1112);
    assert_eq!(frame.counts_2_5, 0x1314);
    assert_eq!(frame.counts_5_0, 0x1516);
    assert_eq!(frame.counts_10_0, 0x1718);
    assert_eq!(frame.reserved, [0xAA, 0xBB]);
    let sum: u32 = raw[..30].iter().map(|&b| b as u32).sum();
    assert_eq!(frame.checksum as u32, sum);
}

#[test]
fn parse_distinguishes_high_and_low_byte() {
    let mut fields = [0u16; 13];
    fields[5] = 0x0100;
    fields[6] = 0x0001;
    let frame = PlantowerFrame::parse(&raw_frame(fields, [0, 0])).expect("valid frame");
    assert_eq!(frame.pm2_5_atm, 256);
    assert_eq!(frame.pm10_atm, 1);
}

#[test]
fn parse_rejects_a_wrong_first_header_byte() {
    let mut raw = raw_frame(sample_fields(), [0, 0]);
    raw[0] = 0x43;
    assert_eq!(PlantowerFrame::parse(&raw), None);
}

#[test]
fn parse_rejects_a_wrong_second_header_byte() {
    let mut raw = raw_frame(sample_fields(), [0, 0]);
    raw[1] = 0x4C;
    assert_eq!(PlantowerFrame::parse(&raw), None);
}

#[test]
fn parse_rejects_a_wrong_header_even_with_matching_checksum() {
    let mut raw = [0u8; 32];
    raw[0] = 0x4D;
    raw[1] = 0x42;
    raw[31] = 0x8F;
    assert_eq!(PlantowerFrame::parse(&raw), None);
}

#[test]
fn parse_rejects_the_all_zero_block() {
    assert_eq!(PlantowerFrame::parse(&[0u8; 32]), None);
}

#[test]
fn parse_rejects_a_checksum_that_is_off_by_one() {
    let mut raw = raw_frame(sample_fields(), [0, 0]);
    raw[31] = raw[31].wrapping_add(1);
    assert_eq!(PlantowerFrame::parse(&raw), None);
}

#[test]
fn parse_rejects_a_checksum_with_swapped_bytes() {
    let mut raw = raw_frame(sample_fields(), [0, 0]);
    assert_ne!(raw[30], raw[31]);
    raw.swap(30, 31);
    assert_eq!(PlantowerFrame::parse(&raw), None);
}

#[test]
fn parse_accepts_the_smallest_frame() {
    let raw = raw_frame([0; 13], [0, 0]);
    assert_eq!(raw[30], 0x00);
    assert_eq!(raw[31], 0x8F);
    let frame = PlantowerFrame::parse(&raw).expect("valid frame");
    assert_eq!(frame.checksum, 0x008F);
    assert_eq!(frame.pm2_5_atm, 0);
}

#[test]
fn parse_accepts_the_largest_checksum() {
    let raw = raw_frame([0xFFFF; 13], [0xFF, 0xFF]);
    let frame = PlantowerFrame::parse(&raw).expect("valid frame");
    assert_eq!(frame.checksum, 0x42 + 0x4D + 28 * 255);
    assert_eq!(frame.checksum, 0x1C73);
    assert_eq!(frame.counts_10_0, 0xFFFF);
}

#[test]
fn parse_covers_the_reserved_bytes_with_the_checksum() {
    let mut raw = raw_frame(sample_fields(), [0, 0]);
    raw[29] = 1;
    assert_eq!(PlantowerFrame::parse(&raw), None);
    raw[31] = raw[31].wrapping_add(1);
    assert!(PlantowerFrame::parse(&raw).is_some());
}

#[test]
fn decode_scenario_valid_frame_then_one_flipped_bit() {
    let mut fields = [0u16; 13];
    for (i, field) in fields.iter_mut().enumerate() {
        *field = 100 + 11 * i as u16;
    }
    fields[0] = 28;
    let raw = raw_frame(fields, [0x00, 0x00]);
    let frame = PlantowerFrame::parse(&raw).expect("valid frame");
    assert_eq!(frame.pm2_5_atm, fields[5]);
    assert_eq!(frame.pm2_5_atm, 155);
    for byte in 2..30 {
        for bit in 0..8 {
            let mut flipped = raw;
            flipped[byte] ^= 1 << bit;
            assert_eq!(PlantowerFrame::parse(&flipped), None, "byte {} bit {}", byte, bit);
        }
    }
}

#[test]
fn parse_is_repeatable() {
    let raw = raw_frame(sample_fields(), [1, 2]);
    assert_eq!(PlantowerFrame::parse(&raw), PlantowerFrame::parse(&raw));
}

/// The decoder against a plain reading of the frame layout, on
/// pseudo-random blocks, a third of them with header and checksum set
/// right.
#[test]
fn parse_agrees_with_the_frame_layout_on_random_blocks() {
    let mut state: u32 = 12345;
    let mut accepted = 0;
    for round in 0..3000 {
        let mut raw = [0u8; 32];
        for byte in raw.iter_mut() {
            state = state.wrapping_mul(1_103_515_245).wrapping_add(12345);
            *byte = (state >> 16) as u8;
        }
        if round % 3 != 0 {
            raw[0] = 0x42;
            raw[1] = 0x4D;
        }
        if round % 3 == 1 {
            let sum: u32 = raw[..30].iter().map(|&b| b as u32).sum();
            raw[30] = (sum >> 8) as u8;
            raw[31] = (sum & 0xFF) as u8;
        }
        let sum: u32 = raw[..30].iter().map(|&b| b as u32).sum();
        let valid = raw[0] == 0x42
            && raw[1] == 0x4D
            && (sum % 65536) as u16 == u16::from_be_bytes([raw[30], raw[31]]);
        match PlantowerFrame::parse(&raw) {
            None => assert!(!valid),
            Some(frame) => {
                assert!(valid);
                accepted += 1;
                let field = |at: usize| u16::from_be_bytes([raw[at], raw[at + 1]]);
                assert_eq!(frame.header, [raw[0], raw[1]]);
                assert_eq!(frame.length, field(2));
                assert_eq!(frame.pm1_0_std, field(4));
                assert_eq!(frame.pm2_5_std, field(6));
                assert_eq!(frame.pm10_std, field(8));
                assert_eq!(frame.pm1_0_atm, field(10));
                assert_eq!(frame.pm2_5_atm, field(12));
                assert_eq!(frame.pm10_atm, field(14));
                assert_eq!(frame.counts_0_3, field(16));
                assert_eq!(frame.counts_0_5, field(18));
                assert_eq!(frame.counts_1_0, field(20));
                assert_eq!(frame.counts_2_5, field(22));
                assert_eq!(frame.counts_5_0, field(24));
                assert_eq!(frame.counts_10_0, field(26));
                assert_eq!(frame.reserved, [raw[28], raw[29]]);
                assert_eq!(frame.checksum, field(30));
            }
        }
    }
    assert!(accepted >= 1000);
}
