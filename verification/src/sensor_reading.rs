//! The particulate sensor's measurement frame and its decoder.
//!
//! A frame is a block of 32 bytes: a two-byte magic header, thirteen
//! big-endian 16-bit fields, two reserved bytes and a trailing big-endian
//! 16-bit checksum over the thirty bytes that precede it.

use vstd::prelude::*;
use zerocopy::byteorder::network_endian::U16;

verus! {

/// Size of one raw frame in bytes.
pub const FRAME_LEN: usize = 32;

/// Number of leading bytes that the checksum covers.
pub const CHECKED_LEN: usize = 30;

/// First byte of every frame (`'B'`).
pub const MAGIC_HIGH: u8 = 0x42;

/// Second byte of every frame (`'M'`).
pub const MAGIC_LOW: u8 = 0x4D;

/// One decoded measurement. Every 16-bit field holds the value that the
/// sensor transmitted big-endian at the field's place in the frame.
#[derive(Clone, Copy, Debug, PartialEq, Eq)]
pub struct PlantowerFrame {
    pub header: [u8; 2],
    pub length: u16,
    pub pm1_0_std: u16,
    pub pm2_5_std: u16,
    pub pm10_std: u16,
    pub pm1_0_atm: u16,
    pub pm2_5_atm: u16,
    pub pm10_atm: u16,
    pub counts_0_3: u16,
    pub counts_0_5: u16,
    pub counts_1_0: u16,
    pub counts_2_5: u16,
    pub counts_5_0: u16,
    pub counts_10_0: u16,
    pub reserved: [u8; 2],
    pub checksum: u16,
}

/// The number whose big-endian encoding is the byte pair `(high, low)`.
pub open spec fn big_endian(high: u8, low: u8) -> int {
    high as int * 256 + low as int
}

/// The 16-bit field that starts at byte `at` of `raw`.
pub open spec fn field_at(raw: Seq<u8>, at: int) -> u16 {
    big_endian(raw[at], raw[at + 1]) as u16
}

/// Sum of all bytes of `bytes`, as a mathematical integer.
pub open spec fn byte_sum(bytes: Seq<u8>) -> int
    decreases bytes.len(),
{
    if bytes.len() == 0 {
        0
    } else {
        byte_sum(bytes.drop_last()) + bytes.last() as int
    }
}

/// The checksum that a frame with these bytes must carry: the sum of its
/// first thirty bytes, modulo 2^16.
pub open spec fn expected_checksum(raw: Seq<u8>) -> int {
    byte_sum(raw.take(CHECKED_LEN as int)) % 0x1_0000
}

/// The frame opens with the magic header.
pub open spec fn header_matches(raw: Seq<u8>) -> bool {
    raw[0] == MAGIC_HIGH && raw[1] == MAGIC_LOW
}

/// The trailing checksum field equals the checksum of the bytes before it.
pub open spec fn checksum_matches(raw: Seq<u8>) -> bool {
    field_at(raw, 30) as int == expected_checksum(raw)
}

/// The field-by-field reading of a raw frame, whether or not it is valid.
pub open spec fn decoded(raw: Seq<u8>) -> PlantowerFrame {
    PlantowerFrame {
        header: [raw[0], raw[1]],
        length: field_at(raw, 2),
        pm1_0_std: field_at(raw, 4),
        pm2_5_std: field_at(raw, 6),
        pm10_std: field_at(raw, 8),
        pm1_0_atm: field_at(raw, 10),
        pm2_5_atm: field_at(raw, 12),
        pm10_atm: field_at(raw, 14),
        counts_0_3: field_at(raw, 16),
        counts_0_5: field_at(raw, 18),
        counts_1_0: field_at(raw, 20),
        counts_2_5: field_at(raw, 22),
        counts_5_0: field_at(raw, 24),
        counts_10_0: field_at(raw, 26),
        reserved: [raw[28], raw[29]],
        checksum: field_at(raw, 30),
    }
}

/// What decoding a raw frame yields: its reading if the header and the
/// checksum are right, nothing otherwise.
pub open spec fn parsed(raw: Seq<u8>) -> Option<PlantowerFrame> {
    if header_matches(raw) && checksum_matches(raw) {
        Some(decoded(raw))
    } else {
        None
    }
}

/// The more significant byte of `value`.
pub open spec fn high_byte(value: u16) -> u8 {
    (value / 256) as u8
}

/// The less significant byte of `value`.
pub open spec fn low_byte(value: u16) -> u8 {
    (value % 256) as u8
}

impl PlantowerFrame {
    /// The thirty bytes of this reading that the checksum covers, in the
    /// order in which the sensor sends them.
    pub open spec fn checked_bytes(self) -> Seq<u8> {
        seq![
            self.header[0],
            self.header[1],
            high_byte(self.length),
            low_byte(self.length),
            high_byte(self.pm1_0_std),
            low_byte(self.pm1_0_std),
            high_byte(self.pm2_5_std),
            low_byte(self.pm2_5_std),
            high_byte(self.pm10_std),
            low_byte(self.pm10_std),
            high_byte(self.pm1_0_atm),
            low_byte(self.pm1_0_atm),
            high_byte(self.pm2_5_atm),
            low_byte(self.pm2_5_atm),
            high_byte(self.pm10_atm),
            low_byte(self.pm10_atm),
            high_byte(self.counts_0_3),
            low_byte(self.counts_0_3),
            high_byte(self.counts_0_5),
            low_byte(self.counts_0_5),
            high_byte(self.counts_1_0),
            low_byte(self.counts_1_0),
            high_byte(self.counts_2_5),
            low_byte(self.counts_2_5),
            high_byte(self.counts_5_0),
            low_byte(self.counts_5_0),
            high_byte(self.counts_10_0),
            low_byte(self.counts_10_0),
            self.reserved[0],
            self.reserved[1],
        ]
    }

    /// All thirty-two bytes of this reading as the sensor sends them.
    pub open spec fn encoded(self) -> Seq<u8> {
        self.checked_bytes().push(high_byte(self.checksum)).push(low_byte(self.checksum))
    }

    /// The reading is one that a sensor can have sent: it carries the
    /// magic header, and its checksum is that of its other bytes.
    pub open spec fn well_formed(self) -> bool {
        &&& self.header[0] == MAGIC_HIGH
        &&& self.header[1] == MAGIC_LOW
        &&& self.checksum as int == byte_sum(self.checked_bytes()) % 0x1_0000
    }
}

/// Reads a big-endian 16-bit number with `zerocopy`'s network-endian
/// `U16`: `U16::from_bytes` keeps the two bytes as they are given, and
/// `U16::get` returns the number that they are the big-endian encoding
/// of, `high * 256 + low`.
#[verifier::external_body]
fn network_u16(high: u8, low: u8) -> (value: u16)
    ensures
        value as int == big_endian(high, low),
{
    U16::from_bytes([high, low]).get()
}

/// The sum of at most thirty bytes stays far below 2^16.
pub proof fn lemma_byte_sum_bounds(bytes: Seq<u8>)
    ensures
        0 <= byte_sum(bytes) <= 255 * bytes.len(),
    decreases bytes.len(),
{
    if bytes.len() > 0 {
        lemma_byte_sum_bounds(bytes.drop_last());
    }
}

/// Adds up the first `CHECKED_LEN` bytes of a frame.
fn sum_checked_bytes(buffer: &[u8; 32]) -> (sum: u16)
    ensures
        sum as int == expected_checksum(buffer@),
{
    let mut sum: u16 = 0;
    let mut i: usize = 0;
    while i < CHECKED_LEN
        invariant
            i <= CHECKED_LEN,
            sum as int == byte_sum(buffer@.take(i as int)),
            sum as int <= 255 * i,
        decreases CHECKED_LEN - i,
    {
        proof {
            assert(buffer@.take(i + 1).drop_last() =~= buffer@.take(i as int));
        }
        sum = sum + buffer[i] as u16;
        i = i + 1;
    }
    proof {
        lemma_byte_sum_bounds(buffer@.take(CHECKED_LEN as int));
    }
    sum
}

/// The two bytes of a 16-bit field are the bytes it was read from.
pub proof fn lemma_field_bytes(high: u8, low: u8)
    ensures
        high_byte(big_endian(high, low) as u16) == high,
        low_byte(big_endian(high, low) as u16) == low,
{
}

/// Decoding loses nothing: the bytes of the decoded reading are the
/// bytes of the raw frame, so a reading whose header and checksum were
/// accepted is well formed.
pub proof fn lemma_decoding_keeps_every_byte(raw: Seq<u8>)
    requires
        raw.len() == FRAME_LEN,
    ensures
        decoded(raw).encoded() == raw,
        decoded(raw).checked_bytes() == raw.take(CHECKED_LEN as int),
        header_matches(raw) && checksum_matches(raw) ==> decoded(raw).well_formed(),
{
    let frame = decoded(raw);
    lemma_field_bytes(raw[2], raw[3]);
    lemma_field_bytes(raw[4], raw[5]);
    lemma_field_bytes(raw[6], raw[7]);
    lemma_field_bytes(raw[8], raw[9]);
    lemma_field_bytes(raw[10], raw[11]);
    lemma_field_bytes(raw[12], raw[13]);
    lemma_field_bytes(raw[14], raw[15]);
    lemma_field_bytes(raw[16], raw[17]);
    lemma_field_bytes(raw[18], raw[19]);
    lemma_field_bytes(raw[20], raw[21]);
    lemma_field_bytes(raw[22], raw[23]);
    lemma_field_bytes(raw[24], raw[25]);
    lemma_field_bytes(raw[26], raw[27]);
    lemma_field_bytes(raw[30], raw[31]);
    assert(frame.encoded() =~= raw);
}

/// A 16-bit field is the big-endian number of its two bytes.
pub proof fn lemma_bytes_field(value: u16)
    ensures
        big_endian(high_byte(value), low_byte(value)) == value,
{
}

/// Every well-formed reading is what decoding its own bytes yields: the
/// decoder accepts all that a sensor can send, and two readings with the
/// same bytes are the same reading.
pub proof fn lemma_encoding_round_trips(frame: PlantowerFrame)
    requires
        frame.well_formed(),
    ensures
        frame.encoded().len() == FRAME_LEN,
        parsed(frame.encoded()) == Some(frame),
{
    let raw = frame.encoded();
    let back = decoded(raw);
    lemma_bytes_field(frame.length);
    lemma_bytes_field(frame.pm1_0_std);
    lemma_bytes_field(frame.pm2_5_std);
    lemma_bytes_field(frame.pm10_std);
    lemma_bytes_field(frame.pm1_0_atm);
    lemma_bytes_field(frame.pm2_5_atm);
    lemma_bytes_field(frame.pm10_atm);
    lemma_bytes_field(frame.counts_0_3);
    lemma_bytes_field(frame.counts_0_5);
    lemma_bytes_field(frame.counts_1_0);
    lemma_bytes_field(frame.counts_2_5);
    lemma_bytes_field(frame.counts_5_0);
    lemma_bytes_field(frame.counts_10_0);
    lemma_bytes_field(frame.checksum);
    assert(raw.take(CHECKED_LEN as int) =~= frame.checked_bytes());
    assert(back.header =~= frame.header);
    assert(back.reserved =~= frame.reserved);
}

/// Replacing one byte changes the sum by the difference of the two
/// bytes.
pub proof fn lemma_byte_sum_update(bytes: Seq<u8>, at: int, value: u8)
    requires
        0 <= at < bytes.len(),
    ensures
        byte_sum(bytes.update(at, value)) == byte_sum(bytes) - bytes[at] + value,
    decreases bytes.len(),
{
    if at == bytes.len() - 1 {
        assert(bytes.update(at, value).drop_last() =~= bytes.drop_last());
    } else {
        lemma_byte_sum_update(bytes.drop_last(), at, value);
        assert(bytes.update(at, value).drop_last() =~= bytes.drop_last().update(at, value));
    }
}

/// A valid frame in which any one byte was replaced by another value is
/// rejected; in particular no single flipped bit goes unnoticed.
pub proof fn lemma_one_wrong_byte_is_rejected(raw: Seq<u8>, at: int, value: u8)
    requires
        raw.len() == FRAME_LEN,
        parsed(raw) is Some,
        0 <= at < FRAME_LEN,
        value != raw[at],
    ensures
        parsed(raw.update(at, value)) is None,
{
    let damaged = raw.update(at, value);
    let covered = raw.take(CHECKED_LEN as int);
    lemma_byte_sum_bounds(covered);
    lemma_byte_sum_bounds(damaged.take(CHECKED_LEN as int));
    if 2 <= at < CHECKED_LEN {
        assert(damaged.take(CHECKED_LEN as int) =~= covered.update(at, value));
        lemma_byte_sum_update(covered, at, value);
    } else if at >= CHECKED_LEN {
        assert(damaged.take(CHECKED_LEN as int) =~= covered);
    }
}

impl PlantowerFrame {
    /// Decodes one raw frame. The result is a reading exactly when the
    /// frame opens with the magic header and carries the right checksum;
    /// its fields are then the big-endian numbers at their places in the
    /// frame. Any other input yields `None`.
    pub fn parse(buffer: &[u8; 32]) -> (reading: Option<Self>)
        ensures
            !header_matches(buffer@) ==> reading is None,
            header_matches(buffer@) && !checksum_matches(buffer@) ==> reading is None,
            header_matches(buffer@) && checksum_matches(buffer@) ==> reading == Some(
                decoded(buffer@),
            ),
            reading == parsed(buffer@),
            reading matches Some(frame) ==> frame.well_formed() && frame.encoded() == buffer@,
    {
        if buffer[0] != MAGIC_HIGH || buffer[1] != MAGIC_LOW {
            return None;
        }
        let frame = PlantowerFrame {
            header: [buffer[0], buffer[1]],
            length: network_u16(buffer[2], buffer[3]),
            pm1_0_std: network_u16(buffer[4], buffer[5]),
            pm2_5_std: network_u16(buffer[6], buffer[7]),
            pm10_std: network_u16(buffer[8], buffer[9]),
            pm1_0_atm: network_u16(buffer[10], buffer[11]),
            pm2_5_atm: network_u16(buffer[12], buffer[13]),
            pm10_atm: network_u16(buffer[14], buffer[15]),
            counts_0_3: network_u16(buffer[16], buffer[17]),
            counts_0_5: network_u16(buffer[18], buffer[19]),
            counts_1_0: network_u16(buffer[20], buffer[21]),
            counts_2_5: network_u16(buffer[22], buffer[23]),
            counts_5_0: network_u16(buffer[24], buffer[25]),
            counts_10_0: network_u16(buffer[26], buffer[27]),
            reserved: [buffer[28], buffer[29]],
            checksum: network_u16(buffer[30], buffer[31]),
        };
        if sum_checked_bytes(buffer) == frame.checksum {
            proof {
                lemma_decoding_keeps_every_byte(buffer@);
            }
            Some(frame)
        } else {
            None
        }
    }
}

} // verus!
