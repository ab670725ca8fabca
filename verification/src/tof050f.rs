use vstd::prelude::*;

verus! {

/// One shift of the Modbus CRC-16 register (reflected polynomial 0xA001).
pub open spec fn crc_shift(c: u16) -> u16 {
    if c & 1u16 == 1u16 {
        (c >> 1u16) ^ 0xA001u16
    } else {
        c >> 1u16
    }
}

/// The Modbus CRC-16 register after taking in one more byte.
pub open spec fn crc_byte(c: u16, b: u8) -> u16 {
    crc_shift(
        crc_shift(
            crc_shift(crc_shift(crc_shift(crc_shift(crc_shift(crc_shift(c ^ (b as u16))))))),
        ),
    )
}

/// The Modbus CRC-16 of a byte sequence (register starts at 0xFFFF).
pub open spec fn modbus_crc(bytes: Seq<u8>) -> u16
    decreases bytes.len(),
{
    if bytes.len() == 0 {
        0xFFFFu16
    } else {
        crc_byte(modbus_crc(bytes.drop_last()), bytes.last())
    }
}

/// A Modbus RTU frame: its last two bytes are the CRC-16 of the others,
/// low byte first.
pub open spec fn is_modbus_frame(frame: Seq<u8>) -> bool {
    &&& frame.len() >= 2
    &&& {
        let crc = modbus_crc(frame.take(frame.len() - 2));
        &&& frame[frame.len() - 2] == (crc & 0xFFu16) as u8
        &&& frame[frame.len() - 1] == (crc >> 8u16) as u8
    }
}

/// The bytes of the mode request.
pub open spec fn mode_request_frame() -> Seq<u8> {
    seq![0x01u8, 0x06u8, 0x00u8, 0x04u8, 0x00u8, 0x01u8, 0x09u8, 0xCBu8]
}

/// The bytes of the request that stops automatic sending.
pub open spec fn auto_send_off_frame() -> Seq<u8> {
    seq![0x01u8, 0x06u8, 0x00u8, 0x05u8, 0x00u8, 0x00u8, 0x99u8, 0xCBu8]
}

/// The bytes of the distance request.
pub open spec fn distance_request_frame() -> Seq<u8> {
    seq![0x01u8, 0x03u8, 0x00u8, 0x10u8, 0x00u8, 0x01u8, 0x85u8, 0xCFu8]
}

/// Request that puts the sensor in its measuring mode: write 1 to
/// register 0x0004 of device 1.
pub fn mode_request() -> (frame: [u8; 8])
    ensures
        frame@ == mode_request_frame(),
{
    [0x01, 0x06, 0x00, 0x04, 0x00, 0x01, 0x09, 0xCB]
}

/// Request that stops the sensor sending on its own: write 0 to register
/// 0x0005 of device 1.
pub fn auto_send_off_request() -> (frame: [u8; 8])
    ensures
        frame@ == auto_send_off_frame(),
{
    [0x01, 0x06, 0x00, 0x05, 0x00, 0x00, 0x99, 0xCB]
}

/// Request for one distance reading: read one register at 0x0010 of
/// device 1.
pub fn distance_request() -> (frame: [u8; 8])
    ensures
        frame@ == distance_request_frame(),
{
    [0x01, 0x03, 0x00, 0x10, 0x00, 0x01, 0x85, 0xCF]
}

/// The raw distance the driver reads from a 7-byte reply: byte 3 shifted
/// left by two, or-ed with byte 4.
pub open spec fn reply_distance(reply: Seq<u8>) -> u32
    recommends
        reply.len() == 7,
{
    ((reply[3] as u32) << 2u32) | (reply[4] as u32)
}

/// The raw distance (in millimetres) carried by a reply to
/// [`distance_request`].
pub fn distance_raw(reply: &[u8; 7]) -> (raw: u32)
    ensures
        raw == reply_distance(reply@),
        raw & (reply[4] as u32) == reply[4] as u32,
        raw & (((reply[3] as u32) * 4) as u32) == (reply[3] as u32) * 4,
        raw >= reply[4] as u32,
        raw >= (reply[3] as u32) * 4,
        raw <= (reply[3] as u32) * 4 + reply[4] as u32,
        raw < 1024,
{
    proof {
        lemma_distance_keeps_both_bytes(reply@);
    }
    ((reply[3] as u32) << 2u32) | reply[4] as u32
}

/// A raw distance always fits in ten bits.
pub proof fn lemma_distance_fits_ten_bits(reply: Seq<u8>)
    requires
        reply.len() == 7,
    ensures
        reply_distance(reply) < 1024,
{
    let hi = reply[3];
    let lo = reply[4];
    assert(((hi as u32) << 2u32) | (lo as u32) < 1024u32) by (bit_vector);
}

/// The CRC of a six-byte frame body, byte by byte.
proof fn lemma_crc_of_six(b: Seq<u8>)
    requires
        b.len() == 6,
    ensures
        modbus_crc(b) == crc_byte(
            crc_byte(
                crc_byte(crc_byte(crc_byte(crc_byte(0xFFFFu16, b[0]), b[1]), b[2]), b[3]),
                b[4],
            ),
            b[5],
        ),
{
    reveal_with_fuel(modbus_crc, 7);
    assert(b.drop_last().drop_last().drop_last().drop_last().drop_last().drop_last() =~= Seq::<
        u8,
    >::empty());
}

/// Every request the driver sends to the sensor is a well-formed Modbus RTU
/// frame: it ends with the CRC-16 of its first six bytes.
pub proof fn lemma_requests_are_modbus_frames()
    ensures
        is_modbus_frame(mode_request_frame()),
        is_modbus_frame(auto_send_off_frame()),
        is_modbus_frame(distance_request_frame()),
{
    assert(crc_byte(0xFFFFu16, 0x01u8) == 0x807Eu16) by (bit_vector);
    assert(crc_byte(0x807Eu16, 0x06u8) == 0x2280u16) by (bit_vector);
    assert(crc_byte(0x2280u16, 0x00u8) == 0xA023u16) by (bit_vector);
    assert(crc_byte(0xA023u16, 0x04u8) == 0x1AE0u16) by (bit_vector);
    assert(crc_byte(0x1AE0u16, 0x00u8) == 0x881Bu16) by (bit_vector);
    assert(crc_byte(0x881Bu16, 0x01u8) == 0xCB09u16) by (bit_vector);
    assert(crc_byte(0xA023u16, 0x05u8) == 0xDA21u16) by (bit_vector);
    assert(crc_byte(0xDA21u16, 0x00u8) == 0x181Au16) by (bit_vector);
    assert(crc_byte(0x181Au16, 0x00u8) == 0xCB99u16) by (bit_vector);
    assert(crc_byte(0x807Eu16, 0x03u8) == 0x2140u16) by (bit_vector);
    assert(crc_byte(0x2140u16, 0x00u8) == 0xF020u16) by (bit_vector);
    assert(crc_byte(0xF020u16, 0x10u8) == 0x14F0u16) by (bit_vector);
    assert(crc_byte(0x14F0u16, 0x00u8) == 0x4414u16) by (bit_vector);
    assert(crc_byte(0x4414u16, 0x01u8) == 0xCF85u16) by (bit_vector);
    assert((0xCB09u16 & 0xFFu16) as u8 == 0x09u8 && (0xCB09u16 >> 8u16) as u8 == 0xCBu8)
        by (bit_vector);
    assert((0xCB99u16 & 0xFFu16) as u8 == 0x99u8 && (0xCB99u16 >> 8u16) as u8 == 0xCBu8)
        by (bit_vector);
    assert((0xCF85u16 & 0xFFu16) as u8 == 0x85u8 && (0xCF85u16 >> 8u16) as u8 == 0xCFu8)
        by (bit_vector);
    lemma_crc_of_six(mode_request_frame().take(6));
    lemma_crc_of_six(auto_send_off_frame().take(6));
    lemma_crc_of_six(distance_request_frame().take(6));
}

/// The raw distance keeps every bit of byte 4 and every bit of byte 3
/// moved up by two places, and holds nothing else: it lies between the
/// larger of the two and their sum.
pub proof fn lemma_distance_keeps_both_bytes(reply: Seq<u8>)
    requires
        reply.len() == 7,
    ensures
        ({
            let raw = reply_distance(reply);
            let hi = reply[3] as u32;
            let lo = reply[4] as u32;
            &&& raw & lo == lo
            &&& raw & ((hi * 4) as u32) == hi * 4
            &&& raw >= lo
            &&& raw >= hi * 4
            &&& raw <= hi * 4 + lo
            &&& raw < 1024
        }),
{
    let hi = reply[3];
    let lo = reply[4];
    let raw = ((hi as u32) << 2u32) | (lo as u32);
    assert(raw & (lo as u32) == lo as u32 && raw & (((hi as u32) * 4) as u32) == (hi as u32) * 4 && raw
        >= lo as u32 && raw >= (hi as u32) * 4 && raw <= (hi as u32) * 4 + (lo as u32) && raw
        < 1024u32) by (bit_vector)
        requires
            raw == ((hi as u32) << 2u32) | (lo as u32),
    ;
}

} // verus!
