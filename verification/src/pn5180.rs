//! Frames of the PN5180 vicinity-reader protocol.
//!
//! The PN5180 is commanded over SPI with small framed messages; its
//! inventory answer carries the tag UID least-significant byte first.
//! The runtime moves the frames over the wire; their construction and
//! parsing are decided here.

use crate::text::{dec_text, format_u64, format_uid, uid_text};
use vstd::prelude::*;
use vstd::string::*;

verus! {

/// Command code for writing a register.
pub const CMD_WRITE_REGISTER: u8 = 0x00;

/// Command code for reading a register.
pub const CMD_READ_REGISTER: u8 = 0x04;

/// Flags of a high-data-rate, single-slot inventory.
pub const ISO15693_INVENTORY_FLAGS: u8 = 0x26;

/// Command code of the ISO 15693 inventory.
pub const ISO15693_CMD_INVENTORY: u8 = 0x01;

/// The five payload bytes of a register write: the register, then the
/// value least-significant byte first.
pub fn register_frame(reg: u8, value: u32) -> (r: Vec<u8>)
    ensures
        r@.len() == 5,
        r@[0] == reg,
        r@[1] == value & 0xFF,
        r@[2] == (value >> 8) & 0xFF,
        r@[3] == (value >> 16) & 0xFF,
        r@[4] == (value >> 24) & 0xFF,
{
    let mut frame: Vec<u8> = Vec::new();
    frame.push(reg);
    frame.push((value & 0xFF) as u8);
    frame.push(((value >> 8) & 0xFF) as u8);
    frame.push(((value >> 16) & 0xFF) as u8);
    frame.push(((value >> 24) & 0xFF) as u8);
    proof {
        assert(value & 0xFF < 256 && (value >> 8) & 0xFF < 256 && (value >> 16) & 0xFF < 256 && (
        value >> 24) & 0xFF < 256) by (bit_vector);
    }
    frame
}

/// The value of a register read back as four bytes, least-significant
/// first.
pub fn value_from_le_bytes(b0: u8, b1: u8, b2: u8, b3: u8) -> (r: u32)
    ensures
        r == b0 + b1 * 0x100 + b2 * 0x10000 + b3 * 0x1000000,
{
    (b0 as u32) + (b1 as u32) * 0x100 + (b2 as u32) * 0x10000 + (b3 as u32) * 0x1000000
}

/// Number of received bytes encoded in the RX status register.
pub fn rx_byte_count(rx_status: u32) -> (r: u32)
    ensures
        r == rx_status & 0x1FF,
        r < 0x200,
{
    proof {
        assert(rx_status & 0x1FF < 0x200) by (bit_vector);
    }
    rx_status & 0x1FF
}

/// The three bytes of an inventory request.
pub fn inventory_command() -> (r: Vec<u8>)
    ensures
        r@ =~= seq![ISO15693_INVENTORY_FLAGS, ISO15693_CMD_INVENTORY, 0u8],
{
    let mut frame: Vec<u8> = Vec::new();
    frame.push(ISO15693_INVENTORY_FLAGS);
    frame.push(ISO15693_CMD_INVENTORY);
    frame.push(0x00);
    frame
}

/// The UID bytes inside an inventory answer, most significant first:
/// the answer is flags, DSFID, then the eight UID bytes reversed.
pub open spec fn inventory_uid_bytes(data: Seq<u8>) -> Seq<u8> {
    data.subrange(2, 10).reverse()
}

/// Parse an inventory answer into the formatted UID. An answer shorter
/// than flags, DSFID and eight UID bytes is invalid and named with its
/// length.
pub fn parse_inventory_response(data: &Vec<u8>) -> (r: Result<String, String>)
    ensures
        data@.len() < 10 ==> (r matches Err(e) && e@ == "Invalid response length: "@ + dec_text(
            data@.len() as int,
        )),
        data@.len() >= 10 ==> (r matches Ok(s) && s@ == uid_text(inventory_uid_bytes(data@))),
{
    if data.len() < 10 {
        let mut msg = "Invalid response length: ".to_owned();
        let digits = format_u64(data.len() as u64);
        msg.append(digits.as_str());
        proof {
            assert(msg@ =~= "Invalid response length: "@ + dec_text(data@.len() as int));
        }
        return Err(msg);
    }
    let mut uid: Vec<u8> = Vec::new();
    let mut i: usize = 0;
    while i < 8
        invariant
            i <= 8,
            data@.len() >= 10,
            uid@.len() == i,
            forall|k: int| 0 <= k < i ==> uid@[k] == data@[9 - k],
        decreases 8 - i,
    {
        uid.push(data[9 - i]);
        i = i + 1;
    }
    proof {
        assert(uid@ =~= inventory_uid_bytes(data@));
    }
    Ok(format_uid(uid.as_slice()))
}

} // verus!
