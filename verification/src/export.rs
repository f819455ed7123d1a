//! Framing of exported data.

use vstd::prelude::*;
use vstd::utf8::encode_utf8;

verus! {

/// Host and port that exported data is sent to.
pub const EXPORT_HOST: &'static str = "default.main.musing-faraday-83adewh.cribl.cloud:20000";

/// Byte that ends a message.
pub const EXPORT_DELIMITER: u8 = 10;

/// The bytes that go out for `jdata`: its UTF-8 encoding, then one line feed
/// to mark the end of the message.
pub fn export_frame(jdata: &str) -> (r: Vec<u8>)
    ensures
        r@ == encode_utf8(jdata@).push(EXPORT_DELIMITER),
{
    let mut frame = jdata.as_bytes_vec();
    frame.push(EXPORT_DELIMITER);
    frame
}

} // verus!
