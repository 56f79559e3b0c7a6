//! Vendor extension payloads: a length byte and up to 98 opaque bytes.
//!
//! Only the declared number of data bytes travels, followed by one zero byte
//! where that keeps the payload even. What lies in `data` past the declared
//! length is not sent, and is zero in every value that was parsed.

use crate::codec::{advance, push_bytes, read_bytes, Parse, Serialize};
use crate::packet_type::Error;
use vstd::prelude::*;

verus! {

/// Largest number of opaque bytes in a vendor payload.
pub const VENDOR_DATA_MAX: usize = 98;

/// The opaque data of a vendor packet. Only the first `len` bytes of `data`
/// travel; in a value that was parsed the others are zero.
#[derive(Clone, Copy, Debug, PartialEq, Eq)]
pub struct VendorData {
    pub len: u8,
    pub data: [u8; 98],
}

impl VendorData {
    /// The length is at most 98 and the bytes past it are zero.
    pub open spec fn valid(&self) -> bool {
        &&& self.len <= VENDOR_DATA_MAX
        &&& forall|k: int| self.len <= k < VENDOR_DATA_MAX ==> self.data@[k] == 0
    }

    /// The number of data bytes that travel: `len`, cut at 98.
    pub open spec fn sent_len(&self) -> int {
        if self.len <= VENDOR_DATA_MAX {
            self.len as int
        } else {
            VENDOR_DATA_MAX as int
        }
    }
}

/// The padding after `n` data bytes: one zero byte where the length byte and
/// the data together are odd in number.
pub open spec fn vendor_pad(n: int) -> Seq<u8> {
    if n % 2 == 0 {
        seq![0u8]
    } else {
        Seq::empty()
    }
}

impl Serialize for VendorData {
    open spec fn wire(&self) -> Seq<u8> {
        seq![self.sent_len() as u8] + self.data@.take(self.sent_len()) + vendor_pad(
            self.sent_len(),
        )
    }

    fn serialize(&self, buf: &mut Vec<u8>) {
        let n: usize = if self.len as usize <= VENDOR_DATA_MAX {
            self.len as usize
        } else {
            VENDOR_DATA_MAX
        };
        buf.push(n as u8);
        let sent = vstd::slice::slice_subrange(self.data.as_slice(), 0, n);
        push_bytes(buf, sent);
        if n % 2 == 0 {
            buf.push(0);
        }
        assert(buf@ =~= old(buf)@ + self.wire());
    }
}

impl Parse for VendorData {
    open spec fn parse_failure(bytes: Seq<u8>) -> Option<Error> {
        if bytes.len() < 1 {
            Some(Error::UnexpectedEof { packet_type: None })
        } else if bytes[0] > VENDOR_DATA_MAX {
            Some(Error::InvalidBitPattern)
        } else if bytes.len() < Self::parse_len(bytes) {
            Some(Error::UnexpectedEof { packet_type: None })
        } else {
            None
        }
    }

    open spec fn parse_len(bytes: Seq<u8>) -> int {
        1 + bytes[0] + vendor_pad(bytes[0] as int).len()
    }

    open spec fn is_parse_of(&self, bytes: Seq<u8>) -> bool {
        &&& self.len == bytes[0]
        &&& forall|k: int| 0 <= k < self.len ==> self.data@[k] == bytes[1 + k]
        &&& forall|k: int| self.len <= k < VENDOR_DATA_MAX ==> self.data@[k] == 0
    }

    fn parse(bytes: &mut &[u8]) -> (r: Result<Self, Error>) {
        if bytes.len() < 1 {
            return Err(Error::UnexpectedEof { packet_type: None });
        }
        let len = bytes[0];
        if len as usize > VENDOR_DATA_MAX {
            return Err(Error::InvalidBitPattern);
        }
        let n = len as usize;
        let total: usize = if n % 2 == 0 {
            n + 2
        } else {
            n + 1
        };
        if bytes.len() < total {
            return Err(Error::UnexpectedEof { packet_type: None });
        }
        let data: [u8; 98] = read_bytes(*bytes, 1, n);
        advance(bytes, total);
        Ok(VendorData { len, data })
    }
}

/// A well-formed vendor payload is read back exactly from its wire bytes,
/// whatever follows them.
pub proof fn lemma_vendor_round_trip(v: VendorData, rest: Seq<u8>)
    requires
        v.valid(),
    ensures
        v.wire().len() % 2 == 0,
        2 <= v.wire().len() <= 100,
        VendorData::parse_failure(v.wire() + rest) is None,
        VendorData::parse_len(v.wire() + rest) == v.wire().len(),
        v.is_parse_of(v.wire() + rest),
{
    let b = v.wire() + rest;
    assert(b[0] == v.len);
    assert forall|k: int| 0 <= k < v.len implies v.data@[k] == b[1 + k] by {
        assert(b[1 + k] == v.data@.take(v.sent_len())[k]);
    }
}

} // verus!
