//! Raw resource payloads as read from a container: possibly compressed,
//! with a four-byte big-endian size and a two-byte header in front of the
//! deflate stream.

use vstd::prelude::*;

use crate::pool::{Resource, ResourceKind};
use crate::synth::dup_bytes;

verus! {

/// The big-endian word at the front of a byte string.
pub open spec fn read_u32_be(s: Seq<u8>) -> int {
    s[0] * 0x1000000 + s[1] * 0x10000 + s[2] * 0x100 + s[3]
}

/// What inflating a deflate stream yields; the result depends on the input
/// bytes alone.
pub uninterp spec fn inflate_of(s: Seq<u8>) -> Seq<u8>;

/// Relies on flate2's `Decompress::decompress` with the finish flush: a
/// full inflation of the raw deflate stream into a zeroed buffer of the
/// stated size, reported through the stream-end status; a corrupt stream
/// or a too-small buffer yields an error instead. The inflated bytes fill
/// the buffer's front and the zero fill behind them stays.
#[verifier::external_body]
fn inflate(data: &[u8], size: usize) -> (r: Option<Vec<u8>>)
    ensures
        r matches Some(b) ==> {
            &&& inflate_of(data@).len() <= size
            &&& b@.len() == size
            &&& b@.subrange(0, inflate_of(data@).len() as int) == inflate_of(data@)
            &&& (forall|i: int| inflate_of(data@).len() <= i < size ==> b@[i] == 0)
        },
{
    let mut out = vec![0u8; size];
    let mut d = flate2::Decompress::new(false);
    match d.decompress(data, &mut out, flate2::FlushDecompress::Finish) {
        Ok(flate2::Status::StreamEnd) => Some(out),
        _ => None,
    }
}

/// A resource's undecoded payload, as the container holds it.
#[derive(Clone, Debug)]
pub struct ResourceData {
    pub is_compressed: bool,
    pub data: Vec<u8>,
}

impl ResourceData {
    /// Wrap a raw resource's payload. Only an undecoded resource may be
    /// wrapped; a parsed one has already left the byte level.
    pub fn new(res: &Resource) -> (r: Result<ResourceData, String>)
        ensures
            match r {
                Ok(rd) => {
                    &&& res.kind matches ResourceKind::Raw(b) && rd.data@ == b@
                    &&& rd.is_compressed == res.compressed
                },
                Err(_) => !(res.kind is Raw),
            },
    {
        match &res.kind {
            ResourceKind::Raw(b) => Ok(
                ResourceData { is_compressed: res.compressed, data: dup_bytes(b) },
            ),
            _ => Err(String::from_str("only an undecoded resource may be wrapped")),
        }
    }

    /// The decoded payload: the bytes unchanged when stored plain; when
    /// compressed, a buffer of exactly the byte count the four-byte size
    /// field declares, holding the inflated stream from behind the
    /// size-and-header prefix and zero fill after it.
    pub fn decompress(&self) -> (r: Result<Vec<u8>, String>)
        ensures
            !self.is_compressed ==> r is Ok,
            self.is_compressed && self.data@.len() < 6 ==> r is Err,
            match r {
                Ok(b) => if self.is_compressed {
                    &&& self.data@.len() >= 6
                    &&& b@.len() == read_u32_be(self.data@)
                    &&& inflate_of(self.data@.skip(6)).len() <= read_u32_be(self.data@)
                    &&& b@.subrange(0, inflate_of(self.data@.skip(6)).len() as int)
                        == inflate_of(self.data@.skip(6))
                    &&& (forall|i: int|
                        inflate_of(self.data@.skip(6)).len() <= i < b@.len() ==> b@[i] == 0)
                } else {
                    b@ == self.data@
                },
                Err(_) => self.is_compressed,
            },
    {
        if !self.is_compressed {
            return Ok(dup_bytes(&self.data));
        }
        if self.data.len() < 6 {
            return Err(String::from_str("compressed payload lacks its header"));
        }
        let b0 = self.data[0] as usize;
        let b1 = self.data[1] as usize;
        let b2 = self.data[2] as usize;
        let b3 = self.data[3] as usize;
        let size = ((b0 * 0x1000000) + (b1 * 0x10000) + (b2 * 0x100)) + b3;
        let rest = self.tail_from_6();
        match inflate(rest.as_slice(), size) {
            Some(out) => {
                proof {
                    assert(rest@ == self.data@.skip(6));
                }
                Ok(out)
            },
            None => Err(String::from_str("compressed payload is corrupt")),
        }
    }

    /// The payload bytes after the size-and-header prefix.
    fn tail_from_6(&self) -> (r: Vec<u8>)
        requires
            self.data@.len() >= 6,
        ensures
            r@ == self.data@.skip(6),
    {
        let mut out: Vec<u8> = Vec::new();
        let mut i: usize = 6;
        while i < self.data.len()
            invariant
                6 <= i <= self.data@.len(),
                out@ == self.data@.subrange(6, i as int),
            decreases self.data@.len() - i,
        {
            out.push(self.data[i]);
            proof {
                assert(out@ =~= self.data@.subrange(6, i as int + 1));
            }
            i += 1;
        }
        proof {
            assert(self.data@.subrange(6, self.data@.len() as int) =~= self.data@.skip(6));
        }
        out
    }
}

} // verus!
