//! Wire framing of one message-bearing stream: a four-byte big-endian length
//! followed by that many payload bytes.

use vstd::prelude::*;

verus! {

/// Largest payload length a receiver accepts, in bytes (10 MiB).
pub const MAX_MESSAGE_LEN: usize = 10_485_760;

/// Number of bytes in the length prefix.
pub const LENGTH_PREFIX_LEN: usize = 4;

/// The big-endian encoding of `n` as four bytes.
pub open spec fn be32(n: u32) -> Seq<u8> {
    seq![
        (n / 0x100_0000) as u8,
        ((n / 0x1_0000) % 0x100) as u8,
        ((n / 0x100) % 0x100) as u8,
        (n % 0x100) as u8,
    ]
}

/// The number that four bytes encode in big-endian order.
pub open spec fn be32_value(b: Seq<u8>) -> int
    recommends
        b.len() == 4,
{
    b[0] * 0x100_0000 + b[1] * 0x1_0000 + b[2] * 0x100 + b[3]
}

/// Encodes `n` as four big-endian bytes.
pub fn encode_length(n: u32) -> (prefix: [u8; 4])
    ensures
        prefix@ == be32(n),
{
    let b0: u8 = (n / 0x100_0000) as u8;
    let b1: u8 = ((n / 0x1_0000) % 0x100) as u8;
    let b2: u8 = ((n / 0x100) % 0x100) as u8;
    let b3: u8 = (n % 0x100) as u8;
    let prefix = [b0, b1, b2, b3];
    assert(prefix@ =~= be32(n));
    prefix
}

/// Reads four big-endian bytes as a number.
pub fn decode_length(prefix: &[u8; 4]) -> (n: u32)
    ensures
        n == be32_value(prefix@),
{
    let b0: u32 = prefix[0] as u32;
    let b1: u32 = prefix[1] as u32;
    let b2: u32 = prefix[2] as u32;
    let b3: u32 = prefix[3] as u32;
    b0 * 0x100_0000 + b1 * 0x1_0000 + b2 * 0x100 + b3
}

/// Decoding a prefix that `be32` wrote gives the number back.
pub proof fn lemma_decode_encode(n: u32)
    ensures
        be32(n).len() == 4,
        be32_value(be32(n)) == n,
{
    let q: int = n as int / 0x100;
    let r: int = q / 0x100;
    assert(n as int / 0x1_0000 == r);
    assert(n as int / 0x100_0000 == r / 0x100);
}

/// Encoding the number that four bytes stand for gives those bytes back.
pub proof fn lemma_encode_decode(b: Seq<u8>)
    requires
        b.len() == 4,
    ensures
        0 <= be32_value(b) <= u32::MAX,
        be32(be32_value(b) as u32) == b,
{
    let v: int = be32_value(b);
    let hi: int = b[0] * 0x100 + b[1];
    let mid: int = hi * 0x100 + b[2];
    assert(v == mid * 0x100 + b[3]);
    assert(v % 0x100 == b[3] && v / 0x100 == mid);
    assert(mid % 0x100 == b[2] && mid / 0x100 == hi);
    assert(hi % 0x100 == b[1] && hi / 0x100 == b[0]);
    assert(v / 0x1_0000 == hi);
    assert(v / 0x100_0000 == b[0]);
    assert(be32(v as u32) =~= b);
}

/// The bytes of the stream that carries `payload`: its length in four
/// bytes, then the payload itself. The length of the payload must fit the
/// prefix.
pub open spec fn framed(payload: Seq<u8>) -> Seq<u8>
    recommends
        payload.len() <= u32::MAX,
{
    be32(payload.len() as u32) + payload
}

/// One message as it goes on the wire: the length prefix, then the payload.
/// The prefix of a frame is always the length of its payload.
#[derive(Debug, PartialEq, Eq)]
pub struct Frame {
    length_prefix: [u8; 4],
    payload: Vec<u8>,
}

impl Frame {
    #[verifier::type_invariant]
    spec fn prefix_is_length(&self) -> bool {
        be32_value(self.length_prefix@) == self.payload@.len()
    }

    /// The four bytes of the length prefix.
    pub closed spec fn spec_length_prefix(&self) -> Seq<u8> {
        self.length_prefix@
    }

    /// The payload.
    pub closed spec fn spec_payload(&self) -> Seq<u8> {
        self.payload@
    }

    /// The bytes of the frame in wire order.
    pub open spec fn wire(&self) -> Seq<u8> {
        self.spec_length_prefix() + self.spec_payload()
    }

    /// The prefix has four bytes and is the length of the payload.
    pub open spec fn well_formed(&self) -> bool {
        &&& self.spec_length_prefix().len() == 4
        &&& be32_value(self.spec_length_prefix()) == self.spec_payload().len()
    }

    /// Puts the length prefix in front of `payload`. There is no frame for a
    /// payload whose length does not fit the four bytes of the prefix.
    pub fn new(payload: Vec<u8>) -> (frame: Option<Frame>)
        ensures
            frame is Some <==> payload@.len() <= u32::MAX,
            frame matches Some(f) ==> f.spec_payload() == payload@ && f.well_formed()
                && f.spec_length_prefix() == be32(payload@.len() as u32) && f.wire() == framed(
                payload@,
            ),
    {
        let len: u64 = payload.len() as u64;
        if len > 0xffff_ffff {
            None
        } else {
            let field: u32 = len as u32;
            proof {
                lemma_decode_encode(field);
            }
            Some(Frame { length_prefix: encode_length(field), payload })
        }
    }

    /// The four bytes of the length prefix.
    pub fn length_prefix(&self) -> (prefix: [u8; 4])
        ensures
            prefix@ == self.spec_length_prefix(),
            self.well_formed(),
    {
        proof {
            use_type_invariant(self);
        }
        self.length_prefix
    }

    /// The payload.
    pub fn payload(&self) -> (payload: &[u8])
        ensures
            payload@ == self.spec_payload(),
            self.well_formed(),
    {
        proof {
            use_type_invariant(self);
        }
        self.payload.as_slice()
    }

    /// Copies the frame into one buffer, prefix first.
    pub fn to_bytes(&self) -> (bytes: Vec<u8>)
        ensures
            bytes@ == self.wire(),
            self.well_formed(),
    {
        proof {
            use_type_invariant(self);
        }
        let mut bytes: Vec<u8> = Vec::new();
        bytes.push(self.length_prefix[0]);
        bytes.push(self.length_prefix[1]);
        bytes.push(self.length_prefix[2]);
        bytes.push(self.length_prefix[3]);
        assert(bytes@ =~= self.length_prefix@);
        bytes.extend_from_slice(self.payload.as_slice());
        assert(bytes@ =~= self.wire());
        bytes
    }
}

/// The prefix of a framed payload can be read back from the start of the
/// stream and is the length of the payload; the payload follows it.
pub proof fn lemma_framed_prefix(payload: Seq<u8>)
    requires
        payload.len() <= u32::MAX,
    ensures
        framed(payload).len() == 4 + payload.len(),
        be32_value(framed(payload).subrange(0, 4)) == payload.len(),
        framed(payload).subrange(4, 4 + payload.len() as int) == payload,
{
    let n = payload.len() as u32;
    lemma_decode_encode(n);
    assert(framed(payload).subrange(0, 4) =~= be32(n));
    assert(framed(payload).subrange(4, 4 + payload.len() as int) =~= payload);
}

/// A well-formed frame is the framing of its payload.
pub proof fn lemma_frame_is_framed(frame: Frame)
    requires
        frame.well_formed(),
    ensures
        frame.spec_payload().len() <= u32::MAX,
        frame.wire() == framed(frame.spec_payload()),
{
    lemma_encode_decode(frame.spec_length_prefix());
}

} // verus!
