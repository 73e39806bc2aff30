//! Parsers for the three raw NTLM handshake messages.
//!
//! A message is a byte buffer opening with the `NTLMSSP\0` magic and a type
//! byte, followed by fixed-position length/offset fields that point at
//! string payloads inside the same buffer.  Every length and offset is
//! checked against the buffer before it is read, so a malformed message
//! comes back as an error, never as a fault.

use vstd::prelude::*;
use vstd::string::StrSliceExecFns;
use crate::srfax::b64_decode;
use crate::srfax::b64_decode_of;
use crate::srfax::payload_bytes;

verus! {

/// The raw message's magic header is missing, or a field points outside
/// the buffer.
#[derive(Debug, Clone, Copy, PartialEq, Eq, Structural)]
pub struct HeaderInvalid;

/// The message's type byte is not the one this parser expects.
#[derive(Debug, Clone, Copy, PartialEq, Eq, Structural)]
pub struct WrongType {
    pub expected: u8,
    pub got: u8,
}

/// Any failure of an NTLM parse.
#[derive(Debug, Clone, Copy, PartialEq, Eq, Structural)]
pub enum NtlmError {
    Header(HeaderInvalid),
    Type(WrongType),
    /// A base64 layer around the message did not decode.
    Base64,
}

pub const TYPE_ONE_MESSAGE: u8 = 0x01;

pub const TYPE_TWO_MESSAGE: u8 = 0x02;

pub const TYPE_THREE_MESSAGE: u8 = 0x03;

/// The eight magic bytes `NTLMSSP\0` every raw message opens with.
pub open spec fn ntlm_magic() -> Seq<u8> {
    seq![78u8, 84u8, 76u8, 77u8, 83u8, 83u8, 80u8, 0u8]
}

/// The buffer opens with the magic and is long enough to hold a type byte.
pub open spec fn has_ntlm_header(d: Seq<u8>) -> bool {
    d.len() >= 9 && d.subrange(0, 8) == ntlm_magic()
}

/// The little-endian sixteen-bit field at `offset`.
pub open spec fn le_short(v: Seq<u8>, offset: int) -> u16 {
    (v[offset] + v[offset + 1] * 256) as u16
}

/// The `count` little-endian code units starting at `offset`.
pub open spec fn words_spec(v: Seq<u8>, offset: int, count: int) -> Seq<u16> {
    Seq::new(count as nat, |i: int| le_short(v, offset + 2 * i))
}

/// What `String::from_utf16_lossy` returns on the given code units: the
/// result depends on them alone.
pub uninterp spec fn utf16_lossy_of(words: Seq<u16>) -> Seq<char>;

/// Relies on String::from_utf16_lossy: a pure function of the code units;
/// no code units give the empty string.
#[verifier::external_body]
fn utf16_lossy(words: &Vec<u16>) -> (r: String)
    ensures
        r@ == utf16_lossy_of(words@),
        words@.len() == 0 ==> r@.len() == 0,
{
    String::from_utf16_lossy(words)
}

/// What `String::from_utf8_lossy` returns on the given bytes: the result
/// depends on them alone.
pub uninterp spec fn utf8_lossy_of(bytes: Seq<u8>) -> Seq<char>;

/// Relies on String::from_utf8_lossy: a pure function of the bytes; no
/// bytes give the empty string.
#[verifier::external_body]
fn utf8_lossy(bytes: &Vec<u8>) -> (r: String)
    ensures
        r@ == utf8_lossy_of(bytes@),
        bytes@.len() == 0 ==> r@.len() == 0,
{
    String::from_utf8_lossy(bytes).to_string()
}

/// Copy `len` bytes starting at `offset` into a fresh vector.
fn sub_vec(v: &[u8], offset: usize, len: usize) -> (r: Vec<u8>)
    requires
        offset + len <= v@.len(),
    ensures
        r@ == v@.subrange(offset as int, offset as int + len as int),
{
    let mut r: Vec<u8> = Vec::new();
    let vn = v.len();
    let mut j: usize = 0;
    while j < len
        invariant
            vn == v@.len(),
            offset + len <= v@.len(),
            0 <= j <= len,
            r@ == v@.subrange(offset as int, offset as int + j as int),
        decreases len - j,
    {
        r.push(v[offset + j]);
        proof {
            assert(r@ =~= v@.subrange(offset as int, offset as int + j as int + 1));
        }
        j = j + 1;
    }
    r
}

/// Read the little-endian sixteen-bit field at `offset`.
pub fn get_short(v: &[u8], offset: usize) -> (r: u16)
    requires
        offset + 1 < v@.len(),
    ensures
        r == le_short(v@, offset as int),
{
    let b1 = v[offset] as u16;
    let b2 = v[offset + 1] as u16;
    proof {
        assert(b1 | (b2 << 8) == b1 + b2 * 256) by (bit_vector)
            requires
                b1 <= 255 && b2 <= 255,
        ;
    }
    b1 | (b2 << 8)
}

/// Decode the UTF-16-LE string payload of `len` bytes at `offset`.
pub fn get_utf16_string(v: &[u8], offset: usize, len: usize) -> (r: String)
    requires
        offset + len <= v@.len(),
    ensures
        r@ == utf16_lossy_of(words_spec(v@, offset as int, (len / 2) as int)),
{
    let mut buf: Vec<u16> = Vec::new();
    let vn = v.len();
    let count = len / 2;
    let mut i: usize = 0;
    while i < count
        invariant
            vn == v@.len(),
            offset + len <= v@.len(),
            count == len / 2,
            0 <= i <= count,
            buf@ == words_spec(v@, offset as int, i as int),
        decreases count - i,
    {
        let w = get_short(v, offset + i * 2);
        buf.push(w);
        proof {
            assert(buf@ =~= words_spec(v@, offset as int, i as int + 1));
        }
        i = i + 1;
    }
    utf16_lossy(&buf)
}

/// Decode the UTF-8 string payload of `len` bytes at `offset`.
pub fn get_utf8_string(v: &[u8], offset: usize, len: usize) -> (r: String)
    requires
        offset + len <= v@.len(),
    ensures
        r@ == utf8_lossy_of(v@.subrange(offset as int, offset as int + len as int)),
{
    let bytes = sub_vec(v, offset, len);
    utf8_lossy(&bytes)
}

/// Copy the eight bytes at `offset`.
pub fn get_array8(v: &[u8], offset: usize) -> (r: [u8; 8])
    requires
        offset + 8 <= v@.len(),
    ensures
        r@ == v@.subrange(offset as int, offset as int + 8),
{
    let r = [
        v[offset],
        v[offset + 1],
        v[offset + 2],
        v[offset + 3],
        v[offset + 4],
        v[offset + 5],
        v[offset + 6],
        v[offset + 7],
    ];
    proof {
        assert(r@ =~= v@.subrange(offset as int, offset as int + 8));
    }
    r
}

/// Read the type byte of a raw message.
pub fn get_type(data: &[u8]) -> (r: u8)
    requires
        data@.len() > 8,
    ensures
        r == data@[8],
{
    data[8]
}

/// The protocol a message belongs to.
#[derive(Debug)]
#[allow(non_camel_case_types)]
pub enum Protocol {
    NTLM_SSP,
}

/// Check the magic header and the expected type byte; shared by the three
/// parsers.
fn check_header(data: &[u8], expected: u8) -> (r: Result<(), NtlmError>)
    ensures
        match r {
            Ok(_) => has_ntlm_header(data@) && data@[8] == expected,
            Err(e) => match e {
                NtlmError::Header(_) => !has_ntlm_header(data@),
                NtlmError::Type(wt) => has_ntlm_header(data@) && data@[8] != expected && wt.expected
                    == expected && wt.got == data@[8],
                NtlmError::Base64 => false,
            },
        },
{
    if data.len() < 9 {
        return Err(NtlmError::Header(HeaderInvalid));
    }
    let magic_ok = data[0] == 78 && data[1] == 84 && data[2] == 76 && data[3] == 77 && data[4]
        == 83 && data[5] == 83 && data[6] == 80 && data[7] == 0;
    if !magic_ok {
        proof {
            assert(data@.subrange(0, 8) != ntlm_magic()) by {
                if data@.subrange(0, 8) == ntlm_magic() {
                    assert(data@[0] == ntlm_magic()[0]);
                    assert(data@[1] == ntlm_magic()[1]);
                    assert(data@[2] == ntlm_magic()[2]);
                    assert(data@[3] == ntlm_magic()[3]);
                    assert(data@[4] == ntlm_magic()[4]);
                    assert(data@[5] == ntlm_magic()[5]);
                    assert(data@[6] == ntlm_magic()[6]);
                    assert(data@[7] == ntlm_magic()[7]);
                }
            }
        }
        return Err(NtlmError::Header(HeaderInvalid));
    }
    proof {
        assert(data@.subrange(0, 8) =~= ntlm_magic());
    }
    if data[8] != expected {
        return Err(NtlmError::Type(WrongType { expected, got: data[8] }));
    }
    Ok(())
}

/// The negotiation message a client opens with.
#[derive(Debug)]
pub struct Type1Message {
    pub protocol: Protocol,
    pub mtype: u8,
    pub flags: u16,
    pub host: String,
    pub domain: String,
}

/// The type-1 field table fits the buffer: the fixed fields and both
/// string payloads.
pub open spec fn t1_in_bounds(d: Seq<u8>) -> bool {
    &&& d.len() >= 29
    &&& d[20] + le_short(d, 16) <= d.len()
    &&& d[28] + le_short(d, 24) <= d.len()
}

impl Type1Message {
    /// Parse a raw type-1 message.
    pub fn from_raw(data: &[u8]) -> (r: Result<Self, NtlmError>)
        ensures
            match r {
                Ok(m) => ({
                    &&& has_ntlm_header(data@) && data@[8] == 1 && t1_in_bounds(data@)
                    &&& m.mtype == 1
                    &&& m.flags == le_short(data@, 12)
                    &&& m.domain@ == utf8_lossy_of(
                        data@.subrange(data@[20] as int, data@[20] + le_short(data@, 16)),
                    )
                    &&& m.host@ == utf8_lossy_of(
                        data@.subrange(data@[28] as int, data@[28] + le_short(data@, 24)),
                    )
                }),
                Err(e) => match e {
                    NtlmError::Header(_) => !has_ntlm_header(data@) || (data@[8] == 1
                        && !t1_in_bounds(data@)),
                    NtlmError::Type(wt) => has_ntlm_header(data@) && data@[8] != 1 && wt.expected
                        == 1 && wt.got == data@[8],
                    NtlmError::Base64 => false,
                },
            },
    {
        match check_header(data, TYPE_ONE_MESSAGE) {
            Err(e) => Err(e),
            Ok(_) => {
                if data.len() < 29 {
                    return Err(NtlmError::Header(HeaderInvalid));
                }
                let host_len = get_short(data, 24) as usize;
                let host_offset = data[28] as usize;
                let dom_len = get_short(data, 16) as usize;
                let dom_offset = data[20] as usize;
                if !(dom_offset + dom_len <= data.len() && host_offset + host_len <= data.len()) {
                    return Err(NtlmError::Header(HeaderInvalid));
                }
                Ok(Self {
                    protocol: Protocol::NTLM_SSP,
                    mtype: data[8],
                    flags: get_short(data, 12),
                    domain: get_utf8_string(data, dom_offset, dom_len),
                    host: get_utf8_string(data, host_offset, host_len),
                })
            },
        }
    }
}

/// The challenge message a server answers with.
#[derive(Debug)]
pub struct Type2Message {
    pub protocol: Protocol,
    pub mtype: u8,
    pub flags: u16,
    pub nonce: [u8; 8],
}

impl Type2Message {
    /// Parse a raw type-2 message.
    pub fn from_raw(data: &[u8]) -> (r: Result<Self, NtlmError>)
        ensures
            match r {
                Ok(m) => ({
                    &&& has_ntlm_header(data@) && data@[8] == 2 && data@.len() >= 32
                    &&& m.mtype == 2
                    &&& m.flags == le_short(data@, 20)
                    &&& m.nonce@ == data@.subrange(24, 32)
                }),
                Err(e) => match e {
                    NtlmError::Header(_) => !has_ntlm_header(data@) || (data@[8] == 2 && data@.len()
                        < 32),
                    NtlmError::Type(wt) => has_ntlm_header(data@) && data@[8] != 2 && wt.expected
                        == 2 && wt.got == data@[8],
                    NtlmError::Base64 => false,
                },
            },
    {
        match check_header(data, TYPE_TWO_MESSAGE) {
            Err(e) => Err(e),
            Ok(_) => {
                if data.len() < 32 {
                    return Err(NtlmError::Header(HeaderInvalid));
                }
                Ok(Self {
                    protocol: Protocol::NTLM_SSP,
                    mtype: data[8],
                    flags: get_short(data, 20),
                    nonce: get_array8(data, 24),
                })
            },
        }
    }
}

/// The authentication message a client closes with.
#[derive(Debug)]
pub struct Type3Message {
    pub protocol: Protocol,
    pub mtype: u8,
    pub flags: u16,
    pub domain: String,
    pub user: String,
    pub host: String,
    pub lm_resp: Vec<u8>,
    pub nt_resp: Vec<u8>,
}

/// The type-3 field table fits the buffer: the fixed fields and all five
/// payloads.
pub open spec fn t3_in_bounds(d: Seq<u8>) -> bool {
    &&& d.len() >= 62
    &&& d[16] + le_short(d, 12) <= d.len()
    &&& d[24] + le_short(d, 20) <= d.len()
    &&& d[32] + le_short(d, 28) <= d.len()
    &&& d[40] + le_short(d, 36) <= d.len()
    &&& d[48] + le_short(d, 44) <= d.len()
}

/// A successful type-3 parse of `d` produced exactly `m`.
pub open spec fn t3_parsed(d: Seq<u8>, m: Type3Message) -> bool {
    &&& has_ntlm_header(d) && d[8] == 3 && t3_in_bounds(d)
    &&& m.mtype == 3
    &&& m.flags == le_short(d, 60)
    &&& m.domain@ == utf16_lossy_of(words_spec(d, d[32] as int, le_short(d, 28) as int / 2))
    &&& m.user@ == utf16_lossy_of(words_spec(d, d[40] as int, le_short(d, 36) as int / 2))
    &&& m.host@ == utf16_lossy_of(words_spec(d, d[48] as int, le_short(d, 44) as int / 2))
    &&& m.lm_resp@ == d.subrange(d[16] as int, d[16] + le_short(d, 12))
    &&& m.nt_resp@ == d.subrange(d[24] as int, d[24] + le_short(d, 20))
}

impl Type3Message {
    /// Parse a raw type-3 message.
    pub fn from_raw(a: &[u8]) -> (r: Result<Self, NtlmError>)
        ensures
            match r {
                Ok(m) => t3_parsed(a@, m),
                Err(e) => match e {
                    NtlmError::Header(_) => !has_ntlm_header(a@) || (a@[8] == 3 && !t3_in_bounds(
                        a@,
                    )),
                    NtlmError::Type(wt) => has_ntlm_header(a@) && a@[8] != 3 && wt.expected == 3
                        && wt.got == a@[8],
                    NtlmError::Base64 => false,
                },
            },
    {
        match check_header(a, TYPE_THREE_MESSAGE) {
            Err(e) => Err(e),
            Ok(_) => {
                if a.len() < 62 {
                    return Err(NtlmError::Header(HeaderInvalid));
                }
                let lm_resp_len = get_short(a, 12) as usize;
                let lm_resp_offset = a[16] as usize;
                let nt_resp_len = get_short(a, 20) as usize;
                let nt_resp_offset = a[24] as usize;
                let domain_len = get_short(a, 28) as usize;
                let domain_offset = a[32] as usize;
                let user_len = get_short(a, 36) as usize;
                let user_offset = a[40] as usize;
                let host_len = get_short(a, 44) as usize;
                let host_offset = a[48] as usize;
                if !(lm_resp_offset + lm_resp_len <= a.len() && nt_resp_offset + nt_resp_len
                    <= a.len() && domain_offset + domain_len <= a.len() && user_offset + user_len
                    <= a.len() && host_offset + host_len <= a.len()) {
                    return Err(NtlmError::Header(HeaderInvalid));
                }
                Ok(Self {
                    protocol: Protocol::NTLM_SSP,
                    mtype: a[8],
                    flags: get_short(a, 60),
                    domain: get_utf16_string(a, domain_offset, domain_len),
                    user: get_utf16_string(a, user_offset, user_len),
                    host: get_utf16_string(a, host_offset, host_len),
                    lm_resp: sub_vec(a, lm_resp_offset, lm_resp_len),
                    nt_resp: sub_vec(a, nt_resp_offset, nt_resp_len),
                })
            },
        }
    }

    /// Parse a type-3 message carried in an `NTLM `-prefixed base64
    /// authorization header.
    pub fn from_header_base64(header: &str) -> (r: Result<Self, NtlmError>)
        ensures
            match r {
                Ok(m) => ({
                    &&& header@.len() >= 5 && header@.subrange(0, 5) == "NTLM "@
                    &&& b64_decode_of(payload_bytes(header@.skip(5))) matches Some(d) && t3_parsed(
                        d,
                        m,
                    )
                }),
                Err(e) => match e {
                    NtlmError::Header(_) => !(header@.len() >= 5 && header@.subrange(0, 5)
                        == "NTLM "@) || (b64_decode_of(payload_bytes(header@.skip(5))) matches Some(
                        d,
                    ) && (!has_ntlm_header(d) || (d[8] == 3 && !t3_in_bounds(d)))),
                    NtlmError::Type(wt) => b64_decode_of(payload_bytes(header@.skip(5))) matches
                        Some(d) && (has_ntlm_header(d) && d[8] != 3 && wt.expected == 3 && wt.got
                        == d[8]),
                    NtlmError::Base64 => header@.len() >= 5 && header@.subrange(0, 5) == "NTLM "@
                        && b64_decode_of(payload_bytes(header@.skip(5))) is None,
                },
            },
    {
        proof {
            reveal_strlit("NTLM ");
        }
        let n = header.unicode_len();
        if n < 5 {
            return Err(NtlmError::Header(HeaderInvalid));
        }
        let tag_ok = header.get_char(0) == 'N' && header.get_char(1) == 'T' && header.get_char(2)
            == 'L' && header.get_char(3) == 'M' && header.get_char(4) == ' ';
        if !tag_ok {
            proof {
                assert(header@.subrange(0, 5) != "NTLM "@) by {
                    if header@.subrange(0, 5) == "NTLM "@ {
                        assert(header@[0] == "NTLM "@[0]);
                        assert(header@[1] == "NTLM "@[1]);
                        assert(header@[2] == "NTLM "@[2]);
                        assert(header@[3] == "NTLM "@[3]);
                        assert(header@[4] == "NTLM "@[4]);
                    }
                }
            }
            return Err(NtlmError::Header(HeaderInvalid));
        }
        proof {
            assert(header@.subrange(0, 5) =~= "NTLM "@);
        }
        let rest = header.substring_char(5, n);
        let bytes = rest.as_bytes_vec();
        proof {
            assert(rest@ =~= header@.skip(5));
        }
        match b64_decode(&bytes) {
            None => Err(NtlmError::Base64),
            Some(a) => match Type3Message::from_raw(a.as_slice()) {
                Ok(m) => Ok(m),
                Err(e) => Err(e),
            },
        }
    }
}

/// Read the type byte of a message carried as base64, with or without the
/// `NTLM ` tag in front.
pub fn get_type_base64(bdata: &[u8]) -> (r: Result<u8, NtlmError>)
    ensures
        match r {
            Ok(t) => b64_decode_of(strip_ntlm_tag(bdata@)) matches Some(d) && d.len() > 8 && t
                == d[8],
            Err(e) => match e {
                NtlmError::Base64 => b64_decode_of(strip_ntlm_tag(bdata@)) is None,
                NtlmError::Header(_) => b64_decode_of(strip_ntlm_tag(bdata@)) matches Some(d)
                    && d.len() <= 8,
                NtlmError::Type(_) => false,
            },
        },
{
    let n = bdata.len();
    let has_tag = n >= 5 && bdata[0] == 78 && bdata[1] == 84 && bdata[2] == 76 && bdata[3] == 77
        && bdata[4] == 32;
    let bytes = if has_tag {
        sub_vec(bdata, 5, n - 5)
    } else {
        proof {
            if n >= 5 && bdata@.subrange(0, 5) == ntlm_tag() {
                assert(bdata@[0] == ntlm_tag()[0]);
                assert(bdata@[1] == ntlm_tag()[1]);
                assert(bdata@[2] == ntlm_tag()[2]);
                assert(bdata@[3] == ntlm_tag()[3]);
                assert(bdata@[4] == ntlm_tag()[4]);
            }
        }
        sub_vec(bdata, 0, n)
    };
    proof {
        if has_tag {
            assert(bdata@.subrange(0, 5) =~= ntlm_tag());
            assert(bytes@ =~= strip_ntlm_tag(bdata@));
        } else {
            assert(bytes@ =~= strip_ntlm_tag(bdata@));
        }
    }
    match b64_decode(&bytes) {
        None => Err(NtlmError::Base64),
        Some(d) => {
            if d.len() <= 8 {
                Err(NtlmError::Header(HeaderInvalid))
            } else {
                Ok(d[8])
            }
        },
    }
}

/// The bytes with a leading `NTLM ` tag removed, if one is there.
pub open spec fn ntlm_tag() -> Seq<u8> {
    seq![78u8, 84u8, 76u8, 77u8, 32u8]
}

pub open spec fn strip_ntlm_tag(d: Seq<u8>) -> Seq<u8> {
    if d.len() >= 5 && d.subrange(0, 5) == ntlm_tag() {
        d.subrange(5, d.len() as int)
    } else {
        d
    }
}

} // verus!
