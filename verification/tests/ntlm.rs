use srfax_sync::ntlm::get_short;
use srfax_sync::ntlm::get_type;
use srfax_sync::ntlm::get_type_base64;
use srfax_sync::ntlm::HeaderInvalid;
use srfax_sync::ntlm::NtlmError;
use srfax_sync::ntlm::Type1Message;
use srfax_sync::ntlm::Type2Message;
use srfax_sync::ntlm::Type3Message;
use srfax_sync::ntlm::WrongType;

#[test]
fn get_short1() {
    let vec: Vec<u8> = vec![0xA, 0xA];

    assert_eq!(get_short(&vec, 0), 2570);
}

fn with_header(mtype: u8, len: usize) -> Vec<u8> {
    let mut v = vec![0u8; len];
    v[..8].copy_from_slice(b"NTLMSSP\0");
    v[8] = mtype;
    v
}

#[test]
fn type1_round_trip() {
    // fixed part up to byte 28, then "DOM" at 29 and "HOST" at 32
    let mut v = with_header(0x01, 36);
    v[12] = 0x03;
    v[13] = 0xb2; // flags 0xb203
    v[16] = 3; // domain length
    v[20] = 29; // domain offset
    v[24] = 4; // host length
    v[28] = 32; // host offset
    v[29..32].copy_from_slice(b"DOM");
    v[32..36].copy_from_slice(b"HOST");

    let m = Type1Message::from_raw(&v).unwrap();
    assert_eq!(m.mtype, 0x01);
    assert_eq!(m.flags, 0xb203);
    assert_eq!(m.domain, "DOM");
    assert_eq!(m.host, "HOST");
}

#[test]
fn type1_rejects_wrong_type() {
    let v = with_header(0x02, 36);

    let r = Type1Message::from_raw(&v);
    assert!(matches!(
        r,
        Err(NtlmError::Type(WrongType { expected: 0x01, got: 0x02 }))
    ));
}

#[test]
fn type1_rejects_bad_magic() {
    let mut v = with_header(0x01, 36);
    v[0] = b'X';

    let r = Type1Message::from_raw(&v);
    assert!(matches!(r, Err(NtlmError::Header(HeaderInvalid))));
}

#[test]
fn type1_rejects_out_of_range_fields() {
    let mut v = with_header(0x01, 30);
    v[16] = 200; // domain length runs past the end
    v[20] = 20;

    let r = Type1Message::from_raw(&v);
    assert!(matches!(r, Err(NtlmError::Header(HeaderInvalid))));
}

#[test]
fn type2_round_trip() {
    let mut v = with_header(0x02, 32);
    v[20] = 0x01;
    v[21] = 0x82; // flags 0x8201
    v[24..32].copy_from_slice(&[1, 2, 3, 4, 5, 6, 7, 8]);

    let m = Type2Message::from_raw(&v).unwrap();
    assert_eq!(m.mtype, 0x02);
    assert_eq!(m.flags, 0x8201);
    assert_eq!(m.nonce, [1, 2, 3, 4, 5, 6, 7, 8]);
}

fn sample_type3() -> Vec<u8> {
    let mut v = with_header(0x03, 80);
    v[12] = 2; // lm response length
    v[16] = 62; // lm response offset
    v[20] = 2; // nt response length
    v[24] = 64; // nt response offset
    v[28] = 4; // domain length (two UTF-16 units)
    v[32] = 66; // domain offset
    v[36] = 4; // user length
    v[40] = 70; // user offset
    v[44] = 4; // host length
    v[48] = 74; // host offset
    v[60] = 0x01;
    v[61] = 0x82; // flags 0x8201
    v[62..64].copy_from_slice(&[0xAA, 0xBB]);
    v[64..66].copy_from_slice(&[0xCC, 0xDD]);
    v[66..70].copy_from_slice(&[b'D', 0, b'M', 0]);
    v[70..74].copy_from_slice(&[b'U', 0, b'S', 0]);
    v[74..78].copy_from_slice(&[b'H', 0, b'T', 0]);
    v
}

#[test]
fn type3_round_trip() {
    let v = sample_type3();

    let m = Type3Message::from_raw(&v).unwrap();
    assert_eq!(m.mtype, 0x03);
    assert_eq!(m.flags, 0x8201);
    assert_eq!(m.domain, "DM");
    assert_eq!(m.user, "US");
    assert_eq!(m.host, "HT");
    assert_eq!(m.lm_resp, vec![0xAA, 0xBB]);
    assert_eq!(m.nt_resp, vec![0xCC, 0xDD]);
}

#[test]
fn type3_from_header_base64() {
    let v = sample_type3();
    let header = format!("NTLM {}", base64::encode(&v));

    let m = Type3Message::from_header_base64(&header).unwrap();
    assert_eq!(m.user, "US");
    assert_eq!(m.domain, "DM");
}

#[test]
fn type3_from_header_rejects_missing_tag() {
    let r = Type3Message::from_header_base64("Basic abcd");
    assert!(matches!(r, Err(NtlmError::Header(HeaderInvalid))));
}

#[test]
fn type3_from_header_rejects_bad_base64() {
    let r = Type3Message::from_header_base64("NTLM !!!not-base64!!!");
    assert!(matches!(r, Err(NtlmError::Base64)));
}

#[test]
fn get_type_reads_type_byte() {
    let v = with_header(0x02, 32);
    assert_eq!(get_type(&v), 0x02);
}

#[test]
fn get_type_base64_with_tag() {
    let v = with_header(0x02, 32);
    let mut data = b"NTLM ".to_vec();
    data.extend_from_slice(base64::encode(&v).as_bytes());

    assert_eq!(get_type_base64(&data).unwrap(), 0x02);
}

#[test]
fn get_type_base64_without_tag() {
    let v = with_header(0x03, 80);
    let data = base64::encode(&v).into_bytes();

    assert_eq!(get_type_base64(&data).unwrap(), 0x03);
}

#[test]
fn get_type_base64_rejects_garbage() {
    let r = get_type_base64(b"@@@@");
    assert!(matches!(r, Err(NtlmError::Base64)));
}

#[test]
fn utf16_decoding_differs_from_raw_bytes() {
    // the UTF-16 payload [72, 0, 105, 0] must decode to "Hi", not pass
    // through as four bytes
    let mut v = with_header(0x03, 66);
    v[36] = 4; // user length
    v[40] = 62; // user offset
    v[62..66].copy_from_slice(&[72, 0, 105, 0]);

    let m = Type3Message::from_raw(&v).unwrap();
    assert_eq!(m.user, "Hi");
    assert_eq!(m.user.len(), 2);
}

#[test]
fn utf8_lossy_replaces_invalid_bytes() {
    let mut v = with_header(0x01, 30);
    v[16] = 1; // domain length
    v[20] = 29; // domain offset
    v[29] = 0xFF; // not valid UTF-8

    let m = Type1Message::from_raw(&v).unwrap();
    assert_eq!(m.domain, "\u{FFFD}");
}
