use framedec::bytes::ByteSource;
use framedec::error::DecodeError;
use framedec::read_file_header;
use framedec::time::f64_bits_to_ns;
use framedec::time::gps_ns;
use framedec::time::window_accepts;

#[test]
fn u16_round_trip() {
    for v in [0u16, 1, 0x1234, 0xFFFF] {
        let mut src = ByteSource::new(framedec::bytes::encode_u16(v));
        assert_eq!(src.read_u16(), Ok(v));
        assert_eq!(src.remaining(), 0);
    }
}

#[test]
fn u32_round_trip() {
    for v in [0u32, 7, 0xDEADBEEF, u32::MAX] {
        let mut src = ByteSource::new(framedec::bytes::encode_u32(v));
        assert_eq!(src.read_u32(), Ok(v));
    }
}

#[test]
fn u64_round_trip() {
    for v in [0u64, 1, 0x0123_4567_89AB_CDEF, u64::MAX] {
        let mut src = ByteSource::new(framedec::bytes::encode_u64(v));
        assert_eq!(src.read_u64(), Ok(v));
    }
}

#[test]
fn f32_round_trip() {
    for v in [0.0f32, 1.5, -2.25, std::f32::consts::PI] {
        let mut src = ByteSource::new(v.to_le_bytes().to_vec());
        let bits = src.read_f32().unwrap();
        assert_eq!(f32::from_bits(bits), v);
    }
}

#[test]
fn f64_round_trip() {
    for v in [0.0f64, 1.5, -2.25, std::f64::consts::PI] {
        let mut src = ByteSource::new(v.to_le_bytes().to_vec());
        let bits = src.read_f64().unwrap();
        assert_eq!(f64::from_bits(bits), v);
    }
}

#[test]
fn little_endian_layout() {
    let mut src = ByteSource::new(vec![0x34, 0x12]);
    assert_eq!(src.read_u16(), Ok(0x1234));
}

#[test]
fn truncated_reads_fail() {
    let mut src = ByteSource::new(vec![1, 2, 3]);
    assert_eq!(src.read_u32(), Err(DecodeError::TruncatedStream));
    // The source is left where it stood.
    assert_eq!(src.remaining(), 3);
    assert_eq!(src.read_u16(), Ok(0x0201));
    assert_eq!(src.read_u16(), Err(DecodeError::TruncatedStream));
}

#[test]
fn text_round_trip() {
    let body = "canal des mesures".as_bytes().to_vec();
    let encoded = framedec::bytes::encode_text(&body).unwrap();
    let mut src = ByteSource::new(encoded);
    assert_eq!(src.read_one_string(), Ok(body));
    assert_eq!(src.remaining(), 0);
}

#[test]
fn text_round_trip_multibyte() {
    let body = "durée ≈ 16 s".as_bytes().to_vec();
    let encoded = framedec::bytes::encode_text(&body).unwrap();
    let mut src = ByteSource::new(encoded);
    assert_eq!(src.read_one_string(), Ok(body));
}

#[test]
fn oversized_text_rejected() {
    let body = vec![b'a'; 65536];
    assert_eq!(framedec::bytes::encode_text(&body), None);
    let body = vec![b'a'; 65535];
    assert!(framedec::bytes::encode_text(&body).is_some());
}

#[test]
fn malformed_text_fails() {
    // Length prefix 2, then an invalid UTF-8 sequence.
    let mut src = ByteSource::new(vec![2, 0, 0xC0, 0x41]);
    assert_eq!(src.read_one_string(), Err(DecodeError::MalformedText));
    // Truncation is reported in preference when the bytes are missing.
    let mut src = ByteSource::new(vec![5, 0, b'a']);
    assert_eq!(src.read_one_string(), Err(DecodeError::TruncatedStream));
}

#[test]
fn utf8_checker_agrees_with_std() {
    let cases: Vec<Vec<u8>> = vec![
        b"".to_vec(),
        b"plain ascii".to_vec(),
        "héllo".as_bytes().to_vec(),
        "π ≈ 3".as_bytes().to_vec(),
        "𝄞 clef".as_bytes().to_vec(),
        vec![0x80],
        vec![0xC2],
        vec![0xC0, 0x80],
        vec![0xE0, 0x80, 0x80],
        vec![0xED, 0xA0, 0x80],
        vec![0xF4, 0x90, 0x80, 0x80],
        vec![0xF0, 0x9F, 0x98, 0x80],
        vec![0xFF],
    ];
    for c in cases {
        assert_eq!(
            framedec::bytes::utf8_ok(&c),
            std::str::from_utf8(&c).is_ok(),
            "disagreement on {:?}",
            c
        );
    }
}

fn sample_prologue(pi32: f32, pi64: f64) -> Vec<u8> {
    let mut s = Vec::new();
    s.extend_from_slice(b"IGWD\0");
    s.push(8); // data format
    s.push(9); // library version
    s.extend_from_slice(&[2, 4, 8, 4, 8]); // declared widths
    s.extend_from_slice(&0x1234u16.to_le_bytes());
    s.extend_from_slice(&0x12345678u32.to_le_bytes());
    s.extend_from_slice(&0x123456789ABCDEF0u64.to_le_bytes());
    s.extend_from_slice(&pi32.to_le_bytes());
    s.extend_from_slice(&pi64.to_le_bytes());
    s.push(1); // frame library tag
    s.push(1); // checksum kind
    s
}

#[test]
fn prologue_decodes_and_passes_self_check() {
    let mut src = ByteSource::new(sample_prologue(std::f32::consts::PI, std::f64::consts::PI));
    let h = read_file_header(&mut src).unwrap();
    assert_eq!(src.remaining(), 0);
    assert_eq!(h.magic, b"IGWD\0".to_vec());
    assert_eq!(h.data_format, 8);
    assert_eq!(h.library, 9);
    assert_eq!(h.size_u16, 2);
    assert_eq!(h.size_f64, 8);
    assert_eq!(h.sample_u16, 0x1234);
    assert_eq!(h.sample_u64, 0x123456789ABCDEF0);
    assert_eq!(h.frame_lib, 1);
    assert_eq!(h.checksum, 1);
    assert!(h.self_check());
}

#[test]
fn prologue_self_check_detects_corruption() {
    // A sample f32 that is not bit-exact pi is a corruption signal.
    let mut src = ByteSource::new(sample_prologue(3.141592f32, std::f64::consts::PI));
    assert!(!read_file_header(&mut src).unwrap().self_check());
    // So is a wrong sample f64.
    let mut src = ByteSource::new(sample_prologue(std::f32::consts::PI, 3.14159265));
    assert!(!read_file_header(&mut src).unwrap().self_check());
}

#[test]
fn prologue_truncated() {
    let mut src = ByteSource::new(b"IGW".to_vec());
    assert_eq!(read_file_header(&mut src), Err(DecodeError::TruncatedStream));
}

#[test]
fn duration_bits_to_nanoseconds() {
    assert_eq!(f64_bits_to_ns(1.0f64.to_bits()), 1_000_000_000);
    assert_eq!(f64_bits_to_ns(0.5f64.to_bits()), 500_000_000);
    assert_eq!(f64_bits_to_ns(16.0f64.to_bits()), 16_000_000_000);
    assert_eq!(f64_bits_to_ns(0.0f64.to_bits()), 0);
    assert_eq!(f64_bits_to_ns(1.25e-9f64.to_bits()), 1);
    // Rounded toward zero.
    assert_eq!(f64_bits_to_ns(1.9e-9f64.to_bits()), 1);
    assert_eq!(f64_bits_to_ns(0.9e-9f64.to_bits()), 0);
    // Negative durations count as zero.
    assert_eq!(f64_bits_to_ns((-3.0f64).to_bits()), 0);
    // Values beyond 64-bit nanoseconds saturate.
    assert_eq!(f64_bits_to_ns(1.0e30f64.to_bits()), u64::MAX);
    assert_eq!(f64_bits_to_ns(f64::INFINITY.to_bits()), u64::MAX);
}

#[test]
fn gps_instant_is_exact() {
    assert_eq!(gps_ns(100, 250), 100_000_000_250);
    assert_eq!(gps_ns(u32::MAX, u32::MAX), u32::MAX as u64 * 1_000_000_000 + u32::MAX as u64);
}

#[test]
fn window_filter_overlap_cases() {
    let sec = 1_000_000_000u64;
    // Frame [100 s, 110 s] against query [105 s, 120 s]: overlaps.
    assert!(window_accepts(100 * sec, 110 * sec, 105 * sec, 120 * sec));
    // Against query [200 s, 210 s]: frame ends before the window starts.
    assert!(!window_accepts(100 * sec, 110 * sec, 200 * sec, 210 * sec));
    // Entirely after the window's end.
    assert!(!window_accepts(100 * sec, 110 * sec, 10 * sec, 90 * sec));
    // Window inside the frame.
    assert!(window_accepts(100 * sec, 110 * sec, 104 * sec, 106 * sec));
    // Touching at the boundary counts as overlap.
    assert!(window_accepts(100 * sec, 110 * sec, 110 * sec, 120 * sec));
}
