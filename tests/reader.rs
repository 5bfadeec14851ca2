use png_inspect::{has_png_signature, ChunkKind, Png, PngError};

const SIGNATURE: [u8; 8] = [137, 80, 78, 71, 13, 10, 26, 10];

fn record(tag: &[u8; 4], payload: &[u8], crc: [u8; 4]) -> Vec<u8> {
    let mut v = (payload.len() as u32).to_be_bytes().to_vec();
    v.extend_from_slice(tag);
    v.extend_from_slice(payload);
    v.extend_from_slice(&crc);
    v
}

fn stream(records: &[Vec<u8>]) -> Vec<u8> {
    let mut v = SIGNATURE.to_vec();
    for r in records {
        v.extend_from_slice(r);
    }
    v
}

#[test]
fn signature_alone_is_accepted() {
    let png = Png::from_bytes(&SIGNATURE).unwrap();
    assert_eq!(png.signature, SIGNATURE);
    assert!(png.chunks.is_empty());
    assert!(has_png_signature(&SIGNATURE));
}

#[test]
fn signature_with_any_tail_is_accepted() {
    let mut b = SIGNATURE.to_vec();
    b.extend_from_slice(&[1, 2, 3]);
    assert!(has_png_signature(&b));
    let png = Png::from_bytes(&b).unwrap();
    assert!(png.chunks.is_empty());
}

#[test]
fn each_wrong_signature_byte_is_rejected() {
    for i in 0..8 {
        let mut b = SIGNATURE.to_vec();
        b[i] ^= 0x01;
        assert!(!has_png_signature(&b));
        assert_eq!(Png::from_bytes(&b).unwrap_err(), PngError::InvalidSignature);
    }
}

#[test]
fn short_stream_is_rejected() {
    for n in 0..8 {
        assert_eq!(Png::from_bytes(&SIGNATURE[..n]).unwrap_err(), PngError::InvalidSignature);
    }
}

#[test]
fn records_are_read_back_in_order() {
    let b = stream(&[
        record(b"IHDR", &[0, 0, 0, 1, 0, 0, 0, 2, 8, 6, 0, 0, 0], [1, 2, 3, 4]),
        record(b"abcd", &[9, 8, 7], [5, 6, 7, 8]),
        record(b"IDAT", &[], [9, 10, 11, 12]),
        record(b"IEND", &[], [0xAE, 0x42, 0x60, 0x82]),
    ]);
    let png = Png::from_bytes(&b).unwrap();
    assert_eq!(png.chunks.len(), 4);
    assert_eq!(png.chunks[0].chunk_type, ChunkKind::Header);
    assert_eq!(png.chunks[0].chunk_length, 13);
    assert_eq!(png.chunks[0].chunk_data, vec![0, 0, 0, 1, 0, 0, 0, 2, 8, 6, 0, 0, 0]);
    assert_eq!(png.chunks[0].chunk_crc, [1, 2, 3, 4]);
    assert_eq!(png.chunks[1].chunk_type, ChunkKind::Unknown(*b"abcd"));
    assert_eq!(png.chunks[1].chunk_length, 3);
    assert_eq!(png.chunks[1].chunk_data, vec![9, 8, 7]);
    assert_eq!(png.chunks[1].chunk_crc, [5, 6, 7, 8]);
    assert_eq!(png.chunks[2].chunk_type, ChunkKind::ImageData);
    assert_eq!(png.chunks[2].chunk_length, 0);
    assert_eq!(png.chunks[3].chunk_type, ChunkKind::End);
    assert_eq!(png.chunks[3].chunk_crc, [0xAE, 0x42, 0x60, 0x82]);
}

#[test]
fn large_payload_length_is_big_endian() {
    let payload: Vec<u8> = (0..300u32).map(|i| (i % 251) as u8).collect();
    let b = stream(&[record(b"IDAT", &payload, [0; 4])]);
    assert_eq!(&b[8..12], &[0, 0, 1, 44]);
    let png = Png::from_bytes(&b).unwrap();
    assert_eq!(png.chunks.len(), 1);
    assert_eq!(png.chunks[0].chunk_length, 300);
    assert_eq!(png.chunks[0].chunk_data, payload);
}

#[test]
fn record_cut_short_ends_the_stream() {
    let mut b = stream(&[record(b"IHDR", &[0; 13], [0; 4])]);
    let full = b.len();
    b.extend_from_slice(&record(b"IDAT", &[1, 2, 3, 4, 5], [0; 4]));
    for cut in full..b.len() {
        let png = Png::from_bytes(&b[..cut]).unwrap();
        assert_eq!(png.chunks.len(), 1, "cut at {}", cut);
        assert_eq!(png.chunks[0].chunk_type, ChunkKind::Header);
    }
    assert_eq!(Png::from_bytes(&b).unwrap().chunks.len(), 2);
}

#[test]
fn declared_length_past_the_end_is_not_a_record() {
    let mut b = SIGNATURE.to_vec();
    b.extend_from_slice(&[0xFF, 0xFF, 0xFF, 0xFF]);
    b.extend_from_slice(b"IDAT");
    b.extend_from_slice(&[1, 2, 3]);
    let png = Png::from_bytes(&b).unwrap();
    assert!(png.chunks.is_empty());
}

#[test]
fn records_after_end_are_still_read() {
    let b = stream(&[
        record(b"IEND", &[], [0; 4]),
        record(b"tEXt", b"k\0v", [0; 4]),
    ]);
    let png = Png::from_bytes(&b).unwrap();
    assert_eq!(png.chunks.len(), 2);
    assert_eq!(png.chunks[0].chunk_type, ChunkKind::End);
    assert_eq!(png.chunks[1].chunk_type, ChunkKind::TextualData);
    assert_eq!(png.chunks[1].chunk_data, b"k\0v".to_vec());
}
