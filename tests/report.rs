use png_inspect::{Chunk, ChunkKind, DisplayOptions, Png};

fn record(tag: &[u8; 4], payload: &[u8]) -> Vec<u8> {
    let mut v = (payload.len() as u32).to_be_bytes().to_vec();
    v.extend_from_slice(tag);
    v.extend_from_slice(payload);
    v.extend_from_slice(&[0, 0, 0, 0]);
    v
}

fn png_of(records: &[Vec<u8>]) -> Png {
    let mut b = vec![137, 80, 78, 71, 13, 10, 26, 10];
    for r in records {
        b.extend_from_slice(r);
    }
    Png::from_bytes(&b).unwrap()
}

const PLAIN: DisplayOptions = DisplayOptions { descriptive: false };
const DESCRIPTIVE: DisplayOptions = DisplayOptions { descriptive: true };

#[test]
fn minimal_file_end_to_end() {
    let png = png_of(&[
        record(b"IHDR", &[0, 0, 0, 10, 0, 0, 0, 20, 8, 2, 0, 0, 0]),
        record(b"IEND", &[]),
    ]);
    assert_eq!(png.chunks.len(), 2);
    assert_eq!(png.chunks[0].chunk_type, ChunkKind::Header);
    assert_eq!(png.chunks[1].chunk_type, ChunkKind::End);
    assert!(png.chunks[0].decode().is_ok());
    assert!(png.chunks[1].decode().is_ok());
    assert_eq!(
        png.report(&PLAIN),
        "IHDR Chunk:\n width: 10\n height: 20\n bit depth: 8\n color type: 2\n \
compression method: 0\n filter method: 0\n interlace method: 0\nIEND Chunk:\n (no data)\n"
    );
}

#[test]
fn descriptive_header_has_notes() {
    let png = png_of(&[record(b"IHDR", &[0, 0, 1, 0, 0, 0, 0, 1, 8, 6, 0, 0, 1])]);
    assert_eq!(
        png.report(&DESCRIPTIVE),
        "IHDR Chunk:\n width: 256 | Width in pixels\n height: 1 | Height in pixels\n \
bit depth: 8 | Bits per sample or per palette index\n \
color type: 6 | Sum of 1 (palette used), 2 (color used) and 4 (alpha used)\n \
compression method: 0 | 0 is deflate\n filter method: 0 | 0 is adaptive filtering\n \
interlace method: 1 | 0 is none, 1 is Adam7\n"
    );
}

#[test]
fn largest_width_is_written_in_full() {
    let png = png_of(&[record(b"IHDR", &[255, 255, 255, 255, 0, 0, 0, 0, 1, 0, 0, 0, 0])]);
    assert!(png.report(&PLAIN).starts_with("IHDR Chunk:\n width: 4294967295\n height: 0\n"));
}

#[test]
fn palette_entries_are_numbered() {
    let png = png_of(&[record(b"PLTE", &[255, 0, 10, 1, 2, 3, 9])]);
    assert_eq!(png.report(&PLAIN), "PLTE Chunk:\n 0: (255, 0, 10)\n 1: (1, 2, 3)\n");
    assert_eq!(
        png.report(&DESCRIPTIVE),
        "PLTE Chunk:\n 0: (255, 0, 10) | Red, green, blue\n 1: (1, 2, 3) | Red, green, blue\n"
    );
}

#[test]
fn gamma_intent_and_time_blocks() {
    let png = png_of(&[
        record(b"gAMA", &[0, 0, 0xB1, 0x8F]),
        record(b"sRGB", &[0]),
        record(b"tIME", &[7, 230, 12, 25, 23, 59, 59]),
    ]);
    assert_eq!(
        png.report(&PLAIN),
        "gAMA Chunk:\n gamma: 45455\nsRGB Chunk:\n rendering intent: 0\ntIME Chunk:\n year: 2022\n \
month: 12\n day: 25\n hour: 23\n minute: 59\n second: 59\n"
    );
    let text = png.report(&DESCRIPTIVE);
    assert!(text.contains(" gamma: 45455 | Image gamma times 100000\n"));
    assert!(text.contains(" year: 2022 | Complete year\n"));
}

#[test]
fn undecoded_and_unknown_chunks() {
    let png = png_of(&[record(b"IDAT", &[1, 2, 3]), record(b"abCD", &[5])]);
    assert_eq!(png.report(&PLAIN), "IDAT Chunk:\n length: 3\nUnknown chunk: [97, 98, 67, 68]\n");
    assert_eq!(
        png.report(&DESCRIPTIVE),
        "IDAT Chunk:\n length: 3 | Payload bytes, not decoded\nUnknown chunk: [97, 98, 67, 68]\n"
    );
}

#[test]
fn malformed_chunk_is_reported_and_the_rest_goes_on() {
    let png = png_of(&[record(b"IHDR", &[0, 0, 0, 1]), record(b"IEND", &[])]);
    assert_eq!(
        png.report(&PLAIN),
        "IHDR Chunk:\n malformed: 4 payload bytes, 13 needed\nIEND Chunk:\n (no data)\n"
    );
}

#[test]
fn single_chunk_block() {
    let c = Chunk {
        chunk_type: ChunkKind::StandardColorSpace,
        chunk_length: 1,
        chunk_data: vec![2],
        chunk_crc: [0; 4],
    };
    assert_eq!(
        c.describe(&DESCRIPTIVE),
        "sRGB Chunk:\n rendering intent: 2 | 0 perceptual, 1 relative colorimetric, 2 saturation, \
3 absolute colorimetric\n"
    );
}

#[test]
fn empty_stream_gives_empty_report() {
    assert_eq!(png_of(&[]).report(&DESCRIPTIVE), "");
}
