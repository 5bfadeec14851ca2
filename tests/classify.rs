use png_inspect::{classify, ChunkKind};

#[test]
fn every_named_tag_gets_its_kind() {
    let table: [(&[u8; 4], ChunkKind); 18] = [
        (b"IHDR", ChunkKind::Header),
        (b"PLTE", ChunkKind::Palette),
        (b"IDAT", ChunkKind::ImageData),
        (b"IEND", ChunkKind::End),
        (b"tRNS", ChunkKind::Transparency),
        (b"gAMA", ChunkKind::Gamma),
        (b"cHRM", ChunkKind::Chromaticity),
        (b"sRGB", ChunkKind::StandardColorSpace),
        (b"iCCP", ChunkKind::EmbeddedColorProfile),
        (b"tEXt", ChunkKind::TextualData),
        (b"zTXt", ChunkKind::CompressedText),
        (b"iTXt", ChunkKind::InternationalText),
        (b"bKGD", ChunkKind::Background),
        (b"pHYs", ChunkKind::PhysicalDimensions),
        (b"sBIT", ChunkKind::SignificantBits),
        (b"sPLT", ChunkKind::SuggestedPalette),
        (b"hIST", ChunkKind::Histogram),
        (b"tIME", ChunkKind::Timestamp),
    ];
    for (tag, kind) in table.iter() {
        assert_eq!(classify(**tag), *kind);
    }
    for i in 0..table.len() {
        for j in 0..table.len() {
            assert_eq!(table[i].1 == table[j].1, i == j);
        }
    }
}

#[test]
fn unknown_tag_keeps_its_bytes() {
    assert_eq!(classify(*b"abcd"), ChunkKind::Unknown(*b"abcd"));
    assert_eq!(classify([0, 0, 0, 0]), ChunkKind::Unknown([0, 0, 0, 0]));
    assert_eq!(classify([255, 1, 2, 3]), ChunkKind::Unknown([255, 1, 2, 3]));
}

#[test]
fn tags_differing_in_case_are_unknown() {
    assert_eq!(classify(*b"ihdr"), ChunkKind::Unknown(*b"ihdr"));
    assert_eq!(classify(*b"IHDr"), ChunkKind::Unknown(*b"IHDr"));
    assert_eq!(classify(*b"Time"), ChunkKind::Unknown(*b"Time"));
}

#[test]
fn every_one_byte_change_of_a_named_tag_is_handled() {
    for tag in [b"IHDR", b"tIME", b"sRGB"] {
        for pos in 0..4 {
            for v in 0..=255u8 {
                let mut t = *tag;
                t[pos] = v;
                let k = classify(t);
                if t == *tag {
                    assert!(!matches!(k, ChunkKind::Unknown(_)));
                } else {
                    match k {
                        ChunkKind::Unknown(raw) => assert_eq!(raw, t),
                        _ => {}
                    }
                }
            }
        }
    }
}
