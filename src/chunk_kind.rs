//! Classification of a chunk's four-byte type tag.
use vstd::prelude::*;

verus! {

/// What a chunk is for, as named by its type tag.
#[derive(Clone, Copy, Debug, PartialEq, Eq)]
pub enum ChunkKind {
    /// `IHDR`: image dimensions and color configuration.
    Header,
    /// `PLTE`: palette entries.
    Palette,
    /// `IDAT`: compressed image data.
    ImageData,
    /// `IEND`: end marker.
    End,
    /// `tRNS`
    Transparency,
    /// `gAMA`
    Gamma,
    /// `cHRM`
    Chromaticity,
    /// `sRGB`
    StandardColorSpace,
    /// `iCCP`
    EmbeddedColorProfile,
    /// `tEXt`
    TextualData,
    /// `zTXt`
    CompressedText,
    /// `iTXt`
    InternationalText,
    /// `bKGD`
    Background,
    /// `pHYs`
    PhysicalDimensions,
    /// `sBIT`
    SignificantBits,
    /// `sPLT`
    SuggestedPalette,
    /// `hIST`
    Histogram,
    /// `tIME`
    Timestamp,
    /// Any tag outside the table above, kept as read.
    Unknown([u8; 4]),
}

/// The type tag that names a known kind; for `Unknown`, the bytes it carries.
pub open spec fn tag_of(k: ChunkKind) -> Seq<u8> {
    match k {
        ChunkKind::Header => seq![73u8, 72, 68, 82],
        ChunkKind::Palette => seq![80u8, 76, 84, 69],
        ChunkKind::ImageData => seq![73u8, 68, 65, 84],
        ChunkKind::End => seq![73u8, 69, 78, 68],
        ChunkKind::Transparency => seq![116u8, 82, 78, 83],
        ChunkKind::Gamma => seq![103u8, 65, 77, 65],
        ChunkKind::Chromaticity => seq![99u8, 72, 82, 77],
        ChunkKind::StandardColorSpace => seq![115u8, 82, 71, 66],
        ChunkKind::EmbeddedColorProfile => seq![105u8, 67, 67, 80],
        ChunkKind::TextualData => seq![116u8, 69, 88, 116],
        ChunkKind::CompressedText => seq![122u8, 84, 88, 116],
        ChunkKind::InternationalText => seq![105u8, 84, 88, 116],
        ChunkKind::Background => seq![98u8, 75, 71, 68],
        ChunkKind::PhysicalDimensions => seq![112u8, 72, 89, 115],
        ChunkKind::SignificantBits => seq![115u8, 66, 73, 84],
        ChunkKind::SuggestedPalette => seq![115u8, 80, 76, 84],
        ChunkKind::Histogram => seq![104u8, 73, 83, 84],
        ChunkKind::Timestamp => seq![116u8, 73, 77, 69],
        ChunkKind::Unknown(raw) => raw@,
    }
}

/// The kinds that the tag table names, in table order.
pub open spec fn named_kinds() -> Seq<ChunkKind> {
    seq![
        ChunkKind::Header,
        ChunkKind::Palette,
        ChunkKind::ImageData,
        ChunkKind::End,
        ChunkKind::Transparency,
        ChunkKind::Gamma,
        ChunkKind::Chromaticity,
        ChunkKind::StandardColorSpace,
        ChunkKind::EmbeddedColorProfile,
        ChunkKind::TextualData,
        ChunkKind::CompressedText,
        ChunkKind::InternationalText,
        ChunkKind::Background,
        ChunkKind::PhysicalDimensions,
        ChunkKind::SignificantBits,
        ChunkKind::SuggestedPalette,
        ChunkKind::Histogram,
        ChunkKind::Timestamp,
    ]
}

/// Whether `t` is the tag of one of the named kinds.
pub open spec fn is_known_tag(t: Seq<u8>) -> bool {
    exists|i: int| 0 <= i < named_kinds().len() && #[trigger] tag_of(named_kinds()[i]) == t
}

/// The kind a tag names: the named kind whose tag it is, else `Unknown` with the tag's bytes.
pub open spec fn kind_of(t: [u8; 4]) -> ChunkKind {
    let s = t@;
    if s == tag_of(ChunkKind::Header) {
        ChunkKind::Header
    } else if s == tag_of(ChunkKind::Palette) {
        ChunkKind::Palette
    } else if s == tag_of(ChunkKind::ImageData) {
        ChunkKind::ImageData
    } else if s == tag_of(ChunkKind::End) {
        ChunkKind::End
    } else if s == tag_of(ChunkKind::Transparency) {
        ChunkKind::Transparency
    } else if s == tag_of(ChunkKind::Gamma) {
        ChunkKind::Gamma
    } else if s == tag_of(ChunkKind::Chromaticity) {
        ChunkKind::Chromaticity
    } else if s == tag_of(ChunkKind::StandardColorSpace) {
        ChunkKind::StandardColorSpace
    } else if s == tag_of(ChunkKind::EmbeddedColorProfile) {
        ChunkKind::EmbeddedColorProfile
    } else if s == tag_of(ChunkKind::TextualData) {
        ChunkKind::TextualData
    } else if s == tag_of(ChunkKind::CompressedText) {
        ChunkKind::CompressedText
    } else if s == tag_of(ChunkKind::InternationalText) {
        ChunkKind::InternationalText
    } else if s == tag_of(ChunkKind::Background) {
        ChunkKind::Background
    } else if s == tag_of(ChunkKind::PhysicalDimensions) {
        ChunkKind::PhysicalDimensions
    } else if s == tag_of(ChunkKind::SignificantBits) {
        ChunkKind::SignificantBits
    } else if s == tag_of(ChunkKind::SuggestedPalette) {
        ChunkKind::SuggestedPalette
    } else if s == tag_of(ChunkKind::Histogram) {
        ChunkKind::Histogram
    } else if s == tag_of(ChunkKind::Timestamp) {
        ChunkKind::Timestamp
    } else {
        ChunkKind::Unknown(t)
    }
}

fn tag_is(t: [u8; 4], a: u8, b: u8, c: u8, d: u8) -> (r: bool)
    ensures
        r == (t@ == seq![a, b, c, d]),
{
    let r = t[0] == a && t[1] == b && t[2] == c && t[3] == d;
    proof {
        if r {
            assert(t@ =~= seq![a, b, c, d]);
        }
        if t@ == seq![a, b, c, d] {
            assert(t@[0] == a && t@[1] == b && t@[2] == c && t@[3] == d);
        }
    }
    r
}

/// Classifies a type tag. Total: every tag gets exactly one kind.
pub fn classify(t: [u8; 4]) -> (k: ChunkKind)
    ensures
        k == kind_of(t),
{
    if tag_is(t, 73, 72, 68, 82) {
        ChunkKind::Header
    } else if tag_is(t, 80, 76, 84, 69) {
        ChunkKind::Palette
    } else if tag_is(t, 73, 68, 65, 84) {
        ChunkKind::ImageData
    } else if tag_is(t, 73, 69, 78, 68) {
        ChunkKind::End
    } else if tag_is(t, 116, 82, 78, 83) {
        ChunkKind::Transparency
    } else if tag_is(t, 103, 65, 77, 65) {
        ChunkKind::Gamma
    } else if tag_is(t, 99, 72, 82, 77) {
        ChunkKind::Chromaticity
    } else if tag_is(t, 115, 82, 71, 66) {
        ChunkKind::StandardColorSpace
    } else if tag_is(t, 105, 67, 67, 80) {
        ChunkKind::EmbeddedColorProfile
    } else if tag_is(t, 116, 69, 88, 116) {
        ChunkKind::TextualData
    } else if tag_is(t, 122, 84, 88, 116) {
        ChunkKind::CompressedText
    } else if tag_is(t, 105, 84, 88, 116) {
        ChunkKind::InternationalText
    } else if tag_is(t, 98, 75, 71, 68) {
        ChunkKind::Background
    } else if tag_is(t, 112, 72, 89, 115) {
        ChunkKind::PhysicalDimensions
    } else if tag_is(t, 115, 66, 73, 84) {
        ChunkKind::SignificantBits
    } else if tag_is(t, 115, 80, 76, 84) {
        ChunkKind::SuggestedPalette
    } else if tag_is(t, 104, 73, 83, 84) {
        ChunkKind::Histogram
    } else if tag_is(t, 116, 73, 77, 69) {
        ChunkKind::Timestamp
    } else {
        ChunkKind::Unknown(t)
    }
}


/// Classification is total and loses nothing: every tag gets exactly one kind, the tag can be
/// read back from that kind, a tag of the table gets its named kind, and every other tag gets
/// `Unknown` carrying its own bytes.
pub proof fn classification_is_total(t: [u8; 4])
    ensures
        tag_of(kind_of(t)) == t@,
        is_known_tag(t@) <==> !(kind_of(t) is Unknown),
        !is_known_tag(t@) ==> kind_of(t) == ChunkKind::Unknown(t),
        forall|i: int|
            0 <= i < named_kinds().len() && t@ == tag_of(#[trigger] named_kinds()[i])
                ==> kind_of(t) == named_kinds()[i],
{
    let k = kind_of(t);
    if !(k is Unknown) {
        let i = named_index(k);
        assert(named_kinds()[i] == k);
        assert(tag_of(named_kinds()[i]) == t@);
    }
    assert forall|i: int|
        0 <= i < named_kinds().len() && t@ == tag_of(#[trigger] named_kinds()[i])
            implies kind_of(t) == named_kinds()[i] by {
        lemma_table_entry(i, t);
    }
}

/// Two tags get the same kind only if they are the same bytes.
pub proof fn classification_is_injective(t1: [u8; 4], t2: [u8; 4])
    requires
        kind_of(t1) == kind_of(t2),
    ensures
        t1@ == t2@,
{
    classification_is_total(t1);
    classification_is_total(t2);
}

/// Where a named kind stands in the tag table.
spec fn named_index(k: ChunkKind) -> int {
    match k {
        ChunkKind::Header => 0,
        ChunkKind::Palette => 1,
        ChunkKind::ImageData => 2,
        ChunkKind::End => 3,
        ChunkKind::Transparency => 4,
        ChunkKind::Gamma => 5,
        ChunkKind::Chromaticity => 6,
        ChunkKind::StandardColorSpace => 7,
        ChunkKind::EmbeddedColorProfile => 8,
        ChunkKind::TextualData => 9,
        ChunkKind::CompressedText => 10,
        ChunkKind::InternationalText => 11,
        ChunkKind::Background => 12,
        ChunkKind::PhysicalDimensions => 13,
        ChunkKind::SignificantBits => 14,
        ChunkKind::SuggestedPalette => 15,
        ChunkKind::Histogram => 16,
        ChunkKind::Timestamp => 17,
        ChunkKind::Unknown(_) => 18,
    }
}

/// A tag of the table is classified as the kind that the table names for it.
proof fn lemma_table_entry(i: int, t: [u8; 4])
    requires
        0 <= i < named_kinds().len(),
        t@ == tag_of(named_kinds()[i]),
    ensures
        kind_of(t) == named_kinds()[i],
{
}

} // verus!
