//! Typed views of chunk payloads.
use vstd::prelude::*;
use crate::bytes::{be_u16, be_u32_at, read_u16_be, read_u32_be};
use crate::chunk_kind::{classification_is_total, is_known_tag, kind_of, ChunkKind};
use crate::reader::{Chunk, PngError};

verus! {

/// The fields of a `Header` chunk.
#[derive(Clone, Copy, Debug, PartialEq, Eq, Structural)]
pub struct DecodedHeader {
    pub width: u32,
    pub height: u32,
    pub bit_depth: u8,
    pub color_type: u8,
    pub compression_method: u8,
    pub filter_method: u8,
    pub interlace_method: u8,
}

/// One palette entry.
#[derive(Clone, Copy, Debug, PartialEq, Eq, Structural)]
pub struct PaletteEntry {
    pub red: u8,
    pub green: u8,
    pub blue: u8,
}

/// The fields of a `Timestamp` chunk.
#[derive(Clone, Copy, Debug, PartialEq, Eq, Structural)]
pub struct DecodedTimestamp {
    pub year: u16,
    pub month: u8,
    pub day: u8,
    pub hour: u8,
    pub minute: u8,
    pub second: u8,
}

/// What a chunk's payload says, read according to its kind.
#[derive(Debug)]
pub enum ChunkData {
    Header(DecodedHeader),
    Palette(Vec<PaletteEntry>),
    End,
    /// Gamma times 100000, as stored.
    Gamma(u32),
    /// The rendering intent code.
    ColorSpace(u8),
    Timestamp(DecodedTimestamp),
    /// A known kind whose payload is not read here.
    Opaque,
    /// A tag outside the known table, with its bytes.
    Unknown([u8; 4]),
}

/// How many payload bytes the fixed layout of a kind needs.
pub open spec fn min_payload_len(k: ChunkKind) -> nat {
    match k {
        ChunkKind::Header => 13,
        ChunkKind::Gamma => 4,
        ChunkKind::StandardColorSpace => 1,
        ChunkKind::Timestamp => 7,
        _ => 0,
    }
}

/// `h` holds the fields laid out at the front of `p`, in order, big-endian.
pub open spec fn header_matches(h: DecodedHeader, p: Seq<u8>) -> bool {
    &&& h.width == be_u32_at(p, 0)
    &&& h.height == be_u32_at(p, 4)
    &&& h.bit_depth == p[8]
    &&& h.color_type == p[9]
    &&& h.compression_method == p[10]
    &&& h.filter_method == p[11]
    &&& h.interlace_method == p[12]
}

/// `t` holds the fields laid out at the front of `p`, in order, the year big-endian.
pub open spec fn timestamp_matches(t: DecodedTimestamp, p: Seq<u8>) -> bool {
    &&& t.year == be_u16(p[0], p[1])
    &&& t.month == p[2]
    &&& t.day == p[3]
    &&& t.hour == p[4]
    &&& t.minute == p[5]
    &&& t.second == p[6]
}

/// The complete three-byte entries of a palette payload; a trailing partial entry is dropped.
pub open spec fn palette_of(p: Seq<u8>) -> Seq<PaletteEntry> {
    Seq::new(
        p.len() / 3,
        |i: int| PaletteEntry { red: p[3 * i], green: p[3 * i + 1], blue: p[3 * i + 2] },
    )
}

/// `d` is what a payload `p` of kind `k` says.
pub open spec fn decoded_as(d: ChunkData, k: ChunkKind, p: Seq<u8>) -> bool {
    match k {
        ChunkKind::Header => d matches ChunkData::Header(h) && header_matches(h, p),
        ChunkKind::Palette => d matches ChunkData::Palette(v) && v@ == palette_of(p),
        ChunkKind::End => d is End,
        ChunkKind::Gamma => d matches ChunkData::Gamma(g) && g == be_u32_at(p, 0),
        ChunkKind::StandardColorSpace => d matches ChunkData::ColorSpace(i) && i == p[0],
        ChunkKind::Timestamp => d matches ChunkData::Timestamp(t) && timestamp_matches(t, p),
        ChunkKind::Unknown(raw) => d matches ChunkData::Unknown(r) && r == raw,
        _ => d is Opaque,
    }
}

/// Reads the palette entries of a payload, dropping a trailing partial entry.
pub fn decode_palette(p: &[u8]) -> (r: Vec<PaletteEntry>)
    ensures
        r@ == palette_of(p@),
{
    let mut r: Vec<PaletteEntry> = Vec::new();
    let mut j: usize = 0;
    while j <= p.len() && p.len() - j >= 3
        invariant
            j <= p@.len(),
            j == 3 * r@.len(),
            r@ == palette_of(p@).take(r@.len() as int),
            r@.len() <= p@.len() / 3,
        decreases p@.len() - j,
    {
        let entry = PaletteEntry { red: p[j], green: p[j + 1], blue: p[j + 2] };
        proof {
            assert(r@.len() + 1 <= p@.len() / 3) by (nonlinear_arith)
                requires
                    j == 3 * r@.len(),
                    j + 3 <= p@.len(),
            ;
            assert(palette_of(p@)[r@.len() as int] == entry);
        }
        r.push(entry);
        assert(r@ =~= palette_of(p@).take(r@.len() as int));
        j = j + 3;
    }
    assert(r@.len() == p@.len() / 3) by (nonlinear_arith)
        requires
            j == 3 * r@.len(),
            j + 3 > p@.len(),
            j <= p@.len(),
    ;
    assert(r@ =~= palette_of(p@));
    r
}

/// Reads a payload according to its kind.
///
/// Fails with `MalformedChunk` exactly when the payload is shorter than the kind's fixed
/// layout; extra bytes after that layout are ignored.
pub fn decode(k: ChunkKind, p: &[u8]) -> (r: Result<ChunkData, PngError>)
    ensures
        r is Err <==> p@.len() < min_payload_len(k),
        r matches Err(e) ==> e == PngError::MalformedChunk,
        r matches Ok(d) ==> decoded_as(d, k, p@),
{
    match k {
        ChunkKind::Header => {
            if p.len() < 13 {
                return Err(PngError::MalformedChunk);
            }
            Ok(
                ChunkData::Header(
                    DecodedHeader {
                        width: read_u32_be(p, 0),
                        height: read_u32_be(p, 4),
                        bit_depth: p[8],
                        color_type: p[9],
                        compression_method: p[10],
                        filter_method: p[11],
                        interlace_method: p[12],
                    },
                ),
            )
        },
        ChunkKind::Palette => Ok(ChunkData::Palette(decode_palette(p))),
        ChunkKind::End => Ok(ChunkData::End),
        ChunkKind::Gamma => {
            if p.len() < 4 {
                return Err(PngError::MalformedChunk);
            }
            Ok(ChunkData::Gamma(read_u32_be(p, 0)))
        },
        ChunkKind::StandardColorSpace => {
            if p.len() < 1 {
                return Err(PngError::MalformedChunk);
            }
            Ok(ChunkData::ColorSpace(p[0]))
        },
        ChunkKind::Timestamp => {
            if p.len() < 7 {
                return Err(PngError::MalformedChunk);
            }
            Ok(
                ChunkData::Timestamp(
                    DecodedTimestamp {
                        year: read_u16_be(p, 0),
                        month: p[2],
                        day: p[3],
                        hour: p[4],
                        minute: p[5],
                        second: p[6],
                    },
                ),
            )
        },
        ChunkKind::Unknown(raw) => Ok(ChunkData::Unknown(raw)),
        _ => Ok(ChunkData::Opaque),
    }
}

impl Chunk {
    /// Reads this chunk's payload according to its kind (see `decode`).
    pub fn decode(&self) -> (r: Result<ChunkData, PngError>)
        ensures
            r is Err <==> self.chunk_data@.len() < min_payload_len(self.chunk_type),
            r matches Err(e) ==> e == PngError::MalformedChunk,
            r matches Ok(d) ==> decoded_as(d, self.chunk_type, self.chunk_data@),
    {
        decode(self.chunk_type, self.chunk_data.as_slice())
    }
}

/// A tag outside the known table is no error: it is classified `Unknown` with its own bytes,
/// a payload of any length decodes, and what it decodes to carries those bytes.
pub proof fn unknown_tags_are_tolerated(t: [u8; 4], p: Seq<u8>)
    requires
        !is_known_tag(t@),
    ensures
        kind_of(t) == ChunkKind::Unknown(t),
        p.len() >= min_payload_len(kind_of(t)),
        forall|d: ChunkData|
            decoded_as(d, kind_of(t), p) <==> (d matches ChunkData::Unknown(r) && r == t),
{
    classification_is_total(t);
}

} // verus!
