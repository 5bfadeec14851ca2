//! The human-readable report: one block per chunk, in stream order.
use vstd::prelude::*;
use crate::bytes::{be_u16, be_u32_at};
use crate::chunk_kind::ChunkKind;
use crate::cli::DisplayOptions;
use crate::decoder::{min_payload_len, palette_of, ChunkData, PaletteEntry};
use crate::reader::{Chunk, Png};
use crate::text::{decimal, field_text, push_decimal, push_field};

verus! {

/// The four letters of a kind's tag, or `Unknown`.
pub open spec fn kind_name(k: ChunkKind) -> Seq<char> {
    match k {
        ChunkKind::Header => "IHDR"@,
        ChunkKind::Palette => "PLTE"@,
        ChunkKind::ImageData => "IDAT"@,
        ChunkKind::End => "IEND"@,
        ChunkKind::Transparency => "tRNS"@,
        ChunkKind::Gamma => "gAMA"@,
        ChunkKind::Chromaticity => "cHRM"@,
        ChunkKind::StandardColorSpace => "sRGB"@,
        ChunkKind::EmbeddedColorProfile => "iCCP"@,
        ChunkKind::TextualData => "tEXt"@,
        ChunkKind::CompressedText => "zTXt"@,
        ChunkKind::InternationalText => "iTXt"@,
        ChunkKind::Background => "bKGD"@,
        ChunkKind::PhysicalDimensions => "pHYs"@,
        ChunkKind::SignificantBits => "sBIT"@,
        ChunkKind::SuggestedPalette => "sPLT"@,
        ChunkKind::Histogram => "hIST"@,
        ChunkKind::Timestamp => "tIME"@,
        ChunkKind::Unknown(_) => "Unknown"@,
    }
}

/// The first line of a block.
pub open spec fn heading(k: ChunkKind) -> Seq<char> {
    kind_name(k) + " Chunk:\n"@
}

/// The block of a chunk whose payload is too short for its kind.
pub open spec fn malformed_text(k: ChunkKind, len: nat) -> Seq<char> {
    heading(k) + " malformed: "@ + decimal(len) + " payload bytes, "@ + decimal(min_payload_len(k))
        + " needed\n"@
}

/// The block of a `Header` payload.
pub open spec fn header_text(p: Seq<u8>, d: bool) -> Seq<char> {
    heading(ChunkKind::Header) + field_text(
        " width: "@,
        be_u32_at(p, 0) as nat,
        "Width in pixels"@,
        d,
    ) + field_text(" height: "@, be_u32_at(p, 4) as nat, "Height in pixels"@, d) + field_text(
        " bit depth: "@,
        p[8] as nat,
        "Bits per sample or per palette index"@,
        d,
    ) + field_text(
        " color type: "@,
        p[9] as nat,
        "Sum of 1 (palette used), 2 (color used) and 4 (alpha used)"@,
        d,
    ) + field_text(" compression method: "@, p[10] as nat, "0 is deflate"@, d) + field_text(
        " filter method: "@,
        p[11] as nat,
        "0 is adaptive filtering"@,
        d,
    ) + field_text(" interlace method: "@, p[12] as nat, "0 is none, 1 is Adam7"@, d)
}

/// The line of palette entry `i`.
pub open spec fn entry_text(i: nat, e: PaletteEntry, d: bool) -> Seq<char> {
    " "@ + decimal(i) + ": ("@ + decimal(e.red as nat) + ", "@ + decimal(e.green as nat) + ", "@
        + decimal(e.blue as nat) + ")"@ + (if d {
        " | Red, green, blue"@
    } else {
        Seq::empty()
    }) + "\n"@
}

/// The lines of palette entries, numbered from zero.
pub open spec fn entries_text(es: Seq<PaletteEntry>, d: bool) -> Seq<char>
    decreases es.len(),
{
    if es.len() == 0 {
        Seq::empty()
    } else {
        entries_text(es.drop_last(), d) + entry_text((es.len() - 1) as nat, es.last(), d)
    }
}

/// The block of a `Timestamp` payload.
pub open spec fn timestamp_text(p: Seq<u8>, d: bool) -> Seq<char> {
    heading(ChunkKind::Timestamp) + field_text(
        " year: "@,
        be_u16(p[0], p[1]) as nat,
        "Complete year"@,
        d,
    ) + field_text(" month: "@, p[2] as nat, "1 to 12"@, d) + field_text(
        " day: "@,
        p[3] as nat,
        "1 to 31"@,
        d,
    ) + field_text(" hour: "@, p[4] as nat, "0 to 23"@, d) + field_text(
        " minute: "@,
        p[5] as nat,
        "0 to 59"@,
        d,
    ) + field_text(" second: "@, p[6] as nat, "0 to 60, 60 for a leap second"@, d)
}

/// The single line of a chunk whose tag is not in the known table.
pub open spec fn unknown_text(raw: [u8; 4]) -> Seq<char> {
    "Unknown chunk: ["@ + decimal(raw[0] as nat) + ", "@ + decimal(raw[1] as nat) + ", "@
        + decimal(raw[2] as nat) + ", "@ + decimal(raw[3] as nat) + "]\n"@
}

/// The report block of one chunk.
pub open spec fn chunk_text(c: Chunk, d: bool) -> Seq<char> {
    let k = c.chunk_type;
    let p = c.chunk_data@;
    if p.len() < min_payload_len(k) {
        malformed_text(k, p.len())
    } else {
        match k {
            ChunkKind::Header => header_text(p, d),
            ChunkKind::Palette => heading(k) + entries_text(palette_of(p), d),
            ChunkKind::End => heading(k) + " (no data)\n"@,
            ChunkKind::Gamma => heading(k) + field_text(
                " gamma: "@,
                be_u32_at(p, 0) as nat,
                "Image gamma times 100000"@,
                d,
            ),
            ChunkKind::StandardColorSpace => heading(k) + field_text(
                " rendering intent: "@,
                p[0] as nat,
                "0 perceptual, 1 relative colorimetric, 2 saturation, 3 absolute colorimetric"@,
                d,
            ),
            ChunkKind::Timestamp => timestamp_text(p, d),
            ChunkKind::Unknown(raw) => unknown_text(raw),
            _ => heading(k) + field_text(" length: "@, p.len(), "Payload bytes, not decoded"@, d),
        }
    }
}

/// The whole report: the blocks of the chunks, in order.
pub open spec fn report_text(cs: Seq<Chunk>, d: bool) -> Seq<char>
    decreases cs.len(),
{
    if cs.len() == 0 {
        Seq::empty()
    } else {
        report_text(cs.drop_last(), d) + chunk_text(cs.last(), d)
    }
}

fn kind_name_str(k: ChunkKind) -> (r: &'static str)
    ensures
        r@ == kind_name(k),
{
    match k {
        ChunkKind::Header => "IHDR",
        ChunkKind::Palette => "PLTE",
        ChunkKind::ImageData => "IDAT",
        ChunkKind::End => "IEND",
        ChunkKind::Transparency => "tRNS",
        ChunkKind::Gamma => "gAMA",
        ChunkKind::Chromaticity => "cHRM",
        ChunkKind::StandardColorSpace => "sRGB",
        ChunkKind::EmbeddedColorProfile => "iCCP",
        ChunkKind::TextualData => "tEXt",
        ChunkKind::CompressedText => "zTXt",
        ChunkKind::InternationalText => "iTXt",
        ChunkKind::Background => "bKGD",
        ChunkKind::PhysicalDimensions => "pHYs",
        ChunkKind::SignificantBits => "sBIT",
        ChunkKind::SuggestedPalette => "sPLT",
        ChunkKind::Histogram => "hIST",
        ChunkKind::Timestamp => "tIME",
        ChunkKind::Unknown(_) => "Unknown",
    }
}

fn push_heading(out: &mut String, k: ChunkKind)
    ensures
        final(out)@ == old(out)@ + heading(k),
{
    out.append(kind_name_str(k));
    out.append(" Chunk:\n");
    assert(out@ =~= old(out)@ + heading(k));
}

fn push_entry(out: &mut String, i: usize, e: PaletteEntry, d: bool)
    ensures
        final(out)@ == old(out)@ + entry_text(i as nat, e, d),
{
    out.append(" ");
    push_decimal(out, i as u64);
    out.append(": (");
    push_decimal(out, e.red as u64);
    out.append(", ");
    push_decimal(out, e.green as u64);
    out.append(", ");
    push_decimal(out, e.blue as u64);
    out.append(")");
    if d {
        out.append(" | Red, green, blue");
    }
    out.append("\n");
    assert(out@ =~= old(out)@ + entry_text(i as nat, e, d));
}

fn push_entries(out: &mut String, es: &Vec<PaletteEntry>, d: bool)
    ensures
        final(out)@ == old(out)@ + entries_text(es@, d),
{
    let mut i: usize = 0;
    assert(es@.take(0) =~= Seq::<PaletteEntry>::empty());
    assert(out@ =~= old(out)@ + entries_text(es@.take(0), d));
    while i < es.len()
        invariant
            i <= es@.len(),
            out@ == old(out)@ + entries_text(es@.take(i as int), d),
        decreases es@.len() - i,
    {
        push_entry(out, i, es[i], d);
        assert(es@.take(i + 1).drop_last() =~= es@.take(i as int));
        assert(out@ =~= old(out)@ + entries_text(es@.take(i + 1), d));
        i = i + 1;
    }
    assert(es@.take(es@.len() as int) =~= es@);
}

impl Chunk {
    /// This chunk's block of the report.
    ///
    /// A payload too short for its kind gives a block that says so, in place of the fields.
    pub fn describe(&self, options: &DisplayOptions) -> (r: String)
        ensures
            r@ == chunk_text(*self, options.descriptive),
    {
        let d = options.descriptive;
        let k = self.chunk_type;
        let mut out = String::new();
        match self.decode() {
            Err(_) => {
                push_heading(&mut out, k);
                out.append(" malformed: ");
                push_decimal(&mut out, self.chunk_data.len() as u64);
                out.append(" payload bytes, ");
                push_decimal(&mut out, min_len(k));
                out.append(" needed\n");
            },
            Ok(ChunkData::Header(h)) => {
                push_heading(&mut out, k);
                push_field(&mut out, " width: ", h.width as u64, "Width in pixels", d);
                push_field(&mut out, " height: ", h.height as u64, "Height in pixels", d);
                push_field(
                    &mut out,
                    " bit depth: ",
                    h.bit_depth as u64,
                    "Bits per sample or per palette index",
                    d,
                );
                push_field(
                    &mut out,
                    " color type: ",
                    h.color_type as u64,
                    "Sum of 1 (palette used), 2 (color used) and 4 (alpha used)",
                    d,
                );
                push_field(
                    &mut out,
                    " compression method: ",
                    h.compression_method as u64,
                    "0 is deflate",
                    d,
                );
                push_field(
                    &mut out,
                    " filter method: ",
                    h.filter_method as u64,
                    "0 is adaptive filtering",
                    d,
                );
                push_field(
                    &mut out,
                    " interlace method: ",
                    h.interlace_method as u64,
                    "0 is none, 1 is Adam7",
                    d,
                );
            },
            Ok(ChunkData::Palette(es)) => {
                push_heading(&mut out, k);
                push_entries(&mut out, &es, d);
            },
            Ok(ChunkData::End) => {
                push_heading(&mut out, k);
                out.append(" (no data)\n");
            },
            Ok(ChunkData::Gamma(g)) => {
                push_heading(&mut out, k);
                push_field(&mut out, " gamma: ", g as u64, "Image gamma times 100000", d);
            },
            Ok(ChunkData::ColorSpace(intent)) => {
                push_heading(&mut out, k);
                push_field(
                    &mut out,
                    " rendering intent: ",
                    intent as u64,
                    "0 perceptual, 1 relative colorimetric, 2 saturation, 3 absolute colorimetric",
                    d,
                );
            },
            Ok(ChunkData::Timestamp(t)) => {
                push_heading(&mut out, k);
                push_field(&mut out, " year: ", t.year as u64, "Complete year", d);
                push_field(&mut out, " month: ", t.month as u64, "1 to 12", d);
                push_field(&mut out, " day: ", t.day as u64, "1 to 31", d);
                push_field(&mut out, " hour: ", t.hour as u64, "0 to 23", d);
                push_field(&mut out, " minute: ", t.minute as u64, "0 to 59", d);
                push_field(&mut out, " second: ", t.second as u64, "0 to 60, 60 for a leap second", d);
            },
            Ok(ChunkData::Unknown(raw)) => {
                out.append("Unknown chunk: [");
                push_decimal(&mut out, raw[0] as u64);
                out.append(", ");
                push_decimal(&mut out, raw[1] as u64);
                out.append(", ");
                push_decimal(&mut out, raw[2] as u64);
                out.append(", ");
                push_decimal(&mut out, raw[3] as u64);
                out.append("]\n");
            },
            Ok(ChunkData::Opaque) => {
                push_heading(&mut out, k);
                push_field(
                    &mut out,
                    " length: ",
                    self.chunk_data.len() as u64,
                    "Payload bytes, not decoded",
                    d,
                );
            },
        }
        assert(out@ =~= chunk_text(*self, d));
        out
    }
}

fn min_len(k: ChunkKind) -> (r: u64)
    ensures
        r == min_payload_len(k),
{
    match k {
        ChunkKind::Header => 13,
        ChunkKind::Gamma => 4,
        ChunkKind::StandardColorSpace => 1,
        ChunkKind::Timestamp => 7,
        _ => 0,
    }
}

impl Png {
    /// The report of every chunk, one block each, in stream order.
    pub fn report(&self, options: &DisplayOptions) -> (r: String)
        ensures
            r@ == report_text(self.chunks@, options.descriptive),
    {
        let mut out = String::new();
        let mut i: usize = 0;
        assert(self.chunks@.take(0) =~= Seq::<Chunk>::empty());
        while i < self.chunks.len()
            invariant
                i <= self.chunks@.len(),
                out@ == report_text(self.chunks@.take(i as int), options.descriptive),
            decreases self.chunks@.len() - i,
        {
            let block = self.chunks[i].describe(options);
            out.append(block.as_str());
            assert(self.chunks@.take(i + 1).drop_last() =~= self.chunks@.take(i as int));
            assert(out@ =~= report_text(self.chunks@.take(i + 1), options.descriptive));
            i = i + 1;
        }
        assert(self.chunks@.take(self.chunks@.len() as int) =~= self.chunks@);
        out
    }
}

} // verus!
