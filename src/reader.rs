//! The chunk stream: the file signature, then length-prefixed, typed, checksummed records.
use vstd::prelude::*;
use crate::bytes::{be_u32_at, copy_range, read_u32_be};
use crate::chunk_kind::{classify, is_known_tag, kind_of, tag_of, ChunkKind};

verus! {

/// Why a byte stream, or a chunk in it, could not be read.
#[derive(Clone, Copy, Debug, PartialEq, Eq, Structural)]
pub enum PngError {
    /// The stream does not start with the eight signature bytes (or is shorter than that).
    InvalidSignature,
    /// A chunk's payload is shorter than the fixed layout of its kind asks for.
    MalformedChunk,
}

/// The eight bytes every PNG stream starts with.
pub open spec fn png_signature() -> Seq<u8> {
    seq![137u8, 80, 78, 71, 13, 10, 26, 10]
}

/// Whether `s` starts with the PNG signature.
pub open spec fn has_signature(s: Seq<u8>) -> bool {
    s.len() >= 8 && s.subrange(0, 8) == png_signature()
}

/// One record as it stands in the stream: the type tag, the payload and the checksum bytes.
pub struct Frame {
    pub tag: Seq<u8>,
    pub payload: Seq<u8>,
    pub checksum: Seq<u8>,
}

/// The records that follow one another at the front of `s`, in order.
///
/// A record is a four-byte big-endian length `n`, a four-byte tag, `n` payload bytes and a
/// four-byte checksum. The stream ends where the bytes left cannot hold a whole record: a
/// record cut short by the end of the stream is not one.
pub open spec fn frames(s: Seq<u8>) -> Seq<Frame>
    decreases s.len(),
{
    if s.len() < 8 {
        Seq::empty()
    } else {
        let n = be_u32_at(s, 0);
        if s.len() < 12 + n {
            Seq::empty()
        } else {
            seq![
                Frame {
                    tag: s.subrange(4, 8),
                    payload: s.subrange(8, 8 + n),
                    checksum: s.subrange(8 + n, 12 + n),
                },
            ] + frames(s.subrange(12 + n, s.len() as int))
        }
    }
}

/// One chunk of the stream.
#[derive(Debug)]
pub struct Chunk {
    /// The kind its tag names.
    pub chunk_type: ChunkKind,
    /// The length declared in front of it, equal to the payload's length.
    pub chunk_length: usize,
    /// The payload, byte for byte.
    pub chunk_data: Vec<u8>,
    /// The trailing checksum, kept as read and not checked.
    pub chunk_crc: [u8; 4],
}

impl View for Chunk {
    type V = Frame;

    open spec fn view(&self) -> Frame {
        Frame { tag: tag_of(self.chunk_type), payload: self.chunk_data@, checksum: self.chunk_crc@ }
    }
}

impl Chunk {
    /// The declared length is the payload's, and an `Unknown` kind never carries a known tag.
    pub open spec fn wf(&self) -> bool {
        &&& self.chunk_length == self.chunk_data@.len()
        &&& (self.chunk_type is Unknown ==> !is_known_tag(tag_of(self.chunk_type)))
    }
}

/// A PNG stream read into its signature and its chunks.
#[derive(Debug)]
pub struct Png {
    /// The signature bytes at the front of the stream.
    pub signature: [u8; 8],
    /// The chunks, in stream order.
    pub chunks: Vec<Chunk>,
}

/// The records of a sequence of chunks.
pub open spec fn frames_of(chunks: Seq<Chunk>) -> Seq<Frame> {
    chunks.map_values(|c: Chunk| c@)
}

impl Png {
    /// Every chunk is well formed.
    pub open spec fn wf(&self) -> bool {
        forall|i: int| 0 <= i < self.chunks@.len() ==> (#[trigger] self.chunks@[i]).wf()
    }

    /// Reads a byte stream: checks the signature, then splits the rest into chunks.
    ///
    /// Reading stops where the bytes left cannot hold a whole record; such a tail is not an
    /// error. Trailing bytes after an `End` chunk are read like any others.
    pub fn from_bytes(b: &[u8]) -> (r: Result<Png, PngError>)
        ensures
            r is Err <==> !has_signature(b@),
            r matches Err(e) ==> e == PngError::InvalidSignature,
            r matches Ok(png) ==> {
                &&& png.wf()
                &&& png.signature@ == png_signature()
                &&& frames_of(png.chunks@) == frames(b@.subrange(8, b@.len() as int))
            },
    {
        if !has_png_signature(b) {
            return Err(PngError::InvalidSignature);
        }
        let signature: [u8; 8] = [b[0], b[1], b[2], b[3], b[4], b[5], b[6], b[7]];
        assert(signature@ =~= png_signature());
        let ghost all = b@.subrange(8, b@.len() as int);
        let mut chunks: Vec<Chunk> = Vec::new();
        let mut pos: usize = 8;
        assert(b@.subrange(pos as int, b@.len() as int) =~= all);
        loop
            invariant
                8 <= pos <= b@.len(),
                all == b@.subrange(8, b@.len() as int),
                frames(all) == frames_of(chunks@) + frames(b@.subrange(pos as int, b@.len() as int)),
                forall|i: int| 0 <= i < chunks@.len() ==> (#[trigger] chunks@[i]).wf(),
            ensures
                frames(all) == frames_of(chunks@),
                forall|i: int| 0 <= i < chunks@.len() ==> (#[trigger] chunks@[i]).wf(),
            decreases b@.len() - pos,
        {
            let ghost rest = b@.subrange(pos as int, b@.len() as int);
            let left = b.len() - pos;
            if left < 8 {
                assert(frames(rest) =~= Seq::<Frame>::empty());
                assert(frames_of(chunks@) + frames(rest) =~= frames_of(chunks@));
                break;
            }
            let n = read_u32_be(b, pos) as usize;
            assert(be_u32_at(b@, pos as int) == be_u32_at(rest, 0));
            if n > left - 8 || left - 8 - n < 4 {
                assert(frames(rest) =~= Seq::<Frame>::empty());
                assert(frames_of(chunks@) + frames(rest) =~= frames_of(chunks@));
                break;
            }
            let tag: [u8; 4] = [b[pos + 4], b[pos + 5], b[pos + 6], b[pos + 7]];
            let data = copy_range(b, pos + 8, pos + 8 + n);
            let end = pos + 8 + n;
            let crc: [u8; 4] = [b[end], b[end + 1], b[end + 2], b[end + 3]];
            let chunk_type = classify(tag);
            let chunk = Chunk { chunk_type, chunk_length: n, chunk_data: data, chunk_crc: crc };
            proof {
                crate::chunk_kind::classification_is_total(tag);
                assert(tag@ =~= rest.subrange(4, 8));
                assert(data@ =~= rest.subrange(8, 8 + n));
                assert(crc@ =~= rest.subrange(8 + n, 12 + n));
                assert(rest.subrange(12 + n, rest.len() as int) =~= b@.subrange(
                    end + 4,
                    b@.len() as int,
                ));
                assert(frames_of(chunks@.push(chunk)) =~= frames_of(chunks@).push(chunk@));
                assert(frames(rest) == seq![chunk@] + frames(b@.subrange(end + 4, b@.len() as int)));
                assert(frames_of(chunks@) + frames(rest) =~= frames_of(chunks@).push(chunk@)
                    + frames(b@.subrange(end + 4, b@.len() as int)));
            }
            chunks.push(chunk);
            pos = end + 4;
        }
        Ok(Png { signature, chunks })
    }
}

/// Whether `b` starts with the PNG signature.
pub fn has_png_signature(b: &[u8]) -> (r: bool)
    ensures
        r == has_signature(b@),
{
    if b.len() < 8 {
        return false;
    }
    let r = b[0] == 137 && b[1] == 80 && b[2] == 78 && b[3] == 71 && b[4] == 13 && b[5] == 10
        && b[6] == 26 && b[7] == 10;
    proof {
        if r {
            assert(b@.subrange(0, 8) =~= png_signature());
        }
        if has_signature(b@) {
            assert(b@.subrange(0, 8)[0] == b@[0]);
            assert(b@.subrange(0, 8)[7] == b@[7]);
        }
    }
    r
}

/// Four big-endian bytes holding `n`.
pub open spec fn u32_be_bytes(n: nat) -> Seq<u8> {
    seq![
        (n / 16777216) as u8,
        ((n / 65536) % 256) as u8,
        ((n / 256) % 256) as u8,
        (n % 256) as u8,
    ]
}

/// A record that the stream can carry: a four-byte tag and checksum, a payload whose length
/// fits the length field.
pub open spec fn frame_is_valid(f: Frame) -> bool {
    &&& f.tag.len() == 4
    &&& f.checksum.len() == 4
    &&& f.payload.len() < 4294967296
}

/// The bytes of one record: its payload length, tag, payload and checksum.
pub open spec fn frame_bytes(f: Frame) -> Seq<u8> {
    u32_be_bytes(f.payload.len()) + f.tag + f.payload + f.checksum
}

/// The bytes of several records, one after another.
pub open spec fn stream_bytes(fs: Seq<Frame>) -> Seq<u8>
    decreases fs.len(),
{
    if fs.len() == 0 {
        Seq::empty()
    } else {
        frame_bytes(fs[0]) + stream_bytes(fs.drop_first())
    }
}

proof fn lemma_u32_be_bytes(n: nat)
    requires
        n < 4294967296,
    ensures
        u32_be_bytes(n).len() == 4,
        be_u32_at(u32_be_bytes(n), 0) == n,
{
    let b0 = n / 16777216;
    let b1 = (n / 65536) % 256;
    let b2 = (n / 256) % 256;
    let b3 = n % 256;
    assert(0 <= b0 < 256 && 0 <= b1 < 256 && 0 <= b2 < 256 && 0 <= b3 < 256) by (nonlinear_arith)
        requires
            n < 4294967296,
            b0 == n / 16777216,
            b1 == (n / 65536) % 256,
            b2 == (n / 256) % 256,
            b3 == n % 256,
    ;
    assert(b0 * 16777216 + b1 * 65536 + b2 * 256 + b3 == n) by (nonlinear_arith)
        requires
            n < 4294967296,
            b0 == n / 16777216,
            b1 == (n / 65536) % 256,
            b2 == (n / 256) % 256,
            b3 == n % 256,
    ;
}

/// Records written one after another behind the signature are read back as the same records,
/// in the same order, with the same tags, payloads and checksums.
pub proof fn framing_round_trip(fs: Seq<Frame>)
    requires
        forall|i: int| 0 <= i < fs.len() ==> frame_is_valid(#[trigger] fs[i]),
    ensures
        has_signature(png_signature() + stream_bytes(fs)),
        frames((png_signature() + stream_bytes(fs)).subrange(
            8,
            (png_signature() + stream_bytes(fs)).len() as int,
        )) == fs,
{
    let s = png_signature() + stream_bytes(fs);
    assert(s.subrange(0, 8) =~= png_signature());
    assert(s.subrange(8, s.len() as int) =~= stream_bytes(fs));
    lemma_frames_of_stream_bytes(fs);
}

proof fn lemma_frames_of_stream_bytes(fs: Seq<Frame>)
    requires
        forall|i: int| 0 <= i < fs.len() ==> frame_is_valid(#[trigger] fs[i]),
    ensures
        frames(stream_bytes(fs)) == fs,
    decreases fs.len(),
{
    if fs.len() == 0 {
        assert(frames(stream_bytes(fs)) =~= fs);
    } else {
        let f = fs[0];
        let tail = fs.drop_first();
        assert(frame_is_valid(f));
        assert forall|i: int| 0 <= i < tail.len() implies frame_is_valid(#[trigger] tail[i]) by {
            assert(tail[i] == fs[i + 1]);
        }
        lemma_frames_of_stream_bytes(tail);
        let n = f.payload.len() as int;
        lemma_u32_be_bytes(f.payload.len());
        let s = stream_bytes(fs);
        assert(s == frame_bytes(f) + stream_bytes(tail));
        assert(s.subrange(0, 4) =~= u32_be_bytes(f.payload.len()));
        assert(be_u32_at(s, 0) == be_u32_at(u32_be_bytes(f.payload.len()), 0));
        assert(s.subrange(4, 8) =~= f.tag);
        assert(s.subrange(8, 8 + n) =~= f.payload);
        assert(s.subrange(8 + n, 12 + n) =~= f.checksum);
        assert(s.subrange(12 + n, s.len() as int) =~= stream_bytes(tail));
        let g = Frame {
            tag: s.subrange(4, 8),
            payload: s.subrange(8, 8 + n),
            checksum: s.subrange(8 + n, 12 + n),
        };
        assert(g == f);
        assert(frames(s) =~= seq![f] + tail);
        assert(seq![f] + tail =~= fs);
    }
}

} // verus!
