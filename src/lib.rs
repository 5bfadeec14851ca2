//! Reads the chunk stream of a PNG file and reports the metadata it carries: dimensions,
//! color configuration, palette, gamma, color-space intent and timestamp.
//!
//! `Png::from_bytes` checks the signature and splits the stream into chunks;
//! `Chunk::decode` reads a payload according to its kind; `Png::report` writes the text.
pub mod bytes;
pub mod chunk_kind;
pub mod cli;
pub mod decoder;
pub mod reader;
pub mod report;
pub mod text;

pub use chunk_kind::{classify, ChunkKind};
pub use cli::{ArgNote, Cli, DisplayOptions};
pub use decoder::{decode, ChunkData, DecodedHeader, DecodedTimestamp, PaletteEntry};
pub use reader::{has_png_signature, Chunk, Png, PngError};
