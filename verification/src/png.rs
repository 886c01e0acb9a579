//! The PNG files that the decoder is handed.
//!
//! The decoder behind [`crate::texture::decode_texture`] is an outside one,
//! and not every file is safe with it: on some it stops instead of reporting
//! an error. This module reads the framing of a file (signature, header and
//! the sequence of chunks) and tells whether the file keeps to a profile on
//! which the decoder answers. Files outside the profile are not decoded:
//!
//! - files without the signature or without a 13-byte `IHDR` at the start;
//! - images without pixels, or with more than [`MAX_PIXELS`] of them;
//! - a color type and bit depth that do not go together;
//! - interlaced images, and compression or filter methods other than 0;
//! - a second `IHDR`, and the chunks of animations (`acTL`, `fcTL`, `fdAT`);
//! - `PLTE` or `tRNS` after the first `IDAT`;
//! - indexed color without a non-empty `PLTE` before the first `IDAT`.

use vstd::prelude::*;

verus! {

/// The most pixels that an image may have.
pub const MAX_PIXELS: u64 = 0x100_0000;

/// Bytes from the start of the file to the first chunk after `IHDR`: the
/// signature, and length, type, 13 bytes of data and checksum of `IHDR`.
pub const HEADER_BYTES: usize = 33;

/// Bytes of a chunk besides its data: length, type and checksum.
pub const CHUNK_FRAME_BYTES: u64 = 12;

/// The most bytes of a palette: 256 entries of three bytes.
pub const MAX_PALETTE_BYTES: u32 = 768;

/// The type of a chunk: four bytes.
#[derive(Clone, Copy, Debug, PartialEq, Eq, Structural)]
pub struct ChunkType {
    pub a: u8,
    pub b: u8,
    pub c: u8,
    pub d: u8,
}

/// What a chunk is, as far as the profile tells chunks apart.
#[derive(Clone, Copy, Debug, PartialEq, Eq, Structural)]
pub enum ChunkKind {
    /// `IHDR`: the image header.
    Header,
    /// `PLTE`: the palette.
    Palette,
    /// `tRNS`: transparency.
    Transparency,
    /// `IDAT`: image data.
    Data,
    /// `IEND`: the end of the image.
    End,
    /// `acTL`, `fcTL` or `fdAT`: a chunk of an animation.
    Animation,
    /// Any other chunk. The decoder passes over these.
    Other,
}

impl ChunkType {
    /// What a chunk of this type is.
    pub open spec fn spec_kind(self) -> ChunkKind {
        if self.a == 73 && self.b == 72 && self.c == 68 && self.d == 82 {
            ChunkKind::Header
        } else if self.a == 80 && self.b == 76 && self.c == 84 && self.d == 69 {
            ChunkKind::Palette
        } else if self.a == 116 && self.b == 82 && self.c == 78 && self.d == 83 {
            ChunkKind::Transparency
        } else if self.a == 73 && self.b == 68 && self.c == 65 && self.d == 84 {
            ChunkKind::Data
        } else if self.a == 73 && self.b == 69 && self.c == 78 && self.d == 68 {
            ChunkKind::End
        } else if (self.a == 97 && self.b == 99 && self.c == 84 && self.d == 76) || (self.a == 102
            && self.b == 99 && self.c == 84 && self.d == 76) || (self.a == 102 && self.b == 100
            && self.c == 65 && self.d == 84) {
            ChunkKind::Animation
        } else {
            ChunkKind::Other
        }
    }

    /// What a chunk of this type is.
    pub fn kind(&self) -> (kind: ChunkKind)
        ensures
            kind == self.spec_kind(),
    {
        if self.a == 73 && self.b == 72 && self.c == 68 && self.d == 82 {
            ChunkKind::Header
        } else if self.a == 80 && self.b == 76 && self.c == 84 && self.d == 69 {
            ChunkKind::Palette
        } else if self.a == 116 && self.b == 82 && self.c == 78 && self.d == 83 {
            ChunkKind::Transparency
        } else if self.a == 73 && self.b == 68 && self.c == 65 && self.d == 84 {
            ChunkKind::Data
        } else if self.a == 73 && self.b == 69 && self.c == 78 && self.d == 68 {
            ChunkKind::End
        } else if (self.a == 97 && self.b == 99 && self.c == 84 && self.d == 76) || (self.a == 102
            && self.b == 99 && self.c == 84 && self.d == 76) || (self.a == 102 && self.b == 100
            && self.c == 65 && self.d == 84) {
            ChunkKind::Animation
        } else {
            ChunkKind::Other
        }
    }
}

/// The number that four bytes spell, the first of them counting most.
pub open spec fn spec_be32(a: u8, b: u8, c: u8, d: u8) -> u32 {
    ((a as u32) << 24) | ((b as u32) << 16) | ((c as u32) << 8) | (d as u32)
}

/// The number that the four bytes from `at` on spell.
pub open spec fn be32_at(file: Seq<u8>, at: int) -> u32 {
    spec_be32(file[at], file[at + 1], file[at + 2], file[at + 3])
}

/// The type of the chunk whose length field is at `at`.
pub open spec fn type_at(file: Seq<u8>, at: int) -> ChunkType {
    ChunkType { a: file[at + 4], b: file[at + 5], c: file[at + 6], d: file[at + 7] }
}

/// Whether the file begins with the eight bytes of the PNG signature.
pub open spec fn has_signature(file: Seq<u8>) -> bool {
    &&& file.len() >= 8
    &&& file[0] == 137
    &&& file[1] == 80
    &&& file[2] == 78
    &&& file[3] == 71
    &&& file[4] == 13
    &&& file[5] == 10
    &&& file[6] == 26
    &&& file[7] == 10
}

/// Whether PNG allows the bit depth for the color type.
pub open spec fn depth_allowed(color_type: u8, bit_depth: u8) -> bool {
    if color_type == 0 {
        bit_depth == 1 || bit_depth == 2 || bit_depth == 4 || bit_depth == 8 || bit_depth == 16
    } else if color_type == 3 {
        bit_depth == 1 || bit_depth == 2 || bit_depth == 4 || bit_depth == 8
    } else if color_type == 2 || color_type == 4 || color_type == 6 {
        bit_depth == 8 || bit_depth == 16
    } else {
        false
    }
}

/// The fields of the image header.
#[derive(Clone, Copy, Debug, PartialEq, Eq, Structural)]
pub struct Header {
    pub width: u32,
    pub height: u32,
    pub bit_depth: u8,
    pub color_type: u8,
    pub compression: u8,
    pub filter: u8,
    pub interlace: u8,
}

impl Header {
    /// The header is one that the profile takes: there are pixels and not too
    /// many, depth and color type go together, and the image is compressed
    /// and filtered by method 0 and not interlaced.
    pub open spec fn spec_allowed(self) -> bool {
        &&& self.width >= 1
        &&& self.height >= 1
        &&& self.width * self.height <= MAX_PIXELS
        &&& depth_allowed(self.color_type, self.bit_depth)
        &&& self.compression == 0
        &&& self.filter == 0
        &&& self.interlace == 0
    }

    /// Whether the profile takes the header.
    pub fn allowed(&self) -> (b: bool)
        ensures
            b == self.spec_allowed(),
    {
        proof {
            assert(self.width * self.height <= 0xFFFF_FFFF * 0xFFFF_FFFF) by (nonlinear_arith)
                requires
                    self.width <= 0xFFFF_FFFF,
                    self.height <= 0xFFFF_FFFF,
            ;
        }
        let depth_fits = if self.color_type == 0 {
            self.bit_depth == 1 || self.bit_depth == 2 || self.bit_depth == 4 || self.bit_depth
                == 8 || self.bit_depth == 16
        } else if self.color_type == 3 {
            self.bit_depth == 1 || self.bit_depth == 2 || self.bit_depth == 4 || self.bit_depth
                == 8
        } else if self.color_type == 2 || self.color_type == 4 || self.color_type == 6 {
            self.bit_depth == 8 || self.bit_depth == 16
        } else {
            false
        };
        self.width >= 1 && self.height >= 1 && self.width as u64 * self.height as u64
            <= MAX_PIXELS && depth_fits && self.compression == 0 && self.filter == 0
            && self.interlace == 0
    }
}

/// The header that a file begins with, read from the 13 bytes after the
/// signature and the length and type of the first chunk.
pub open spec fn header_of(file: Seq<u8>) -> Header {
    Header {
        width: be32_at(file, 16),
        height: be32_at(file, 20),
        bit_depth: file[24],
        color_type: file[25],
        compression: file[26],
        filter: file[27],
        interlace: file[28],
    }
}

/// Whether the file begins as the profile asks: with the signature and a
/// complete `IHDR` chunk of 13 bytes.
pub open spec fn starts_with_header(file: Seq<u8>) -> bool {
    &&& file.len() >= HEADER_BYTES
    &&& has_signature(file)
    &&& be32_at(file, 8) == 13
    &&& type_at(file, 8).spec_kind() == ChunkKind::Header
}

/// How many bytes the file has from `at` on.
pub open spec fn bytes_from(file: Seq<u8>, at: int) -> nat {
    if 0 <= at <= file.len() {
        (file.len() - at) as nat
    } else {
        0
    }
}

/// Whether the chunks from `at` on keep to the profile, given what came
/// before: whether an `IDAT` was seen, and whether a palette that is not
/// empty was. The chunks are followed up to `IEND` or to where the file ends.
pub open spec fn chunks_allowed(
    file: Seq<u8>,
    at: int,
    seen_data: bool,
    seen_palette: bool,
    indexed: bool,
) -> bool
    decreases bytes_from(file, at),
{
    if at < 0 || at + 8 > file.len() {
        true
    } else {
        let length = be32_at(file, at);
        let next = at + 12 + length;
        match type_at(file, at).spec_kind() {
            ChunkKind::End => true,
            ChunkKind::Header => false,
            ChunkKind::Animation => false,
            ChunkKind::Palette => !seen_data && chunks_allowed(
                file,
                next,
                seen_data,
                seen_palette || (1 <= length <= MAX_PALETTE_BYTES),
                indexed,
            ),
            ChunkKind::Transparency => !seen_data && chunks_allowed(
                file,
                next,
                seen_data,
                seen_palette,
                indexed,
            ),
            ChunkKind::Data => (indexed ==> seen_palette) && chunks_allowed(
                file,
                next,
                true,
                seen_palette,
                indexed,
            ),
            ChunkKind::Other => chunks_allowed(file, next, seen_data, seen_palette, indexed),
        }
    }
}

/// Whether the file keeps to the profile.
pub open spec fn in_profile(file: Seq<u8>) -> bool {
    &&& starts_with_header(file)
    &&& header_of(file).spec_allowed()
    &&& chunks_allowed(file, HEADER_BYTES as int, false, false, header_of(file).color_type == 3)
}

/// The number that four bytes spell, the first of them counting most.
pub fn be32(a: u8, b: u8, c: u8, d: u8) -> (value: u32)
    ensures
        value == spec_be32(a, b, c, d),
{
    ((a as u32) << 24) | ((b as u32) << 16) | ((c as u32) << 8) | (d as u32)
}

/// Reads the header of a file that begins as the profile asks.
pub fn read_header(file: &[u8]) -> (header: Option<Header>)
    ensures
        header is Some <==> starts_with_header(file@),
        header matches Some(h) ==> h == header_of(file@),
{
    if file.len() < HEADER_BYTES {
        return None;
    }
    let signed = file[0] == 137 && file[1] == 80 && file[2] == 78 && file[3] == 71 && file[4]
        == 13 && file[5] == 10 && file[6] == 26 && file[7] == 10;
    let first = ChunkType { a: file[12], b: file[13], c: file[14], d: file[15] };
    if !signed || be32(file[8], file[9], file[10], file[11]) != 13 || first.kind()
        != ChunkKind::Header {
        return None;
    }
    Some(
        Header {
            width: be32(file[16], file[17], file[18], file[19]),
            height: be32(file[20], file[21], file[22], file[23]),
            bit_depth: file[24],
            color_type: file[25],
            compression: file[26],
            filter: file[27],
            interlace: file[28],
        },
    )
}

/// Follows the chunks after the header and tells whether they keep to the
/// profile.
pub fn check_chunks(file: &[u8], indexed: bool) -> (allowed: bool)
    requires
        file@.len() >= HEADER_BYTES,
    ensures
        allowed == chunks_allowed(file@, HEADER_BYTES as int, false, false, indexed),
{
    let total = file.len();
    let mut at: usize = HEADER_BYTES;
    let mut seen_data = false;
    let mut seen_palette = false;
    while total - at >= 8
        invariant
            total == file@.len(),
            HEADER_BYTES <= at <= total,
            chunks_allowed(file@, HEADER_BYTES as int, false, false, indexed) == chunks_allowed(
                file@,
                at as int,
                seen_data,
                seen_palette,
                indexed,
            ),
        decreases total - at,
    {
        let length = be32(file[at], file[at + 1], file[at + 2], file[at + 3]);
        let chunk = ChunkType { a: file[at + 4], b: file[at + 5], c: file[at + 6], d: file[at + 7] };
        match chunk.kind() {
            ChunkKind::End => {
                return true;
            },
            ChunkKind::Header => {
                return false;
            },
            ChunkKind::Animation => {
                return false;
            },
            ChunkKind::Palette => {
                if seen_data {
                    return false;
                }
                if 1 <= length && length <= MAX_PALETTE_BYTES {
                    seen_palette = true;
                }
            },
            ChunkKind::Transparency => {
                if seen_data {
                    return false;
                }
            },
            ChunkKind::Data => {
                if indexed && !seen_palette {
                    return false;
                }
                seen_data = true;
            },
            ChunkKind::Other => {},
        }
        let ghost next = at + 12 + length;
        if length as u64 + CHUNK_FRAME_BYTES > (total - at) as u64 {
            // The chunk runs to the end of the file or beyond: none follows.
            proof {
                assert(chunks_allowed(file@, next, seen_data, seen_palette, indexed));
            }
            return true;
        }
        at = at + (length as usize + 12);
    }
    true
}

/// Tells whether a file keeps to the profile.
pub fn keeps_to_profile(file: &[u8]) -> (b: bool)
    ensures
        b == in_profile(file@),
{
    match read_header(file) {
        Some(header) => header.allowed() && check_chunks(file, header.color_type == 3),
        None => false,
    }
}

} // verus!
