//! The upload pipeline: decoded pixels are staged in a host-visible buffer,
//! each row padded to the device's copy pitch, and transferred into the
//! device-optimal image by one copy between two barriers.

use crate::barrier::{
    spec_next_layout,
    spec_texture_barrier,
    texture_barrier,
    ImageBarrier,
    ImageLayout,
    ImageRole,
};
use crate::texture::{Texture, TextureModel};
use vstd::arithmetic::div_mod::{
    lemma_div_pos_is_pos,
    lemma_fundamental_div_mod,
    lemma_fundamental_div_mod_converse,
    lemma_mod_pos_bound,
};
use vstd::prelude::*;

verus! {

/// Bytes of one pixel: 8 bits for each of red, green, blue and alpha.
pub const BYTES_PER_PIXEL: u64 = 4;

/// The least multiple of `alignment` that is not below `value`.
pub open spec fn spec_align_up(value: int, alignment: int) -> int
    recommends
        alignment > 0,
{
    ((value + alignment - 1) / alignment) * alignment
}

/// Whether `value` is a multiple of `alignment`.
pub open spec fn is_multiple(value: int, alignment: int) -> bool {
    value % alignment == 0
}

/// Rounding up yields a multiple of the alignment that is not below the
/// value and less than one alignment above it; no multiple of the alignment
/// lies between the value and the result.
pub proof fn align_up_is_least_multiple(value: int, alignment: int)
    requires
        value >= 0,
        alignment > 0,
    ensures
        is_multiple(spec_align_up(value, alignment), alignment),
        value <= spec_align_up(value, alignment) < value + alignment,
        forall|multiple: int|
            #[trigger] is_multiple(multiple, alignment) && multiple >= value ==> multiple
                >= spec_align_up(value, alignment),
        is_multiple(value, alignment) ==> spec_align_up(value, alignment) == value,
{
    let raised = value + alignment - 1;
    let q = raised / alignment;
    let up = spec_align_up(value, alignment);
    lemma_fundamental_div_mod(raised, alignment);
    lemma_mod_pos_bound(raised, alignment);
    assert(alignment * q == q * alignment) by (nonlinear_arith);
    assert(up == raised - raised % alignment);
    lemma_fundamental_div_mod_converse(up, alignment, q, 0);
    assert forall|multiple: int|
        #[trigger] is_multiple(multiple, alignment) && multiple >= value implies multiple
            >= up by {
        lemma_fundamental_div_mod(multiple, alignment);
        let k = multiple / alignment;
        assert(multiple == alignment * k);
        if multiple < up {
            // `k < q`, so `multiple <= up - alignment < value`.
            assert(k < q) by (nonlinear_arith)
                requires
                    alignment * k < q * alignment,
                    alignment > 0,
            ;
            assert(alignment * k <= q * alignment - alignment) by (nonlinear_arith)
                requires
                    k <= q - 1,
                    alignment > 0,
            ;
        }
    }
    if value % alignment == 0 {
        lemma_fundamental_div_mod(value, alignment);
        let v = value / alignment;
        lemma_fundamental_div_mod_converse(raised, alignment, v, alignment - 1);
        assert(alignment * v == v * alignment) by (nonlinear_arith);
    }
}

/// Rounds `value` up to the next multiple of `alignment`. There is no result
/// for the alignment 0 nor where the multiple is beyond the integer range.
pub fn align_up(value: u64, alignment: u64) -> (aligned: Option<u64>)
    ensures
        aligned is Some <==> alignment > 0 && spec_align_up(value as int, alignment as int)
            <= u64::MAX,
        aligned matches Some(a) ==> a == spec_align_up(value as int, alignment as int),
{
    if alignment == 0 {
        return None;
    }
    proof {
        align_up_is_least_multiple(value as int, alignment as int);
    }
    let rest = value % alignment;
    if rest == 0 {
        Some(value)
    } else {
        proof {
            let up = spec_align_up(value as int, alignment as int);
            lemma_fundamental_div_mod(value as int, alignment as int);
            let candidate = value - rest + alignment;
            let v = value as int / alignment as int;
            assert(candidate == (v + 1) * alignment) by (nonlinear_arith)
                requires
                    value == alignment * v + rest,
                    candidate == value - rest + alignment,
            ;
            lemma_fundamental_div_mod_converse(candidate, alignment as int, v + 1, 0);
            // `candidate` is a multiple that is not below `value`, and it is
            // less than one alignment above it: it is the least one.
            lemma_fundamental_div_mod(up, alignment as int);
            let u = up / alignment as int;
            assert(u == v + 1) by (nonlinear_arith)
                requires
                    up == alignment * u,
                    candidate == (v + 1) * alignment,
                    candidate - alignment < value <= up,
                    up < value + alignment,
                    value < candidate,
                    alignment > 0,
            ;
            assert(up == candidate) by (nonlinear_arith)
                requires
                    up == alignment * u,
                    candidate == (v + 1) * alignment,
                    u == v + 1,
            ;
        }
        (value - rest).checked_add(alignment)
    }
}

/// How the pixels of an image lie in the staging buffer.
#[derive(Clone, Copy, Debug, PartialEq, Eq, Structural)]
pub struct UploadLayout {
    /// Width of the image in pixels.
    pub width: u32,
    /// Height of the image in pixels.
    pub height: u32,
    /// The device's least alignment of the pitch of a buffer copy.
    pub alignment: u64,
    /// Bytes from the start of one row to the start of the next.
    pub row_pitch: u64,
    /// Bytes of the staging buffer.
    pub upload_size: u64,
}

impl UploadLayout {
    /// Bytes of the pixels of one row.
    pub open spec fn spec_row_bytes(self) -> int {
        self.width * BYTES_PER_PIXEL
    }

    /// The row pitch is the row's bytes rounded up to the alignment, the
    /// buffer holds one pitch for each row, the pitch can be told the device
    /// in pixels, and the buffer can be addressed.
    pub open spec fn wf(self) -> bool {
        &&& self.alignment > 0
        &&& self.row_pitch == spec_align_up(self.spec_row_bytes(), self.alignment as int)
        &&& self.upload_size == self.height * self.row_pitch
        &&& self.row_pitch / BYTES_PER_PIXEL <= u32::MAX
        &&& self.upload_size <= usize::MAX
    }

    /// Whether an image of this size can be laid out with this alignment.
    pub open spec fn spec_fits(width: u32, height: u32, alignment: u64) -> bool {
        &&& alignment > 0
        &&& spec_align_up(width * BYTES_PER_PIXEL, alignment as int) / (BYTES_PER_PIXEL as int)
            <= u32::MAX
        &&& height * spec_align_up(width * BYTES_PER_PIXEL, alignment as int) <= usize::MAX
    }

    /// The layout of an image of this size for this alignment.
    pub open spec fn spec_new(width: u32, height: u32, alignment: u64) -> UploadLayout {
        UploadLayout {
            width,
            height,
            alignment,
            row_pitch: spec_align_up(width * BYTES_PER_PIXEL, alignment as int) as u64,
            upload_size: (height * spec_align_up(width * BYTES_PER_PIXEL, alignment as int)) as u64,
        }
    }

    /// Lays out an image of `width` by `height` pixels for a device whose
    /// buffer copies need a pitch that is a multiple of `alignment`.
    pub fn new(width: u32, height: u32, alignment: u64) -> (layout: Option<UploadLayout>)
        ensures
            layout is Some <==> Self::spec_fits(width, height, alignment),
            layout matches Some(l) ==> l == Self::spec_new(width, height, alignment) && l.wf(),
    {
        let row_bytes = width as u64 * BYTES_PER_PIXEL;
        let row_pitch = match align_up(row_bytes, alignment) {
            Some(pitch) => pitch,
            None => {
                proof {
                    if alignment > 0 {
                        // A pitch beyond the integer range is beyond what the
                        // device can be told.
                        let up = spec_align_up(row_bytes as int, alignment as int);
                        lemma_fundamental_div_mod(up, BYTES_PER_PIXEL as int);
                    }
                }
                return None;
            },
        };
        if row_pitch / BYTES_PER_PIXEL > u32::MAX as u64 {
            return None;
        }
        let upload_size = match (height as u64).checked_mul(row_pitch) {
            Some(size) => size,
            None => {
                return None;
            },
        };
        if upload_size > usize::MAX as u64 {
            return None;
        }
        Some(UploadLayout { width, height, alignment, row_pitch, upload_size })
    }

    /// Bytes of the pixels of one row.
    pub fn row_bytes(&self) -> (bytes: u64)
        ensures
            bytes == self.spec_row_bytes(),
    {
        self.width as u64 * BYTES_PER_PIXEL
    }

    /// Bytes of padding after the pixels of each row.
    pub fn padding(&self) -> (bytes: u64)
        requires
            self.wf(),
        ensures
            bytes == self.row_pitch - self.spec_row_bytes(),
            bytes < self.alignment,
    {
        proof {
            align_up_is_least_multiple(self.spec_row_bytes(), self.alignment as int);
        }
        self.row_pitch - self.width as u64 * BYTES_PER_PIXEL
    }
}

/// Row-pitch padding: the pitch of a layout is a multiple of the alignment,
/// it is no less than the bytes of a row, and less than one alignment more.
pub proof fn row_pitch_is_aligned(layout: UploadLayout)
    requires
        layout.wf(),
    ensures
        is_multiple(layout.row_pitch as int, layout.alignment as int),
        layout.spec_row_bytes() <= layout.row_pitch < layout.spec_row_bytes() + layout.alignment,
        is_multiple(layout.spec_row_bytes(), layout.alignment as int) ==> layout.row_pitch
            == layout.spec_row_bytes(),
{
    align_up_is_least_multiple(layout.spec_row_bytes(), layout.alignment as int);
}

/// Whether byte `k` of the staging buffer holds a pixel byte: it lies within
/// the rows, and within its row before the padding.
pub open spec fn holds_pixel(layout: UploadLayout, k: int) -> bool {
    0 <= k < layout.upload_size && k % (layout.row_pitch as int) < layout.spec_row_bytes()
}

/// The index among the pixel bytes of what byte `k` of the staging buffer
/// holds: same row, same place in the row.
pub open spec fn pixel_index(layout: UploadLayout, k: int) -> int {
    (k / (layout.row_pitch as int)) * layout.spec_row_bytes() + k % (layout.row_pitch as int)
}

/// The index in the staging buffer of pixel byte `i`: the start of its row,
/// which is the row's number times the pitch, and its place in the row.
pub open spec fn staging_index(layout: UploadLayout, i: int) -> int {
    (i / layout.spec_row_bytes()) * layout.row_pitch + i % layout.spec_row_bytes()
}

/// The staging buffer after the pixels were staged: each row of pixels at
/// the start of its pitch, and every other byte as it was before.
pub open spec fn staged(before: Seq<u8>, pixels: Seq<u8>, layout: UploadLayout) -> Seq<u8> {
    Seq::new(
        before.len(),
        |k: int|
            if holds_pixel(layout, k) {
                pixels[pixel_index(layout, k)]
            } else {
                before[k]
            },
    )
}

/// The staging buffer while the pixels are being staged: the bytes below
/// `limit` are as `staged` has them, the others as they were before.
pub open spec fn staged_below(
    before: Seq<u8>,
    pixels: Seq<u8>,
    layout: UploadLayout,
    limit: int,
) -> Seq<u8> {
    Seq::new(
        before.len(),
        |k: int|
            if holds_pixel(layout, k) && k < limit {
                pixels[pixel_index(layout, k)]
            } else {
                before[k]
            },
    )
}

/// The pixels read back from a staging buffer: of each row the bytes before
/// the padding.
pub open spec fn unpadded(staging: Seq<u8>, layout: UploadLayout) -> Seq<u8> {
    Seq::new(
        (layout.height * layout.spec_row_bytes()) as nat,
        |i: int| staging[staging_index(layout, i)],
    )
}

/// Byte `x` of row `y` lies at `y * row_pitch + x` in the staging buffer, and
/// that place is within the buffer and holds a pixel.
pub proof fn staging_place(layout: UploadLayout, y: int, x: int)
    requires
        layout.wf(),
        0 <= y < layout.height,
        0 <= x < layout.spec_row_bytes(),
    ensures
        0 <= y * layout.row_pitch + x < layout.upload_size,
        holds_pixel(layout, y * layout.row_pitch + x),
        pixel_index(layout, y * layout.row_pitch + x) == y * layout.spec_row_bytes() + x,
        0 <= y * layout.spec_row_bytes() + x < layout.height * layout.spec_row_bytes(),
        staging_index(layout, y * layout.spec_row_bytes() + x) == y * layout.row_pitch + x,
{
    let pitch = layout.row_pitch as int;
    let row = layout.spec_row_bytes();
    let height = layout.height as int;
    align_up_is_least_multiple(row, layout.alignment as int);
    assert(x < pitch);
    lemma_fundamental_div_mod_converse(y * pitch + x, pitch, y, x);
    lemma_fundamental_div_mod_converse(y * row + x, row, y, x);
    assert(y * pitch + x < height * pitch && 0 <= y * pitch) by (nonlinear_arith)
        requires
            0 <= y < height,
            0 <= x < pitch,
    ;
    assert(y * row + x < height * row && 0 <= y * row) by (nonlinear_arith)
        requires
            0 <= y < height,
            0 <= x < row,
    ;
}

/// A byte of the staging buffer that holds a pixel is byte `x` of a row `y`
/// of the image.
pub proof fn staging_place_of(layout: UploadLayout, k: int)
    requires
        layout.wf(),
        holds_pixel(layout, k),
    ensures
        0 <= k / (layout.row_pitch as int) < layout.height,
        0 <= k % (layout.row_pitch as int) < layout.spec_row_bytes(),
        k == (k / (layout.row_pitch as int)) * layout.row_pitch + k % (layout.row_pitch as int),
{
    let pitch = layout.row_pitch as int;
    let height = layout.height as int;
    assert(pitch > 0) by (nonlinear_arith)
        requires
            0 <= k < height * pitch,
            pitch >= 0,
    ;
    lemma_fundamental_div_mod(k, pitch);
    lemma_mod_pos_bound(k, pitch);
    lemma_div_pos_is_pos(k, pitch);
    let y = k / pitch;
    assert(pitch * y == y * pitch) by (nonlinear_arith);
    assert(y < height) by (nonlinear_arith)
        requires
            y * pitch <= k < height * pitch,
            pitch > 0,
    ;
}

/// Round trip: reading back the bytes before the padding of each row gives
/// exactly the pixels that were staged, whatever the buffer held before.
pub proof fn staging_round_trip(before: Seq<u8>, pixels: Seq<u8>, layout: UploadLayout)
    requires
        layout.wf(),
        pixels.len() == layout.height * layout.spec_row_bytes(),
        before.len() >= layout.upload_size,
    ensures
        unpadded(staged(before, pixels, layout), layout) == pixels,
{
    let row = layout.spec_row_bytes();
    let after = staged(before, pixels, layout);
    let back = unpadded(after, layout);
    assert(layout.height * row >= 0) by (nonlinear_arith)
        requires
            layout.height >= 0,
            row >= 0,
    ;
    assert forall|i: int| 0 <= i < pixels.len() implies back[i] == pixels[i] by {
        assert(row > 0) by (nonlinear_arith)
            requires
                0 <= i < layout.height * row,
                row >= 0,
        ;
        lemma_fundamental_div_mod(i, row);
        lemma_mod_pos_bound(i, row);
        lemma_div_pos_is_pos(i, row);
        let y = i / row;
        let x = i % row;
        assert(row * y == y * row) by (nonlinear_arith);
        assert(y < layout.height) by (nonlinear_arith)
            requires
                y * row <= i < layout.height * row,
                row > 0,
        ;
        staging_place(layout, y, x);
    }
    assert(back =~= pixels);
}

/// Staging leaves the padding alone: a byte that holds no pixel is what it
/// was before.
pub proof fn staging_leaves_padding(before: Seq<u8>, pixels: Seq<u8>, layout: UploadLayout, k: int)
    requires
        0 <= k < before.len(),
        !holds_pixel(layout, k),
    ensures
        staged(before, pixels, layout)[k] == before[k],
        staged(before, pixels, layout).len() == before.len(),
{
}

/// Where the rows need no padding, the staged bytes are the pixels as they
/// are: nothing is inserted.
pub proof fn aligned_rows_are_staged_unchanged(
    before: Seq<u8>,
    pixels: Seq<u8>,
    layout: UploadLayout,
)
    requires
        layout.wf(),
        is_multiple(layout.spec_row_bytes(), layout.alignment as int),
        pixels.len() == layout.height * layout.spec_row_bytes(),
        before.len() >= layout.upload_size,
    ensures
        layout.row_pitch == layout.spec_row_bytes(),
        layout.upload_size == pixels.len(),
        staged(before, pixels, layout).subrange(0, layout.upload_size as int) == pixels,
{
    align_up_is_least_multiple(layout.spec_row_bytes(), layout.alignment as int);
    let after = staged(before, pixels, layout);
    let pitch = layout.row_pitch as int;
    assert forall|k: int| 0 <= k < layout.upload_size implies after[k] == pixels[k] by {
        assert(pitch > 0) by (nonlinear_arith)
            requires
                0 <= k < layout.height * pitch,
                pitch >= 0,
        ;
        lemma_mod_pos_bound(k, pitch);
        lemma_fundamental_div_mod(k, pitch);
        assert(pitch * (k / pitch) == (k / pitch) * pitch) by (nonlinear_arith);
    }
    assert(after.subrange(0, layout.upload_size as int) =~= pixels);
}

/// An image without rows or without columns has no pixel bytes, and no
/// byte of a staging buffer holds one.
pub proof fn nothing_to_stage(layout: UploadLayout)
    requires
        layout.wf(),
        layout.height == 0 || layout.width == 0,
    ensures
        layout.height * layout.spec_row_bytes() == 0,
        forall|k: int| !holds_pixel(layout, k),
{
    assert(layout.height * layout.spec_row_bytes() == 0) by (nonlinear_arith)
        requires
            layout.height == 0 || layout.spec_row_bytes() == 0,
    ;
    if layout.height == 0 {
        assert(layout.height * layout.row_pitch == 0) by (nonlinear_arith)
            requires
                layout.height == 0,
        ;
    }
}

/// With at least one row, a row's bytes and the pitch are no more than the
/// size of the staging buffer.
pub proof fn rows_fit_in_memory(layout: UploadLayout)
    requires
        layout.wf(),
        layout.height >= 1,
    ensures
        layout.spec_row_bytes() <= layout.row_pitch <= layout.upload_size,
{
    align_up_is_least_multiple(layout.spec_row_bytes(), layout.alignment as int);
    let pitch = layout.row_pitch as int;
    let height = layout.height as int;
    assert(pitch <= height * pitch) by (nonlinear_arith)
        requires
            height >= 1,
            pitch >= 0,
    ;
}

/// Copies the pixels into the staging buffer, each row to the start of its
/// pitch. The padding after each row, and what lies behind the last row, are
/// not written.
pub fn stage_rows(pixels: &[u8], layout: &UploadLayout, staging: &mut [u8])
    requires
        layout.wf(),
        pixels@.len() == layout.height * layout.spec_row_bytes(),
        old(staging)@.len() >= layout.upload_size,
    ensures
        final(staging)@ == staged(old(staging)@, pixels@, *layout),
{
    let ghost before = staging@;
    if layout.height == 0 || layout.width == 0 {
        proof {
            nothing_to_stage(*layout);
            assert(staging@ =~= staged(before, pixels@, *layout));
        }
        return;
    }
    proof {
        rows_fit_in_memory(*layout);
    }
    let row_bytes = (layout.width as u64 * BYTES_PER_PIXEL) as usize;
    let row_pitch = layout.row_pitch as usize;
    let height = layout.height as usize;
    let pixel_bytes = pixels.len();
    let mut y: usize = 0;
    proof {
        assert(staging@ =~= staged_below(before, pixels@, *layout, 0));
    }
    while y < height
        invariant
            layout.wf(),
            pixels@.len() == layout.height * layout.spec_row_bytes(),
            pixels@.len() == pixel_bytes,
            before.len() >= layout.upload_size,
            row_bytes == layout.spec_row_bytes(),
            row_pitch == layout.row_pitch,
            row_bytes <= row_pitch,
            height == layout.height,
            row_bytes >= 1,
            y <= height,
            staging@ == staged_below(before, pixels@, *layout, y * row_pitch),
        decreases height - y,
    {
        proof {
            staging_place(*layout, y as int, 0);
        }
        let source_start = y * row_bytes;
        let target_start = y * row_pitch;
        let mut x: usize = 0;
        while x < row_bytes
            invariant
                layout.wf(),
                pixels@.len() == layout.height * layout.spec_row_bytes(),
                pixels@.len() == pixel_bytes,
                before.len() >= layout.upload_size,
                row_bytes == layout.spec_row_bytes(),
                row_pitch == layout.row_pitch,
                row_bytes <= row_pitch,
                height == layout.height,
                y < height,
                x <= row_bytes,
                source_start == y * row_bytes,
                target_start == y * row_pitch,
                staging@ == staged_below(before, pixels@, *layout, target_start + x),
            decreases row_bytes - x,
        {
            proof {
                staging_place(*layout, y as int, x as int);
            }
            let source = source_start + x;
            let target = target_start + x;
            staging[target] = pixels[source];
            proof {
                assert(staging@ =~= staged_below(before, pixels@, *layout, target + 1));
            }
            x += 1;
        }
        proof {
            // What is left of the row is padding.
            let next_start = (y + 1) * row_pitch;
            assert(next_start == target_start + row_pitch) by (nonlinear_arith)
                requires
                    next_start == (y + 1) * row_pitch,
                    target_start == y * row_pitch,
            ;
            assert forall|k: int|
                target_start + row_bytes <= k < next_start implies !holds_pixel(*layout, k) by {
                if holds_pixel(*layout, k) {
                    staging_place_of(*layout, k);
                    let row = k / (row_pitch as int);
                    let column = k % (row_pitch as int);
                    assert(row == y) by (nonlinear_arith)
                        requires
                            target_start == y * row_pitch,
                            target_start <= k < target_start + row_pitch,
                            k == row * row_pitch + column,
                            0 <= column < row_pitch,
                    ;
                }
            }
            assert(staging@ =~= staged_below(before, pixels@, *layout, next_start));
        }
        y += 1;
    }
    proof {
        assert(staging@ =~= staged(before, pixels@, *layout));
    }
}

/// Reads the pixels back from a staging buffer, leaving out the padding.
pub fn read_back_rows(staging: &[u8], layout: &UploadLayout) -> (pixels: Vec<u8>)
    requires
        layout.wf(),
        staging@.len() >= layout.upload_size,
    ensures
        pixels@ == unpadded(staging@, *layout),
{
    let mut pixels: Vec<u8> = Vec::new();
    if layout.height == 0 || layout.width == 0 {
        proof {
            nothing_to_stage(*layout);
            assert(pixels@ =~= unpadded(staging@, *layout));
        }
        return pixels;
    }
    proof {
        rows_fit_in_memory(*layout);
    }
    let row_bytes = (layout.width as u64 * BYTES_PER_PIXEL) as usize;
    let row_pitch = layout.row_pitch as usize;
    let height = layout.height as usize;
    let mut y: usize = 0;
    while y < height
        invariant
            layout.wf(),
            staging@.len() >= layout.upload_size,
            row_bytes == layout.spec_row_bytes(),
            row_pitch == layout.row_pitch,
            height == layout.height,
            row_bytes >= 1,
            y <= height,
            pixels@.len() == y * row_bytes,
            forall|i: int|
                0 <= i < pixels@.len() ==> pixels@[i] == staging@[staging_index(*layout, i)],
        decreases height - y,
    {
        proof {
            staging_place(*layout, y as int, 0);
        }
        let source_start = y * row_pitch;
        let ghost target_start = y * row_bytes;
        let mut x: usize = 0;
        while x < row_bytes
            invariant
                layout.wf(),
                staging@.len() >= layout.upload_size,
                row_bytes == layout.spec_row_bytes(),
                row_pitch == layout.row_pitch,
                height == layout.height,
                y < height,
                x <= row_bytes,
                source_start == y * row_pitch,
                target_start == y * row_bytes,
                pixels@.len() == target_start + x,
                forall|i: int|
                    0 <= i < pixels@.len() ==> pixels@[i] == staging@[staging_index(*layout, i)],
            decreases row_bytes - x,
        {
            proof {
                staging_place(*layout, y as int, x as int);
            }
            pixels.push(staging[source_start + x]);
            x += 1;
        }
        proof {
            assert((y + 1) * row_bytes == target_start + row_bytes) by (nonlinear_arith)
                requires
                    target_start == y * row_bytes,
            ;
        }
        y += 1;
    }
    proof {
        assert(pixels@ =~= unpadded(staging@, *layout));
    }
    pixels
}

/// A copy from the staging buffer into the image.
#[derive(Clone, Copy, Debug, PartialEq, Eq, Structural)]
pub struct BufferImageCopy {
    /// Where the pixels begin in the buffer, in bytes.
    pub buffer_offset: u64,
    /// Pixels from the start of one row to the start of the next.
    pub buffer_width: u32,
    /// Rows of the buffer.
    pub buffer_height: u32,
    /// The mip level that is written.
    pub mip_level: u8,
    /// The first array layer that is written.
    pub first_layer: u16,
    /// The number of array layers that are written.
    pub layer_count: u16,
    /// Extent of the part of the image that is written.
    pub image_width: u32,
    pub image_height: u32,
    pub image_depth: u32,
}

/// A command of the single-use command buffer that uploads the texture.
#[derive(Clone, Copy, Debug, PartialEq, Eq, Structural)]
pub enum UploadCommand {
    /// Move the image to another layout.
    Barrier(ImageBarrier),
    /// Copy from the staging buffer into the image, which is in `layout`.
    CopyBufferToImage { layout: ImageLayout, copy: BufferImageCopy },
}

/// The copy of a staged image: the whole image, one mip level, one layer,
/// with rows as long as the padded pitch.
pub open spec fn spec_upload_copy(layout: UploadLayout) -> BufferImageCopy {
    BufferImageCopy {
        buffer_offset: 0,
        buffer_width: (layout.row_pitch / BYTES_PER_PIXEL) as u32,
        buffer_height: layout.height,
        mip_level: 0,
        first_layer: 0,
        layer_count: 1,
        image_width: layout.width,
        image_height: layout.height,
        image_depth: 1,
    }
}

/// The commands of the upload: a barrier into the transfer layout, the
/// copy, and a barrier into the layout that shaders read.
pub open spec fn spec_upload_commands(layout: UploadLayout) -> Seq<UploadCommand> {
    seq![
        UploadCommand::Barrier(spec_texture_barrier(ImageLayout::Undefined)->0),
        UploadCommand::CopyBufferToImage {
            layout: ImageLayout::TransferDstOptimal,
            copy: spec_upload_copy(layout),
        },
        UploadCommand::Barrier(spec_texture_barrier(ImageLayout::TransferDstOptimal)->0),
    ]
}

/// The layout in which the commands leave an image that is in `layout`, or
/// `None` where a command finds the image in another layout than it names: a
/// barrier must start from the image's layout and lead to the one that
/// follows it for the texture, and a copy must find the transfer layout.
pub open spec fn layout_after(layout: ImageLayout, commands: Seq<UploadCommand>) -> Option<
    ImageLayout,
>
    decreases commands.len(),
{
    if commands.len() == 0 {
        Some(layout)
    } else {
        match layout_after(layout, commands.drop_last()) {
            None => None,
            Some(reached) => match commands.last() {
                UploadCommand::Barrier(barrier) => if barrier.from_layout == reached
                    && spec_next_layout(ImageRole::SampledTexture, reached) == Some(
                    barrier.to_layout,
                ) {
                    Some(barrier.to_layout)
                } else {
                    None
                },
                UploadCommand::CopyBufferToImage { layout: named, .. } => if named == reached
                    && reached == ImageLayout::TransferDstOptimal {
                    Some(reached)
                } else {
                    None
                },
            },
        }
    }
}

/// The upload takes the image from `Undefined` over `TransferDstOptimal`,
/// in which the copy finds it, to `ShaderReadOnlyOptimal`.
pub proof fn upload_ends_in_shader_layout(layout: UploadLayout)
    ensures
        layout_after(ImageLayout::Undefined, spec_upload_commands(layout)) == Some(
            ImageLayout::ShaderReadOnlyOptimal,
        ),
        layout_after(ImageLayout::Undefined, spec_upload_commands(layout).take(1)) == Some(
            ImageLayout::TransferDstOptimal,
        ),
{
    let all = spec_upload_commands(layout);
    let two = all.drop_last();
    let one = two.drop_last();
    assert(one.drop_last() =~= Seq::<UploadCommand>::empty());
    assert(layout_after(ImageLayout::Undefined, one.drop_last()) == Some(ImageLayout::Undefined));
    assert(layout_after(ImageLayout::Undefined, one) == Some(ImageLayout::TransferDstOptimal));
    assert(layout_after(ImageLayout::Undefined, two) == Some(ImageLayout::TransferDstOptimal));
    assert(all.take(1) =~= one);
}

/// Lists the commands that upload a staged image.
pub fn record_upload(layout: &UploadLayout) -> (commands: Vec<UploadCommand>)
    requires
        layout.wf(),
    ensures
        commands@ == spec_upload_commands(*layout),
{
    let mut commands: Vec<UploadCommand> = Vec::new();
    if let Some(barrier) = texture_barrier(ImageLayout::Undefined) {
        commands.push(UploadCommand::Barrier(barrier));
    }
    commands.push(
        UploadCommand::CopyBufferToImage {
            layout: ImageLayout::TransferDstOptimal,
            copy: BufferImageCopy {
                buffer_offset: 0,
                buffer_width: (layout.row_pitch / BYTES_PER_PIXEL) as u32,
                buffer_height: layout.height,
                mip_level: 0,
                first_layer: 0,
                layer_count: 1,
                image_width: layout.width,
                image_height: layout.height,
                image_depth: 1,
            },
        },
    );
    if let Some(barrier) = texture_barrier(ImageLayout::TransferDstOptimal) {
        commands.push(UploadCommand::Barrier(barrier));
    }
    assert(commands@ =~= spec_upload_commands(*layout));
    commands
}

/// Why the upload failed.
#[derive(Clone, Copy, Debug, PartialEq, Eq, Structural)]
pub enum UploadError {
    /// The image cannot be laid out in a staging buffer.
    Layout,
    /// The staging memory is smaller than the layout needs.
    StagingTooSmall,
    /// The wait for the upload's fence failed.
    FenceWait,
}

/// A texture on its way to the device: the pixels, and how they are laid
/// out for the copy.
#[derive(Debug, PartialEq, Eq)]
pub struct Upload {
    texture: Texture,
    layout: UploadLayout,
}

/// An upload as the contracts speak of it.
pub struct UploadModel {
    pub texture: TextureModel,
    pub layout: UploadLayout,
}

impl View for Upload {
    type V = UploadModel;

    closed spec fn view(&self) -> UploadModel {
        UploadModel { texture: self.texture@, layout: self.layout }
    }
}

impl UploadModel {
    /// The layout is that of the texture, and the texture has four bytes for
    /// each pixel.
    pub open spec fn wf(self) -> bool {
        &&& self.layout.wf()
        &&& self.layout.width == self.texture.width
        &&& self.layout.height == self.texture.height
        &&& self.texture.wf()
    }
}

impl Upload {
    #[verifier::type_invariant]
    spec fn well_formed(self) -> bool {
        &&& self.layout.wf()
        &&& self.layout.width == self.texture@.width
        &&& self.layout.height == self.texture@.height
    }

    /// Lays the texture out for a device with the given copy-pitch
    /// alignment.
    pub fn plan(texture: Texture, alignment: u64) -> (upload: Result<Upload, UploadError>)
        ensures
            upload is Ok <==> UploadLayout::spec_fits(
                texture@.width,
                texture@.height,
                alignment,
            ),
            upload matches Ok(u) ==> u@ == (UploadModel {
                texture: texture@,
                layout: UploadLayout::spec_new(texture@.width, texture@.height, alignment),
            }) && u@.wf(),
            upload matches Err(e) ==> e == UploadError::Layout,
    {
        let pixels = texture.pixels();
        match UploadLayout::new(texture.width(), texture.height(), alignment) {
            Some(layout) => Ok(Upload { texture, layout }),
            None => Err(UploadError::Layout),
        }
    }

    /// The layout of the pixels in staging memory, which also gives the
    /// size that the staging buffer needs.
    pub fn layout(&self) -> (layout: UploadLayout)
        ensures
            layout == self@.layout,
            self@.wf(),
    {
        proof {
            use_type_invariant(self);
        }
        let pixels = self.texture.pixels();
        self.layout
    }

    /// The texture that is uploaded.
    pub fn texture(&self) -> (texture: &Texture)
        ensures
            texture@ == self@.texture,
    {
        &self.texture
    }

    /// The commands that take the staged pixels into the image.
    pub fn commands(&self) -> (commands: Vec<UploadCommand>)
        ensures
            commands@ == spec_upload_commands(self@.layout),
    {
        proof {
            use_type_invariant(self);
        }
        record_upload(&self.layout)
    }

    /// Copies the texture's rows into staging memory, each to the start of
    /// its pitch. The padding is not written. Memory that is too small for
    /// the layout is left as it is.
    pub fn stage(&self, staging: &mut [u8]) -> (staged_rows: Result<(), UploadError>)
        ensures
            staged_rows is Ok <==> old(staging)@.len() >= self@.layout.upload_size,
            staged_rows is Ok ==> final(staging)@ == staged(
                old(staging)@,
                self@.texture.pixels,
                self@.layout,
            ),
            staged_rows matches Err(e) ==> e == UploadError::StagingTooSmall && final(staging)@
                == old(staging)@,
    {
        proof {
            use_type_invariant(self);
        }
        if (staging.len() as u64) < self.layout.upload_size {
            return Err(UploadError::StagingTooSmall);
        }
        let pixels = self.texture.pixels();
        proof {
            let texture = self@.texture;
            assert(texture.width * texture.height * BYTES_PER_PIXEL == texture.height * (
            texture.width * BYTES_PER_PIXEL)) by (nonlinear_arith);
        }
        stage_rows(pixels.as_slice(), &self.layout, staging);
        Ok(())
    }
}

/// The upload is synchronous: it is done once the wait for its fence has
/// returned. The texture is then in the layout that shaders read; a failed
/// wait is fatal.
pub fn conclude_upload(fence_signaled: bool) -> (layout: Result<ImageLayout, UploadError>)
    ensures
        layout == if fence_signaled {
            Ok::<ImageLayout, UploadError>(ImageLayout::ShaderReadOnlyOptimal)
        } else {
            Err::<ImageLayout, UploadError>(UploadError::FenceWait)
        },
{
    if fence_signaled {
        Ok(ImageLayout::ShaderReadOnlyOptimal)
    } else {
        Err(UploadError::FenceWait)
    }
}

} // verus!
