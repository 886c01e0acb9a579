use image_presenter::barrier::{
    next_layout, texture_barrier, ImageBarrier, ImageLayout, ImageRole, ACCESS_NONE,
    ACCESS_SHADER_READ, ACCESS_TRANSFER_WRITE, STAGE_FRAGMENT_SHADER, STAGE_TOP_OF_PIPE,
    STAGE_TRANSFER,
};
use image_presenter::upload::{
    align_up, conclude_upload, read_back_rows, record_upload, stage_rows, BufferImageCopy,
    UploadCommand, UploadError, UploadLayout, BYTES_PER_PIXEL,
};

#[test]
fn align_up_exact_values() {
    assert_eq!(align_up(8, 4), Some(8));
    assert_eq!(align_up(9, 4), Some(12));
    assert_eq!(align_up(0, 4), Some(0));
    assert_eq!(align_up(1, 256), Some(256));
    assert_eq!(align_up(10, 3), Some(12));
    assert_eq!(align_up(12, 1), Some(12));
    assert_eq!(align_up(3200, 256), Some(3328));
}

#[test]
fn align_up_rejects_zero_alignment_and_overflow() {
    assert_eq!(align_up(8, 0), None);
    assert_eq!(align_up(u64::MAX, 2), None);
    assert_eq!(align_up(u64::MAX - 1, 2), Some(u64::MAX - 1));
    assert_eq!(align_up(u64::MAX, 1), Some(u64::MAX));
    assert_eq!(align_up(1, u64::MAX), Some(u64::MAX));
    assert_eq!(align_up(u64::MAX - 2, u64::MAX - 1), Some(u64::MAX - 1));
    assert_eq!(align_up(u64::MAX, u64::MAX - 1), None);
}

#[test]
fn row_pitch_is_multiple_of_alignment_and_covers_row() {
    for width in 0u32..40 {
        for alignment in 1u64..70 {
            let layout = UploadLayout::new(width, 3, alignment).unwrap();
            let row_bytes = width as u64 * 4;
            assert_eq!(layout.row_bytes(), row_bytes);
            assert_eq!(layout.row_pitch % alignment, 0);
            assert!(layout.row_pitch >= row_bytes);
            assert!(layout.row_pitch < row_bytes + alignment);
            assert_eq!(layout.upload_size, 3 * layout.row_pitch);
            assert_eq!(layout.padding(), layout.row_pitch - row_bytes);
        }
    }
}

#[test]
fn layout_of_aligned_two_by_two_image() {
    let layout = UploadLayout::new(2, 2, 4).unwrap();
    assert_eq!(
        layout,
        UploadLayout { width: 2, height: 2, alignment: 4, row_pitch: 8, upload_size: 16 }
    );
    assert_eq!(layout.padding(), 0);
    let pixels: Vec<u8> = (1..=16).collect();
    let mut staging = vec![0u8; 16];
    stage_rows(&pixels, &layout, &mut staging);
    assert_eq!(staging, pixels);
}

#[test]
fn layout_with_padding() {
    let layout = UploadLayout::new(3, 2, 16).unwrap();
    assert_eq!(layout.row_bytes(), 12);
    assert_eq!(layout.row_pitch, 16);
    assert_eq!(layout.upload_size, 32);
    assert_eq!(layout.padding(), 4);
    assert_eq!(BYTES_PER_PIXEL, 4);
}

#[test]
fn layout_is_refused_for_zero_alignment() {
    assert_eq!(UploadLayout::new(2, 2, 0), None);
}

#[test]
fn layout_is_refused_when_pitch_exceeds_what_a_copy_can_name() {
    assert_eq!(UploadLayout::new(1, 1, 1 << 40), None);
    assert!(UploadLayout::new(1, 1, 1 << 20).is_some());
}

#[test]
fn staging_copies_rows_and_leaves_padding_untouched() {
    let layout = UploadLayout::new(3, 2, 16).unwrap();
    let pixels: Vec<u8> = (1..=24).collect();
    let mut staging = vec![0xAAu8; 40];
    stage_rows(&pixels, &layout, &mut staging);
    let mut expected = vec![0xAAu8; 40];
    expected[0..12].copy_from_slice(&pixels[0..12]);
    expected[16..28].copy_from_slice(&pixels[12..24]);
    assert_eq!(staging, expected);
}

#[test]
fn reading_back_rows_reproduces_pixels() {
    let cases = [(3u32, 2u32, 16u64), (5, 4, 64), (2, 2, 4), (7, 3, 5), (1, 1, 256)];
    for (width, height, alignment) in cases {
        let layout = UploadLayout::new(width, height, alignment).unwrap();
        let count = (width * height * 4) as usize;
        let pixels: Vec<u8> = (0..count).map(|i| (i * 7 + 3) as u8).collect();
        let mut staging = vec![0x55u8; layout.upload_size as usize + 9];
        stage_rows(&pixels, &layout, &mut staging);
        assert_eq!(read_back_rows(&staging, &layout), pixels);
        assert!(staging[layout.upload_size as usize..].iter().all(|&b| b == 0x55));
    }
}

#[test]
fn empty_images_stage_nothing() {
    let layout = UploadLayout::new(0, 5, 16).unwrap();
    assert_eq!(layout.row_pitch, 0);
    assert_eq!(layout.upload_size, 0);
    let mut staging = vec![9u8; 4];
    stage_rows(&Vec::new(), &layout, &mut staging);
    assert_eq!(staging, vec![9u8; 4]);
    assert_eq!(read_back_rows(&staging, &layout), Vec::<u8>::new());

    let layout = UploadLayout::new(5, 0, 16).unwrap();
    assert_eq!(layout.row_pitch, 32);
    assert_eq!(layout.upload_size, 0);
    stage_rows(&Vec::new(), &layout, &mut staging);
    assert_eq!(staging, vec![9u8; 4]);
}

#[test]
fn texture_layouts_follow_their_sequence() {
    assert_eq!(
        next_layout(ImageRole::SampledTexture, ImageLayout::Undefined),
        Some(ImageLayout::TransferDstOptimal)
    );
    assert_eq!(
        next_layout(ImageRole::SampledTexture, ImageLayout::TransferDstOptimal),
        Some(ImageLayout::ShaderReadOnlyOptimal)
    );
    assert_eq!(next_layout(ImageRole::SampledTexture, ImageLayout::ShaderReadOnlyOptimal), None);
    assert_eq!(next_layout(ImageRole::SampledTexture, ImageLayout::Present), None);
    assert_eq!(
        next_layout(ImageRole::PresentTarget, ImageLayout::Undefined),
        Some(ImageLayout::ColorAttachmentOptimal)
    );
    assert_eq!(
        next_layout(ImageRole::PresentTarget, ImageLayout::ColorAttachmentOptimal),
        Some(ImageLayout::Present)
    );
    assert_eq!(next_layout(ImageRole::PresentTarget, ImageLayout::Present), None);
    assert_eq!(next_layout(ImageRole::PresentTarget, ImageLayout::TransferDstOptimal), None);
}

#[test]
fn upload_records_barrier_copy_barrier() {
    let layout = UploadLayout::new(3, 2, 16).unwrap();
    let first = ImageBarrier {
        from_access: ACCESS_NONE,
        from_layout: ImageLayout::Undefined,
        to_access: ACCESS_TRANSFER_WRITE,
        to_layout: ImageLayout::TransferDstOptimal,
        src_stage: STAGE_TOP_OF_PIPE,
        dst_stage: STAGE_TRANSFER,
    };
    let second = ImageBarrier {
        from_access: ACCESS_TRANSFER_WRITE,
        from_layout: ImageLayout::TransferDstOptimal,
        to_access: ACCESS_SHADER_READ,
        to_layout: ImageLayout::ShaderReadOnlyOptimal,
        src_stage: STAGE_TRANSFER,
        dst_stage: STAGE_FRAGMENT_SHADER,
    };
    assert_eq!(texture_barrier(ImageLayout::Undefined), Some(first));
    assert_eq!(texture_barrier(ImageLayout::TransferDstOptimal), Some(second));
    assert_eq!(texture_barrier(ImageLayout::ShaderReadOnlyOptimal), None);
    assert_eq!((first.from_access, first.to_access), (0, 0x1000));
    assert_eq!((first.src_stage, first.dst_stage), (0x1, 0x1000));
    assert_eq!((second.to_access, second.dst_stage), (0x20, 0x80));
    let copy = BufferImageCopy {
        buffer_offset: 0,
        buffer_width: 4,
        buffer_height: 2,
        mip_level: 0,
        first_layer: 0,
        layer_count: 1,
        image_width: 3,
        image_height: 2,
        image_depth: 1,
    };
    assert_eq!(
        record_upload(&layout),
        vec![
            UploadCommand::Barrier(first),
            UploadCommand::CopyBufferToImage { layout: ImageLayout::TransferDstOptimal, copy },
            UploadCommand::Barrier(second),
        ]
    );
}

#[test]
fn upload_is_done_when_its_fence_is_signaled() {
    assert_eq!(conclude_upload(true), Ok(ImageLayout::ShaderReadOnlyOptimal));
    assert_eq!(conclude_upload(false), Err(UploadError::FenceWait));
}
