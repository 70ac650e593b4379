use wayshot_core::screencopy::DMAFrameFormat;
use wayshot_core::screencopy::FrameCopy;
use wayshot_core::screencopy::FrameData;
use wayshot_core::screencopy::FrameFormat;
use wayshot_core::screencopy::ImageView;
use wayshot_core::tenbit::expand_10_bit;
use wayshot_core::types::ColorType;
use wayshot_core::types::Error;
use wayshot_core::types::LogicalRegion;
use wayshot_core::types::PixelFormat;
use wayshot_core::types::Position;
use wayshot_core::types::Region;
use wayshot_core::types::Size;
use wayshot_core::types::Transform;

fn mmap_with(bytes: &[u8]) -> memmap2::MmapMut {
    let mut map = memmap2::MmapMut::map_anon(bytes.len().max(1)).unwrap();
    map[..bytes.len()].copy_from_slice(bytes);
    map
}

fn frame_copy(
    format: PixelFormat,
    color: ColorType,
    width: u32,
    height: u32,
    stride: u32,
    bytes: &[u8],
) -> FrameCopy {
    FrameCopy {
        frame_format: FrameFormat {
            format,
            size: Size { width, height },
            stride,
        },
        frame_color_type: color,
        frame_data: FrameData::Mmap(mmap_with(bytes)),
        transform: Transform::Normal,
        logical_region: LogicalRegion {
            inner: Region {
                position: Position { x: 0, y: 0 },
                size: Size { width, height },
            },
        },
        physical_size: Size { width, height },
    }
}

#[test]
fn byte_size_is_stride_times_height() {
    let format = FrameFormat {
        format: PixelFormat::Argb8888,
        size: Size {
            width: 4,
            height: 1080,
        },
        stride: 7680,
    };
    assert_eq!(format.byte_size(), 7680u64 * 1080);
    let max = FrameFormat {
        format: PixelFormat::Argb8888,
        size: Size {
            width: 1,
            height: u32::MAX,
        },
        stride: u32::MAX,
    };
    assert_eq!(max.byte_size(), u32::MAX as u64 * u32::MAX as u64);
}

#[test]
fn get_image_rgba8_copies_pixels() {
    let bytes = [1u8, 2, 3, 4, 5, 6, 7, 8];
    let copy = frame_copy(PixelFormat::Xbgr8888, ColorType::Rgba8, 2, 1, 8, &bytes);
    match copy.get_image().unwrap() {
        ImageView::Rgba8 {
            width,
            height,
            data,
        } => {
            assert_eq!((width, height), (2, 1));
            assert_eq!(data, bytes.to_vec());
        }
        other => panic!("wrong view: {:?}", other),
    }
}

#[test]
fn get_image_drops_stride_padding() {
    // one pixel per row, stride leaves 4 bytes of padding per row
    let bytes = [1u8, 2, 3, 4, 0, 0, 0, 0];
    let copy = frame_copy(PixelFormat::Xbgr8888, ColorType::Rgba8, 1, 1, 8, &bytes);
    match copy.get_image().unwrap() {
        ImageView::Rgba8 { data, .. } => assert_eq!(data, vec![1u8, 2, 3, 4]),
        other => panic!("wrong view: {:?}", other),
    }
}

#[test]
fn get_image_rejects_short_buffer() {
    let bytes = [1u8, 2, 3, 4];
    let copy = frame_copy(PixelFormat::Xbgr8888, ColorType::Rgba8, 2, 1, 8, &bytes);
    assert_eq!(copy.get_image().unwrap_err(), Error::BufferTooSmall);
}

#[test]
fn get_image_rejects_gpu_backed_data() {
    let copy = FrameCopy {
        frame_format: FrameFormat {
            format: PixelFormat::Xbgr8888,
            size: Size {
                width: 1,
                height: 1,
            },
            stride: 4,
        },
        frame_color_type: ColorType::Rgba8,
        frame_data: FrameData::GBMBo,
        transform: Transform::Normal,
        logical_region: LogicalRegion {
            inner: Region {
                position: Position { x: 0, y: 0 },
                size: Size {
                    width: 1,
                    height: 1,
                },
            },
        },
        physical_size: Size {
            width: 1,
            height: 1,
        },
    };
    assert_eq!(copy.get_image().unwrap_err(), Error::InvalidColor);
    assert_eq!(copy.mmap_bytes().unwrap_err(), Error::InvalidColor);
}

#[test]
fn get_image_unpacks_ten_bit_rgb() {
    let pixel: u32 = (3 << 30) | (1 << 20) | (2 << 10) | 3;
    let copy = frame_copy(
        PixelFormat::Xrgb2101010,
        ColorType::Rgb16,
        1,
        1,
        4,
        &pixel.to_le_bytes(),
    );
    match copy.get_image().unwrap() {
        ImageView::Rgb16 { data, .. } => {
            assert_eq!(
                data,
                vec![expand_10_bit(1), expand_10_bit(2), expand_10_bit(3)]
            );
        }
        other => panic!("wrong view: {:?}", other),
    }
}

#[test]
fn get_image_unpacks_ten_bit_bgr_with_alpha() {
    let pixel: u32 = (1 << 30) | (1 << 20) | (2 << 10) | 3;
    let copy = frame_copy(
        PixelFormat::Abgr2101010,
        ColorType::Rgba16,
        1,
        1,
        4,
        &pixel.to_le_bytes(),
    );
    match copy.get_image().unwrap() {
        ImageView::Rgba16 { data, .. } => {
            assert_eq!(
                data,
                vec![
                    expand_10_bit(3),
                    expand_10_bit(2),
                    expand_10_bit(1),
                    0x5555
                ]
            );
        }
        other => panic!("wrong view: {:?}", other),
    }
}

#[test]
fn ten_bit_views_reject_wrong_native_format() {
    let bytes = [0u8; 4];
    let copy = frame_copy(PixelFormat::Argb8888, ColorType::Rgb16, 1, 1, 4, &bytes);
    assert_eq!(copy.get_image().unwrap_err(), Error::InvalidColor);
    assert_eq!(copy.to_rgb16_vec().unwrap_err(), Error::InvalidColor);
    // Xrgb2101010 has no alpha, so the RGBA view refuses it
    let copy = frame_copy(PixelFormat::Xrgb2101010, ColorType::Rgba16, 1, 1, 4, &bytes);
    assert_eq!(copy.to_rgba16_vec().unwrap_err(), Error::InvalidColor);
}

#[test]
fn ten_bit_views_reject_ragged_buffer() {
    let bytes = [0u8; 6];
    let copy = frame_copy(PixelFormat::Xrgb2101010, ColorType::Rgb16, 1, 1, 6, &bytes);
    assert_eq!(copy.get_image().unwrap_err(), Error::BufferTooSmall);
}

#[test]
fn image_view_reports_geometry_and_color() {
    let view = ImageView::Rgb16 {
        width: 2,
        height: 3,
        data: vec![0u16; 18],
    };
    assert_eq!(view.color_type(), ColorType::Rgb16);
    assert_eq!(view.width(), 2);
    assert_eq!(view.height(), 3);
}

#[test]
fn dma_frame_format_keeps_code_and_size() {
    let format = DMAFrameFormat {
        format: 0x34325241,
        size: Size {
            width: 640,
            height: 480,
        },
    };
    assert_eq!(format.format, 0x34325241);
    assert_eq!(format.size, Size { width: 640, height: 480 });
}
