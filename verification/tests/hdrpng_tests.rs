use wayshot_core::hdrpng::add_fake_exif;
use wayshot_core::hdrpng::encode_hdr_png;
use wayshot_core::screencopy::ImageView;
use wayshot_core::types::Error;

/// Walk the PNG chunk sequence, returning the data of every chunk with the
/// given type name.
fn chunks_named(png: &[u8], name: &[u8; 4]) -> Vec<Vec<u8>> {
    assert_eq!(&png[..8], &[137u8, 80, 78, 71, 13, 10, 26, 10]);
    let mut found = Vec::new();
    let mut at = 8usize;
    while at + 8 <= png.len() {
        let len = u32::from_be_bytes([png[at], png[at + 1], png[at + 2], png[at + 3]]) as usize;
        let kind = &png[at + 4..at + 8];
        let data = &png[at + 8..at + 8 + len];
        if kind == name {
            found.push(data.to_vec());
        }
        at += 12 + len;
    }
    found
}

fn sample_rgb16() -> ImageView {
    ImageView::Rgb16 {
        width: 2,
        height: 2,
        data: vec![
            0x0000, 0x1234, 0xFFFF, 0x00FF, 0xFF00, 0x8001, 0x4242, 0x0001, 0xABCD, 0x5555,
            0xAAAA, 0x7FFF,
        ],
    }
}

#[test]
fn hdr_png_reports_cicp_code_points_exactly() {
    let png = encode_hdr_png(&sample_rgb16()).unwrap();
    let cicp = chunks_named(&png, b"cICP");
    assert_eq!(cicp, vec![vec![9u8, 16, 9, 1]]);
}

#[test]
fn hdr_png_carries_content_free_exif() {
    let png = encode_hdr_png(&sample_rgb16()).unwrap();
    let exif = chunks_named(&png, b"eXIf");
    assert_eq!(
        exif,
        vec![vec![0x4Du8, 0x4D, 0x00, 0x2A, 0x00, 0x00, 0x00, 0x08, 0x00, 0x00]]
    );
}

#[test]
fn hdr_png_header_matches_sixteen_bit_rgb() {
    let png = encode_hdr_png(&sample_rgb16()).unwrap();
    let headers = chunks_named(&png, b"IHDR");
    assert_eq!(headers.len(), 1);
    let ihdr = &headers[0];
    assert_eq!(&ihdr[0..4], &2u32.to_be_bytes()); // width
    assert_eq!(&ihdr[4..8], &2u32.to_be_bytes()); // height
    assert_eq!(ihdr[8], 16); // bit depth
    assert_eq!(ihdr[9], 2); // color type: truecolor
    assert_eq!(chunks_named(&png, b"IEND").len(), 1);
}

/// The PNG stream with every chunk of the given type removed. The strict
/// decoder refuses the HDR code points (PNG wants identity matrix
/// coefficients there, HDR10 streams say otherwise), so the pixel check
/// drops that chunk first.
fn without_chunks(png: &[u8], name: &[u8; 4]) -> Vec<u8> {
    let mut kept = png[..8].to_vec();
    let mut at = 8usize;
    while at + 8 <= png.len() {
        let len = u32::from_be_bytes([png[at], png[at + 1], png[at + 2], png[at + 3]]) as usize;
        let kind = &png[at + 4..at + 8];
        if kind != name {
            kept.extend_from_slice(&png[at..at + 12 + len]);
        }
        at += 12 + len;
    }
    kept
}

#[test]
fn hdr_png_pixels_decode_back_to_big_endian_samples() {
    let image = sample_rgb16();
    let png = without_chunks(&encode_hdr_png(&image).unwrap(), b"cICP");
    let decoder = png::Decoder::new(std::io::Cursor::new(png));
    let mut reader = decoder.read_info().unwrap();
    let mut buffer = vec![0u8; reader.output_buffer_size().unwrap()];
    let info = reader.next_frame(&mut buffer).unwrap();
    assert_eq!((info.width, info.height), (2, 2));
    let expected: Vec<u8> = match &image {
        ImageView::Rgb16 { data, .. } => data.iter().flat_map(|v| v.to_be_bytes()).collect(),
        _ => unreachable!(),
    };
    assert_eq!(&buffer[..info.buffer_size()], &expected[..]);
}

#[test]
fn hdr_png_encodes_rgba_with_alpha_plane() {
    let image = ImageView::Rgba16 {
        width: 1,
        height: 1,
        data: vec![0x1111, 0x2222, 0x3333, 0x4444],
    };
    let png = encode_hdr_png(&image).unwrap();
    let headers = chunks_named(&png, b"IHDR");
    assert_eq!(headers[0][9], 6); // color type: truecolor with alpha
    assert_eq!(chunks_named(&png, b"cICP"), vec![vec![9u8, 16, 9, 1]]);
}

#[test]
fn hdr_png_rejects_eight_bit_input() {
    let image = ImageView::Rgba8 {
        width: 1,
        height: 1,
        data: vec![1, 2, 3, 4],
    };
    assert_eq!(encode_hdr_png(&image).unwrap_err(), Error::InvalidColor);
}

#[test]
fn hdr_png_rejects_mismatched_geometry() {
    let image = ImageView::Rgb16 {
        width: 2,
        height: 2,
        data: vec![0u16; 9],
    };
    assert_eq!(encode_hdr_png(&image).unwrap_err(), Error::BufferTooSmall);
    let empty = ImageView::Rgb16 {
        width: 0,
        height: 0,
        data: Vec::new(),
    };
    assert_eq!(encode_hdr_png(&empty).unwrap_err(), Error::BufferTooSmall);
}

#[test]
fn fake_exif_is_tiff_header_with_zero_entries() {
    let mut buffer = vec![0xEEu8];
    add_fake_exif(&mut buffer).unwrap();
    assert_eq!(
        buffer,
        vec![0xEEu8, 0x4D, 0x4D, 0x00, 0x2A, 0x00, 0x00, 0x00, 0x08, 0x00, 0x00]
    );
}
