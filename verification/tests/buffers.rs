//! The owned buffers, the channel remapper, and the small value types.

use stb::dxt::CompressionMode;
use stb::engine::DecodeOptions;
use stb::image::{element_count, finish_decode, Channels, Data, Info};
use stb::truetype::Bitmap;

#[test]
fn element_count_per_request() {
    let info = Info {
        width: 20,
        height: 30,
        components: 1,
    };
    assert_eq!(element_count(Channels::Default, &info), Some(600));
    assert_eq!(element_count(Channels::Grey, &info), Some(600));
    assert_eq!(element_count(Channels::GreyAlpha, &info), Some(1200));
    assert_eq!(element_count(Channels::Rgb, &info), Some(1800));
    assert_eq!(element_count(Channels::RgbAlpha, &info), Some(2400));

    let rgb = Info {
        width: 7,
        height: 5,
        components: 3,
    };
    assert_eq!(element_count(Channels::Default, &rgb), Some(105));
    assert_eq!(element_count(Channels::Grey, &rgb), Some(35));
}

#[test]
fn element_count_of_empty_image_is_zero() {
    let empty = Info {
        width: 0,
        height: 17,
        components: 3,
    };
    assert_eq!(element_count(Channels::RgbAlpha, &empty), Some(0));
    let (_, data) = finish_decode(Some((empty, Vec::<u8>::new())), Channels::RgbAlpha)
        .expect("empty image decodes");
    assert_eq!(data.size(), 0);
    assert_eq!(data.as_slice(), &[] as &[u8]);
}

#[test]
fn element_count_rejects_bad_metadata() {
    let negative = Info {
        width: -1,
        height: 4,
        components: 1,
    };
    assert_eq!(element_count(Channels::Default, &negative), None);
    let components_out_of_range = Info {
        width: 4,
        height: 4,
        components: 0,
    };
    assert_eq!(element_count(Channels::Default, &components_out_of_range), None);
}

#[test]
fn data_views_and_detach() {
    let info = Info {
        width: 2,
        height: 2,
        components: 1,
    };
    let data = Data::new(vec![1u8, 2, 3, 4], Channels::Default, info);

    // Multiple read-only views may coexist; none outlives the buffer.
    let first = data.as_slice();
    let second = data.as_slice();
    assert_eq!(first, second);
    assert_eq!(data.size(), 4);

    // Consuming the buffer releases it exactly once; the copy survives.
    let detached = data.into_vec();
    assert_eq!(detached, vec![1, 2, 3, 4]);
}

#[test]
fn finish_decode_accepts_only_matching_allocations() {
    let info = Info {
        width: 2,
        height: 3,
        components: 1,
    };
    let good = finish_decode(Some((info, vec![0u8; 6])), Channels::Default);
    let (returned, data) = good.expect("matching allocation should be accepted");
    assert_eq!(returned, info);
    assert_eq!(data.size(), 6);

    assert!(finish_decode(Some((info, vec![0u8; 5])), Channels::Default).is_none());
    assert!(finish_decode::<u8>(None, Channels::Default).is_none());

    let bad_info = Info {
        width: 2,
        height: 3,
        components: 7,
    };
    assert!(finish_decode(Some((bad_info, vec![0u8; 6])), Channels::Default).is_none());
}

#[test]
fn bitmap_size_and_offset() {
    let bitmap = Bitmap::new(vec![0u8; 12], 4, 3, -1, 2).expect("dimensions match");
    assert_eq!(bitmap.size(), (4, 3));
    assert_eq!(bitmap.offset(), (-1, 2));
    assert_eq!(bitmap.as_slice().len(), 12);

    assert!(Bitmap::new(vec![0u8; 11], 4, 3, 0, 0).is_none());
    assert!(Bitmap::new(vec![0u8; 12], -4, -3, 0, 0).is_none());
}

#[test]
fn compression_mode_codes() {
    assert_eq!(CompressionMode::Normal.code(), 0);
    assert_eq!(CompressionMode::Dither.code(), 1);
    assert_eq!(CompressionMode::Highqual.code(), 2);
}

#[test]
fn decode_options_defaults() {
    let options = DecodeOptions::default();
    assert!(!options.flip_vertically_on_load);
    assert!(!options.unpremultiply_on_load);
    assert!(options.convert_iphone_png_to_rgb);
}

#[test]
fn info_default_is_zeroed() {
    let info = Info::default();
    assert_eq!(info.width, 0);
    assert_eq!(info.height, 0);
    assert_eq!(info.components, 0);
}
