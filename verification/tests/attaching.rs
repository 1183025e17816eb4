use consort::attaching::{png_from_encoding, png_of, within_the_ceiling, Screenshot};
use image::error::{LimitError, LimitErrorKind};
use consort::sending::MAX_BYTES;

#[test]
fn a_file_past_the_ceiling_is_refused_by_its_length() {
    // Before it is read, which is the whole point: a bound applied after
    // the read has already spent what it exists to protect.
    let refused = within_the_ceiling(MAX_BYTES as u64 + 1).unwrap_err();

    assert!(refused.message().contains("too large"), "{refused:?}");
}

#[test]
fn a_file_at_exactly_the_ceiling_is_still_sendable() {
    assert!(within_the_ceiling(MAX_BYTES as u64).is_ok());
}

#[test]
fn a_clipboard_picture_encodes_to_a_png_of_the_same_pixels() {
    let shot = Screenshot {
        rgba: vec![
            255, 0, 0, 255, // red
            0, 255, 0, 255, // green
            0, 0, 255, 255, // blue
            255, 255, 255, 255, // white
        ],
        width: 2,
        height: 2,
    };

    let png = png_of(&shot).expect("four pixels");

    assert_eq!(&png[..8], b"\x89PNG\r\n\x1a\n");
    let read_back = image::load_from_memory(&png).unwrap().to_rgba8();
    assert_eq!(read_back.dimensions(), (2, 2));
    assert_eq!(read_back.into_raw(), shot.rgba);
}

#[test]
fn a_clipboard_picture_that_is_not_its_own_dimensions_is_reported_rather_than_a_panic() {
    // What is on the clipboard belongs to another application, so the two
    // disagreeing is that application's bug arriving here rather than ours.
    let shot = Screenshot {
        rgba: vec![255, 0, 0, 255],
        width: 64,
        height: 64,
    };

    let error = png_of(&shot).unwrap_err();

    assert!(error.message().contains("clipboard"), "{error:?}");
}

#[test]
fn an_encoder_that_refuses_is_reported_as_the_clipboard() {
    let refused = image::ImageError::Limits(LimitError::from_kind(LimitErrorKind::DimensionError));
    let error = png_from_encoding(Err(refused)).unwrap_err();
    assert!(error.message().contains("clipboard"), "{error:?}");

    assert_eq!(png_from_encoding(Ok(vec![1, 2, 3])), Ok(vec![1, 2, 3]));
}
