use dioteko::call::EngineCall;
use dioteko::error::DiotekoErr;
use dioteko::image::Image;
use dioteko::raw::RawImage;

#[test]
fn each_error_says_what_failed() {
    assert_eq!(DiotekoErr::WindowInitFailedErr.message(), "Failed to initialize window");
    assert_eq!(DiotekoErr::LoadImageFailedErr.message(), "Failed to load an image");
    assert_eq!(DiotekoErr::ProtocolViolation.message(), "Engine call order violated");
}

#[test]
fn an_image_is_taken_over_and_handed_back_once() {
    let raw = RawImage { data: 0xdead_0000, width: 8, height: 4, mipmaps: 1, format: 7 };
    let image = Image::load(raw).unwrap();
    assert_eq!(image.take_raw(), raw);
    assert_eq!(image.take_raw(), raw);
    assert_eq!(image.drop(), EngineCall::UnloadImage(raw));
}

#[test]
fn an_empty_image_is_not_taken_over() {
    let raw = RawImage { data: 0xdead_0000, width: 8, height: 4, mipmaps: 1, format: 7 };
    for empty in [
        RawImage { data: 0, ..raw },
        RawImage { width: 0, ..raw },
        RawImage { height: 0, ..raw },
        RawImage { width: -8, ..raw },
        RawImage { data: 0, width: 0, height: 0, mipmaps: 0, format: 0 },
    ] {
        assert!(!empty.is_loaded());
        assert_eq!(Image::load(empty).unwrap_err(), DiotekoErr::LoadImageFailedErr);
    }
    assert!(RawImage { mipmaps: 0, format: 0, ..raw }.is_loaded());
}
