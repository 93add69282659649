use webp_cache::pixels::bytes_per_pixel;
use webp_cache::pixels::encode_plan;
use webp_cache::pixels::importer_code;
use webp_cache::pixels::DecodedImage;
use webp_cache::pixels::PixelLayout;
use webp_cache::request::is_safari_ua;
use webp_cache::request::route_request;
use webp_cache::request::RequestPlan;

#[test]
fn test_is_safari_ua() {
    let safari = "Mozilla/5.0 (Macintosh; Intel Mac OS X 10_15_7) AppleWebKit/605.1.15 \
                  (KHTML, like Gecko) Version/13.1 Safari/605.1.15";
    let chrome = "Mozilla/5.0 (X11; Linux x86_64) AppleWebKit/537.36 (KHTML, like Gecko) \
                  Chrome/80.0.3987.122 Safari/537.36";
    let firefox = "Mozilla/5.0 (X11; Linux x86_64; rv:73.0) Gecko/20100101 Firefox/73.0";
    assert!(is_safari_ua(safari));
    assert!(!is_safari_ua(chrome));
    assert!(!is_safari_ua(firefox));
    assert!(!is_safari_ua("curl/7.68.0"));
    assert!(!is_safari_ua(""));
}

#[test]
fn test_route_request() {
    assert_eq!(route_request(false, true, true, false), RequestPlan::MethodNotAllowed);
    assert_eq!(route_request(true, false, false, false), RequestPlan::NotFound);
    assert_eq!(route_request(true, true, false, false), RequestPlan::NotFound);
    assert_eq!(route_request(true, true, true, true), RequestPlan::ServeOriginal);
    assert_eq!(route_request(true, true, true, false), RequestPlan::TryDerivative);
}

#[test]
fn test_pixel_codes() {
    assert_eq!(bytes_per_pixel(PixelLayout::Rgb), 3);
    assert_eq!(bytes_per_pixel(PixelLayout::Bgr), 3);
    assert_eq!(bytes_per_pixel(PixelLayout::Rgba), 4);
    assert_eq!(bytes_per_pixel(PixelLayout::Bgra), 4);
    assert_eq!(importer_code(PixelLayout::Rgb), 1);
    assert_eq!(importer_code(PixelLayout::Rgba), 2);
    assert_eq!(importer_code(PixelLayout::Bgr), 3);
    assert_eq!(importer_code(PixelLayout::Bgra), 4);
}

#[test]
fn test_encode_plan() {
    let img = DecodedImage {
        layout: PixelLayout::Rgba,
        width: 2,
        height: 3,
        data: vec![0u8; 24],
    };
    let plan = encode_plan(&img).expect("dimensions fit");
    assert_eq!(plan.width, 2);
    assert_eq!(plan.height, 3);
    assert_eq!(plan.stride, 8);
    assert_eq!(plan.importer, 2);

    let too_wide = DecodedImage {
        layout: PixelLayout::Rgb,
        width: u32::MAX,
        height: 1,
        data: Vec::new(),
    };
    assert!(encode_plan(&too_wide).is_none());
}
