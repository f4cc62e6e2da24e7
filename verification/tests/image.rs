use pathtracer::PPM;
use pathtracer::RGB;
use pathtracer::rgb;

#[test]
fn it_works() {
    assert_eq!(2 + 2, 4);
}

#[test]
fn rgb_builds_the_pixel() {
    let c = rgb(1, 2, 3);
    assert_eq!(c.r, 1);
    assert_eq!(c.g, 2);
    assert_eq!(c.b, 3);
    assert_eq!(c, RGB { r: 1, g: 2, b: 3 });
}

#[test]
fn new_image_is_black() {
    let ppm = PPM::new(4, 3);
    assert_eq!(ppm.len(), 36);
    for x in 0..4 {
        for y in 0..3 {
            assert_eq!(ppm.get(x, y), rgb(0, 0, 0));
        }
    }
}

#[test]
fn new_image_can_be_empty() {
    let ppm = PPM::new(0, 5);
    assert_eq!(ppm.len(), 0);
    let ppm = PPM::new(5, 0);
    assert_eq!(ppm.len(), 0);
}

#[test]
fn offset_is_row_major_from_the_top() {
    let ppm = PPM::new(5, 4);
    // y counts from the bottom of the image, the buffer from the top.
    assert_eq!(ppm.offset(0, 3), 0);
    assert_eq!(ppm.offset(4, 3), 12);
    assert_eq!(ppm.offset(0, 2), 15);
    assert_eq!(ppm.offset(2, 1), 3 * (2 * 5 + 2));
    assert_eq!(ppm.offset(0, 0), 45);
    assert_eq!(ppm.offset(4, 0), 57);
    assert_eq!(ppm.len(), 60);
}

#[test]
fn set_then_get_returns_the_color() {
    let mut ppm = PPM::new(7, 5);
    let c = rgb(10, 20, 30);
    ppm.set(2, 1, c);
    assert_eq!(ppm.get(2, 1), c);
}

#[test]
fn set_leaves_other_pixels_alone() {
    let mut ppm = PPM::new(3, 3);
    ppm.set(1, 1, rgb(200, 100, 50));
    ppm.set(0, 2, rgb(1, 2, 3));
    assert_eq!(ppm.get(1, 1), rgb(200, 100, 50));
    assert_eq!(ppm.get(0, 2), rgb(1, 2, 3));
    assert_eq!(ppm.get(0, 0), rgb(0, 0, 0));
    assert_eq!(ppm.get(2, 2), rgb(0, 0, 0));
}

#[test]
fn one_pixel_image_roundtrip() {
    let mut ppm = PPM::new(1, 1);
    assert_eq!(ppm.len(), 3);
    assert_eq!(ppm.offset(0, 0), 0);
    ppm.set(0, 0, rgb(255, 0, 255));
    assert_eq!(ppm.get(0, 0), rgb(255, 0, 255));
}
