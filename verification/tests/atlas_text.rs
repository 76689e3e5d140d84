//! Tests of the atlas text parser.
use spinal::num::{Scalar, SCALE};
use spinal::geom::Vec2;
use spinal::AtlasParser;

#[test]
fn example() {
    let s = "
page1.png
   size: 640, 480
   format: RGBA8888
   filter: Linear, Linear
   repeat: none
   pma: true
dagger
   bounds: 372, 100, 26, 108
head
   bounds: 2, 21, 103, 81
   rotate: 90

page2.png
   size: 640, 480
   format: RGB565
   filter: Nearest, Nearest
   repeat: x
bg-dialog
   rotate: false
   bounds: 519, 223, 17, 38
   offsets: 2, 2, 21, 42
   split: 10, 10, 29, 10
   pad: -1, -1, 28, 10

       ";
    let atlas = AtlasParser::parse(s).unwrap();
    assert_eq!(atlas.pages.len(), 2);
    let page = &atlas.pages[0];
    assert_eq!(page.header.name, "page1.png");
    assert_eq!(page.header.size, Vec2 { x: Scalar::from_int(640), y: Scalar::from_int(480) });
    assert!(page.header.premultiplied_alpha);
    assert_eq!(page.regions.len(), 2);
    assert_eq!(page.regions[0].name, "dagger");
    let bounds = page.regions[0].bounds.unwrap();
    assert_eq!(bounds.position, Vec2 { x: Scalar::from_int(372), y: Scalar::from_int(100) });
    assert_eq!(bounds.size, Vec2 { x: Scalar::from_int(26), y: Scalar::from_int(108) });
    assert_eq!(page.regions[0].rotate.bits, 0);
    assert_eq!(page.regions[1].rotate, Scalar::from_int(90));
    // regions keep their declared packing order
    assert_eq!(page.regions[1].name, "head");
    let page2 = &atlas.pages[1];
    assert!(!page2.header.premultiplied_alpha);
    assert_eq!(page2.regions.len(), 1);
    assert_eq!(page2.regions[0].offsets.unwrap().position.x, Scalar::from_int(2));
}

#[test]
fn rotated_region_swaps_display_size() {
    let s = "
page.png
   size: 64, 64
r
   bounds: 0, 0, 10, 20
   rotate: 90
";
    let atlas = AtlasParser::parse(s).unwrap();
    let region = &atlas.pages[0].regions[0];
    // packed 10 wide and 20 tall, displayed 20 wide and 10 tall
    assert_eq!(region.display_size(), Vec2 { x: Scalar::from_int(20), y: Scalar::from_int(10) });
}

#[test]
fn region_without_bounds_is_an_error() {
    let s = "
page.png
   size: 64, 64
r
   rotate: 90
";
    assert!(AtlasParser::parse(s).is_err());
}

#[test]
fn page_without_size_is_an_error() {
    let s = "
page.png
   pma: true
r
   bounds: 0, 0, 1, 1
";
    assert!(AtlasParser::parse(s).is_err());
}

#[test]
fn fractional_and_signed_values() {
    let s = "
page.png
   size: 64, 64
r
   bounds: -1, 2.5, 3, 4
";
    let atlas = AtlasParser::parse(s).unwrap();
    let b = atlas.pages[0].regions[0].bounds.unwrap();
    assert_eq!(b.position.x.bits, -SCALE);
    assert_eq!(b.position.y.bits, 2 * SCALE + SCALE / 2);
}
