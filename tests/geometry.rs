use std::io::Cursor;

use make_quote::avatar::{crop_plan, disc_geometry, identity_color, letter_origin, Avatar};
use make_quote::background::Background;
use make_quote::quotes::{attribution_y, centered_text_x, quote_line_x, quote_top, text_panel_width};
use make_quote::raster::Canvas;
use make_quote::transition::{strip_offset, strip_width, Transition};
use make_quote::ErrorKind;
use make_quote::{AsSpooledData, SpooledData};

fn png(width: u32, height: u32) -> Vec<u8> {
    let img = image::RgbaImage::from_pixel(width, height, image::Rgba([10, 20, 30, 255]));
    let mut out = Cursor::new(Vec::new());
    img.write_to(&mut out, image::ImageFormat::Png).unwrap();
    out.into_inner()
}

#[test]
fn crop_keeps_three_quarters_of_the_resized_width() {
    // ratio 1200 / 600 = 2, so the resized width is 2160; a quarter is 540
    assert_eq!(crop_plan(1200, 600, 1080).unwrap(), (2160, 540, 1620));
    // the ratio is truncated: 1000 / 600 = 1
    assert_eq!(crop_plan(1000, 600, 1080).unwrap(), (1080, 270, 810));
    assert_eq!(crop_plan(7, 1, 3).unwrap(), (21, 5, 16));
}

#[test]
fn crop_plan_rejects_empty_sizes() {
    assert!(matches!(crop_plan(100, 0, 1080), Err(ErrorKind::EmptyImage)));
    assert!(matches!(crop_plan(100, 200, 1080), Err(ErrorKind::EmptyImage)));
    assert!(matches!(crop_plan(100, 100, 0), Err(ErrorKind::EmptyImage)));
    assert!(matches!(crop_plan(u32::MAX, 1, 2), Err(ErrorKind::ImageTooLarge)));
}

#[test]
fn avatar_is_resized_to_the_canvas_height_and_cropped() {
    let source = Canvas::decode(&png(300, 200)).unwrap();
    assert_eq!(source.dimensions(), (300, 200));
    let avatar = Avatar::new(source, 1080).build().unwrap();
    assert_eq!(avatar.dimensions(), (1080 - 1080 / 4, 1080));
    assert_eq!(avatar.pixel(5, 5), Some([10, 20, 30, 255]));
}

#[test]
fn avatar_without_crop_is_kept_as_it_is() {
    let source = Canvas::decode(&png(64, 48)).unwrap();
    let avatar = Avatar::new(source, 1080).enable_crop(false).build().unwrap();
    assert_eq!(avatar.dimensions(), (64, 48));
}

#[test]
fn avatar_of_zero_height_is_rejected() {
    let source = Canvas::decode(&png(1, 1)).unwrap();
    assert!(matches!(Avatar::new(source, 0).build(), Err(ErrorKind::EmptyImage)));
}

#[test]
fn undecodable_data_is_an_image_error() {
    assert!(matches!(Canvas::decode(b"not an image"), Err(ErrorKind::ImgErr(_))));
}

#[test]
fn gradient_ends_in_its_two_colours() {
    let strip = Transition::new(600, 10).build().unwrap();
    assert_eq!(strip.dimensions(), (200, 10));
    for y in 0..10 {
        assert_eq!(strip.pixel(0, y), Some([0, 0, 0, 0]));
        assert_eq!(strip.pixel(199, y), Some([0, 0, 0, 255]));
    }
    assert_eq!(strip.pixel(200, 0), None);
    let mut t = Transition::new(9, 2);
    t.starting_color = [255, 0, 0, 255];
    t.ending_color = [0, 0, 255, 255];
    let strip = t.build().unwrap();
    assert_eq!(strip.pixel(0, 1), Some([255, 0, 0, 255]));
    assert_eq!(strip.pixel(2, 1), Some([0, 0, 255, 255]));
}

#[test]
fn gradient_needs_two_columns() {
    assert!(matches!(Transition::new(5, 10).build(), Err(ErrorKind::AvatarTooNarrow)));
    assert!(matches!(Transition::new(2, 10).build(), Err(ErrorKind::AvatarTooNarrow)));
}

#[test]
fn gradient_strip_of_a_600_wide_avatar() {
    assert_eq!(strip_width(600), 200);
    assert_eq!(strip_offset(600), 400);
    assert_eq!(strip_offset(600) + strip_width(600), 600);
}

#[test]
fn identity_colour_is_the_palette_entry_at_id_mod_7() {
    assert_eq!(identity_color(13), [255, 113, 154, 255]);
    assert_eq!(identity_color(6), [255, 113, 154, 255]);
    assert_eq!(identity_color(0), [255, 81, 106, 255]);
    assert_eq!(identity_color(7), identity_color(0));
    assert_eq!(identity_color(3), [84, 203, 104, 255]);
    assert_eq!(identity_color(u64::MAX), identity_color(u64::MAX % 7));
}

#[test]
fn generated_avatar_geometry() {
    // a 1920 by 1080 background gives a 640 by 1080 avatar
    assert_eq!(disc_geometry(640, 1080), ((320, 540), 320 - 53));
    assert_eq!(letter_origin((320, 540), (180, 210)), (230, 400));
}

#[test]
fn attribution_sits_three_quarters_down() {
    assert_eq!(attribution_y(1080), 810);
    assert_eq!(attribution_y(7), 6);
}

#[test]
fn text_is_centred_in_the_panel() {
    assert_eq!(centered_text_x(1320, 400, 30), 660 + 30 - 200);
    assert_eq!(centered_text_x(1320, 401, 30), 660 + 30 - 200);
    assert_eq!(quote_line_x(1320, 400, 50, 30), 440);
    assert_eq!(quote_top(1080, 300), 240);
    assert_eq!(quote_top(1080, 700), -160);
}

#[test]
fn avatar_as_wide_as_the_canvas_leaves_no_text_region() {
    assert!(matches!(text_panel_width(1920, 1920), Err(ErrorKind::NoTextRegion)));
    assert!(matches!(text_panel_width(1920, 2000), Err(ErrorKind::NoTextRegion)));
    assert_eq!(text_panel_width(1920, 600).unwrap(), 1320);
}

#[test]
fn background_is_filled_with_its_colour() {
    let bg = Background::new().output_dimension((40, 30)).build();
    assert_eq!(bg.dimensions(), (40, 30));
    assert_eq!(bg.pixel(0, 0), Some([0, 0, 0, 255]));
    assert_eq!(bg.pixel(39, 29), Some([0, 0, 0, 255]));
    let bg = Background::new().color([1, 2, 3, 4]).output_dimension((3, 2)).build();
    assert_eq!(bg.pixel(2, 1), Some([1, 2, 3, 4]));
}

#[test]
fn font_data_that_is_no_font_is_refused() {
    assert!(make_quote::raster::FontFace::from_bytes(b"not a font".to_vec()).is_none());
    assert!(matches!(
        make_quote::QuoteProducer::new(b"x".to_vec(), b"y".to_vec()),
        Err(ErrorKind::FontErr)
    ));
}

#[test]
fn gradient_columns_are_uniform_and_between_the_colours() {
    let mut t = Transition::new(30, 4);
    t.starting_color = [200, 10, 0, 0];
    t.ending_color = [100, 50, 0, 255];
    let strip = t.build().unwrap();
    for x in 0..10 {
        let top = strip.pixel(x, 0).unwrap();
        for y in 0..4 {
            assert_eq!(strip.pixel(x, y), Some(top));
        }
        assert!(100 <= top[0] && top[0] <= 200);
        assert!(10 <= top[1] && top[1] <= 50);
        assert_eq!(top[2], 0);
    }
}

#[test]
fn bytes_and_sources_stand_for_themselves() {
    let data: &[u8] = &[1, 2, 3];
    assert!(matches!(data.as_spooled_data(), SpooledData::InMem(d) if d == &[1, 2, 3]));
    let source = SpooledData::TgRandom { id: 13, name: "ksyx".to_string() };
    match source.as_spooled_data() {
        SpooledData::TgRandom { id, name } => assert_eq!((id, name.as_str()), (13, "ksyx")),
        _ => panic!("the source changed its kind"),
    }
}
