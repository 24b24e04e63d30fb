use retro_display::c64::display::{CELLS, COLOR_RAM, COLS, PIXEL_SYMBOL, ROWS, VIDEO_RAM};
use retro_display::c64::{CellWrite, PetsciiDisplay, Pixel, Point, Size, VicIIPalette};

#[test]
fn constants_of_the_hardware() {
    assert_eq!(COLS, 40);
    assert_eq!(ROWS, 25);
    assert_eq!(CELLS, 1000);
    assert_eq!(PIXEL_SYMBOL, 0xa0);
    assert_eq!(VIDEO_RAM, 0x0400);
    assert_eq!(COLOR_RAM, 0xd800);
}

#[test]
fn new_display_is_blank() {
    let display = PetsciiDisplay::new();
    assert_eq!(display.video_ram(), &[0u8; 1000]);
    assert_eq!(display.color_ram(), &[0u8; 1000]);
}

#[test]
fn size_is_constant() {
    let mut display = PetsciiDisplay::new();
    assert_eq!(display.size(), Size::new(40, 25));
    display.set_pixel(&Point::new(3, 4), VicIIPalette::Green);
    display.set_pixel(&Point::new(-3, 400), VicIIPalette::Green);
    assert_eq!(display.size(), Size { width: 40, height: 25 });
    assert!(display.clear(VicIIPalette::Cyan).is_ok());
    assert_eq!(display.size().width, 40);
    assert_eq!(display.size().height, 25);
}

#[test]
fn write_point_at_the_corners() {
    let mut display = PetsciiDisplay::new();
    display.set_pixel(&Point::new(0, 0), VicIIPalette::Red);
    assert_eq!(display.video_ram()[0], 0xa0);
    assert_eq!(display.color_ram()[0], 2);
    display.set_pixel(&Point::new(39, 24), VicIIPalette::Blue);
    assert_eq!(display.video_ram()[999], 0xa0);
    assert_eq!(display.color_ram()[999], 6);
    for offset in 1usize..999usize {
        assert_eq!(display.video_ram()[offset], 0);
        assert_eq!(display.color_ram()[offset], 0);
    }
}

#[test]
fn write_point_off_the_screen_is_dropped() {
    let mut display = PetsciiDisplay::new();
    display.set_pixel(&Point::new(7, 3), VicIIPalette::Purple);
    let video = *display.video_ram();
    let color = *display.color_ram();
    let outside: [(i32, i32); 10] = [
        (40, 0),
        (0, 25),
        (-1, 0),
        (0, -1),
        (40, 25),
        (-1, -1),
        (i32::MAX, 0),
        (0, i32::MAX),
        (i32::MIN, i32::MIN),
        (65536, 0),
    ];
    for (x, y) in outside {
        display.set_pixel(&Point::new(x, y), VicIIPalette::White);
        assert_eq!(display.video_ram(), &video, "({}, {})", x, y);
        assert_eq!(display.color_ram(), &color, "({}, {})", x, y);
        assert_eq!(PetsciiDisplay::plan_pixel(&Point::new(x, y), VicIIPalette::White), None);
    }
}

#[test]
fn write_point_pairs_the_planes() {
    let entries: [VicIIPalette; 3] =
        [VicIIPalette::LightGray, VicIIPalette::Black, VicIIPalette::Orange];
    for y in 0i32..25i32 {
        for x in 0i32..40i32 {
            let entry = entries[((x + y) % 3) as usize];
            let mut display = PetsciiDisplay::new();
            display.set_pixel(&Point::new(x, y), entry);
            let index = (x + y * 40) as usize;
            for offset in 0usize..1000usize {
                if offset == index {
                    assert_eq!(display.video_ram()[offset], 0xa0);
                    assert_eq!(display.color_ram()[offset], entry.ordinal());
                } else {
                    assert_eq!(display.video_ram()[offset], 0);
                    assert_eq!(display.color_ram()[offset], 0);
                }
            }
        }
    }
}

#[test]
fn plan_pixel_gives_the_stores() {
    assert_eq!(
        PetsciiDisplay::plan_pixel(&Point::new(5, 5), VicIIPalette::Yellow),
        Some(CellWrite { index: 205, symbol: 0xa0, color: 7 })
    );
    assert_eq!(
        PetsciiDisplay::plan_pixel(&Point::new(0, 0), VicIIPalette::Black),
        Some(CellWrite { index: 0, symbol: 0xa0, color: 0 })
    );
    assert_eq!(
        PetsciiDisplay::plan_pixel(&Point::new(39, 24), VicIIPalette::LightGray),
        Some(CellWrite { index: 999, symbol: 0xa0, color: 15 })
    );
    assert_eq!(PetsciiDisplay::plan_pixel(&Point::new(40, 24), VicIIPalette::LightGray), None);
}

#[test]
fn plan_pixel_agrees_with_set_pixel() {
    for y in -2i32..28i32 {
        for x in -2i32..43i32 {
            let mut display = PetsciiDisplay::new();
            display.set_pixel(&Point::new(x, y), VicIIPalette::Brown);
            let mut video = [0u8; 1000];
            let mut color = [0u8; 1000];
            if let Some(write) = PetsciiDisplay::plan_pixel(&Point::new(x, y), VicIIPalette::Brown)
            {
                video[write.index as usize] = write.symbol;
                color[write.index as usize] = write.color;
            }
            assert_eq!(display.video_ram(), &video);
            assert_eq!(display.color_ram(), &color);
        }
    }
}

#[test]
fn set_pixel_unchecked_stores_both_bytes() {
    let mut display = PetsciiDisplay::new();
    display.set_pixel_unchecked(0, VicIIPalette::White);
    display.set_pixel_unchecked(999, VicIIPalette::Green);
    display.set_pixel_unchecked(41, VicIIPalette::LightBlue);
    assert_eq!((display.video_ram()[0], display.color_ram()[0]), (0xa0, 1));
    assert_eq!((display.video_ram()[999], display.color_ram()[999]), (0xa0, 5));
    assert_eq!((display.video_ram()[41], display.color_ram()[41]), (0xa0, 14));
    assert_eq!((display.video_ram()[40], display.color_ram()[40]), (0, 0));
}

#[test]
fn draw_two_points_last_write_wins() {
    let mut display = PetsciiDisplay::new();
    let pixels = [
        Pixel(Point::new(5, 5), VicIIPalette::Red),
        Pixel(Point::new(5, 5), VicIIPalette::Yellow),
    ];
    assert_eq!(display.draw_iter(&pixels), Ok(()));
    assert_eq!(display.color_ram()[205], 7);
    assert_eq!(display.video_ram()[205], 0xa0);
    for offset in 0usize..1000usize {
        if offset != 205 {
            assert_eq!(display.color_ram()[offset], 0);
            assert_eq!(display.video_ram()[offset], 0);
        }
    }
}

#[test]
fn draw_iter_skips_what_is_off_the_screen() {
    let mut display = PetsciiDisplay::new();
    let pixels = vec![
        Pixel(Point::new(1, 0), VicIIPalette::Cyan),
        Pixel(Point::new(40, 0), VicIIPalette::Red),
        Pixel(Point::new(0, 1), VicIIPalette::Purple),
        Pixel(Point::new(-1, 1), VicIIPalette::Red),
        Pixel(Point::new(1, 0), VicIIPalette::Green),
    ];
    assert!(display.draw_iter(&pixels).is_ok());
    assert_eq!((display.video_ram()[1], display.color_ram()[1]), (0xa0, 5));
    assert_eq!((display.video_ram()[40], display.color_ram()[40]), (0xa0, 4));
    assert_eq!((display.video_ram()[0], display.color_ram()[0]), (0, 0));
    assert_eq!((display.video_ram()[39], display.color_ram()[39]), (0, 0));
}

#[test]
fn draw_iter_equals_set_pixel_in_order() {
    let mut pixels: Vec<Pixel> = Vec::new();
    let mut seed: u32 = 12345;
    for _ in 0..500 {
        seed = seed.wrapping_mul(1664525).wrapping_add(1013904223);
        let x = ((seed >> 8) % 48) as i32 - 4;
        let y = ((seed >> 16) % 31) as i32 - 3;
        let entry = VicIIPalette::from(retro_display::c64::RawU4::new((seed >> 24) as u8));
        pixels.push(Pixel(Point::new(x, y), entry));
    }
    let mut all_at_once = PetsciiDisplay::new();
    assert!(all_at_once.draw_iter(&pixels).is_ok());
    let mut one_by_one = PetsciiDisplay::new();
    let mut in_two_parts = PetsciiDisplay::new();
    for pixel in &pixels {
        one_by_one.set_pixel(&pixel.0, pixel.1);
    }
    assert!(in_two_parts.draw_iter(&pixels[..200]).is_ok());
    assert!(in_two_parts.draw_iter(&pixels[200..]).is_ok());
    assert_eq!(all_at_once.video_ram(), one_by_one.video_ram());
    assert_eq!(all_at_once.color_ram(), one_by_one.color_ram());
    assert_eq!(all_at_once.video_ram(), in_two_parts.video_ram());
    assert_eq!(all_at_once.color_ram(), in_two_parts.color_ram());
    assert!(all_at_once.color_ram().iter().all(|byte| *byte <= 15));
    // Each cell holds what the last pixel that hit it gave it.
    for offset in 0usize..1000usize {
        let last = pixels.iter().rev().find(|p| {
            (0..40).contains(&p.0.x)
                && (0..25).contains(&p.0.y)
                && (p.0.x + p.0.y * 40) as usize == offset
        });
        match last {
            Some(pixel) => {
                assert_eq!(all_at_once.video_ram()[offset], 0xa0);
                assert_eq!(all_at_once.color_ram()[offset], pixel.1.ordinal());
            }
            None => {
                assert_eq!(all_at_once.video_ram()[offset], 0);
                assert_eq!(all_at_once.color_ram()[offset], 0);
            }
        }
    }
}

#[test]
fn draw_iter_of_nothing_changes_nothing() {
    let mut display = PetsciiDisplay::new();
    display.set_pixel(&Point::new(2, 2), VicIIPalette::Red);
    let video = *display.video_ram();
    let color = *display.color_ram();
    assert_eq!(display.draw_iter(&[]), Ok(()));
    assert_eq!(display.video_ram(), &video);
    assert_eq!(display.color_ram(), &color);
}

#[test]
fn clear_fills_every_cell() {
    let mut display = PetsciiDisplay::new();
    display.set_pixel(&Point::new(2, 2), VicIIPalette::Red);
    assert_eq!(display.clear(VicIIPalette::Blue), Ok(()));
    assert_eq!(display.video_ram(), &[0xa0u8; 1000]);
    assert_eq!(display.color_ram(), &[6u8; 1000]);
}
