use vueko::stream::{select_index, select_stream, PixelFormat, StreamDescriptor};

fn mode(pixel_format: PixelFormat, width: u32, height: u32) -> StreamDescriptor {
    StreamDescriptor { pixel_format, width, height }
}

#[test]
fn rgb8_is_recognised() {
    assert!(PixelFormat::Rgb(24).is_rgb8());
    assert!(!PixelFormat::Rgb(32).is_rgb8());
    assert!(!PixelFormat::Bgr(24).is_rgb8());
    assert!(!PixelFormat::Gray(8).is_rgb8());
    assert!(!PixelFormat::Depth(16).is_rgb8());
    assert!(!PixelFormat::Jpeg.is_rgb8());
    assert!(!PixelFormat::Custom.is_rgb8());
}

#[test]
fn distance_squared_is_exact() {
    assert_eq!(mode(PixelFormat::Custom, 1280, 720).distance_squared(), 0);
    assert_eq!(mode(PixelFormat::Custom, 640, 480).distance_squared(), 467_200);
    assert_eq!(mode(PixelFormat::Custom, 1920, 1080).distance_squared(), 539_200);
    assert_eq!(mode(PixelFormat::Custom, 0, 0).distance_squared(), 1280 * 1280 + 720 * 720);
}

#[test]
fn distance_squared_of_the_largest_mode_does_not_overflow() {
    let dx = (u32::MAX - 1280) as u128;
    let dy = (u32::MAX - 720) as u128;
    assert_eq!(mode(PixelFormat::Custom, u32::MAX, u32::MAX).distance_squared(), dx * dx + dy * dy);
}

#[test]
fn nothing_offered_selects_nothing() {
    assert_eq!(select_index(&[]), None);
    assert_eq!(select_stream(&[]), None);
}

#[test]
fn a_single_mode_is_selected() {
    let only = mode(PixelFormat::Jpeg, 320, 240);
    assert_eq!(select_index(&[only]), Some(0));
    assert_eq!(select_stream(&[only]), Some(only));
}

#[test]
fn rgb8_wins_whatever_its_resolution() {
    let offered = [
        mode(PixelFormat::Custom, 1280, 720),
        mode(PixelFormat::Rgb(24), 160, 120),
        mode(PixelFormat::Jpeg, 1280, 720),
    ];
    assert_eq!(select_index(&offered), Some(1));
    assert_eq!(select_stream(&offered), Some(offered[1]));
}

#[test]
fn rgb8_wins_when_it_comes_last() {
    let offered = [mode(PixelFormat::Bgr(24), 1280, 720), mode(PixelFormat::Rgb(24), 4096, 2160)];
    assert_eq!(select_index(&offered), Some(1));
}

#[test]
fn among_rgb8_modes_the_nearest_wins() {
    let offered = [
        mode(PixelFormat::Rgb(24), 640, 480),
        mode(PixelFormat::Custom, 1280, 720),
        mode(PixelFormat::Rgb(24), 1280, 800),
        mode(PixelFormat::Rgb(24), 1920, 1080),
    ];
    assert_eq!(select_index(&offered), Some(2));
}

#[test]
fn without_rgb8_the_nearest_wins() {
    // 640x480 lies at a squared distance of 467200, 1920x1080 at 539200.
    let offered = [mode(PixelFormat::Custom, 640, 480), mode(PixelFormat::Custom, 1920, 1080)];
    assert_eq!(select_stream(&offered), Some(offered[0]));
    let swapped = [offered[1], offered[0]];
    assert_eq!(select_stream(&swapped), Some(offered[0]));
}

#[test]
fn of_equally_near_modes_the_first_wins() {
    // Both lie 100 columns from the target width.
    let offered = [
        mode(PixelFormat::Custom, 1180, 720),
        mode(PixelFormat::Custom, 1380, 720),
        mode(PixelFormat::Jpeg, 1180, 720),
    ];
    assert_eq!(select_index(&offered), Some(0));
    let swapped = [offered[1], offered[0]];
    assert_eq!(select_index(&swapped), Some(0));
    assert_eq!(select_stream(&swapped), Some(offered[1]));
}

#[test]
fn of_equal_rgb8_modes_the_first_wins() {
    let offered = [
        mode(PixelFormat::Custom, 1280, 720),
        mode(PixelFormat::Rgb(24), 800, 600),
        mode(PixelFormat::Rgb(24), 800, 600),
    ];
    assert_eq!(select_index(&offered), Some(1));
}

#[test]
fn rgb_of_another_depth_is_no_rgb8() {
    let offered = [mode(PixelFormat::Rgb(32), 1280, 720), mode(PixelFormat::Rgb(24), 320, 240)];
    assert_eq!(select_index(&offered), Some(1));
}
