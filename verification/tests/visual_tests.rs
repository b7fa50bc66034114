use setroot::err::VisualClass;
use setroot::visual::{get_rgb_shifts, get_shift, DepthInfo, ScreenInfo, Visual};
use setroot::Error;

fn screen_with(depth: u8, visual: Visual) -> ScreenInfo {
    ScreenInfo {
        root_depth: depth,
        root_visual: visual.visual_id,
        allowed_depths: vec![DepthInfo {
            depth,
            visuals: vec![visual],
        }],
        width_in_pixels: 1920,
        height_in_pixels: 1080,
    }
}

#[test]
fn test_get_shift() {
    assert_eq!(Some(0), get_shift(0x0000_00FF));
    assert_eq!(Some(8), get_shift(0x0000_FF00));
    assert_eq!(Some(16), get_shift(0x00FF_0000));
    assert_eq!(Some(24), get_shift(0xFF00_0000));
    assert_eq!(None, get_shift(0));
    assert_eq!(None, get_shift(0x0000_F0F0));
    // A mask whose high bits fell off the word is not a whole 8-bit field.
    assert_eq!(None, get_shift(0xFE00_0000));
}

#[test]
fn test_discovery_succeeds_on_true_colour() {
    let visual = Visual {
        visual_id: 33,
        class: VisualClass::TrueColor,
        red_mask: 0xFF_0000,
        green_mask: 0x00_FF00,
        blue_mask: 0x00_00FF,
    };
    let shifts = get_rgb_shifts(&screen_with(24, visual)).unwrap();
    assert_eq!(16, shifts.r);
    assert_eq!(8, shifts.g);
    assert_eq!(0, shifts.b);
}

#[test]
fn test_discovery_rejects_non_true_colour() {
    let visual = Visual {
        visual_id: 33,
        class: VisualClass::PseudoColor,
        red_mask: 0xFF_0000,
        green_mask: 0x00_FF00,
        blue_mask: 0x00_00FF,
    };
    let res = get_rgb_shifts(&screen_with(24, visual));
    assert_eq!(
        Err(Error::UnsupportedVisual(24, VisualClass::PseudoColor)),
        res
    );
}

#[test]
fn test_discovery_rejects_unsupported_depth() {
    let visual = Visual {
        visual_id: 33,
        class: VisualClass::TrueColor,
        red_mask: 0xFF_0000,
        green_mask: 0x00_FF00,
        blue_mask: 0x00_00FF,
    };
    let res = get_rgb_shifts(&screen_with(16, visual));
    assert_eq!(Err(Error::UnsupportedVisual(16, VisualClass::TrueColor)), res);
}

#[test]
fn test_discovery_rejects_ragged_masks() {
    let visual = Visual {
        visual_id: 33,
        class: VisualClass::TrueColor,
        red_mask: 0xF0_00F0,
        green_mask: 0x00_FF00,
        blue_mask: 0x00_00FF,
    };
    let res = get_rgb_shifts(&screen_with(24, visual));
    assert_eq!(Err(Error::UnsupportedVisual(24, VisualClass::TrueColor)), res);
}

#[test]
fn test_discovery_missing_root_visual() {
    let visual = Visual {
        visual_id: 34,
        class: VisualClass::TrueColor,
        red_mask: 0xFF_0000,
        green_mask: 0x00_FF00,
        blue_mask: 0x00_00FF,
    };
    let mut screen = screen_with(24, visual);
    screen.root_visual = 33;
    let res = get_rgb_shifts(&screen);
    assert_eq!(Err(Error::CouldNotFindRootVisual(33)), res);
}

#[test]
fn test_discovery_skips_other_depths() {
    // The same visual identifier at a non-root depth must not be picked up.
    let decoy = Visual {
        visual_id: 33,
        class: VisualClass::PseudoColor,
        red_mask: 0,
        green_mask: 0,
        blue_mask: 0,
    };
    let real = Visual {
        visual_id: 33,
        class: VisualClass::TrueColor,
        red_mask: 0x00_00FF,
        green_mask: 0x00_FF00,
        blue_mask: 0xFF_0000,
    };
    let screen = ScreenInfo {
        root_depth: 24,
        root_visual: 33,
        allowed_depths: vec![
            DepthInfo { depth: 8, visuals: vec![decoy] },
            DepthInfo { depth: 24, visuals: vec![real] },
        ],
        width_in_pixels: 800,
        height_in_pixels: 600,
    };
    let shifts = get_rgb_shifts(&screen).unwrap();
    assert_eq!((0, 8, 16), (shifts.r, shifts.g, shifts.b));
}
