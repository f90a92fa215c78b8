use cyclica::color::{to_pixel, ColorMode, Rgba};
use cyclica::engine::Backend;
use cyclica::system::DynamicalSystem;
use cyclica::AutomatonError;

#[test]
fn grayscale_exact_values() {
    // channel = state * 255 / count, rounded to the nearest integer.
    let expected = [0u8, 64, 128, 191];
    for (state, want) in expected.iter().enumerate() {
        let px = to_pixel(state as u32, 4, ColorMode::Grayscale).unwrap();
        assert_eq!(px, Rgba { r: *want, g: *want, b: *want, a: 255 });
    }
    assert_eq!(
        to_pixel(0, 1, ColorMode::Grayscale).unwrap(),
        Rgba { r: 0, g: 0, b: 0, a: 255 }
    );
    // 255 * 255 / 256 rounds to 254.
    assert_eq!(to_pixel(255, 256, ColorMode::Grayscale).unwrap().r, 254);
}

#[test]
fn grayscale_monotone() {
    let count = 7;
    let mut prev = 0u8;
    for state in 0..count {
        let px = to_pixel(state, count, ColorMode::Grayscale).unwrap();
        assert!(px.r >= prev);
        prev = px.r;
    }
}

#[test]
fn colormap_matches_turbo_gradient() {
    // The colormap mode samples Turbo at state / count, which in the rational
    // form of the lookup is position (state, count + 1).
    for (state, count) in [(0u32, 10u32), (3, 10), (9, 10), (0, 1), (4, 5)] {
        let px = to_pixel(state, count, ColorMode::Colormap).unwrap();
        let want = colorous::TURBO.eval_rational(state as usize, count as usize + 1);
        assert_eq!((px.r, px.g, px.b, px.a), (want.r, want.g, want.b, 255));
    }
}

#[test]
fn zero_state_count_is_rejected() {
    assert_eq!(
        to_pixel(0, 0, ColorMode::Grayscale).unwrap_err(),
        AutomatonError::InvalidStateCount
    );
    assert_eq!(
        to_pixel(0, 0, ColorMode::Colormap).unwrap_err(),
        AutomatonError::InvalidStateCount
    );
}

#[test]
fn advance_and_colorize_grayscale() {
    // 2x2 grid of zeros under 2 states, threshold 1: no cell sees a neighbor
    // at state 1, so the step changes nothing and every pixel is black.
    let mut sys =
        DynamicalSystem::from_cells(2, 2, vec![0; 4], 2, 1, Backend::Host, None).unwrap();
    sys.set_color_mode(ColorMode::Grayscale);
    let pixels = sys.advance_and_colorize().unwrap();
    assert_eq!(pixels.len(), 4);
    for px in pixels {
        assert_eq!(px, Rgba { r: 0, g: 0, b: 0, a: 255 });
    }
}

#[test]
fn advance_and_colorize_colormap() {
    let mut sys =
        DynamicalSystem::from_cells(2, 2, vec![0, 1, 2, 3], 4, 9, Backend::Host, None).unwrap();
    assert_eq!(sys.color_mode(), ColorMode::Colormap);
    // Threshold 9 never fires, so the colorized generation is the initial one.
    let pixels = sys.advance_and_colorize().unwrap();
    assert_eq!(pixels.len(), 4);
    for (state, px) in pixels.iter().enumerate() {
        let want = colorous::TURBO.eval_rational(state, 5);
        assert_eq!((px.r, px.g, px.b, px.a), (want.r, want.g, want.b, 255));
    }
}
