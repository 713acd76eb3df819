use x11_window::modes::{choose_mode, Mode};

fn m(width: u32, height: u32) -> Mode {
    Mode { width, height }
}

#[test]
fn exact_match_is_preferred() {
    let modes = vec![m(640, 480), m(1024, 768), m(1920, 1080)];
    assert_eq!(choose_mode(&modes, (1024, 768)), Some(m(1024, 768)));
}

#[test]
fn first_exact_match_wins() {
    let modes = vec![m(800, 600), m(800, 600)];
    assert_eq!(choose_mode(&modes, (800, 600)), Some(m(800, 600)));
}

#[test]
fn fallback_picks_smallest_covering_mode() {
    let modes = vec![m(1920, 1080), m(1280, 1024), m(640, 480)];
    // no exact 1024x768; both 1920x1080 and 1280x1024 cover it, and
    // 1280x1024 has the smaller area
    assert_eq!(choose_mode(&modes, (1024, 768)), Some(m(1280, 1024)));
}

#[test]
fn fallback_requires_both_dimensions_covered() {
    let modes = vec![m(2000, 700), m(1000, 2000)];
    // neither mode covers 1024x768 in both dimensions
    assert_eq!(choose_mode(&modes, (1024, 768)), None);
}

#[test]
fn no_mode_fits_returns_none() {
    let modes = vec![m(640, 480), m(800, 600)];
    assert_eq!(choose_mode(&modes, (1024, 768)), None);
}

#[test]
fn empty_mode_list_returns_none() {
    let modes: Vec<Mode> = Vec::new();
    assert_eq!(choose_mode(&modes, (1, 1)), None);
}

#[test]
fn earliest_of_equal_area_fits_wins() {
    let modes = vec![m(1200, 900), m(900, 1200)];
    // equal areas; the earlier mode is chosen
    assert_eq!(choose_mode(&modes, (800, 600)), Some(m(1200, 900)));
}
