use bevy_tao::{get_best_videomode, get_fitting_videomode, MonitorInfo, VideoMode, IVec2};

fn mode(width: u32, height: u32, refresh_rate: u16) -> VideoMode {
    VideoMode { width, height, bit_depth: 32, refresh_rate, monitor: 1 }
}

fn monitor(video_modes: Vec<VideoMode>) -> MonitorInfo {
    MonitorInfo { id: 1, position: IVec2 { x: 0, y: 0 }, width: 1920, height: 1080, scale_factor: 1000, video_modes }
}

#[test]
fn fitting_mode_prefers_exact_size_then_higher_refresh() {
    let m = monitor(vec![mode(1920, 1080, 60), mode(1920, 1080, 144), mode(1280, 720, 60)]);
    assert_eq!(get_fitting_videomode(&m, 1920, 1080), Some(mode(1920, 1080, 144)));
}

#[test]
fn fitting_mode_goes_by_width_before_height() {
    let m = monitor(vec![mode(1280, 1080, 60), mode(1900, 720, 60)]);
    assert_eq!(get_fitting_videomode(&m, 1920, 1080), Some(mode(1900, 720, 60)));
}

#[test]
fn fitting_mode_goes_by_height_before_refresh() {
    let m = monitor(vec![mode(1920, 1000, 240), mode(1920, 1050, 30)]);
    assert_eq!(get_fitting_videomode(&m, 1920, 1080), Some(mode(1920, 1050, 30)));
}

#[test]
fn fitting_mode_counts_distance_on_both_sides() {
    let m = monitor(vec![mode(2000, 1080, 60), mode(1800, 1080, 60)]);
    assert_eq!(get_fitting_videomode(&m, 1920, 1080), Some(mode(2000, 1080, 60)));
}

#[test]
fn equal_modes_give_the_first_in_the_list() {
    let a = VideoMode { width: 800, height: 600, bit_depth: 16, refresh_rate: 60, monitor: 1 };
    let b = VideoMode { width: 800, height: 600, bit_depth: 32, refresh_rate: 60, monitor: 1 };
    let m = monitor(vec![a, b]);
    assert_eq!(get_fitting_videomode(&m, 800, 600), Some(a));
    assert_eq!(get_best_videomode(&m), Some(a));
}

#[test]
fn best_mode_is_widest_then_tallest_then_fastest() {
    let m = monitor(vec![mode(1920, 1080, 60), mode(2560, 1080, 60), mode(2560, 1440, 30), mode(2560, 1440, 75)]);
    assert_eq!(get_best_videomode(&m), Some(mode(2560, 1440, 75)));
}

#[test]
fn no_modes_gives_none() {
    let m = monitor(vec![]);
    assert_eq!(get_fitting_videomode(&m, 1920, 1080), None);
    assert_eq!(get_best_videomode(&m), None);
}
