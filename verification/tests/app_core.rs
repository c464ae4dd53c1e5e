use clear_screen::app::Application;
use clear_screen::state::State;
use clear_screen::surface::build_config;
use clear_screen::surface::select_format_index;
use clear_screen::surface::Size;
use clear_screen::surface::SurfaceCaps;

fn caps(format_is_srgb: Vec<bool>) -> SurfaceCaps {
    SurfaceCaps { format_is_srgb, present_mode_count: 1, alpha_mode_count: 1 }
}

#[test]
fn first_srgb_format_is_chosen() {
    let flags = vec![false, true, true, false];
    assert_eq!(select_format_index(&flags), 1);
}

#[test]
fn first_format_when_none_is_srgb() {
    let flags = vec![false, false, false];
    assert_eq!(select_format_index(&flags), 0);
}

#[test]
fn single_format_is_chosen_either_way() {
    assert_eq!(select_format_index(&vec![true]), 0);
    assert_eq!(select_format_index(&vec![false]), 0);
}

#[test]
fn config_keeps_size_and_fixes_modes() {
    let caps = SurfaceCaps {
        format_is_srgb: vec![false, true],
        present_mode_count: 2,
        alpha_mode_count: 3,
    };
    let c = build_config(Size { width: 800, height: 400 }, &caps);
    assert_eq!(c.width, 800);
    assert_eq!(c.height, 400);
    assert_eq!(c.format_index, 1);
    assert_eq!(c.present_mode_index, 0);
    assert_eq!(c.alpha_mode_index, 0);
    assert_eq!(c.desired_maximum_frame_latency, 2);
}

#[test]
fn state_pairs_config_with_size() {
    let s = State::new(Size { width: 450, height: 400 }, &caps(vec![false, false, true]));
    assert_eq!(s.size.width, 450);
    assert_eq!(s.size.height, 400);
    assert_eq!(s.config.width, 450);
    assert_eq!(s.config.height, 400);
    assert_eq!(s.config.format_index, 2);
}

#[test]
fn application_starts_paused() {
    let state = State::new(Size { width: 800, height: 400 }, &caps(vec![true]));
    let app = Application::new(state);
    assert!(app.paused);
    assert!(!app.should_step());
}

#[test]
fn pause_then_run_toggles_stepping() {
    let state = State::new(Size { width: 800, height: 400 }, &caps(vec![true]));
    let mut app = Application::new(state);
    app.set_paused(false);
    assert!(!app.paused);
    assert!(app.should_step());
    app.set_paused(true);
    assert!(!app.should_step());
    app.set_paused(false);
    assert!(app.should_step());
}

#[test]
fn set_paused_keeps_the_state() {
    let state = State::new(Size { width: 123, height: 456 }, &caps(vec![false, true]));
    let mut app = Application::new(state);
    app.set_paused(false);
    assert_eq!(app.state.size.width, 123);
    assert_eq!(app.state.size.height, 456);
    assert_eq!(app.state.config.format_index, 1);
}
