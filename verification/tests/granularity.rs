use mksubrip::geometry::{Pos2, Rect};
use mksubrip::player::{PlayerState, PlayerStatus};
use mksubrip::ui::timeline::granularity::{
    GranularityModel, DEFAULT_GRANULARITY, GRANULARITY_STEP, MAX_GRANULARITY, MAX_MEDIA_DURATION_S,
    MIN_GRANULARITY,
};
use mksubrip::ui::timeline::{
    HoverCursor, Line, SeekRatio, Timeline, TimelineInput, TimelineState, DEFAULT_HEIGHT,
};
use mksubrip::utils::{clamp, new_rect, range_contains_subrange, range_contains_timestamp, sgn};

fn model(millis_per_pixel: u32, begin: i64, end: i64, media: i64) -> GranularityModel {
    GranularityModel { millis_per_pixel, duration_range: [begin, end], media_duration_ms: media }
}

fn rect(left: i32, top: i32, right: i32, bottom: i32) -> Rect {
    Rect { min: Pos2 { x: left, y: top }, max: Pos2 { x: right, y: bottom } }
}

fn quiet(rect: Rect, width: u32) -> TimelineInput {
    TimelineInput {
        rect,
        width,
        contains_pointer: false,
        scroll_x: 0,
        scroll_y: 0,
        hover_pos: None,
        double_clicked: false,
    }
}

fn player(elapsed_ms: u64) -> PlayerStatus {
    PlayerStatus { state: PlayerState::Playing, elapsed_ms, duration_ms: 120_000 }
}

#[test]
fn clamp_takes_the_upper_bound_first() {
    assert_eq!(clamp(3000, 16, 120), 120);
    assert_eq!(clamp(3000, 16, 5), 16);
    assert_eq!(clamp(3000, 16, 9000), 3000);
    assert_eq!(clamp(3000, 16, 16), 16);
    assert_eq!(clamp(3000, 16, 3000), 3000);
    assert_eq!(clamp(3.0, 0.016, 0.12), 0.12);
    assert_eq!(clamp(3.0, 0.016, 0.001), 0.016);
    assert_eq!(clamp(3.0, 0.016, 7.5), 3.0);
    assert_eq!(clamp("m", "c", "a"), "c");
}

#[test]
fn ranges_are_half_open() {
    assert!(range_contains_timestamp(&[10, 20], 10));
    assert!(range_contains_timestamp(&[10, 20], 19));
    assert!(!range_contains_timestamp(&[10, 20], 20));
    assert!(!range_contains_timestamp(&[10, 20], 9));
    assert!(!range_contains_timestamp(&[10, 10], 10));
    assert!(range_contains_subrange(&[10, 20], &[10, 19]));
    assert!(!range_contains_subrange(&[10, 20], &[10, 20]));
    assert!(!range_contains_subrange(&[10, 20], &[9, 15]));
}

#[test]
fn signs() {
    assert_eq!(sgn(5), 1);
    assert_eq!(sgn(-5), -1);
    assert_eq!(sgn(0), 0);
    assert_eq!(sgn(i64::MIN), -1);
    assert_eq!(sgn(i64::MAX), 1);
}

#[test]
fn rectangles_hold_both_points() {
    assert_eq!(new_rect(1, 2, 3, 4), rect(1, 2, 3, 4));
    assert_eq!(new_rect(3, 4, 1, 2), rect(1, 2, 3, 4));
    assert_eq!(new_rect(0, 0, 0, 0), rect(0, 0, 0, 0));
    assert_eq!(new_rect(i64::MIN, 0, i64::MAX, 1), rect(i32::MIN, 0, i32::MAX, 1));
    let r = rect(1, 2, 11, 7);
    assert_eq!((r.left(), r.top(), r.right(), r.bottom()), (1, 2, 11, 7));
    assert_eq!((r.width(), r.height()), (10, 5));
    assert!(r.contains(Pos2::new(1, 2)));
    assert!(r.contains(Pos2::new(11, 7)));
    assert!(!r.contains(Pos2::new(12, 7)));
    assert!(!r.contains_strictly(Pos2::new(1, 3)));
    assert!(r.contains_strictly(Pos2::new(2, 3)));
    assert_eq!(Pos2::zero(), Pos2 { x: 0, y: 0 });
}

#[test]
fn granularity_is_kept_within_its_bounds() {
    let mut m = GranularityModel::new();
    assert_eq!(m.get_granularity(), DEFAULT_GRANULARITY);
    for requested in [i64::MIN, -1, 0, 1, 15, 16, 17, 120, 2999, 3000, 3001, i64::MAX] {
        m.set_granularity(requested);
        let stored = m.get_granularity();
        assert!(MIN_GRANULARITY <= stored && stored <= MAX_GRANULARITY);
        assert_eq!(stored as i64, requested.clamp(16, 3000));
    }
}

#[test]
fn zooming_moves_by_one_step_and_stops_at_the_bounds() {
    let mut m = GranularityModel::new();
    m.increase_granularity();
    assert_eq!(m.get_granularity(), DEFAULT_GRANULARITY + GRANULARITY_STEP);
    m.decrease_granularity();
    m.decrease_granularity();
    assert_eq!(m.get_granularity(), 90);
    m.zoom(7);
    assert_eq!(m.get_granularity(), 100);
    m.zoom(-7);
    assert_eq!(m.get_granularity(), 90);
    m.zoom(0);
    assert_eq!(m.get_granularity(), 90);
    m.set_granularity(20);
    m.decrease_granularity();
    assert_eq!(m.get_granularity(), 16);
    m.decrease_granularity();
    assert_eq!(m.get_granularity(), 16);
    m.set_granularity(2995);
    m.increase_granularity();
    assert_eq!(m.get_granularity(), 3000);
    m.zoom(1);
    assert_eq!(m.get_granularity(), 3000);
}

#[test]
fn zooming_leaves_the_window_alone() {
    let mut m = model(100, 2_000, 12_000, 120_000);
    m.zoom(1);
    assert_eq!(m.duration_range, [2_000, 12_000]);
    assert_eq!(m.media_duration_ms, 120_000);
}

#[test]
fn tick_ladder() {
    let step = |g: u32| model(g, 0, 0, 0).calc_tick_step();
    assert_eq!(step(16), 64);
    assert_eq!(step(31), 64);
    assert_eq!(step(32), 32);
    assert_eq!(step(62), 32);
    assert_eq!(step(63), 16);
    assert_eq!(step(100), 16);
    assert_eq!(step(125), 16);
    assert_eq!(step(126), 8);
    assert_eq!(step(3000), 8);
    assert_eq!(model(100, 0, 0, 0).tick_step_millis(), 1_600);
    assert_eq!(model(3000, 0, 0, 0).tick_step_millis(), 24_000);
    assert_eq!(model(16, 0, 0, 0).tick_step_millis(), 1_024);
}

#[test]
fn tick_spacing_never_grows_with_the_granularity() {
    let mut last = 64;
    for g in 16..=3000u32 {
        let step = model(g, 0, 0, 0).calc_tick_step();
        assert!(step <= last);
        last = step;
    }
    assert_eq!(last, 8);
}

#[test]
fn pixels_and_milliseconds() {
    let m = model(100, 0, 0, 0);
    assert_eq!(m.millis_of_pixels(20), 2_000);
    assert_eq!(m.millis_of_pixels(-5), -500);
    assert_eq!(m.millis_of_pixels(0), 0);
    assert_eq!(m.pixels_of_millis(10_000), 100);
    assert_eq!(m.pixels_of_millis(10_099), 100);
    assert_eq!(m.pixels_of_millis(0), 0);
    assert_eq!(m.pixels_of_millis(-1), -1);
    assert_eq!(m.pixels_of_millis(-100), -1);
    assert_eq!(m.pixels_of_millis(-101), -2);
    assert_eq!(m.pixels_of_millis(i64::MIN), i64::MIN.div_euclid(100));
    assert_eq!(m.pixels_of_millis(i64::MAX), i64::MAX / 100);
    let wide = model(3000, 0, 0, 0);
    assert_eq!(wide.millis_of_pixels(i32::MAX), i32::MAX as i64 * 3000);
    assert_eq!(wide.millis_of_pixels(i32::MIN), i32::MIN as i64 * 3000);
}

#[test]
fn the_window_spans_what_the_viewport_stands_for() {
    let mut m = model(100, 5_000, 5_000, 120_000);
    m.recompute_window(1000);
    assert_eq!(m.duration_range, [5_000, 105_000]);
    assert_eq!(m.duration_range[1] - m.duration_range[0], 100 * 1000);
    m.recompute_window(0);
    assert_eq!(m.duration_range, [5_000, 5_000]);
}

#[test]
fn the_window_moves_back_to_end_with_the_media() {
    let mut m = model(100, 50_000, 60_000, 120_000);
    m.recompute_window(1000);
    assert_eq!(m.duration_range, [20_000, 120_000]);
    assert_eq!(m.duration_range[1] - m.duration_range[0], 100 * 1000);
}

#[test]
fn a_window_longer_than_the_media_is_the_whole_media() {
    let mut m = model(100, 50_000, 60_000, 120_000);
    m.recompute_window(1201);
    assert_eq!(m.duration_range, [0, 120_000]);
    m.recompute_window(1200);
    assert_eq!(m.duration_range, [0, 120_000]);
    m.recompute_window(u32::MAX);
    assert_eq!(m.duration_range, [0, 120_000]);
    let mut empty = GranularityModel::new();
    empty.recompute_window(1000);
    assert_eq!(empty.duration_range, [0, 0]);
}

#[test]
fn panning_moves_by_one_tick_and_stops_at_the_ends() {
    let mut m = model(100, 10_000, 20_000, 120_000);
    m.pan(3);
    assert_eq!(m.duration_range, [11_600, 21_600]);
    m.pan(-1);
    m.pan(-1);
    assert_eq!(m.duration_range, [8_400, 18_400]);
    m.pan(0);
    assert_eq!(m.duration_range, [8_400, 18_400]);
    for _ in 0..10 {
        m.pan(-1);
    }
    assert_eq!(m.duration_range, [0, 10_000]);
    for _ in 0..100 {
        m.pan(1);
    }
    assert_eq!(m.duration_range, [110_000, 120_000]);
}

#[test]
fn ticks_of_the_window() {
    assert_eq!(model(100, 0, 100_000, 120_000).calc_ticks_range(), (0, 63));
    assert_eq!(model(100, 8_000, 16_000, 120_000).calc_ticks_range(), (5, 10));
    assert_eq!(model(100, 799, 800, 120_000).calc_ticks_range(), (0, 0));
    assert_eq!(model(100, 800, 1_600, 120_000).calc_ticks_range(), (1, 2));
}

#[test]
fn initial_granularity_fills_the_viewport() {
    let mut m = GranularityModel::new();
    m.init(120, 1000);
    assert_eq!(m.get_granularity(), 120);
    assert_eq!(m.media_duration_ms, 120_000);
    assert_eq!(m.duration_range, [0, 120_000]);
    // Short media: the finest granularity, and the whole media in view.
    m.init(10, 1000);
    assert_eq!(m.get_granularity(), 16);
    assert_eq!(m.duration_range, [0, 10_000]);
    // Long media: the coarsest granularity, and the start of the media.
    m.init(36_000, 1000);
    assert_eq!(m.get_granularity(), 3000);
    assert_eq!(m.duration_range, [0, 3_000_000]);
    // The quotient is rounded down.
    m.init(100, 999);
    assert_eq!(m.get_granularity(), 100);
    assert_eq!(m.duration_range, [0, 99_900]);
}

#[test]
fn invalid_geometry_is_clamped() {
    let mut m = GranularityModel::new();
    m.init(120, 0);
    assert_eq!(m.get_granularity(), 3000);
    assert_eq!(m.duration_range, [0, 0]);
    m.init(0, 0);
    assert_eq!(m.get_granularity(), 16);
    assert_eq!(m.duration_range, [0, 0]);
    m.init(-5, 1000);
    assert_eq!(m.media_duration_ms, 0);
    assert_eq!(m.get_granularity(), 16);
    assert_eq!(m.duration_range, [0, 0]);
    m.init(i64::MAX, 1000);
    assert_eq!(m.media_duration_ms, MAX_MEDIA_DURATION_S * 1000);
    assert_eq!(m.get_granularity(), 3000);
    assert_eq!(m.duration_range, [0, 3_000_000]);
}

#[test]
fn media_of_two_minutes_in_a_thousand_pixels() {
    let mut timeline = Timeline::new(1000);
    timeline.set_media_duration_s(&120);
    assert_eq!(timeline.get_granularity(), 120);
    assert_eq!(timeline.model.duration_range, [0, 120_000]);
}

#[test]
fn a_new_timeline_is_empty() {
    let timeline = Timeline::new(1024);
    assert_eq!(timeline.get_granularity(), 100);
    assert_eq!(timeline.model.duration_range, [0, 0]);
    assert_eq!(timeline.model.media_duration_ms, 0);
    assert_eq!(timeline.default_height, DEFAULT_HEIGHT);
    assert_eq!(timeline.screen_width, 1024);
    assert_eq!(timeline.state, TimelineState::default());
    assert!(timeline.subrip_blocks.is_empty());
    assert!(timeline.player.is_none());
    assert_eq!(timeline.get_cursor_timestamp(), 0);
}

#[test]
fn without_media_the_ruler_has_one_tick_and_no_playhead() {
    let mut timeline = Timeline::new(1024);
    let view = timeline.draw(&quiet(rect(0, 0, 800, 120), 800));
    assert!(view.cursor.is_none());
    assert!(view.hover_cursor.is_none());
    assert_eq!(view.ticks.len(), 1);
    assert_eq!(view.ticks[0].number, 0);
    assert_eq!(view.ticks[0].label.as_deref(), Some("00:00"));
    assert_eq!(timeline.model.duration_range, [0, 0]);
}

#[test]
fn the_window_is_fitted_when_the_width_changes() {
    let mut timeline = Timeline::new(1000);
    timeline.set_media_duration_s(&120);
    timeline.model.zoom(-1);
    assert_eq!(timeline.get_granularity(), 110);
    // Zooming alone leaves the window as it was.
    assert_eq!(timeline.model.duration_range, [0, 120_000]);
    timeline.draw(&quiet(rect(0, 0, 500, 120), 500));
    assert_eq!(timeline.model.duration_range, [0, 55_000]);
    assert_eq!(timeline.state.width, 500);
    // Same width again: nothing is fitted.
    timeline.model.zoom(-1);
    timeline.draw(&quiet(rect(0, 0, 500, 120), 500));
    assert_eq!(timeline.model.duration_range, [0, 55_000]);
    timeline.update_duration_range(600);
    assert_eq!(timeline.model.duration_range, [0, 60_000]);
}

#[test]
fn scrolling_zooms_and_pans_under_the_pointer_only() {
    let mut timeline = Timeline::new(1000);
    timeline.set_media_duration_s(&120);
    timeline.update_duration_range(500);
    assert_eq!(timeline.model.duration_range, [0, 60_000]);
    timeline.update_input_event(false, 5, -5);
    assert_eq!(timeline.get_granularity(), 120);
    assert_eq!(timeline.model.duration_range, [0, 60_000]);
    timeline.update_input_event(true, 5, 0);
    assert_eq!(timeline.get_granularity(), 130);
    assert_eq!(timeline.model.duration_range, [0, 60_000]);
    timeline.update_input_event(true, -5, 0);
    assert_eq!(timeline.get_granularity(), 120);
    // A scroll down moves the window on by one tick of 16 px, 1920 ms.
    timeline.update_input_event(true, 0, -3);
    assert_eq!(timeline.model.duration_range, [1_920, 61_920]);
    timeline.update_input_event(true, 0, 3);
    assert_eq!(timeline.model.duration_range, [0, 60_000]);
    timeline.move_duration_range(-1);
    assert_eq!(timeline.model.duration_range, [1_920, 61_920]);
}

#[test]
fn the_playhead_stands_on_the_nearest_tick() {
    let mut timeline = Timeline::new(1000);
    timeline.set_media_duration_s(&120);
    timeline.model.set_granularity(100);
    timeline.model.duration_range = [8_000, 108_000];
    let area = rect(10, 20, 1010, 140);
    assert_eq!(timeline.draw_cursor(&area), None);
    timeline.set_player(&player(24_999));
    timeline.model.set_granularity(100);
    timeline.model.duration_range = [8_000, 108_000];
    assert_eq!(timeline.get_cursor_timestamp(), 24);
    // 24 s is tick 15 of 1.6 s; the window begins at tick 5.
    let x = 10 + (15 - 5) * 16;
    assert_eq!(
        timeline.draw_cursor(&area),
        Some(Line { from: Pos2 { x, y: 20 }, to: Pos2 { x, y: 140 } })
    );
    timeline.update_player(&player(7_999));
    assert_eq!(timeline.draw_cursor(&area), None);
    timeline.update_player(&player(8_000));
    assert_eq!(
        timeline.draw_cursor(&area),
        Some(Line { from: Pos2 { x: 10, y: 20 }, to: Pos2 { x: 10, y: 140 } })
    );
    timeline.update_player(&player(108_000));
    assert_eq!(timeline.draw_cursor(&area), None);
    timeline.update_player(&player(u64::MAX));
    assert_eq!(timeline.draw_cursor(&area), None);
}

#[test]
fn the_cursor_under_the_pointer_and_the_seek() {
    let timeline = Timeline::new(1000);
    let area = rect(10, 20, 1010, 140);
    assert_eq!(timeline.draw_hovered_cursor(&area, None, true), None);
    assert_eq!(timeline.draw_hovered_cursor(&area, Some(Pos2 { x: 10, y: 50 }), true), None);
    assert_eq!(timeline.draw_hovered_cursor(&area, Some(Pos2 { x: 500, y: 140 }), true), None);
    let at = Pos2 { x: 260, y: 50 };
    let plain = timeline.draw_hovered_cursor(&area, Some(at), false).unwrap();
    assert_eq!(
        plain,
        HoverCursor {
            stem: Line { from: Pos2 { x: 260, y: 20 }, to: Pos2 { x: 260, y: 140 } },
            top_bar: Line { from: Pos2 { x: 257, y: 20 }, to: Pos2 { x: 263, y: 20 } },
            bottom_bar: Line { from: Pos2 { x: 257, y: 140 }, to: Pos2 { x: 263, y: 140 } },
            seek: None,
        }
    );
    let clicked = timeline.draw_hovered_cursor(&area, Some(at), true).unwrap();
    assert_eq!(clicked.seek, Some(SeekRatio { offset: 250, width: 1000 }));
    assert_eq!(clicked.stem, plain.stem);
}

#[test]
fn ticks_are_a_step_apart_and_every_fifth_is_labelled() {
    let mut timeline = Timeline::new(1000);
    timeline.set_media_duration_s(&120);
    timeline.model.set_granularity(100);
    timeline.model.duration_range = [8_000, 16_000];
    let ticks = timeline.draw_ticks(&rect(10, 20, 1010, 140));
    let numbers: Vec<i64> = ticks.iter().map(|t| t.number).collect();
    assert_eq!(numbers, vec![5, 6, 7, 8, 9, 10]);
    let xs: Vec<i32> = ticks.iter().map(|t| t.line.from.x).collect();
    assert_eq!(xs, vec![10, 26, 42, 58, 74, 90]);
    let labels: Vec<Option<&str>> = ticks.iter().map(|t| t.label.as_deref()).collect();
    assert_eq!(labels, vec![Some("00:08"), None, None, None, None, Some("00:16")]);
    for tick in &ticks {
        assert_eq!(tick.line.from.x, tick.line.to.x);
        assert_eq!(tick.line.from.y, 40);
        assert_eq!(tick.line.to.y, if tick.label.is_some() { 60 } else { 52 });
        assert_eq!(tick.label_pos, Pos2 { x: tick.line.from.x, y: 20 });
    }
}

#[test]
fn the_last_tick_is_labelled_too() {
    let mut timeline = Timeline::new(1000);
    timeline.set_media_duration_s(&7200);
    timeline.model.set_granularity(3000);
    timeline.model.duration_range = [3_600_000, 3_672_000];
    let ticks = timeline.draw_ticks(&rect(0, 0, 1000, 120));
    let numbers: Vec<i64> = ticks.iter().map(|t| t.number).collect();
    assert_eq!(numbers, vec![150, 151, 152, 153]);
    let labels: Vec<Option<&str>> = ticks.iter().map(|t| t.label.as_deref()).collect();
    assert_eq!(labels, vec![Some("60:00"), None, None, Some("61:12")]);
}

#[test]
fn a_frame_of_the_viewport() {
    let mut timeline = Timeline::new(1000);
    timeline.set_media_duration_s(&120);
    timeline.set_player(&player(30_500));
    let area = rect(0, 0, 1000, 120);
    let input = TimelineInput {
        rect: area,
        width: 1000,
        contains_pointer: true,
        scroll_x: -1,
        scroll_y: 0,
        hover_pos: Some(Pos2 { x: 500, y: 60 }),
        double_clicked: true,
    };
    let view = timeline.draw(&input);
    assert_eq!(timeline.get_granularity(), 110);
    assert_eq!(timeline.model.duration_range, [0, 110_000]);
    assert_eq!(timeline.state.width, 1000);
    // 30 s at ticks of 16 px and 1760 ms: tick 17.
    assert_eq!(view.cursor, Some(Line { from: Pos2 { x: 272, y: 0 }, to: Pos2 { x: 272, y: 120 } }));
    assert_eq!(view.hover_cursor.unwrap().seek, Some(SeekRatio { offset: 500, width: 1000 }));
    // 110 s are 62.5 ticks, rounded to 63.
    assert_eq!(view.ticks.len(), 64);
    assert_eq!(view.ticks[63].label.as_deref(), Some("01:50"));
    assert_eq!(view.ticks[5].label.as_deref(), Some("00:08"));
}
