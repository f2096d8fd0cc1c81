use mksubrip::ai::{AIModelScale, AIModelType, AiTranslator};
use mksubrip::app::AppState;
use mksubrip::io::Writer;
use mksubrip::player::{PlayerState, PlayerStatus};
use mksubrip::request::{base_url, full_url};
use mksubrip::subrip::Subrip;
use mksubrip::time::TimeOfDay;
use mksubrip::ui::control_bar::{ControlBar, PlayIcon};
use mksubrip::ui::edit_subrip_window::EditSubripWindow;
use mksubrip::ui::mainwindow::{Event, MainWindow, Request};
use mksubrip::ui::menu_bar::{MenuBar, MenuBarOutput, MenuEvent};
use mksubrip::ui::menus::{FileMenus, FileMenusState};
use mksubrip::ui::monitor::{Monitor, MonitorEvent, PlayerCommand};
use mksubrip::ui::new_subrip_window::{low_32_bits, NewSubripWindow};
use mksubrip::ui::state::State;
use mksubrip::ui::subrip_list_item::SubripListItem;
use mksubrip::ui::subrip_list_widget::SubripListWidget;
use mksubrip::ui::timeline::subrip_block::DragMode;
use mksubrip::ui::timeline::SeekRatio;

fn time(millis: u32) -> TimeOfDay {
    TimeOfDay::from_millis(millis).unwrap()
}

fn cue(text: &str, begin_ms: u32, end_ms: u32) -> Subrip {
    let mut cue = Subrip::new(text, time(begin_ms), 0);
    cue.set_end_time(&time(end_ms));
    cue
}

fn chrono_like_seconds(seconds: i64) -> u32 {
    chrono::NaiveTime::from_num_seconds_from_midnight_opt(seconds as u32, 0)
        .map(|t| (t - chrono::NaiveTime::MIN).num_seconds() as u32)
        .unwrap_or(0)
}

fn player(state: PlayerState, elapsed_ms: u64, duration_ms: u64) -> PlayerStatus {
    PlayerStatus { state, elapsed_ms, duration_ms }
}

#[test]
fn the_translator_names_model_and_size() {
    let translator = AiTranslator::default();
    assert_eq!(translator.model_type, AIModelType::OpenaiWhisper);
    assert_eq!(translator.scale, AIModelScale::Base);
    assert_eq!(translator.get_scale_str(), "base");
    assert_eq!(translator.get_url(), "/model/whisper");
    assert_eq!(translator.request_url(), "/model/whisper/base");
    let tiny = translator.scale(AIModelScale::Tiny).model(AIModelType::OpenaiWhisper);
    assert_eq!(tiny.get_scale_str(), "tiny");
    assert_eq!(tiny.request_url(), "/model/whisper/tiny");
    assert_eq!(translator.scale(AIModelScale::Large).get_scale_str(), "large");
    assert_eq!(base_url(), "http://localhost:5000");
    assert_eq!(full_url(&tiny.request_url()), "http://localhost:5000/model/whisper/tiny");
}

#[test]
fn the_control_bar_follows_the_player() {
    let mut bar = ControlBar::new();
    let view = bar.draw(false);
    assert_eq!(view.icon, PlayIcon::Stop);
    assert_eq!(view.label, "");
    assert!(!view.play_clicked);
    bar.set_player(&player(PlayerState::Playing, 61_999, 7_200_000));
    let view = bar.draw(true);
    assert_eq!(view.icon, PlayIcon::Pause);
    assert_eq!(view.label, "01:01/120:00");
    assert!(view.play_clicked);
    bar.set_player(&player(PlayerState::Paused, 0, 59_000));
    let view = bar.draw(false);
    assert_eq!(view.icon, PlayIcon::Play);
    assert_eq!(view.label, "00:00/00:59");
    bar.set_player(&player(PlayerState::Stopped, 0, 0));
    assert_eq!(bar.draw(false).icon, PlayIcon::Stop);
    assert_eq!(ControlBar::default(), ControlBar::new());
}

#[test]
fn the_menu_bar_passes_on_what_was_chosen() {
    let bar = MenuBar::new();
    assert!(bar.draw(None).is_empty());
    assert!(bar.draw(Some(MenuBarOutput::default())).is_empty());
    let all = MenuBar::nested_menus(true, Some(String::from("a.mp4")), true, true);
    assert_eq!(all.path_buf.as_deref(), Some("a.mp4"));
    assert!(all.show_export_win_srt);
    assert!(all.translate_by_ai);
    let events = bar.draw(Some(all));
    assert_eq!(events.len(), 3);
    assert!(matches!(&events[0], MenuEvent::OpenSelected(path) if path == "a.mp4"));
    assert!(matches!(&events[1], MenuEvent::ExportSrtSelected));
    assert!(matches!(&events[2], MenuEvent::TranslateByAiSelected));
    let unopened = MenuBar::nested_menus(false, Some(String::from("a.mp4")), false, false);
    assert!(unopened.path_buf.is_none());
    assert!(!unopened.show_export_win_srt);
    assert!(!unopened.translate_by_ai);
    let cancelled = MenuBar::nested_menus(true, None, true, false);
    assert!(cancelled.path_buf.is_none());
    let events = bar.draw(Some(cancelled));
    assert_eq!(events.len(), 1);
    assert!(matches!(&events[0], MenuEvent::ExportSrtSelected));
    let events = bar.draw(Some(MenuBar::nested_menus(false, None, false, true)));
    assert_eq!(events.len(), 1);
    assert!(matches!(&events[0], MenuEvent::TranslateByAiSelected));
}

#[test]
fn defaults_show_nothing() {
    let state = State::default();
    assert!(!state.show_create_new_subrip_win);
    assert!(!state.show_export_srt_file_win);
    let menus = FileMenus::default();
    assert!(menus.import_file_path.is_none());
    assert_eq!(menus.state, FileMenusState::default());
    assert!(!menus.state.show_export_srt_file_win);
    let app = AppState::default();
    assert!(app.subrips.is_empty());
    let app = AppState::new();
    assert_eq!((app.screen_width, app.screen_height), (1024, 720));
    assert!(app.file_path_opening.is_none());
}

#[test]
fn a_new_cue_begins_at_the_playhead_and_lasts_five_seconds() {
    let mut window = NewSubripWindow::new();
    assert_eq!(window.title, "New Subrip");
    assert!(!window.visible);
    window.subrip_text = String::from("hello");
    let cue = window.create_subrip(Some(42));
    assert_eq!(cue.get_begin_time(), time(42_000));
    assert_eq!(cue.get_end_time(), time(47_000));
    assert_eq!(cue.get_content(), "hello");
    assert_eq!(cue.get_index(), 0);
    let cue = window.create_subrip(None);
    assert_eq!((cue.begin_time, cue.end_time), (time(0), time(5_000)));
    let cue = window.create_subrip(Some(86_399));
    assert_eq!((cue.begin_time, cue.end_time), (time(86_399_000), time(4_000)));
    for beyond in [86_400, -1, i64::MAX, u32::MAX as i64, -4_294_880_896] {
        let cue = window.create_subrip(Some(beyond));
        assert_eq!((cue.begin_time, cue.end_time), (time(0), time(5_000)));
    }
    // Of a playhead beyond 32 bits, the low 32 bits count.
    for (seconds, begin) in [(4_294_967_296 + 7, 7_000), (i64::MIN, 0), (-4_294_967_296 + 9, 9_000)]
    {
        let cue = window.create_subrip(Some(seconds));
        assert_eq!(cue.begin_time, time(begin));
        assert_eq!(
            cue.begin_time.millis / 1000,
            chrono_like_seconds(seconds),
        );
    }
}

#[test]
fn the_new_cue_window_submits_text_while_shown() {
    let mut window = NewSubripWindow::default();
    window.subrip_text = String::from("hello");
    assert!(window.draw(true, Some(1)).is_none());
    assert_eq!(window.subrip_text, "hello");
    window.toggle_visible();
    assert!(window.visible);
    assert!(window.draw(false, Some(1)).is_none());
    let cue = window.draw(true, Some(1)).unwrap();
    assert_eq!(cue.get_content(), "hello");
    assert_eq!(cue.get_begin_time(), time(1_000));
    assert_eq!(window.subrip_text, "");
    assert!(window.visible);
    assert!(window.draw(true, Some(1)).is_none());
    window.toggle_visible();
    assert!(!window.visible);
}

#[test]
fn the_edit_window_changes_the_text_of_its_cue() {
    let mut cues = vec![cue("a", 0, 1_000), cue("b", 2_000, 3_000)];
    let mut window = EditSubripWindow::new();
    window.submit(&mut cues);
    assert_eq!(cues[0].get_content(), "a");
    window.edit_subrip(1, &cues[1]);
    assert!(window.visible);
    assert_eq!(window.text, "b");
    window.text = String::from("changed");
    window.draw(false, &mut cues);
    assert_eq!(cues[1].get_content(), "b");
    assert!(window.visible);
    window.draw(true, &mut cues);
    assert!(!window.visible);
    assert_eq!(cues[1].get_content(), "changed");
    assert_eq!(cues[1].get_begin_time(), time(2_000));
    assert_eq!(cues[0].get_content(), "a");
    window.set_subrip(7, &cues[0]);
    assert!(!window.visible);
    window.text = String::from("lost");
    window.submit(&mut cues);
    assert_eq!(cues[0].get_content(), "a");
    assert_eq!(cues[1].get_content(), "changed");
    assert_eq!(EditSubripWindow::default().subrip, None);
}

#[test]
fn a_row_shows_its_cue_and_takes_its_fields_over() {
    let mut c = cue("text", 3_723_500, 3_725_000);
    let mut row = SubripListItem::new(4, &c);
    assert_eq!(row.subrip, 4);
    assert_eq!(row.begin_time_text, "01:02:03");
    assert_eq!(row.end_time_text, "01:02:05");
    assert_eq!(row.content_text, "text");
    assert_eq!(row.old_begin_time_text, "");
    // The first time the fields are taken over, the milliseconds go.
    assert!(row.draw(&mut c));
    assert_eq!(c.get_begin_time(), time(3_723_000));
    assert_eq!(c.get_end_time(), time(3_725_000));
    assert_eq!(c.get_content(), "text");
    assert_eq!(row.old_begin_time_text, "01:02:03");
    row.begin_time_text = String::from("01:02:04");
    row.end_time_text = String::from("later");
    row.content_text = String::from("new text");
    row.sync_data(&mut c);
    assert_eq!(c.get_begin_time(), time(3_724_000));
    assert_eq!(c.get_end_time(), time(3_725_000));
    assert_eq!(c.get_content(), "new text");
    assert_eq!(row.old_end_time_text, "later");
    // An unchanged field does not undo a change made elsewhere.
    c.set_begin_time(&time(1_000));
    row.sync_data(&mut c);
    assert_eq!(c.get_begin_time(), time(1_000));
}

#[test]
fn a_row_of_a_loaded_cue_is_not_shown() {
    let mut c = cue("text", 3_723_500, 3_725_000);
    let mut row = SubripListItem::new(0, &c);
    c.set_loading(true);
    row.content_text = String::from("other");
    assert!(!row.draw(&mut c));
    assert_eq!(c.get_content(), "text");
    assert_eq!(c.get_begin_time(), time(3_723_500));
    assert_eq!(row.old_content_text, "");
}

#[test]
fn edited_time_takes_a_reading_only_after_a_change() {
    let t = time(1_000);
    let read = time(2_000);
    assert_eq!(SubripListItem::edited_time(t, true, Some(read)), read);
    assert_eq!(SubripListItem::edited_time(t, false, Some(read)), t);
    assert_eq!(SubripListItem::edited_time(t, true, None), t);
    assert_eq!(SubripListItem::edited_time(t, false, None), t);
}

#[test]
fn the_list_counts_its_rows() {
    let mut list = SubripListWidget::new();
    assert_eq!(list.total_label(), "Total: 0 subrip(s)");
    for i in 0..12 {
        list.add(i, &cue("x", 0, 1_000));
    }
    assert_eq!(list.total_label(), "Total: 12 subrip(s)");
    assert_eq!(list.item_widgets[11].subrip, 11);
}

#[test]
fn translated_cues_are_taken_up_for_open_media_only() {
    let mut state = AppState::new();
    let mut list = SubripListWidget::new();
    let translated = vec![cue("a", 0, 1_000), cue("b", 2_000, 3_000)];
    list.translate_by_ai(&mut state, &translated);
    assert!(state.subrips.is_empty());
    assert!(list.item_widgets.is_empty());
    state.file_path_opening = Some(String::from("a.mp4"));
    state.add_subrip(cue("old", 0, 1));
    list.translate_by_ai(&mut state, &translated);
    let texts: Vec<String> = state.subrips.iter().map(|c| c.get_content()).collect();
    assert_eq!(texts, ["old", "a", "b"]);
    let places: Vec<usize> = list.item_widgets.iter().map(|w| w.subrip).collect();
    assert_eq!(places, [1, 2]);
    assert_eq!(list.item_widgets[1].content_text, "b");
    assert_eq!(list.item_widgets[1].begin_time_text, "00:00:02");
}

#[test]
fn deleting_marks_every_cue() {
    let mut state = AppState::new();
    let mut list = SubripListWidget::new();
    state.add_subrip(cue("a", 0, 1_000));
    state.add_subrip(cue("b", 2_000, 3_000));
    state.subrips[1].set_loading(true);
    list.delete_all_subrips(&mut state);
    assert_eq!(state.subrips.len(), 2);
    assert!(state.subrips.iter().all(|c| c.is_deleted()));
    assert!(state.subrips[1].is_loaded());
    assert_eq!(state.subrips[0].get_content(), "a");
}

#[test]
fn a_row_dropped_below_the_list_loads_its_cue() {
    let mut state = AppState::new();
    let mut list = SubripListWidget::new();
    let place = state.add_subrip(cue("a", 0, 1_000));
    list.add(place, &state.subrips[place]);
    assert_eq!(list.drop_item(0, &mut state, true, false, 500, 400), None);
    assert_eq!(list.drop_item(0, &mut state, false, true, 500, 400), None);
    assert_eq!(list.drop_item(0, &mut state, true, true, 400, 400), None);
    assert_eq!(list.drop_item(1, &mut state, true, true, 500, 400), None);
    assert!(!state.subrips[0].is_loaded());
    assert_eq!(list.drop_item(0, &mut state, true, true, 401, 400), Some(0));
    assert!(state.subrips[0].is_loaded());
    list.add(9, &cue("gone", 0, 1));
    assert_eq!(list.drop_item(1, &mut state, true, true, 500, 400), None);
}

#[test]
fn the_monitor_tells_the_player() {
    let mut monitor = Monitor::new();
    assert_eq!(monitor.play(), None);
    assert_eq!(monitor.seek(&SeekRatio { offset: 1, width: 4 }), None);
    assert_eq!(monitor.current_timestamp(), 0);
    assert_eq!(monitor.get_media_duration(), 0);
    assert!(monitor.set_media_path("broken.mp4", None).is_empty());
    assert_eq!(monitor.media_path, "broken.mp4");
    let opened = player(PlayerState::Paused, 1_999, 120_500);
    let events = monitor.set_media_path("a.mp4", Some(opened));
    assert_eq!(
        events,
        vec![MonitorEvent::MediaDurationChanged(120), MonitorEvent::MediaLoaded(opened)]
    );
    assert_eq!(monitor.media_path, "a.mp4");
    assert_eq!(monitor.play(), Some(PlayerCommand::Resume));
    assert_eq!(monitor.current_timestamp(), 1);
    assert_eq!(monitor.get_media_duration(), 120);
    assert_eq!(
        monitor.seek(&SeekRatio { offset: 1, width: 4 }),
        Some(PlayerCommand::Seek(SeekRatio { offset: 1, width: 4 }))
    );
    monitor.update_player(&player(PlayerState::Playing, 2_000, 120_500));
    assert_eq!(monitor.play(), Some(PlayerCommand::Pause));
    monitor.update_player(&player(PlayerState::Stopped, 0, 120_500));
    assert_eq!(monitor.play(), None);
    assert_eq!(opened.elapsed_seconds(), 1);
    assert_eq!(opened.duration_seconds(), 120);
}

#[test]
fn the_keyboard_toggles_window_and_player() {
    assert!(MainWindow::update_input_event(false, false).is_empty());
    let events = MainWindow::update_input_event(true, true);
    assert_eq!(events.len(), 2);
    assert!(matches!(events[0], Event::ToggleNewSubripWin));
    assert!(matches!(events[1], Event::ToggleMediaPlay));
    let events = MainWindow::update_input_event(false, true);
    assert_eq!(events.len(), 1);
    assert!(matches!(events[0], Event::ToggleMediaPlay));
}

#[test]
fn the_main_window_passes_events_on() {
    let mut window = MainWindow::new(Some(String::from("/downloads")));
    assert_eq!(window.subrip_save_helper.save_dir_path(), "/downloads");
    assert_eq!(window.subrip_save_helper.writers.len(), 1);
    assert_eq!(window.timeline.screen_width, 1024);

    let requests = window.emit(Event::OpenSelected(String::from("a.mp4")));
    assert!(matches!(&requests[..], [Request::OpenMedia(path)] if path == "a.mp4"));

    assert!(window.emit(Event::MediaDurationChanged(100)).is_empty());
    assert_eq!(window.timeline.get_granularity(), 97);
    assert_eq!(window.timeline.model.duration_range, [0, 99_328]);

    let opened = player(PlayerState::Paused, 0, 100_000);
    assert!(window.emit(Event::MediaLoaded(opened)).is_empty());
    assert_eq!(window.timeline.player, Some(opened));
    assert_eq!(window.control_bar.player, Some(opened));
    // The monitor has no player until the caller gives it one.
    assert!(window.emit(Event::BtnPlayClicked).is_empty());
    window.monitor.update_player(&opened);
    let requests = window.emit(Event::BtnPlayClicked);
    assert!(matches!(&requests[..], [Request::Player(PlayerCommand::Resume)]));
    let requests = window.emit(Event::ToggleMediaPlay);
    assert!(matches!(&requests[..], [Request::Player(PlayerCommand::Resume)]));
    let requests = window.emit(Event::VideoSeeked(SeekRatio { offset: 3, width: 4 }));
    assert!(matches!(
        &requests[..],
        [Request::Player(PlayerCommand::Seek(SeekRatio { offset: 3, width: 4 }))]
    ));

    assert!(window.emit(Event::ToggleNewSubripWin).is_empty());
    assert!(window.new_subrip_win.visible);

    assert!(window.emit(Event::CreatedSubrip(cue("second", 20_000, 25_000))).is_empty());
    assert!(window.emit(Event::CreatedSubrip(cue("first", 10_000, 15_000))).is_empty());
    assert_eq!(window.app_state.subrips.len(), 2);
    assert_eq!(window.subrip_list_widget.item_widgets.len(), 2);
    assert_eq!(window.subrip_list_widget.item_widgets[1].subrip, 1);
    assert_eq!(window.subrip_list_widget.item_widgets[1].content_text, "first");

    assert!(window.emit(Event::SubripLoaded(5)).is_empty());
    assert!(window.timeline.subrip_blocks.is_empty());
    assert!(window.emit(Event::SubripLoaded(1)).is_empty());
    assert_eq!(window.timeline.subrip_blocks.len(), 1);
    assert_eq!(window.timeline.subrip_blocks[0].subrip, 1);
    assert_eq!(window.timeline.subrip_blocks[0].state.dragging_mode, DragMode::Idle);

    assert!(window.emit(Event::TranslateByAiSelected).is_empty());
    window.app_state.file_path_opening = Some(String::from("a.mp4"));
    let requests = window.emit(Event::TranslateByAiSelected);
    assert!(matches!(&requests[..], [Request::Translate(path)] if path == "a.mp4"));

    let requests = window.emit(Event::ExportSrtSelected);
    assert!(matches!(&requests[..], [Request::WriteFiles]));
    assert_eq!(
        window.subrip_save_helper.writers[0].take_text(),
        "1\n00:00:10,000 --> 00:00:15,000\nfirst\n\n2\n00:00:20,000 --> 00:00:25,000\nsecond\n\n"
    );
    // The cues themselves keep their order and their indices.
    assert_eq!(window.app_state.subrips[0].get_content(), "second");
    assert_eq!(window.app_state.subrips[0].get_index(), 0);
}

#[test]
fn an_export_without_cues_asks_for_nothing() {
    let mut window = MainWindow::new(None);
    assert_eq!(window.subrip_save_helper.save_dir_path(), "./");
    assert!(window.emit(Event::ExportSrtSelected).is_empty());
    assert_eq!(window.subrip_save_helper.writers[0].text(), "");
}

#[test]
fn the_low_32_bits_of_a_number() {
    for v in [0i64, 1, 86_399, u32::MAX as i64, 1 << 32, (1 << 32) + 5, -1, -5, i64::MIN, i64::MAX] {
        assert_eq!(low_32_bits(v), (v as u32) as i64, "{}", v);
    }
}

#[test]
fn ill_formed_states_are_told_apart() {
    let mut window = MainWindow::new(None);
    assert!(window.is_wf());
    window.timeline.add_block_from_subrip(0);
    assert!(!window.is_wf());
    window.app_state.subrips.push(cue("a", 0, 1_000));
    assert!(window.is_wf());
    assert!(window.app_state.is_wf());
    window.app_state.subrips[0].end_time = TimeOfDay { millis: 86_400_000 };
    assert!(!window.app_state.is_wf());
    assert!(!window.is_wf());
    window.app_state.subrips[0].end_time = time(5);
    window.timeline.model.duration_range = [5, 4];
    assert!(!window.timeline.is_wf());
    assert!(!window.is_wf());
    window.timeline.model.duration_range = [0, 0];
    window.timeline.model.millis_per_pixel = 15;
    assert!(!window.timeline.model.is_wf());
    window.timeline.model.millis_per_pixel = 3001;
    assert!(!window.timeline.model.is_wf());
    window.timeline.model.millis_per_pixel = 3000;
    assert!(window.is_wf());
    window.timeline.model.duration_range = [0, 1];
    assert!(!window.timeline.model.is_wf());
    window.timeline.model.media_duration_ms = 1;
    assert!(window.timeline.model.is_wf());
    window.timeline.model.duration_range = [-1, 1];
    assert!(!window.timeline.model.is_wf());
}
