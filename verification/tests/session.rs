use shplit::config::Config;
use shplit::controller::Action;
use shplit::controller::App;
use shplit::controller::InputEvent;
use shplit::controller::LoadError;
use shplit::view::format_timer_text;
use shplit::view::StyleHint;
use shplit::view::ViewModel;

fn run_file_bytes(segment_names: &[&str]) -> Vec<u8> {
    let mut segments = String::new();
    for name in segment_names {
        segments.push_str(&format!("<Segment><Name>{}</Name></Segment>", name));
    }
    format!(
        "<?xml version=\"1.0\" encoding=\"UTF-8\"?>\
         <Run version=\"1.7.0\">\
         <GameIcon/>\
         <GameName>Game</GameName>\
         <CategoryName>Any%</CategoryName>\
         <Offset>00:00:00</Offset>\
         <AttemptCount>0</AttemptCount>\
         <Segments>{}</Segments>\
         </Run>",
        segments
    )
    .into_bytes()
}

fn loaded_app(segment_names: &[&str]) -> App {
    let mut app = App::new(Config::default());
    let r = app.load_run(
        String::from("runs/demo.lss"),
        Some(run_file_bytes(segment_names)),
    );
    assert!(r.is_ok());
    app
}

#[test]
fn format_renders_one_hour_two_minutes_three_seconds_four_millis() {
    assert_eq!(format_timer_text(3723004), "01:02:03.004");
}

#[test]
fn format_renders_zero() {
    assert_eq!(format_timer_text(0), "00:00:00.000");
}

#[test]
fn format_keeps_hours_beyond_two_digits() {
    assert_eq!(format_timer_text(360000000), "100:00:00.000");
}

#[test]
fn missing_file_leaves_the_session_untouched() {
    let mut app = App::new(Config::default());
    let r = app.load_run(String::from("gone.lss"), None);
    assert!(matches!(r, Err(LoadError::NotFound)));
    assert!(app.config.split_file.is_none());
    assert!(matches!(app.view_model(), ViewModel::Placeholder));
}

#[test]
fn malformed_bytes_leave_the_session_untouched() {
    let mut app = App::new(Config::default());
    let r = app.load_run(String::from("bad.lss"), Some(b"not a run".to_vec()));
    assert!(matches!(r, Err(LoadError::Invalid(_))));
    assert!(app.config.split_file.is_none());
    assert!(matches!(app.view_model(), ViewModel::Placeholder));
}

#[test]
fn failed_load_keeps_the_previous_run_and_path() {
    let mut app = loaded_app(&["One", "Two"]);
    let r = app.load_run(String::from("bad.lss"), Some(b"garbage".to_vec()));
    assert!(matches!(r, Err(LoadError::Invalid(_))));
    assert_eq!(app.config.split_file.as_deref(), Some("runs/demo.lss"));
    match app.view_model() {
        ViewModel::Table(tv) => assert_eq!(tv.rows.len(), 2),
        ViewModel::Placeholder => panic!("the loaded run was dropped"),
    }
}

#[test]
fn successful_load_replaces_timer_and_remembers_path() {
    let app = loaded_app(&["One", "Two"]);
    assert_eq!(app.config.split_file.as_deref(), Some("runs/demo.lss"));
    match app.view_model() {
        ViewModel::Table(tv) => {
            assert_eq!(tv.rows.len(), 2);
            assert_eq!(tv.rows[0].name, "One");
            assert_eq!(tv.rows[1].name, "Two");
        }
        ViewModel::Placeholder => panic!("no run loaded"),
    }
}

#[test]
fn fresh_run_renders_fallback_times_and_zero_timer() {
    let app = loaded_app(&["One"]);
    match app.view_model() {
        ViewModel::Table(tv) => {
            assert_eq!(tv.rows[0].time, "0:00");
            assert_eq!(tv.timer_text, "00:00:00.000");
            assert_eq!(tv.highlighted_index, None);
            assert!(matches!(tv.style, StyleHint::Blinking));
        }
        ViewModel::Placeholder => panic!("no run loaded"),
    }
}

#[test]
fn split_or_start_steps_through_the_run_in_order() {
    let mut app = loaded_app(&["One", "Two"]);
    let observed = |app: &App| match app.view_model() {
        ViewModel::Table(tv) => {
            (tv.highlighted_index, matches!(tv.style, StyleHint::Bold), tv.rows.len())
        }
        ViewModel::Placeholder => panic!("no run loaded"),
    };
    assert_eq!(observed(&app), (None, false, 2));
    app.handle_event(InputEvent::Space);
    assert_eq!(observed(&app), (Some(0), true, 2));
    app.handle_event(InputEvent::Space);
    assert_eq!(observed(&app), (Some(1), true, 2));
    app.handle_event(InputEvent::Space);
    assert_eq!(observed(&app), (None, false, 2));
    app.handle_event(InputEvent::Space);
    assert_eq!(observed(&app), (None, false, 2));
}

#[test]
fn space_without_a_run_is_ignored() {
    let mut app = App::new(Config::default());
    let a = app.handle_event(InputEvent::Space);
    assert!(matches!(a, Action::Continue));
    assert!(matches!(app.view_model(), ViewModel::Placeholder));
}

#[test]
fn quit_wins_in_every_state() {
    let mut empty = App::new(Config::default());
    assert!(matches!(empty.handle_event(InputEvent::CtrlC), Action::Quit));
    let mut loaded = loaded_app(&["One"]);
    assert!(matches!(loaded.handle_event(InputEvent::CtrlC), Action::Quit));
}

#[test]
fn dialog_and_paste_are_handed_to_the_caller() {
    let mut app = App::new(Config::default());
    assert!(matches!(app.handle_event(InputEvent::CtrlO), Action::OpenDialog));
    match app.handle_event(InputEvent::Paste(String::from("runs/pasted.lss"))) {
        Action::LoadRequest(p) => assert_eq!(p, "runs/pasted.lss"),
        _ => panic!("a paste must request a load"),
    }
    assert!(matches!(app.handle_event(InputEvent::Other), Action::Continue));
}
