use dlsite_tui::app::{App, Command, ConfirmAction, Key, KeyPress, Outcome, Screen};
use dlsite_tui::config::Config;
use dlsite_tui::db::Work;

fn key(k: Key) -> KeyPress {
    KeyPress { key: k, ctrl: false }
}

fn ch(c: char) -> KeyPress {
    key(Key::Char(c))
}

fn work(id: &str, name: &str, circle: &str) -> Work {
    Work {
        id: id.to_string(),
        name: name.to_string(),
        circle: circle.to_string(),
        file_count: 1,
        purchase_date: "2024-01-01".to_string(),
    }
}

fn works(n: usize) -> Vec<Work> {
    (0..n).map(|i| work(&format!("RJ{:03}", i), &format!("Work {}", i), "C")).collect()
}

fn logged_in() -> App {
    App::new(true, Config { username: None })
}

fn list_pos(app: &App) -> (usize, usize) {
    match &app.screen {
        Screen::WorkList { selected, scroll_offset, .. } => (*selected, *scroll_offset),
        Screen::CircleList { selected, scroll_offset, .. } => (*selected, *scroll_offset),
        Screen::WorksInCircle { selected, scroll_offset, .. } => (*selected, *scroll_offset),
        _ => panic!("not a list"),
    }
}

fn work_list(n: usize) -> App {
    let mut app = logged_in();
    assert!(matches!(app.handle_key(key(Key::Enter)), Command::LoadAllWorks));
    app.complete(Outcome::AllWorks(Ok(works(n))));
    app
}

#[test]
fn start_logged_in_shows_menu() {
    let app = logged_in();
    assert!(matches!(app.screen, Screen::MainMenu { selected: 0 }));
    assert_eq!(app.status, "Ready");
}

#[test]
fn start_logged_out_shows_login_with_saved_name() {
    let app = App::new(false, Config { username: Some("alice".to_string()) });
    match &app.screen {
        Screen::Login { username, password, focused_field, error } => {
            assert_eq!(username, "alice");
            assert_eq!(password, "");
            assert_eq!(*focused_field, 0);
            assert!(error.is_none());
        }
        _ => panic!("expected login"),
    }
    let app = App::new(false, Config::default());
    assert!(matches!(&app.screen, Screen::Login { username, .. } if username.is_empty()));
}

#[test]
fn login_typing_and_focus() {
    let mut app = App::new(false, Config::default());
    for c in "bob".chars() {
        app.handle_key(ch(c));
    }
    app.handle_key(key(Key::Tab));
    for c in "pw!".chars() {
        app.handle_key(ch(c));
    }
    app.handle_key(key(Key::Backspace));
    match &app.screen {
        Screen::Login { username, password, focused_field, .. } => {
            assert_eq!(username, "bob");
            assert_eq!(password, "pw");
            assert_eq!(*focused_field, 1);
        }
        _ => panic!(),
    }
    app.handle_key(key(Key::Up));
    assert!(matches!(app.screen, Screen::Login { focused_field: 0, .. }));
    app.handle_key(key(Key::Down));
    assert!(matches!(app.screen, Screen::Login { focused_field: 1, .. }));
    // 'q' is typed on the login screen, not a quit
    assert!(matches!(app.handle_key(ch('q')), Command::Nothing));
    match app.handle_key(key(Key::Enter)) {
        Command::AttemptLogin { username, password } => {
            assert_eq!(username, "bob");
            assert_eq!(password, "pwq");
        }
        _ => panic!("expected a login attempt"),
    }
}

#[test]
fn backspace_on_empty_field() {
    let mut app = App::new(false, Config::default());
    app.handle_key(key(Key::Backspace));
    assert!(matches!(&app.screen, Screen::Login { username, .. } if username.is_empty()));
}

#[test]
fn type_then_backspace_restores() {
    let mut app = App::new(false, Config { username: Some("ab".to_string()) });
    app.handle_key(ch('z'));
    app.handle_key(key(Key::Backspace));
    assert!(matches!(&app.screen, Screen::Login { username, .. } if username == "ab"));
}

#[test]
fn login_success_and_failure() {
    let mut app = App::new(false, Config::default());
    app.complete(Outcome::LoggedIn { username: "bob".to_string(), result: Err("bad".to_string()) });
    assert!(matches!(&app.screen, Screen::Login { error: Some(e), .. } if e == "Login failed: bad"));
    app.complete(Outcome::LoggedIn { username: "bob".to_string(), result: Ok(()) });
    assert!(matches!(app.screen, Screen::MainMenu { selected: 0 }));
    assert_eq!(app.status, "Logged in successfully");
    assert_eq!(app.config.username.as_deref(), Some("bob"));
}

#[test]
fn menu_navigation_bounds() {
    let mut app = logged_in();
    app.handle_key(key(Key::Up));
    assert!(matches!(app.screen, Screen::MainMenu { selected: 0 }));
    for _ in 0..6 {
        app.handle_key(key(Key::Down));
    }
    assert!(matches!(app.screen, Screen::MainMenu { selected: 3 }));
    match app.handle_key(key(Key::Enter)) {
        Command::Nothing => {}
        _ => panic!(),
    }
    match &app.screen {
        Screen::Confirm { message, action } => {
            assert_eq!(message, "Download all works?");
            assert!(matches!(action, ConfirmAction::DownloadAll));
        }
        _ => panic!(),
    }
    assert!(matches!(app.handle_key(ch('y')), Command::StartDownloadAll));
    match &app.screen {
        Screen::Messages { lines, scroll_offset } => {
            assert_eq!(lines, &vec!["Downloading all works...".to_string()]);
            assert_eq!(*scroll_offset, 0);
        }
        _ => panic!(),
    }
}

#[test]
fn menu_entries_ask_for_lists() {
    let mut app = logged_in();
    assert!(matches!(app.handle_key(key(Key::Enter)), Command::LoadAllWorks));
    app.handle_key(key(Key::Down));
    assert!(matches!(app.handle_key(key(Key::Enter)), Command::LoadCircles));
    app.handle_key(key(Key::Down));
    assert!(matches!(app.handle_key(key(Key::Enter)), Command::LoadRecentWorks));
    app.complete(Outcome::RecentWorks(Ok(works(2))));
    assert!(matches!(&app.screen, Screen::WorkList { title, .. } if title == "Recent Purchases"));
}

#[test]
fn quit_keys() {
    let mut app = logged_in();
    assert!(matches!(app.handle_key(ch('q')), Command::Quit));
    let mut app = App::new(false, Config::default());
    assert!(matches!(app.handle_key(KeyPress { key: Key::Char('c'), ctrl: true }), Command::Quit));
    assert!(matches!(&app.screen, Screen::Login { username, .. } if username.is_empty()));
}

#[test]
fn fetch_key_starts_sync() {
    let mut app = logged_in();
    assert!(matches!(app.handle_key(ch('f')), Command::StartFetchLibrary));
    match &app.screen {
        Screen::Messages { lines, .. } => assert_eq!(lines, &vec!["Fetching library...".to_string()]),
        _ => panic!(),
    }
}

#[test]
fn load_error_goes_to_status() {
    let mut app = logged_in();
    app.complete(Outcome::AllWorks(Err("no such table".to_string())));
    assert_eq!(app.status, "Error: no such table");
    assert!(matches!(app.screen, Screen::MainMenu { .. }));
}

#[test]
fn work_list_scrolls_with_selection() {
    let mut app = work_list(100);
    assert!(matches!(&app.screen, Screen::WorkList { title, .. } if title == "All Works by ID"));
    for _ in 0..30 {
        app.handle_key(key(Key::Down));
    }
    assert_eq!(list_pos(&app), (30, 1));
    app.handle_key(key(Key::PageDown));
    assert_eq!(list_pos(&app), (40, 11));
    app.handle_key(key(Key::PageUp));
    assert_eq!(list_pos(&app), (30, 1));
    app.handle_key(key(Key::Up));
    app.handle_key(key(Key::Up));
    assert_eq!(list_pos(&app), (28, 1));
    for _ in 0..20 {
        app.handle_key(key(Key::PageDown));
    }
    assert_eq!(list_pos(&app), (99, 99));
    app.handle_key(key(Key::Down));
    assert_eq!(list_pos(&app), (99, 99));
    for _ in 0..20 {
        app.handle_key(key(Key::PageUp));
    }
    assert_eq!(list_pos(&app), (0, 0));
}

#[test]
fn empty_work_list() {
    let mut app = work_list(0);
    app.handle_key(key(Key::Down));
    app.handle_key(key(Key::PageDown));
    assert_eq!(list_pos(&app), (0, 0));
    assert!(matches!(app.handle_key(key(Key::Enter)), Command::Nothing));
    assert!(matches!(app.screen, Screen::WorkList { .. }));
}

#[test]
fn down_then_up_restores_selection() {
    let mut app = work_list(5);
    app.handle_key(key(Key::Down));
    app.handle_key(key(Key::Down));
    app.handle_key(key(Key::Up));
    assert_eq!(list_pos(&app).0, 1);
}

#[test]
fn download_one_work() {
    let mut app = work_list(3);
    app.handle_key(key(Key::Down));
    app.handle_key(key(Key::Enter));
    match &app.screen {
        Screen::Confirm { message, action } => {
            assert_eq!(message, "Download Work 1?");
            assert!(matches!(action, ConfirmAction::DownloadWork(id) if id == "RJ001"));
        }
        _ => panic!(),
    }
    match app.handle_key(key(Key::Enter)) {
        Command::StartDownloadWork(id) => assert_eq!(id, "RJ001"),
        _ => panic!(),
    }
    match &app.screen {
        Screen::Messages { lines, .. } => assert_eq!(lines, &vec!["Downloading RJ001...".to_string()]),
        _ => panic!(),
    }
}

#[test]
fn cancel_dialog() {
    let mut app = work_list(3);
    app.handle_key(key(Key::Enter));
    app.handle_key(ch('n'));
    assert!(matches!(app.screen, Screen::MainMenu { selected: 0 }));
    let mut app = work_list(3);
    app.handle_key(key(Key::Enter));
    app.handle_key(ch('x'));
    assert!(matches!(app.screen, Screen::Confirm { .. }));
    app.handle_key(key(Key::Esc));
    assert!(matches!(app.screen, Screen::MainMenu { selected: 0 }));
}

#[test]
fn circle_flow() {
    let mut app = logged_in();
    app.complete(Outcome::Circles(Ok(vec![("A".to_string(), 2), ("B".to_string(), 1)])));
    app.handle_key(key(Key::Down));
    app.handle_key(key(Key::Down));
    assert_eq!(list_pos(&app), (1, 0));
    // page keys do nothing on the circle list
    app.handle_key(key(Key::PageUp));
    assert_eq!(list_pos(&app), (1, 0));
    match app.handle_key(key(Key::Enter)) {
        Command::LoadCircleWorks(c) => assert_eq!(c, "B"),
        _ => panic!(),
    }
    app.complete(Outcome::CircleWorks { circle: "B".to_string(), result: Ok(vec![work("RJ5", "Five", "B")]) });
    assert!(matches!(&app.screen, Screen::WorksInCircle { circle, .. } if circle == "B"));
    assert!(matches!(app.handle_key(key(Key::Esc)), Command::ReturnToCircles));
    app.complete(Outcome::BackToCircles(Err("db".to_string())));
    match &app.screen {
        Screen::CircleList { circles, selected, scroll_offset } => {
            assert!(circles.is_empty());
            assert_eq!((*selected, *scroll_offset), (0, 0));
        }
        _ => panic!(),
    }
    app.handle_key(key(Key::Esc));
    assert!(matches!(app.screen, Screen::MainMenu { selected: 0 }));
}

#[test]
fn confirm_circle_download() {
    let mut app = logged_in();
    app.screen = Screen::Confirm {
        message: "Download circle?".to_string(),
        action: ConfirmAction::DownloadCircle("C1".to_string()),
    };
    match app.handle_key(ch('y')) {
        Command::StartDownloadCircle(c) => assert_eq!(c, "C1"),
        _ => panic!(),
    }
    match &app.screen {
        Screen::Messages { lines, .. } => assert_eq!(lines, &vec!["Downloading circle C1...".to_string()]),
        _ => panic!(),
    }
}

#[test]
fn messages_and_status() {
    let mut app = logged_in();
    app.push_message("hello".to_string());
    assert_eq!(app.status, "hello");
    app.handle_key(ch('f'));
    app.push_message("one".to_string());
    app.push_message("two".to_string());
    match &app.screen {
        Screen::Messages { lines, .. } => {
            assert_eq!(lines, &vec!["Fetching library...".to_string(), "one".to_string(), "two".to_string()])
        }
        _ => panic!(),
    }
    app.handle_key(key(Key::Down));
    app.handle_key(key(Key::Down));
    app.handle_key(key(Key::Down));
    assert!(matches!(app.screen, Screen::Messages { scroll_offset: 2, .. }));
    app.handle_key(key(Key::Up));
    assert!(matches!(app.screen, Screen::Messages { scroll_offset: 1, .. }));
    app.handle_key(ch('q'));
    assert!(matches!(app.screen, Screen::MainMenu { selected: 0 }));
}
