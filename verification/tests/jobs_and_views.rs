use dlsite_tui::api::{FileInfo, WorkInfo};
use dlsite_tui::app::{App, Key, KeyPress, Screen};
use dlsite_tui::config::Config;
use dlsite_tui::db::Work;
use dlsite_tui::jobs::{
    all_downloads_done, circle_download_done, download_work, fetch_library, DownloadAction,
    DownloadEvent, DownloadPhase, FetchAction, FetchEvent, FetchPhase,
};
use dlsite_tui::ui::{
    circle_list_view, circle_works_view, confirm_popup, confirm_text, footer_hint, header_title,
    list_height, login_inner, login_rows, mask_password, menu_rows, visible_lines, work_list_view,
    screen_areas, LineStyle, Rect,
};

fn info(workno: &str, name: &str, maker: &str, files: &[&str]) -> WorkInfo {
    WorkInfo {
        workno: workno.to_string(),
        work_name: name.to_string(),
        maker_name: maker.to_string(),
        contents: files
            .iter()
            .map(|f| FileInfo { workno: workno.to_string(), file_name: f.to_string(), file_size: 10 })
            .collect(),
    }
}

fn work(id: &str, name: &str, circle: &str) -> Work {
    Work {
        id: id.to_string(),
        name: name.to_string(),
        circle: circle.to_string(),
        file_count: 1,
        purchase_date: String::new(),
    }
}

fn strings(v: &[&str]) -> Vec<String> {
    v.iter().map(|s| s.to_string()).collect()
}

#[test]
fn download_job_runs_through_files() {
    let (mut job, step) = download_work("RJ7");
    assert_eq!(step.messages, strings(&["Fetching info for RJ7..."]));
    assert!(matches!(&step.action, DownloadAction::FetchInfo(id) if id == "RJ7"));

    let step = job.advance(DownloadEvent::Info(Ok(info("RJ7", "Name", "Maker", &["a.zip", "b.zip"]))));
    assert_eq!(step.messages, strings(&["Downloading file 1/2: a.zip"]));
    match &step.action {
        DownloadAction::DownloadFile { work_id, number, file_name, dir } => {
            assert_eq!(work_id, "RJ7");
            assert_eq!(*number, 1);
            assert_eq!(file_name, "a.zip");
            assert_eq!(dir, &strings(&["downloads", "Maker", "Name"]));
        }
        _ => panic!(),
    }

    let step = job.advance(DownloadEvent::File(Ok(1234)));
    assert_eq!(step.messages, strings(&["Downloaded a.zip (1234 bytes)", "Downloading file 2/2: b.zip"]));
    assert!(matches!(&step.action, DownloadAction::DownloadFile { number: 2, .. }));

    let step = job.advance(DownloadEvent::File(Err("timeout".to_string())));
    assert_eq!(step.messages, strings(&["Error downloading b.zip: timeout"]));
    assert!(matches!(step.action, DownloadAction::Finished));
    assert_eq!(job.phase, DownloadPhase::Done);
}

#[test]
fn download_job_info_error() {
    let (mut job, _) = download_work("RJ8");
    let step = job.advance(DownloadEvent::Info(Err("404".to_string())));
    assert_eq!(step.messages, strings(&["Error fetching info for RJ8: 404"]));
    assert!(matches!(step.action, DownloadAction::Finished));
}

#[test]
fn download_job_without_files() {
    let (mut job, _) = download_work("RJ9");
    let step = job.advance(DownloadEvent::Info(Ok(info("RJ9", "N", "M", &[]))));
    assert!(step.messages.is_empty());
    assert!(matches!(step.action, DownloadAction::Finished));
}

#[test]
fn download_job_ignores_out_of_turn_events() {
    let (mut job, _) = download_work("RJ1");
    let step = job.advance(DownloadEvent::File(Ok(1)));
    assert!(step.messages.is_empty());
    assert!(matches!(step.action, DownloadAction::Finished));
    assert_eq!(job.phase, DownloadPhase::FetchingInfo);
}

#[test]
fn batch_messages() {
    assert_eq!(circle_download_done("C"), "Done downloading circle: C");
    assert_eq!(all_downloads_done(), "Done downloading all works");
}

#[test]
fn sync_job_full_run() {
    let (mut job, step) = fetch_library();
    assert_eq!(step.messages, strings(&["Fetching library count..."]));
    assert!(matches!(step.action, FetchAction::FetchCount));

    let step = job.advance(FetchEvent::Count(Ok((3, 2))));
    assert_eq!(step.messages, strings(&["Total works: 3, pages: 2"]));
    assert!(matches!(step.action, FetchAction::OpenDb));

    let step = job.advance(FetchEvent::DbOpened(Ok(())));
    assert_eq!(step.messages, strings(&["Fetching page 1/2..."]));
    assert!(matches!(step.action, FetchAction::FetchPage(1)));

    let items = vec![("RJ1".to_string(), "2024-01-01".to_string()), ("RJ2".to_string(), "2024-02-02".to_string())];
    let step = job.advance(FetchEvent::Page(Ok(items)));
    assert!(step.messages.is_empty());
    assert!(matches!(&step.action, FetchAction::FetchInfo(id) if id == "RJ1"));

    let step = job.advance(FetchEvent::Info(Ok(info("RJ1", "One", "Maker", &["x"]))));
    match &step.action {
        FetchAction::Save(w) => {
            assert_eq!(w.id, "RJ1");
            assert_eq!(w.name, "One");
            assert_eq!(w.circle, "Maker");
            assert_eq!(w.file_count, 1);
            assert_eq!(w.purchase_date, "2024-01-01");
        }
        _ => panic!(),
    }

    let step = job.advance(FetchEvent::Saved(Ok(())));
    assert_eq!(step.messages, strings(&["Saved: RJ1 - One"]));
    assert!(matches!(&step.action, FetchAction::FetchInfo(id) if id == "RJ2"));

    let step = job.advance(FetchEvent::Info(Err("boom".to_string())));
    assert_eq!(step.messages, strings(&["Error fetching info for RJ2: boom", "Fetching page 2/2..."]));
    assert!(matches!(step.action, FetchAction::FetchPage(2)));

    let step = job.advance(FetchEvent::Page(Err("500".to_string())));
    assert_eq!(step.messages, strings(&["Error fetching page 2: 500", "Library fetch complete!"]));
    assert!(matches!(step.action, FetchAction::Finished));
    assert_eq!(job.phase, FetchPhase::Done);
}

#[test]
fn sync_job_errors() {
    let (mut job, _) = fetch_library();
    let step = job.advance(FetchEvent::Count(Err("offline".to_string())));
    assert_eq!(step.messages, strings(&["Error fetching count: offline"]));
    assert!(matches!(step.action, FetchAction::Finished));

    let (mut job, _) = fetch_library();
    job.advance(FetchEvent::Count(Ok((0, 0))));
    let step = job.advance(FetchEvent::DbOpened(Err("locked".to_string())));
    assert_eq!(step.messages, strings(&["DB error: locked"]));

    let (mut job, _) = fetch_library();
    job.advance(FetchEvent::Count(Ok((0, 0))));
    let step = job.advance(FetchEvent::DbOpened(Ok(())));
    assert_eq!(step.messages, strings(&["Library fetch complete!"]));
    assert!(matches!(step.action, FetchAction::Finished));
}

#[test]
fn sync_job_save_error_and_empty_page() {
    let (mut job, _) = fetch_library();
    job.advance(FetchEvent::Count(Ok((1, 2))));
    job.advance(FetchEvent::DbOpened(Ok(())));
    let step = job.advance(FetchEvent::Page(Ok(vec![])));
    assert_eq!(step.messages, strings(&["Fetching page 2/2..."]));
    job.advance(FetchEvent::Page(Ok(vec![("RJ3".to_string(), "d".to_string())])));
    job.advance(FetchEvent::Info(Ok(info("RJ3", "Three", "M", &[]))));
    let step = job.advance(FetchEvent::Saved(Err("disk full".to_string())));
    assert_eq!(step.messages, strings(&["DB error for RJ3: disk full", "Library fetch complete!"]));
}

#[test]
fn header_and_footer() {
    assert_eq!(header_title("Ready"), " DLsite TUI  |  Ready ");
    let app = App::new(true, Config::default());
    assert_eq!(footer_hint(&app.screen), " ↑↓: navigate | Enter: select | f: fetch library | q: quit ");
    let app = App::new(false, Config::default());
    assert_eq!(footer_hint(&app.screen), " Tab: next field | Enter: login | Ctrl+C: quit ");
    let s = Screen::Messages { lines: vec![], scroll_offset: 0 };
    assert_eq!(footer_hint(&s), " ↑↓: scroll | Esc/q: back ");
}

#[test]
fn password_mask_counts_bytes() {
    assert_eq!(mask_password("abc"), "***");
    assert_eq!(mask_password("é"), "**");
    assert_eq!(mask_password(""), "");
}

#[test]
fn login_box_inner_area() {
    let r = login_inner(Rect { x: 0, y: 3, width: 80, height: 20 });
    assert_eq!(r, Rect { x: 2, y: 4, width: 76, height: 18 });
    let r = login_inner(Rect { x: 0, y: 0, width: 3, height: 1 });
    assert_eq!(r, Rect { x: 2, y: 1, width: 0, height: 0 });
}

#[test]
fn menu_highlight() {
    let rows = menu_rows(2);
    assert_eq!(rows.len(), 4);
    assert_eq!(rows[0].0, "1. Browse by ID");
    assert_eq!(rows[3].0, "4. Download All");
    assert_eq!(rows.iter().map(|r| r.1).collect::<Vec<_>>(), vec![false, false, true, false]);
}

#[test]
fn work_list_window() {
    let works: Vec<Work> = (0..5).map(|i| work(&format!("RJ{}", i), &format!("W{}", i), "C")).collect();
    let v = work_list_view(&works, 3, 2, 2, "All Works by ID");
    assert_eq!(v.title, " All Works by ID (5 works) ");
    assert_eq!(v.rows, strings(&["[RJ2] W2 (C)", "[RJ3] W3 (C)"]));
    assert_eq!(v.highlighted, Some(1));
    let v = work_list_view(&works, 0, 4, 10, "T");
    assert_eq!(v.rows, strings(&["[RJ4] W4 (C)"]));
    assert_eq!(v.highlighted, None);
    let v = circle_works_view("C", &works, 0, 0, 2);
    assert_eq!(v.title, " C - 5 works ");
    assert_eq!(v.rows, strings(&["[RJ0] W0", "[RJ1] W1"]));
    assert_eq!(list_height(Rect { x: 0, y: 0, width: 10, height: 12 }), 10);
    assert_eq!(list_height(Rect { x: 0, y: 0, width: 10, height: 1 }), 0);
}

#[test]
fn circle_list_window() {
    let circles = vec![("A".to_string(), 3), ("B".to_string(), 12)];
    let v = circle_list_view(&circles, 0, 0, 30);
    assert_eq!(v.title, " Circles (2 total) ");
    assert_eq!(v.rows, strings(&["A (3 works)", "B (12 works)"]));
    assert_eq!(v.highlighted, Some(0));
}

#[test]
fn dialog_geometry_and_text() {
    let r = confirm_popup(Rect { x: 0, y: 3, width: 100, height: 30 });
    assert_eq!(r, Rect { x: 20, y: 14, width: 60, height: 7 });
    let r = confirm_popup(Rect { x: 0, y: 0, width: 20, height: 5 });
    assert_eq!(r, Rect { x: 2, y: 0, width: 16, height: 7 });
    assert_eq!(confirm_text("Download X?"), "Download X?\n\n[y] Yes   [n] No");
}

#[test]
fn dialog_near_the_right_edge() {
    let r = confirm_popup(Rect { x: 65500, y: 65530, width: 40, height: 5 });
    assert_eq!(r, Rect { x: 65502, y: 65530, width: 36, height: 7 });
}

#[test]
fn login_lines_follow_focus_and_error() {
    let rows = login_rows("alice", "pw", 0, None);
    assert_eq!(
        rows,
        vec![
            ("Username: ".to_string(), "alice".to_string(), LineStyle::Focused),
            (String::new(), String::new(), LineStyle::Plain),
            ("Password: ".to_string(), "**".to_string(), LineStyle::Plain),
        ]
    );
    let rows = login_rows("bob", "é", 1, Some("Login failed"));
    assert_eq!(rows.len(), 5);
    assert_eq!(rows[0].2, LineStyle::Plain);
    assert_eq!(rows[2], ("Password: ".to_string(), "**".to_string(), LineStyle::Focused));
    assert_eq!(rows[3], (String::new(), String::new(), LineStyle::Plain));
    assert_eq!(rows[4], (String::new(), "Login failed".to_string(), LineStyle::Error));
}

#[test]
fn message_window() {
    let lines = strings(&["a", "b", "c", "d"]);
    assert_eq!(visible_lines(&lines, 1, 2), strings(&["b", "c"]));
    assert_eq!(visible_lines(&lines, 3, 10), strings(&["d"]));
    assert_eq!(visible_lines(&lines, 9, 10), Vec::<String>::new());
}

#[test]
fn control_c_quits_everywhere() {
    let mut app = App::new(true, Config::default());
    app.handle_key(KeyPress { key: Key::Char('f'), ctrl: false });
    assert!(matches!(
        app.handle_key(KeyPress { key: Key::Char('c'), ctrl: true }),
        dlsite_tui::app::Command::Quit
    ));
}

#[test]
fn header_body_footer_bands() {
    let (h, b, f) = screen_areas(Rect { x: 0, y: 0, width: 80, height: 24 });
    assert_eq!(h, Rect { x: 0, y: 0, width: 80, height: 3 });
    assert_eq!(b, Rect { x: 0, y: 3, width: 80, height: 18 });
    assert_eq!(f, Rect { x: 0, y: 21, width: 80, height: 3 });
    let (h, b, f) = screen_areas(Rect { x: 2, y: 1, width: 10, height: 4 });
    for r in [h, b, f] {
        assert_eq!((r.x, r.width), (2, 10));
    }
    assert!(1 <= h.y && h.y + h.height <= b.y && b.y + b.height <= f.y && f.y + f.height <= 5);
}
