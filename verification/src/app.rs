//! The screens of the client and how they answer key presses, the results
//! of the work they ask for, and the progress messages of background jobs.
//!
//! The terminal loop feeds each key press to [`App::handle_key`], carries out
//! the [`Command`] it gets back (a database query, a login, a background
//! job), and hands the result back through [`App::complete`].
use vstd::prelude::*;
use crate::api::opt_view;
use crate::config::Config;
use crate::db::{circles_view, works_view, Work, WorkModel};
use crate::text::{owned, push_str};

verus! {

/// What a confirmation dialog asks to do.
#[derive(Clone, Debug)]
pub enum ConfirmAction {
    DownloadWork(String),
    DownloadCircle(String),
    DownloadAll,
    FetchLibrary,
}

/// The value of a [`ConfirmAction`].
pub enum ActionModel {
    DownloadWork(Seq<char>),
    DownloadCircle(Seq<char>),
    DownloadAll,
    FetchLibrary,
}

impl View for ConfirmAction {
    type V = ActionModel;

    open spec fn view(&self) -> ActionModel {
        match self {
            ConfirmAction::DownloadWork(id) => ActionModel::DownloadWork(id@),
            ConfirmAction::DownloadCircle(c) => ActionModel::DownloadCircle(c@),
            ConfirmAction::DownloadAll => ActionModel::DownloadAll,
            ConfirmAction::FetchLibrary => ActionModel::FetchLibrary,
        }
    }
}

/// The screen on display and its state.
pub enum Screen {
    Login { username: String, password: String, focused_field: usize, error: Option<String> },
    MainMenu { selected: usize },
    WorkList { works: Vec<Work>, selected: usize, scroll_offset: usize, title: String },
    CircleList { circles: Vec<(String, usize)>, selected: usize, scroll_offset: usize },
    WorksInCircle { circle: String, works: Vec<Work>, selected: usize, scroll_offset: usize },
    Confirm { message: String, action: ConfirmAction },
    Messages { lines: Vec<String>, scroll_offset: usize },
}

/// The value of a [`Screen`].
pub enum ScreenModel {
    Login {
        username: Seq<char>,
        password: Seq<char>,
        focused_field: usize,
        error: Option<Seq<char>>,
    },
    MainMenu { selected: usize },
    WorkList { works: Seq<WorkModel>, selected: usize, scroll_offset: usize, title: Seq<char> },
    CircleList { circles: Seq<(Seq<char>, usize)>, selected: usize, scroll_offset: usize },
    WorksInCircle { circle: Seq<char>, works: Seq<WorkModel>, selected: usize, scroll_offset: usize },
    Confirm { message: Seq<char>, action: ActionModel },
    Messages { lines: Seq<Seq<char>>, scroll_offset: usize },
}

/// The values of a list of lines.
pub open spec fn lines_view(lines: Seq<String>) -> Seq<Seq<char>> {
    lines.map_values(|l: String| l@)
}

impl View for Screen {
    type V = ScreenModel;

    open spec fn view(&self) -> ScreenModel {
        match self {
            Screen::Login { username, password, focused_field, error } => ScreenModel::Login {
                username: username@,
                password: password@,
                focused_field: *focused_field,
                error: opt_view(*error),
            },
            Screen::MainMenu { selected } => ScreenModel::MainMenu { selected: *selected },
            Screen::WorkList { works, selected, scroll_offset, title } => ScreenModel::WorkList {
                works: works_view(works@),
                selected: *selected,
                scroll_offset: *scroll_offset,
                title: title@,
            },
            Screen::CircleList { circles, selected, scroll_offset } => ScreenModel::CircleList {
                circles: circles_view(circles@),
                selected: *selected,
                scroll_offset: *scroll_offset,
            },
            Screen::WorksInCircle { circle, works, selected, scroll_offset } =>
                ScreenModel::WorksInCircle {
                    circle: circle@,
                    works: works_view(works@),
                    selected: *selected,
                    scroll_offset: *scroll_offset,
                },
            Screen::Confirm { message, action } => ScreenModel::Confirm {
                message: message@,
                action: action@,
            },
            Screen::Messages { lines, scroll_offset } => ScreenModel::Messages {
                lines: lines_view(lines@),
                scroll_offset: *scroll_offset,
            },
        }
    }
}

/// How many rows a list keeps between its first shown row and the selection.
pub open spec fn window() -> int {
    30
}

/// A list position is sound: the selection is a row of the list (or the
/// first row of an empty list), and it lies in the window of 30 rows that
/// starts at the scroll offset.
pub open spec fn list_ok(selected: usize, scroll_offset: usize, len: nat) -> bool {
    &&& scroll_offset <= selected
    &&& selected < scroll_offset + window()
    &&& (selected < len || selected == 0)
}

impl ScreenModel {
    /// The invariant that every screen the client shows keeps.
    pub open spec fn well_formed(self) -> bool {
        match self {
            ScreenModel::Login { focused_field, .. } => focused_field < 2,
            ScreenModel::MainMenu { selected } => selected <= 3,
            ScreenModel::WorkList { works, selected, scroll_offset, .. } => list_ok(
                selected,
                scroll_offset,
                works.len(),
            ),
            ScreenModel::CircleList { circles, selected, scroll_offset } => list_ok(
                selected,
                scroll_offset,
                circles.len(),
            ),
            ScreenModel::WorksInCircle { works, selected, scroll_offset, .. } => list_ok(
                selected,
                scroll_offset,
                works.len(),
            ),
            ScreenModel::Confirm { .. } => true,
            ScreenModel::Messages { lines, scroll_offset } => scroll_offset == 0 || scroll_offset
                < lines.len(),
        }
    }
}

/// A key, as the terminal reports it.
#[derive(Clone, Copy, Debug, PartialEq, Eq)]
pub enum Key {
    Char(char),
    Up,
    Down,
    PageUp,
    PageDown,
    Enter,
    Esc,
    Tab,
    Backspace,
    Other,
}

/// A key press: the key and whether Control was held.
#[derive(Clone, Copy, Debug, PartialEq, Eq)]
pub struct KeyPress {
    pub key: Key,
    pub ctrl: bool,
}

/// What the terminal loop is to do after a key press.
pub enum Command {
    /// Nothing beyond showing the new state.
    Nothing,
    /// Leave the program.
    Quit,
    /// Log in with these credentials, then report through [`Outcome::LoggedIn`].
    AttemptLogin { username: String, password: String },
    /// Read all works by id, then report through [`Outcome::AllWorks`].
    LoadAllWorks,
    /// Read the circles, then report through [`Outcome::Circles`].
    LoadCircles,
    /// Read all works newest first, then report through [`Outcome::RecentWorks`].
    LoadRecentWorks,
    /// Read the works of a circle, then report through [`Outcome::CircleWorks`].
    LoadCircleWorks(String),
    /// Read the circles again, then report through [`Outcome::BackToCircles`].
    ReturnToCircles,
    /// Start syncing the library in the background.
    StartFetchLibrary,
    /// Start downloading one work in the background.
    StartDownloadWork(String),
    /// Start downloading every work of a circle in the background.
    StartDownloadCircle(String),
    /// Start downloading every work in the background.
    StartDownloadAll,
}

/// The value of a [`Command`].
pub enum CommandModel {
    Nothing,
    Quit,
    AttemptLogin { username: Seq<char>, password: Seq<char> },
    LoadAllWorks,
    LoadCircles,
    LoadRecentWorks,
    LoadCircleWorks(Seq<char>),
    ReturnToCircles,
    StartFetchLibrary,
    StartDownloadWork(Seq<char>),
    StartDownloadCircle(Seq<char>),
    StartDownloadAll,
}

impl View for Command {
    type V = CommandModel;

    open spec fn view(&self) -> CommandModel {
        match self {
            Command::Nothing => CommandModel::Nothing,
            Command::Quit => CommandModel::Quit,
            Command::AttemptLogin { username, password } => CommandModel::AttemptLogin {
                username: username@,
                password: password@,
            },
            Command::LoadAllWorks => CommandModel::LoadAllWorks,
            Command::LoadCircles => CommandModel::LoadCircles,
            Command::LoadRecentWorks => CommandModel::LoadRecentWorks,
            Command::LoadCircleWorks(c) => CommandModel::LoadCircleWorks(c@),
            Command::ReturnToCircles => CommandModel::ReturnToCircles,
            Command::StartFetchLibrary => CommandModel::StartFetchLibrary,
            Command::StartDownloadWork(id) => CommandModel::StartDownloadWork(id@),
            Command::StartDownloadCircle(c) => CommandModel::StartDownloadCircle(c@),
            Command::StartDownloadAll => CommandModel::StartDownloadAll,
        }
    }
}

/// The result of the work a [`Command`] asked for.
pub enum Outcome {
    /// The login with `username` ended with `result` (an error message on failure).
    LoggedIn { username: String, result: Result<(), String> },
    AllWorks(Result<Vec<Work>, String>),
    RecentWorks(Result<Vec<Work>, String>),
    Circles(Result<Vec<(String, usize)>, String>),
    CircleWorks { circle: String, result: Result<Vec<Work>, String> },
    BackToCircles(Result<Vec<(String, usize)>, String>),
}

/// The state of the client that its screens show.
pub struct App {
    pub screen: Screen,
    pub status: String,
    pub config: Config,
}

/// The value of an [`App`].
pub struct AppModel {
    pub screen: ScreenModel,
    pub status: Seq<char>,
    pub saved_username: Option<Seq<char>>,
}

impl View for App {
    type V = AppModel;

    open spec fn view(&self) -> AppModel {
        AppModel {
            screen: self.screen@,
            status: self.status@,
            saved_username: opt_view(self.config.username),
        }
    }
}

// ---------------------------------------------------------------------
// The transitions, stated over the values.
// ---------------------------------------------------------------------

/// `a - b`, or 0 where that is negative (`usize::saturating_sub`).
pub open spec fn sat_sub(a: usize, b: usize) -> usize {
    if a >= b {
        (a - b) as usize
    } else {
        0
    }
}

/// The smaller of two integers.
pub open spec fn min(a: int, b: int) -> int {
    if a <= b {
        a
    } else {
        b
    }
}

/// Moving the selection up one row; the view follows it.
pub open spec fn list_up(selected: usize, scroll_offset: usize) -> (usize, usize) {
    if selected > 0 {
        let s = (selected - 1) as usize;
        (s, if s < scroll_offset { s } else { scroll_offset })
    } else {
        (selected, scroll_offset)
    }
}

/// Moving the selection down one row, if there is one; the view follows it.
pub open spec fn list_down(selected: usize, scroll_offset: usize, len: nat) -> (usize, usize) {
    if selected + 1 < len {
        let s = (selected + 1) as usize;
        (s, if s >= scroll_offset + window() { sat_sub(s, 29) } else { scroll_offset })
    } else {
        (selected, scroll_offset)
    }
}

/// Moving the selection and the view up ten rows.
pub open spec fn list_page_up(selected: usize, scroll_offset: usize) -> (usize, usize) {
    (sat_sub(selected, 10), sat_sub(scroll_offset, 10))
}

/// Moving the selection and the view down ten rows, at most to the last row.
pub open spec fn list_page_down(selected: usize, scroll_offset: usize, len: nat) -> (usize, usize) {
    let last: int = if len >= 1 { len - 1 } else { 0 };
    (min(selected + 10, last) as usize, min(scroll_offset + 10, last) as usize)
}

/// The string without its last character, if it has one.
pub open spec fn pop_last(s: Seq<char>) -> Seq<char> {
    if s.len() > 0 {
        s.drop_last()
    } else {
        s
    }
}

/// The main menu with its first entry selected.
pub open spec fn main_menu() -> ScreenModel {
    ScreenModel::MainMenu { selected: 0 }
}

/// The message screen with one line.
pub open spec fn messages(first: Seq<char>) -> ScreenModel {
    ScreenModel::Messages { lines: seq![first], scroll_offset: 0 }
}

/// The dialog that asks before downloading a work.
pub open spec fn confirm_download(w: WorkModel) -> ScreenModel {
    ScreenModel::Confirm {
        message: "Download "@ + w.name + "?"@,
        action: ActionModel::DownloadWork(w.id),
    }
}

/// A key press on the login screen.
pub open spec fn login_key(
    username: Seq<char>,
    password: Seq<char>,
    focused_field: usize,
    error: Option<Seq<char>>,
    k: Key,
) -> (ScreenModel, CommandModel) {
    let same = ScreenModel::Login { username, password, focused_field, error };
    match k {
        Key::Tab | Key::Down => (
            ScreenModel::Login {
                username,
                password,
                focused_field: ((focused_field + 1) % 2) as usize,
                error,
            },
            CommandModel::Nothing,
        ),
        Key::Up => (
            ScreenModel::Login {
                username,
                password,
                focused_field: if focused_field == 0 { 1 } else { 0 },
                error,
            },
            CommandModel::Nothing,
        ),
        Key::Backspace => if focused_field == 0 {
            (
                ScreenModel::Login { username: pop_last(username), password, focused_field, error },
                CommandModel::Nothing,
            )
        } else {
            (
                ScreenModel::Login { username, password: pop_last(password), focused_field, error },
                CommandModel::Nothing,
            )
        },
        Key::Char(c) => if focused_field == 0 {
            (
                ScreenModel::Login { username: username.push(c), password, focused_field, error },
                CommandModel::Nothing,
            )
        } else {
            (
                ScreenModel::Login { username, password: password.push(c), focused_field, error },
                CommandModel::Nothing,
            )
        },
        Key::Enter => (same, CommandModel::AttemptLogin { username, password }),
        _ => (same, CommandModel::Nothing),
    }
}

/// Enter on entry `selected` of the main menu.
pub open spec fn menu_enter(selected: usize) -> (ScreenModel, CommandModel) {
    let same = ScreenModel::MainMenu { selected };
    if selected == 0 {
        (same, CommandModel::LoadAllWorks)
    } else if selected == 1 {
        (same, CommandModel::LoadCircles)
    } else if selected == 2 {
        (same, CommandModel::LoadRecentWorks)
    } else if selected == 3 {
        (
            ScreenModel::Confirm {
                message: "Download all works?"@,
                action: ActionModel::DownloadAll,
            },
            CommandModel::Nothing,
        )
    } else {
        (same, CommandModel::Nothing)
    }
}

/// Confirming the action of a dialog.
pub open spec fn confirm(action: ActionModel) -> (ScreenModel, CommandModel) {
    match action {
        ActionModel::DownloadWork(id) => (
            messages("Downloading "@ + id + "..."@),
            CommandModel::StartDownloadWork(id),
        ),
        ActionModel::DownloadCircle(c) => (
            messages("Downloading circle "@ + c + "..."@),
            CommandModel::StartDownloadCircle(c),
        ),
        ActionModel::DownloadAll => (
            messages("Downloading all works..."@),
            CommandModel::StartDownloadAll,
        ),
        ActionModel::FetchLibrary => (
            messages("Fetching library..."@),
            CommandModel::StartFetchLibrary,
        ),
    }
}

/// A key press (without Control held down on `c`) on a screen.
pub open spec fn screen_key(s: ScreenModel, k: Key) -> (ScreenModel, CommandModel) {
    match s {
        ScreenModel::Login { username, password, focused_field, error } => login_key(
            username,
            password,
            focused_field,
            error,
            k,
        ),
        ScreenModel::MainMenu { selected } => match k {
            Key::Char(c) => if c == 'q' {
                (s, CommandModel::Quit)
            } else if c == 'f' {
                (messages("Fetching library..."@), CommandModel::StartFetchLibrary)
            } else {
                (s, CommandModel::Nothing)
            },
            Key::Up => (
                ScreenModel::MainMenu {
                    selected: if selected > 0 { (selected - 1) as usize } else { selected },
                },
                CommandModel::Nothing,
            ),
            Key::Down => (
                ScreenModel::MainMenu {
                    selected: if selected < 3 { (selected + 1) as usize } else { selected },
                },
                CommandModel::Nothing,
            ),
            Key::Enter => menu_enter(selected),
            _ => (s, CommandModel::Nothing),
        },
        ScreenModel::WorkList { works, selected, scroll_offset, title } => {
            let at = |p: (usize, usize)|
                ScreenModel::WorkList { works, selected: p.0, scroll_offset: p.1, title };
            match k {
                Key::Esc => (main_menu(), CommandModel::Nothing),
                Key::Up => (at(list_up(selected, scroll_offset)), CommandModel::Nothing),
                Key::Down => (
                    at(list_down(selected, scroll_offset, works.len())),
                    CommandModel::Nothing,
                ),
                Key::PageUp => (at(list_page_up(selected, scroll_offset)), CommandModel::Nothing),
                Key::PageDown => (
                    at(list_page_down(selected, scroll_offset, works.len())),
                    CommandModel::Nothing,
                ),
                Key::Enter => if selected < works.len() {
                    (confirm_download(works[selected as int]), CommandModel::Nothing)
                } else {
                    (s, CommandModel::Nothing)
                },
                _ => (s, CommandModel::Nothing),
            }
        },
        ScreenModel::CircleList { circles, selected, scroll_offset } => {
            let at = |p: (usize, usize)|
                ScreenModel::CircleList { circles, selected: p.0, scroll_offset: p.1 };
            match k {
                Key::Esc => (main_menu(), CommandModel::Nothing),
                Key::Up => (at(list_up(selected, scroll_offset)), CommandModel::Nothing),
                Key::Down => (
                    at(list_down(selected, scroll_offset, circles.len())),
                    CommandModel::Nothing,
                ),
                Key::Enter => if selected < circles.len() {
                    (s, CommandModel::LoadCircleWorks(circles[selected as int].0))
                } else {
                    (s, CommandModel::Nothing)
                },
                _ => (s, CommandModel::Nothing),
            }
        },
        ScreenModel::WorksInCircle { circle, works, selected, scroll_offset } => {
            let at = |p: (usize, usize)|
                ScreenModel::WorksInCircle { circle, works, selected: p.0, scroll_offset: p.1 };
            match k {
                Key::Esc => (s, CommandModel::ReturnToCircles),
                Key::Up => (at(list_up(selected, scroll_offset)), CommandModel::Nothing),
                Key::Down => (
                    at(list_down(selected, scroll_offset, works.len())),
                    CommandModel::Nothing,
                ),
                Key::Enter => if selected < works.len() {
                    (confirm_download(works[selected as int]), CommandModel::Nothing)
                } else {
                    (s, CommandModel::Nothing)
                },
                _ => (s, CommandModel::Nothing),
            }
        },
        ScreenModel::Confirm { message, action } => match k {
            Key::Enter => confirm(action),
            Key::Char(c) => if c == 'y' {
                confirm(action)
            } else if c == 'n' {
                (main_menu(), CommandModel::Nothing)
            } else {
                (s, CommandModel::Nothing)
            },
            Key::Esc => (main_menu(), CommandModel::Nothing),
            _ => (s, CommandModel::Nothing),
        },
        ScreenModel::Messages { lines, scroll_offset } => match k {
            Key::Esc => (main_menu(), CommandModel::Nothing),
            Key::Char(c) => if c == 'q' {
                (main_menu(), CommandModel::Nothing)
            } else {
                (s, CommandModel::Nothing)
            },
            Key::Up => (
                ScreenModel::Messages { lines, scroll_offset: sat_sub(scroll_offset, 1) },
                CommandModel::Nothing,
            ),
            Key::Down => if scroll_offset + 1 < lines.len() {
                (
                    ScreenModel::Messages { lines, scroll_offset: (scroll_offset + 1) as usize },
                    CommandModel::Nothing,
                )
            } else {
                (s, CommandModel::Nothing)
            },
            _ => (s, CommandModel::Nothing),
        },
    }
}

/// Whether a key press is Control-C, which leaves the program from any screen.
pub open spec fn is_ctrl_c(k: KeyPress) -> bool {
    k.ctrl && k.key == Key::Char('c')
}

/// A key press: the new state and what the loop is to do.
pub open spec fn key_step(m: AppModel, k: KeyPress) -> (AppModel, CommandModel) {
    if is_ctrl_c(k) {
        (m, CommandModel::Quit)
    } else {
        let (s, c) = screen_key(m.screen, k.key);
        (AppModel { screen: s, status: m.status, saved_username: m.saved_username }, c)
    }
}

/// The state after the result of a command comes back.
pub open spec fn complete_step(m: AppModel, o: Outcome) -> AppModel {
    let with_screen = |s: ScreenModel|
        AppModel { screen: s, status: m.status, saved_username: m.saved_username };
    let with_error = |e: String|
        AppModel { screen: m.screen, status: "Error: "@ + e@, saved_username: m.saved_username };
    match o {
        Outcome::LoggedIn { username, result } => match result {
            Ok(_) => AppModel {
                screen: main_menu(),
                status: "Logged in successfully"@,
                saved_username: Some(username@),
            },
            Err(e) => match m.screen {
                ScreenModel::Login { username: u, password, focused_field, error } => with_screen(
                    ScreenModel::Login {
                        username: u,
                        password,
                        focused_field,
                        error: Some("Login failed: "@ + e@),
                    },
                ),
                _ => m,
            },
        },
        Outcome::AllWorks(r) => match r {
            Ok(ws) => with_screen(
                ScreenModel::WorkList {
                    works: works_view(ws@),
                    selected: 0,
                    scroll_offset: 0,
                    title: "All Works by ID"@,
                },
            ),
            Err(e) => with_error(e),
        },
        Outcome::RecentWorks(r) => match r {
            Ok(ws) => with_screen(
                ScreenModel::WorkList {
                    works: works_view(ws@),
                    selected: 0,
                    scroll_offset: 0,
                    title: "Recent Purchases"@,
                },
            ),
            Err(e) => with_error(e),
        },
        Outcome::Circles(r) => match r {
            Ok(cs) => with_screen(
                ScreenModel::CircleList { circles: circles_view(cs@), selected: 0, scroll_offset: 0 },
            ),
            Err(e) => with_error(e),
        },
        Outcome::CircleWorks { circle, result } => match result {
            Ok(ws) => with_screen(
                ScreenModel::WorksInCircle {
                    circle: circle@,
                    works: works_view(ws@),
                    selected: 0,
                    scroll_offset: 0,
                },
            ),
            Err(e) => with_error(e),
        },
        Outcome::BackToCircles(r) => with_screen(
            ScreenModel::CircleList {
                circles: match r {
                    Ok(cs) => circles_view(cs@),
                    Err(_) => Seq::empty(),
                },
                selected: 0,
                scroll_offset: 0,
            },
        ),
    }
}

/// A message from a background job: appended on the message screen, shown
/// as the status line elsewhere.
pub open spec fn message_step(m: AppModel, msg: Seq<char>) -> AppModel {
    match m.screen {
        ScreenModel::Messages { lines, scroll_offset } => AppModel {
            screen: ScreenModel::Messages { lines: lines.push(msg), scroll_offset },
            status: m.status,
            saved_username: m.saved_username,
        },
        _ => AppModel { screen: m.screen, status: msg, saved_username: m.saved_username },
    }
}

/// The first state: the main menu when the saved session is still logged
/// in, else the login screen with the saved user name filled in.
pub open spec fn initial(logged_in: bool, saved_username: Option<Seq<char>>) -> AppModel {
    AppModel {
        screen: if logged_in {
            main_menu()
        } else {
            ScreenModel::Login {
                username: match saved_username {
                    Some(u) => u,
                    None => Seq::empty(),
                },
                password: Seq::empty(),
                focused_field: 0,
                error: None,
            }
        },
        status: "Ready"@,
        saved_username,
    }
}

// ---------------------------------------------------------------------
// The invariant holds across every transition.
// ---------------------------------------------------------------------

/// Every list movement keeps a sound list position sound.
pub proof fn lemma_list_moves(selected: usize, scroll_offset: usize, len: nat)
    requires
        list_ok(selected, scroll_offset, len),
        len <= usize::MAX,
    ensures
        list_ok(list_up(selected, scroll_offset).0, list_up(selected, scroll_offset).1, len),
        list_ok(
            list_down(selected, scroll_offset, len).0,
            list_down(selected, scroll_offset, len).1,
            len,
        ),
        list_ok(list_page_up(selected, scroll_offset).0, list_page_up(selected, scroll_offset).1, len),
        list_ok(
            list_page_down(selected, scroll_offset, len).0,
            list_page_down(selected, scroll_offset, len).1,
            len,
        ),
{
}

/// The screens that a key press leads to keep the invariant.
pub proof fn lemma_key_step_well_formed(m: AppModel, k: KeyPress)
    requires
        m.screen.well_formed(),
        m.screen is WorkList ==> m.screen->WorkList_works.len() <= usize::MAX,
        m.screen is CircleList ==> m.screen->circles.len() <= usize::MAX,
        m.screen is WorksInCircle ==> m.screen->WorksInCircle_works.len() <= usize::MAX,
    ensures
        key_step(m, k).0.screen.well_formed(),
{
    match m.screen {
        ScreenModel::WorkList { works, selected, scroll_offset, .. } => {
            lemma_list_moves(selected, scroll_offset, works.len());
        },
        ScreenModel::CircleList { circles, selected, scroll_offset } => {
            lemma_list_moves(selected, scroll_offset, circles.len());
        },
        ScreenModel::WorksInCircle { works, selected, scroll_offset, .. } => {
            lemma_list_moves(selected, scroll_offset, works.len());
        },
        _ => {},
    }
}

// ---------------------------------------------------------------------
// The executable transitions.
// ---------------------------------------------------------------------

fn list_up_exec(selected: usize, scroll_offset: usize) -> (r: (usize, usize))
    ensures
        r == list_up(selected, scroll_offset),
{
    if selected > 0 {
        let s = selected - 1;
        (s, if s < scroll_offset { s } else { scroll_offset })
    } else {
        (selected, scroll_offset)
    }
}

fn sat_sub_exec(a: usize, b: usize) -> (r: usize)
    ensures
        r == sat_sub(a, b),
{
    if a >= b {
        a - b
    } else {
        0
    }
}

fn list_down_exec(selected: usize, scroll_offset: usize, len: usize) -> (r: (usize, usize))
    ensures
        r == list_down(selected, scroll_offset, len as nat),
{
    if selected < len && len - selected > 1 {
        let s = selected + 1;
        (s, if s >= scroll_offset && s - scroll_offset >= 30 { sat_sub_exec(s, 29) } else { scroll_offset })
    } else {
        (selected, scroll_offset)
    }
}

fn min_with_last(a: usize, last: usize) -> (r: usize)
    ensures
        r == min(a + 10, last as int),
{
    if a < last && last - a > 10 {
        a + 10
    } else {
        last
    }
}

fn list_page_down_exec(selected: usize, scroll_offset: usize, len: usize) -> (r: (usize, usize))
    ensures
        r == list_page_down(selected, scroll_offset, len as nat),
{
    let last = if len >= 1 { len - 1 } else { 0 };
    (min_with_last(selected, last), min_with_last(scroll_offset, last))
}

/// The message screen showing one line.
fn messages_exec(first: String) -> (s: Screen)
    ensures
        s@ == messages(first@),
{
    let lines = vec![first];
    assert(lines_view(lines@) =~= seq![first@]);
    Screen::Messages { lines, scroll_offset: 0 }
}

/// `prefix + rest`.
fn concat2(prefix: &str, rest: &str) -> (r: String)
    ensures
        r@ == prefix@ + rest@,
{
    let mut r = owned(prefix);
    push_str(&mut r, rest);
    r
}

/// `prefix + middle + suffix`.
fn concat3(prefix: &str, middle: &str, suffix: &str) -> (r: String)
    ensures
        r@ == prefix@ + middle@ + suffix@,
{
    let mut r = owned(prefix);
    push_str(&mut r, middle);
    push_str(&mut r, suffix);
    r
}

fn confirm_exec(action: ConfirmAction) -> (r: (Screen, Command))
    ensures
        (r.0@, r.1@) == confirm(action@),
{
    match action {
        ConfirmAction::DownloadWork(id) => {
            let first = concat3("Downloading ", id.as_str(), "...");
            (messages_exec(first), Command::StartDownloadWork(id))
        },
        ConfirmAction::DownloadCircle(c) => {
            let first = concat3("Downloading circle ", c.as_str(), "...");
            (messages_exec(first), Command::StartDownloadCircle(c))
        },
        ConfirmAction::DownloadAll => {
            (messages_exec(owned("Downloading all works...")), Command::StartDownloadAll)
        },
        ConfirmAction::FetchLibrary => {
            (messages_exec(owned("Fetching library...")), Command::StartFetchLibrary)
        },
    }
}

/// The dialog asking to download work `works[selected]`.
fn confirm_download_exec(works: &Vec<Work>, selected: usize) -> (s: Screen)
    requires
        selected < works.len(),
    ensures
        s@ == confirm_download(works_view(works@)[selected as int]),
{
    let w = &works[selected];
    let message = concat3("Download ", w.name.as_str(), "?");
    Screen::Confirm { message, action: ConfirmAction::DownloadWork(w.id.clone()) }
}

fn login_key_exec(
    username: String,
    password: String,
    focused_field: usize,
    error: Option<String>,
    k: Key,
) -> (r: (Screen, Command))
    ensures
        (r.0@, r.1@) == login_key(username@, password@, focused_field, opt_view(error), k),
{
    let mut username = username;
    let mut password = password;
    match k {
        Key::Tab | Key::Down => {
            let f: usize = if focused_field % 2 == 1 { 0 } else { 1 };
            (Screen::Login { username, password, focused_field: f, error }, Command::Nothing)
        },
        Key::Up => {
            let f: usize = if focused_field == 0 { 1 } else { 0 };
            (Screen::Login { username, password, focused_field: f, error }, Command::Nothing)
        },
        Key::Backspace => {
            if focused_field == 0 {
                username.pop();
            } else {
                password.pop();
            }
            (Screen::Login { username, password, focused_field, error }, Command::Nothing)
        },
        Key::Char(c) => {
            if focused_field == 0 {
                username.push(c);
            } else {
                password.push(c);
            }
            (Screen::Login { username, password, focused_field, error }, Command::Nothing)
        },
        Key::Enter => {
            let u = username.clone();
            let p = password.clone();
            (
                Screen::Login { username, password, focused_field, error },
                Command::AttemptLogin { username: u, password: p },
            )
        },
        _ => (Screen::Login { username, password, focused_field, error }, Command::Nothing),
    }
}

fn menu_key_exec(selected: usize, k: Key) -> (r: (Screen, Command))
    ensures
        (r.0@, r.1@) == screen_key(ScreenModel::MainMenu { selected }, k),
{
    let same = Screen::MainMenu { selected };
    match k {
        Key::Char(c) => {
            if c == 'q' {
                (same, Command::Quit)
            } else if c == 'f' {
                (messages_exec(owned("Fetching library...")), Command::StartFetchLibrary)
            } else {
                (same, Command::Nothing)
            }
        },
        Key::Up => {
            let s = if selected > 0 { selected - 1 } else { selected };
            (Screen::MainMenu { selected: s }, Command::Nothing)
        },
        Key::Down => {
            let s = if selected < 3 { selected + 1 } else { selected };
            (Screen::MainMenu { selected: s }, Command::Nothing)
        },
        Key::Enter => {
            if selected == 0 {
                (same, Command::LoadAllWorks)
            } else if selected == 1 {
                (same, Command::LoadCircles)
            } else if selected == 2 {
                (same, Command::LoadRecentWorks)
            } else if selected == 3 {
                (
                    Screen::Confirm {
                        message: owned("Download all works?"),
                        action: ConfirmAction::DownloadAll,
                    },
                    Command::Nothing,
                )
            } else {
                (same, Command::Nothing)
            }
        },
        _ => (same, Command::Nothing),
    }
}

fn screen_key_exec(screen: Screen, k: Key) -> (r: (Screen, Command))
    ensures
        (r.0@, r.1@) == screen_key(screen@, k),
{
    match screen {
        Screen::Login { username, password, focused_field, error } => login_key_exec(
            username,
            password,
            focused_field,
            error,
            k,
        ),
        Screen::MainMenu { selected } => menu_key_exec(selected, k),
        Screen::WorkList { works, selected, scroll_offset, title } => {
            let len = works.len();
            match k {
                Key::Esc => (Screen::MainMenu { selected: 0 }, Command::Nothing),
                Key::Up => {
                    let (s, o) = list_up_exec(selected, scroll_offset);
                    (Screen::WorkList { works, selected: s, scroll_offset: o, title }, Command::Nothing)
                },
                Key::Down => {
                    let (s, o) = list_down_exec(selected, scroll_offset, len);
                    (Screen::WorkList { works, selected: s, scroll_offset: o, title }, Command::Nothing)
                },
                Key::PageUp => {
                    let s = sat_sub_exec(selected, 10);
                    let o = sat_sub_exec(scroll_offset, 10);
                    (Screen::WorkList { works, selected: s, scroll_offset: o, title }, Command::Nothing)
                },
                Key::PageDown => {
                    let (s, o) = list_page_down_exec(selected, scroll_offset, len);
                    (Screen::WorkList { works, selected: s, scroll_offset: o, title }, Command::Nothing)
                },
                Key::Enter => {
                    if selected < len {
                        (confirm_download_exec(&works, selected), Command::Nothing)
                    } else {
                        (Screen::WorkList { works, selected, scroll_offset, title }, Command::Nothing)
                    }
                },
                _ => (Screen::WorkList { works, selected, scroll_offset, title }, Command::Nothing),
            }
        },
        Screen::CircleList { circles, selected, scroll_offset } => {
            let len = circles.len();
            match k {
                Key::Esc => (Screen::MainMenu { selected: 0 }, Command::Nothing),
                Key::Up => {
                    let (s, o) = list_up_exec(selected, scroll_offset);
                    (Screen::CircleList { circles, selected: s, scroll_offset: o }, Command::Nothing)
                },
                Key::Down => {
                    let (s, o) = list_down_exec(selected, scroll_offset, len);
                    (Screen::CircleList { circles, selected: s, scroll_offset: o }, Command::Nothing)
                },
                Key::Enter => {
                    if selected < len {
                        let name = circles[selected].0.clone();
                        (
                            Screen::CircleList { circles, selected, scroll_offset },
                            Command::LoadCircleWorks(name),
                        )
                    } else {
                        (Screen::CircleList { circles, selected, scroll_offset }, Command::Nothing)
                    }
                },
                _ => (Screen::CircleList { circles, selected, scroll_offset }, Command::Nothing),
            }
        },
        Screen::WorksInCircle { circle, works, selected, scroll_offset } => {
            let len = works.len();
            match k {
                Key::Esc => (
                    Screen::WorksInCircle { circle, works, selected, scroll_offset },
                    Command::ReturnToCircles,
                ),
                Key::Up => {
                    let (s, o) = list_up_exec(selected, scroll_offset);
                    (
                        Screen::WorksInCircle { circle, works, selected: s, scroll_offset: o },
                        Command::Nothing,
                    )
                },
                Key::Down => {
                    let (s, o) = list_down_exec(selected, scroll_offset, len);
                    (
                        Screen::WorksInCircle { circle, works, selected: s, scroll_offset: o },
                        Command::Nothing,
                    )
                },
                Key::Enter => {
                    if selected < len {
                        (confirm_download_exec(&works, selected), Command::Nothing)
                    } else {
                        (
                            Screen::WorksInCircle { circle, works, selected, scroll_offset },
                            Command::Nothing,
                        )
                    }
                },
                _ => (
                    Screen::WorksInCircle { circle, works, selected, scroll_offset },
                    Command::Nothing,
                ),
            }
        },
        Screen::Confirm { message, action } => match k {
            Key::Enter => confirm_exec(action),
            Key::Char(c) => {
                if c == 'y' {
                    confirm_exec(action)
                } else if c == 'n' {
                    (Screen::MainMenu { selected: 0 }, Command::Nothing)
                } else {
                    (Screen::Confirm { message, action }, Command::Nothing)
                }
            },
            Key::Esc => (Screen::MainMenu { selected: 0 }, Command::Nothing),
            _ => (Screen::Confirm { message, action }, Command::Nothing),
        },
        Screen::Messages { lines, scroll_offset } => match k {
            Key::Esc => (Screen::MainMenu { selected: 0 }, Command::Nothing),
            Key::Char(c) => {
                if c == 'q' {
                    (Screen::MainMenu { selected: 0 }, Command::Nothing)
                } else {
                    (Screen::Messages { lines, scroll_offset }, Command::Nothing)
                }
            },
            Key::Up => {
                let o = sat_sub_exec(scroll_offset, 1);
                (Screen::Messages { lines, scroll_offset: o }, Command::Nothing)
            },
            Key::Down => {
                if scroll_offset < lines.len() && lines.len() - scroll_offset > 1 {
                    (Screen::Messages { lines, scroll_offset: scroll_offset + 1 }, Command::Nothing)
                } else {
                    (Screen::Messages { lines, scroll_offset }, Command::Nothing)
                }
            },
            _ => (Screen::Messages { lines, scroll_offset }, Command::Nothing),
        },
    }
}

/// The list lengths of a screen fit in memory.
pub open spec fn screen_lengths_fit(s: ScreenModel) -> bool {
    &&& s is WorkList ==> s->WorkList_works.len() <= usize::MAX
    &&& s is CircleList ==> s->circles.len() <= usize::MAX
    &&& s is WorksInCircle ==> s->WorksInCircle_works.len() <= usize::MAX
}

/// The lists of a screen are held in memory, so their lengths fit a `usize`.
fn note_lengths(s: &Screen)
    ensures
        screen_lengths_fit(s@),
{
    match s {
        Screen::WorkList { works, .. } => {
            let _ = works.len();
        },
        Screen::CircleList { circles, .. } => {
            let _ = circles.len();
        },
        Screen::WorksInCircle { works, .. } => {
            let _ = works.len();
        },
        _ => {},
    }
}

impl App {
    /// The client at start-up: on the main menu if the saved session is
    /// logged in, else on the login screen with the saved user name.
    pub fn new(logged_in: bool, config: Config) -> (app: App)
        ensures
            app@ == initial(logged_in, opt_view(config.username)),
            app@.screen.well_formed(),
    {
        let screen = if logged_in {
            Screen::MainMenu { selected: 0 }
        } else {
            let username = match &config.username {
                Some(u) => u.clone(),
                None => String::new(),
            };
            Screen::Login { username, password: String::new(), focused_field: 0, error: None }
        };
        App { screen, status: owned("Ready"), config }
    }

    /// Answers a key press: updates the screen and tells the terminal loop
    /// what to do.
    pub fn handle_key(&mut self, key: KeyPress) -> (cmd: Command)
        ensures
            (final(self)@, cmd@) == key_step(old(self)@, key),
            old(self)@.screen.well_formed() ==> final(self)@.screen.well_formed(),
    {
        note_lengths(&self.screen);
        proof {
            if old(self)@.screen.well_formed() {
                lemma_key_step_well_formed(old(self)@, key);
            }
        }
        if key.ctrl {
            if let Key::Char(c) = key.key {
                if c == 'c' {
                    return Command::Quit;
                }
            }
        }
        let mut screen = Screen::MainMenu { selected: 0 };
        std::mem::swap(&mut screen, &mut self.screen);
        let (next, cmd) = screen_key_exec(screen, key.key);
        self.screen = next;
        cmd
    }

    /// Takes in the result of a command: shows the loaded list, or reports
    /// the error on the status line; after a login, records the user name
    /// and goes to the main menu, or shows why the login failed.
    pub fn complete(&mut self, outcome: Outcome)
        ensures
            final(self)@ == complete_step(old(self)@, outcome),
            old(self)@.screen.well_formed() ==> final(self)@.screen.well_formed(),
    {
        match outcome {
            Outcome::LoggedIn { username, result } => match result {
                Ok(()) => {
                    self.config.username = Some(username);
                    self.screen = Screen::MainMenu { selected: 0 };
                    self.status = owned("Logged in successfully");
                },
                Err(e) => {
                    let message = concat2("Login failed: ", e.as_str());
                    match &mut self.screen {
                        Screen::Login { error, .. } => {
                            *error = Some(message);
                        },
                        _ => {},
                    }
                },
            },
            Outcome::AllWorks(r) => match r {
                Ok(works) => {
                    self.screen = Screen::WorkList {
                        works,
                        selected: 0,
                        scroll_offset: 0,
                        title: owned("All Works by ID"),
                    };
                },
                Err(e) => {
                    self.status = concat2("Error: ", e.as_str());
                },
            },
            Outcome::RecentWorks(r) => match r {
                Ok(works) => {
                    self.screen = Screen::WorkList {
                        works,
                        selected: 0,
                        scroll_offset: 0,
                        title: owned("Recent Purchases"),
                    };
                },
                Err(e) => {
                    self.status = concat2("Error: ", e.as_str());
                },
            },
            Outcome::Circles(r) => match r {
                Ok(circles) => {
                    self.screen = Screen::CircleList { circles, selected: 0, scroll_offset: 0 };
                },
                Err(e) => {
                    self.status = concat2("Error: ", e.as_str());
                },
            },
            Outcome::CircleWorks { circle, result } => match result {
                Ok(works) => {
                    self.screen = Screen::WorksInCircle {
                        circle,
                        works,
                        selected: 0,
                        scroll_offset: 0,
                    };
                },
                Err(e) => {
                    self.status = concat2("Error: ", e.as_str());
                },
            },
            Outcome::BackToCircles(r) => {
                let circles = match r {
                    Ok(circles) => circles,
                    Err(_) => Vec::new(),
                };
                assert(circles_view(circles@) =~= match r {
                    Ok(cs) => circles_view(cs@),
                    Err(_) => Seq::empty(),
                });
                self.screen = Screen::CircleList { circles, selected: 0, scroll_offset: 0 };
            },
        }
    }

    /// Takes in a progress message of a background job: the message screen
    /// appends it, any other screen shows it on the status line.
    pub fn push_message(&mut self, msg: String)
        ensures
            final(self)@ == message_step(old(self)@, msg@),
            old(self)@.screen.well_formed() ==> final(self)@.screen.well_formed(),
    {
        match &mut self.screen {
            Screen::Messages { lines, .. } => {
                lines.push(msg);
            },
            _ => {
                self.status = msg;
            },
        }
        proof {
            if old(self).screen is Messages {
                assert(lines_view(old(self).screen->Messages_lines@.push(msg)) =~= lines_view(
                    old(self).screen->Messages_lines@,
                ).push(msg@));
            }
        }
    }
}

} // verus!
