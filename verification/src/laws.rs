//! Properties of the client that hold across calls: of the screens under
//! key presses, of the token scraping and decoding, of the jobs, and of
//! the saved cookies.
use vstd::prelude::*;
use crate::api::{csrf_from_html, token_attr, token_name, url_decode, value_attr, WorkInfo};
use crate::app::{
    complete_step, key_step, lemma_key_step_well_formed, main_menu, message_step,
    screen_lengths_fit, ActionModel, AppModel, CommandModel, Key, KeyPress, Outcome, ScreenModel,
};
use crate::jobs::{
    after_page, download_advance, fetch_advance, fetch_well_formed, file_step, DownloadActionModel,
    DownloadEvent, DownloadModel, DownloadPhase, FetchActionModel, FetchEvent, FetchModel,
    FetchPhase,
};
use crate::session::{holds_login, jar_cookies, loaded_from, plain_jar, reads_back_within};
use crate::text::{decimal, find, lemma_find_from, lemma_find_least, occurs_at};
use crate::db::{Work, WorkModel};
use cookie_store::CookieStore;

verus! {

/// Control-C leaves the program from every screen and changes nothing.
pub proof fn law_ctrl_c_quits(m: AppModel)
    ensures
        key_step(m, KeyPress { key: Key::Char('c'), ctrl: true }) == (m, CommandModel::Quit),
{
}

/// `q` leaves the program from the main menu, and from no other screen.
pub proof fn law_q_quits_only_from_main_menu(m: AppModel)
    ensures
        (key_step(m, KeyPress { key: Key::Char('q'), ctrl: false }).1 == CommandModel::Quit)
            <==> m.screen is MainMenu,
{
}

/// On the login screen, typing a character and then Backspace gives back
/// the screen as it was.
pub proof fn law_type_then_backspace(m: AppModel, c: char)
    requires
        m.screen is Login,
    ensures
        key_step(key_step(m, KeyPress { key: Key::Char(c), ctrl: false }).0, KeyPress { key: Key::Backspace, ctrl: false }).0 == m,
{
    match m.screen {
        ScreenModel::Login { username, password, .. } => {
            assert(username.push(c).drop_last() =~= username);
            assert(password.push(c).drop_last() =~= password);
        },
        _ => {},
    }
}

/// On the login screen, moving the focus twice (with Tab, Down or Up) gives
/// back the focus it had.
pub proof fn law_focus_twice(m: AppModel, k: Key)
    requires
        m.screen.well_formed(),
        m.screen is Login,
        k == Key::Tab || k == Key::Down || k == Key::Up,
    ensures
        key_step(key_step(m, KeyPress { key: k, ctrl: false }).0, KeyPress { key: k, ctrl: false }).0 == m,
{
}

/// The position in a list after a key press.
pub open spec fn list_position(s: ScreenModel) -> (usize, usize) {
    match s {
        ScreenModel::WorkList { selected, scroll_offset, .. } => (selected, scroll_offset),
        ScreenModel::CircleList { selected, scroll_offset, .. } => (selected, scroll_offset),
        ScreenModel::WorksInCircle { selected, scroll_offset, .. } => (selected, scroll_offset),
        _ => (0, 0),
    }
}

/// The length of the list a screen shows.
pub open spec fn list_len(s: ScreenModel) -> nat {
    match s {
        ScreenModel::WorkList { works, .. } => works.len(),
        ScreenModel::CircleList { circles, .. } => circles.len(),
        ScreenModel::WorksInCircle { works, .. } => works.len(),
        _ => 0,
    }
}

/// In a list, Down then Up selects again the row that was selected, unless
/// the selection was on the last row.
pub proof fn law_down_then_up(m: AppModel)
    requires
        m.screen is WorkList || m.screen is CircleList || m.screen is WorksInCircle,
        screen_lengths_fit(m.screen),
        list_position(m.screen).0 + 1 < list_len(m.screen),
    ensures
        list_position(
            key_step(key_step(m, KeyPress { key: Key::Down, ctrl: false }).0, KeyPress { key: Key::Up, ctrl: false }).0.screen,
        ).0 == list_position(m.screen).0,
{
}

/// Esc goes back: to the main menu from the lists of works and circles, the
/// dialog and the messages; from the works of a circle it asks for the
/// circles again, and shows them from the top once they are read.
pub proof fn law_escape_goes_back(m: AppModel, circles: Result<Vec<(String, usize)>, String>)
    ensures
        (m.screen is WorkList || m.screen is CircleList || m.screen is Confirm || m.screen is Messages)
            ==> key_step(m, KeyPress { key: Key::Esc, ctrl: false }) == (
            AppModel { screen: main_menu(), ..m },
            CommandModel::Nothing,
        ),
        m.screen is WorksInCircle ==> {
            let (n, c) = key_step(m, KeyPress { key: Key::Esc, ctrl: false });
            &&& n == m
            &&& c == CommandModel::ReturnToCircles
            &&& complete_step(n, Outcome::BackToCircles(circles)).screen matches ScreenModel::CircleList {
                selected,
                scroll_offset,
                ..
            } && selected == 0 && scroll_offset == 0
        },
{
}

/// Confirming a dialog starts the job it asked about and shows its progress
/// on the message screen, which starts with one line.
pub proof fn law_confirm_starts_job(m: AppModel)
    requires
        m.screen is Confirm,
    ensures
        ({
            let (n, c) = key_step(m, KeyPress { key: Key::Enter, ctrl: false });
            &&& n.screen matches ScreenModel::Messages { lines, scroll_offset } && lines.len() == 1
                && scroll_offset == 0
            &&& match m.screen->action {
                ActionModel::DownloadWork(id) => c == CommandModel::StartDownloadWork(id),
                ActionModel::DownloadCircle(circle) => c == CommandModel::StartDownloadCircle(circle),
                ActionModel::DownloadAll => c == CommandModel::StartDownloadAll,
                ActionModel::FetchLibrary => c == CommandModel::StartFetchLibrary,
            }
        }),
        key_step(m, KeyPress { key: Key::Char('y'), ctrl: false }) == key_step(
            m,
            KeyPress { key: Key::Enter, ctrl: false },
        ),
{
}

/// Every screen the client can reach keeps its invariant: a key press, the
/// result of a command and a progress message all keep it.
pub proof fn law_screens_stay_well_formed(m: AppModel, k: KeyPress, o: Outcome, msg: Seq<char>)
    requires
        m.screen.well_formed(),
        screen_lengths_fit(m.screen),
    ensures
        key_step(m, k).0.screen.well_formed(),
        complete_step(m, o).screen.well_formed(),
        message_step(m, msg).screen.well_formed(),
{
    lemma_key_step_well_formed(m, k);
}

/// A screen the client reaches can always be drawn: every list view, and
/// the message view, starts within its list.
pub proof fn law_views_start_within_lists(s: ScreenModel)
    requires
        s.well_formed(),
    ensures
        s matches ScreenModel::WorkList { works, scroll_offset, .. } ==> scroll_offset <= works.len(),
        s matches ScreenModel::CircleList { circles, scroll_offset, .. } ==> scroll_offset
            <= circles.len(),
        s matches ScreenModel::WorksInCircle { works, scroll_offset, .. } ==> scroll_offset
            <= works.len(),
        s matches ScreenModel::Messages { lines, scroll_offset } ==> scroll_offset <= lines.len(),
{
}

/// A successful login records the user name and opens the main menu.
pub proof fn law_login_remembers_user(m: AppModel, username: String)
    ensures
        complete_step(m, Outcome::LoggedIn { username, result: Ok(()) }).saved_username == Some(
            username@,
        ),
        complete_step(m, Outcome::LoggedIn { username, result: Ok(()) }).screen == main_menu(),
{
}

/// A page whose first `name="_token" value="` is followed by a token and a
/// closing quote yields that token.
pub proof fn law_csrf_reads_token(pre: Seq<char>, token: Seq<char>, post: Seq<char>)
    requires
        !token.contains('"'),
        forall|i: int|
            0 <= i < pre.len() ==> !occurs_at(
                pre + token_attr() + token + seq!['"'] + post,
                token_attr(),
                i,
            ),
    ensures
        csrf_from_html(pre + token_attr() + token + seq!['"'] + post) == Some(token),
{
    let body = pre + token_attr() + token + seq!['"'] + post;
    let k: int = (pre.len() + token_attr().len()) as int;
    assert(body.subrange(pre.len() as int, k) =~= token_attr());
    lemma_find_least(body, token_attr(), pre.len() as int);
    let rest = body.skip(k);
    assert(rest =~= token + seq!['"'] + post);
    assert(rest.subrange(token.len() as int, token.len() + 1int) =~= seq!['"']);
    assert forall|j: int| 0 <= j < token.len() implies !occurs_at(rest, seq!['"'], j) by {
        if occurs_at(rest, seq!['"'], j) {
            assert(rest.subrange(j, j + 1)[0] == rest[j]);
            assert(token[j] == '"');
        }
    }
    lemma_find_least(rest, seq!['"'], token.len() as int);
    assert(body.subrange(k, k + token.len() as int) =~= token);
}

/// Percent-decoding goes character by character through a part that holds
/// no `%`.
pub proof fn law_decode_prefix(a: Seq<char>, b: Seq<char>)
    requires
        !a.contains('%'),
    ensures
        url_decode(a + b) == url_decode(a) + url_decode(b),
    decreases a.len(),
{
    if a.len() == 0 {
        assert(a + b =~= b);
    } else {
        assert((a + b)[0] == a[0]);
        assert((a + b).skip(1) =~= a.skip(1) + b);
        assert(!a.skip(1).contains('%')) by {
            if a.skip(1).contains('%') {
                let i = choose|i: int| 0 <= i < a.skip(1).len() && a.skip(1)[i] == '%';
                assert(a[i + 1] == '%');
            }
        }
        law_decode_prefix(a.skip(1), b);
    }
}

/// A text with neither `%` nor `+` decodes to itself.
pub proof fn law_decode_plain(s: Seq<char>)
    requires
        !s.contains('%'),
        !s.contains('+'),
    ensures
        url_decode(s) == s,
    decreases s.len(),
{
    if s.len() > 0 {
        assert(s[0] != '%' && s[0] != '+') by {
            assert(s.contains(s[0]));
        }
        assert(!s.skip(1).contains('%') && !s.skip(1).contains('+')) by {
            if s.skip(1).contains('%') || s.skip(1).contains('+') {
                let i = choose|i: int| 0 <= i < s.skip(1).len() && (s.skip(1)[i] == '%' || s.skip(1)[i] == '+');
                assert(s.contains(s[i + 1]));
            }
        }
        law_decode_plain(s.skip(1));
        assert(seq![s[0]] + s.skip(1) =~= s);
    }
}

/// A download job, after the results of `results` file downloads in turn.
pub open spec fn after_files(j: DownloadModel, results: Seq<Result<u64, String>>) -> DownloadModel
    decreases results.len(),
{
    if results.len() == 0 {
        j
    } else {
        download_advance(after_files(j, results.drop_last()), DownloadEvent::File(results.last())).0
    }
}

/// A download asks for the files of the work one after another, in the
/// order the product lists them, whatever became of the earlier ones, and
/// ends after the last: after `k` of `n` files it asks for file `k + 1`.
pub proof fn law_download_in_order(j: DownloadModel, results: Seq<Result<u64, String>>)
    requires
        j.phase == DownloadPhase::Downloading,
        j.next == 0,
        results.len() <= j.files.len(),
        j.files.len() <= usize::MAX,
    ensures
        results.len() < j.files.len() ==> after_files(j, results).phase == DownloadPhase::Downloading
            && after_files(j, results).next == results.len() && after_files(j, results).files
            == j.files,
        results.len() < j.files.len() ==> file_step(after_files(j, results), results.len()).action
            == (DownloadActionModel::DownloadFile {
            work_id: j.work_id,
            number: (results.len() + 1) as usize,
            file_name: j.files[results.len() as int],
            dir: j.dir,
        }),
        results.len() == j.files.len() && j.files.len() > 0 ==> after_files(j, results).phase
            == DownloadPhase::Done,
    decreases results.len(),
{
    lemma_after_files_keeps(j, results);
    if results.len() > 0 {
        law_download_in_order(j, results.drop_last());
    }
}

/// Downloads keep the work and the directory of the job.
proof fn lemma_after_files_keeps(j: DownloadModel, results: Seq<Result<u64, String>>)
    requires
        j.phase == DownloadPhase::Downloading,
    ensures
        after_files(j, results).work_id == j.work_id,
        after_files(j, results).dir == j.dir,
        after_files(j, results).files == j.files,
    decreases results.len(),
{
    if results.len() > 0 {
        lemma_after_files_keeps(j, results.drop_last());
    }
}

/// A sync asks for the pages of the purchase list in order: the first page
/// once the database is open, then always the page after the current one,
/// never beyond the last page.
pub proof fn law_pages_in_order(j: FetchModel, e: FetchEvent)
    requires
        fetch_well_formed(j),
    ensures
        fetch_advance(j, e).1.action matches FetchActionModel::FetchPage(p) ==> p <= j.page_limit
            && p == if j.phase == FetchPhase::OpeningDb { 1 } else { j.page + 1 },
{
}

/// A sync ends with `Library fetch complete!` exactly when it moves on from
/// the last page (or there is no page).
pub proof fn law_sync_completes_after_last_page(j: FetchModel, msgs: Seq<Seq<char>>)
    ensures
        (after_page(j, msgs).1.action == FetchActionModel::Finished) <==> j.page >= j.page_limit,
        j.page >= j.page_limit ==> after_page(j, msgs).1.messages.last() == "Library fetch complete!"@,
{
}

/// A saved cookie file reads back: where the saved jar's cookies have plain
/// names and values, loading the text that saving it wrote succeeds, the
/// jar it gives holds only cookies of the saved jar, and it holds a login
/// only where the saved jar did.
pub proof fn law_saved_cookies_read_back(
    saved: CookieStore,
    text: Seq<u8>,
    loaded: Result<CookieStore, String>,
)
    requires
        plain_jar(jar_cookies(saved)),
        reads_back_within(saved, text),
        loaded_from(text, loaded),
    ensures
        loaded is Ok,
        jar_cookies(loaded->Ok_0).subset_of(jar_cookies(saved)),
        holds_login(loaded->Ok_0) ==> holds_login(saved),
{
    let back = jar_cookies(loaded->Ok_0);
    if holds_login(loaded->Ok_0) {
        let c = choose|c: (Seq<char>, Seq<char>)| back.contains(c) && crate::api::is_session_cookie(c.0);
        assert(jar_cookies(saved).contains(c));
    }
}

/// The works a list screen shows (none for other screens).
pub open spec fn list_works(s: ScreenModel) -> Seq<WorkModel> {
    match s {
        ScreenModel::WorkList { works, .. } => works,
        ScreenModel::WorksInCircle { works, .. } => works,
        _ => Seq::empty(),
    }
}

/// On a list of works, Enter asks whether to download the selected work:
/// the dialog names that work and its action downloads that work.
pub proof fn law_enter_offers_selected_work(m: AppModel)
    requires
        m.screen is WorkList || m.screen is WorksInCircle,
        list_position(m.screen).0 < list_works(m.screen).len(),
    ensures
        ({
            let w = list_works(m.screen)[list_position(m.screen).0 as int];
            let (n, c) = key_step(m, KeyPress { key: Key::Enter, ctrl: false });
            &&& n.screen == (ScreenModel::Confirm {
                message: "Download "@ + w.name + "?"@,
                action: ActionModel::DownloadWork(w.id),
            })
            &&& c == CommandModel::Nothing
            &&& n.status == m.status
        }),
{
}

/// The rows a list shows are the loaded rows, all of them, in the order
/// they were loaded.
pub open spec fn shows_works(shown: Seq<WorkModel>, loaded: Seq<Work>) -> bool {
    shown.len() == loaded.len() && forall|i: int| 0 <= i < loaded.len() ==> shown[i] == loaded[i]@
}

/// A loaded list of works is shown whole and in its order, from its first
/// row: the recent purchases (newest first, as loaded), all works, and the
/// works of a circle; so are the loaded circles.
pub proof fn law_loaded_lists_shown_whole(
    m: AppModel,
    ws: Vec<Work>,
    cs: Vec<(String, usize)>,
    circle: String,
)
    ensures
        ({
            let n = complete_step(m, Outcome::RecentWorks(Ok(ws)));
            &&& n.screen matches ScreenModel::WorkList { works, selected, scroll_offset, title }
                && shows_works(works, ws@) && selected == 0 && scroll_offset == 0 && title
                == "Recent Purchases"@
            &&& n.status == m.status
        }),
        ({
            let n = complete_step(m, Outcome::AllWorks(Ok(ws)));
            &&& n.screen matches ScreenModel::WorkList { works, selected, scroll_offset, title }
                && shows_works(works, ws@) && selected == 0 && scroll_offset == 0 && title
                == "All Works by ID"@
            &&& n.status == m.status
        }),
        ({
            let n = complete_step(m, Outcome::CircleWorks { circle, result: Ok(ws) });
            &&& n.screen matches ScreenModel::WorksInCircle {
                circle: c,
                works,
                selected,
                scroll_offset,
            } && c == circle@ && shows_works(works, ws@) && selected == 0 && scroll_offset == 0
            &&& n.status == m.status
        }),
        ({
            let n = complete_step(m, Outcome::Circles(Ok(cs)));
            &&& n.screen matches ScreenModel::CircleList { circles, selected, scroll_offset }
                && circles.len() == cs@.len() && (forall|i: int|
                0 <= i < cs@.len() ==> circles[i] == (cs@[i].0@, cs@[i].1)) && selected == 0
                && scroll_offset == 0
            &&& n.status == m.status
        }),
{
}

/// Once the product information of a work is in, its download asks for
/// the first file listed, into `downloads/<circle>/<work name>`, and
/// reports it; only a work with no files finishes at once, with nothing
/// downloaded.
pub proof fn law_download_starts_with_first_file(j: DownloadModel, info: WorkInfo)
    requires
        j.phase == DownloadPhase::FetchingInfo,
    ensures
        ({
            let (k, s) = download_advance(j, DownloadEvent::Info(Ok(info)));
            let files = info.contents@;
            &&& files.len() > 0 ==> s.action == (DownloadActionModel::DownloadFile {
                work_id: j.work_id,
                number: 1,
                file_name: files[0].file_name@,
                dir: seq!["downloads"@, info.maker_name@, info.work_name@],
            }) && s.messages == seq![
                "Downloading file "@ + decimal(1) + "/"@ + decimal(files.len()) + ": "@
                    + files[0].file_name@,
            ] && k.phase == DownloadPhase::Downloading && k.next == 0
            &&& files.len() == 0 ==> s.action == DownloadActionModel::Finished && s.messages
                == Seq::<Seq<char>>::empty() && k.phase == DownloadPhase::Done
        }),
{
}

/// Once a work is saved, the sync goes on: to the next work of the page if
/// there is one, else to the next page if there is one; only after the
/// last work of the last page does it finish.
pub proof fn law_saved_work_moves_on(j: FetchModel)
    requires
        fetch_well_formed(j),
        j.phase == FetchPhase::Saving,
        j.items.len() <= usize::MAX,
    ensures
        j.item + 1 < j.items.len() ==> fetch_advance(j, FetchEvent::Saved(Ok(()))).1.action
            == FetchActionModel::FetchInfo(j.items[j.item + 1].0),
        j.item + 1 < j.items.len() ==> fetch_advance(j, FetchEvent::Saved(Ok(()))).1.messages
            == seq!["Saved: "@ + j.items[j.item as int].0 + " - "@ + j.work_name],
        j.item + 1 < j.items.len() ==> fetch_advance(j, FetchEvent::Saved(Ok(()))).0.item == j.item
            + 1 && fetch_advance(j, FetchEvent::Saved(Ok(()))).0.page == j.page,
        j.item + 1 == j.items.len() && j.page < j.page_limit ==> fetch_advance(
            j,
            FetchEvent::Saved(Ok(())),
        ).1.action == FetchActionModel::FetchPage((j.page + 1) as u64),
        j.item + 1 == j.items.len() && j.page < j.page_limit ==> fetch_advance(
            j,
            FetchEvent::Saved(Ok(())),
        ).0.page == j.page + 1 && fetch_advance(j, FetchEvent::Saved(Ok(()))).0.phase
            == FetchPhase::FetchingPage,
        j.item + 1 == j.items.len() && j.page < j.page_limit ==> fetch_advance(
            j,
            FetchEvent::Saved(Ok(())),
        ).1.messages == seq![
            "Saved: "@ + j.items[j.item as int].0 + " - "@ + j.work_name,
            "Fetching page "@ + decimal((j.page + 1) as nat) + "/"@ + decimal(j.page_limit as nat)
                + "..."@,
        ],
        j.item + 1 == j.items.len() && j.page >= j.page_limit ==> fetch_advance(
            j,
            FetchEvent::Saved(Ok(())),
        ).1.action == FetchActionModel::Finished && fetch_advance(j, FetchEvent::Saved(Ok(()))).0.phase
            == FetchPhase::Done,
        j.item + 1 == j.items.len() && j.page >= j.page_limit ==> fetch_advance(
            j,
            FetchEvent::Saved(Ok(())),
        ).1.messages == seq![
            "Saved: "@ + j.items[j.item as int].0 + " - "@ + j.work_name,
            "Library fetch complete!"@,
        ],
{
    let saved = "Saved: "@ + j.items[j.item as int].0 + " - "@ + j.work_name;
    let p = (j.page + 1) as u64;
    assert(seq![saved].push(
        "Fetching page "@ + decimal(p as nat) + "/"@ + decimal(j.page_limit as nat) + "..."@,
    ) =~= seq![
        saved,
        "Fetching page "@ + decimal(p as nat) + "/"@ + decimal(j.page_limit as nat) + "..."@,
    ]);
    assert(seq![saved].push("Library fetch complete!"@) =~= seq![saved, "Library fetch complete!"@]);
}

/// A sync under way (fetching a page, a work's information, or saving a
/// work) finishes only when it has worked through the last page: whatever
/// comes back, ending there means the page was the last one, and, past the
/// page's list, its last work.
pub proof fn law_sync_ends_only_after_last_page(j: FetchModel, e: FetchEvent)
    requires
        fetch_well_formed(j),
        j.phase == FetchPhase::FetchingPage || j.phase == FetchPhase::FetchingInfo || j.phase
            == FetchPhase::Saving,
    ensures
        ({
            let (k, s) = fetch_advance(j, e);
            s.action == FetchActionModel::Finished && k.phase == FetchPhase::Done ==> j.page
                >= j.page_limit && (j.phase != FetchPhase::FetchingPage ==> j.item + 1
                >= j.items.len())
        }),
{
}

/// Where a login page has no `name="_token" value="`, the token is the
/// quoted value of the first `value="` after the first `name="_token"`,
/// whatever `value="` attributes come before it.
pub proof fn law_csrf_value_after_token_name(body: Seq<char>, pos: int, v: int, token: Seq<char>)
    requires
        forall|i: int| !occurs_at(body, token_attr(), i),
        occurs_at(body, token_name(), pos),
        forall|i: int| 0 <= i < pos ==> !occurs_at(body, token_name(), i),
        pos <= v,
        occurs_at(body, value_attr(), v),
        forall|i: int| pos <= i < v ==> !occurs_at(body, value_attr(), i),
        v + value_attr().len() + token.len() < body.len(),
        body.subrange(v + value_attr().len(), v + value_attr().len() + token.len()) == token,
        body[v + value_attr().len() + token.len()] == '"',
        !token.contains('"'),
    ensures
        csrf_from_html(body) == Some(token),
{
    lemma_find_from(body, token_attr(), 0);
    lemma_find_least(body, token_name(), pos);
    let rest = body.skip(pos);
    assert(occurs_at(rest, value_attr(), v - pos)) by {
        assert(rest.subrange(v - pos, v - pos + value_attr().len()) =~= body.subrange(
            v,
            v + value_attr().len(),
        ));
    }
    assert forall|i: int| 0 <= i < v - pos implies !occurs_at(rest, value_attr(), i) by {
        if occurs_at(rest, value_attr(), i) {
            assert(rest.subrange(i, i + value_attr().len()) =~= body.subrange(
                pos + i,
                pos + i + value_attr().len(),
            ));
            assert(occurs_at(body, value_attr(), pos + i));
        }
    }
    lemma_find_least(rest, value_attr(), v - pos);
    let k = v + value_attr().len();
    let after = body.skip(k);
    assert(after.subrange(token.len() as int, token.len() + 1int) =~= seq!['"']);
    assert forall|i: int| 0 <= i < token.len() implies !occurs_at(after, seq!['"'], i) by {
        if occurs_at(after, seq!['"'], i) {
            assert(after.subrange(i, i + 1)[0] == after[i]);
            assert(after[i] == body.subrange(k, k + token.len())[i]);
            assert(token[i] == '"');
        }
    }
    lemma_find_least(after, seq!['"'], token.len() as int);
}

/// Enter on the main menu does what the selected entry says: list all
/// works, list the circles, list the recent purchases, or ask before
/// downloading everything.
pub proof fn law_menu_enter_follows_entry(m: AppModel, selected: usize)
    requires
        m.screen == (ScreenModel::MainMenu { selected }),
    ensures
        ({
            let (n, c) = key_step(m, KeyPress { key: Key::Enter, ctrl: false });
            &&& selected == 0 ==> c == CommandModel::LoadAllWorks && n == m
            &&& selected == 1 ==> c == CommandModel::LoadCircles && n == m
            &&& selected == 2 ==> c == CommandModel::LoadRecentWorks && n == m
            &&& selected == 3 ==> c == CommandModel::Nothing && n.screen == (ScreenModel::Confirm {
                message: "Download all works?"@,
                action: ActionModel::DownloadAll,
            })
        }),
{
}

/// Enter on the login screen submits the user name and password typed, and
/// leaves the form as it is.
pub proof fn law_login_enter_submits(m: AppModel)
    requires
        m.screen is Login,
    ensures
        key_step(m, KeyPress { key: Key::Enter, ctrl: false }) == (
            m,
            CommandModel::AttemptLogin {
                username: m.screen->Login_username,
                password: m.screen->Login_password,
            },
        ),
{
}

/// Enter on the list of circles asks for the works of the selected circle.
pub proof fn law_circle_enter_loads_selected(m: AppModel)
    requires
        m.screen matches ScreenModel::CircleList { circles, selected, .. } && selected
            < circles.len(),
    ensures
        key_step(m, KeyPress { key: Key::Enter, ctrl: false }) == (
            m,
            CommandModel::LoadCircleWorks(m.screen->CircleList_circles[m.screen->CircleList_selected as int].0),
        ),
{
}

/// A list that could not be loaded leaves the screen as it was and shows
/// the error in the status line.
pub proof fn law_load_error_keeps_screen(m: AppModel, e: String)
    ensures
        complete_step(m, Outcome::AllWorks(Err(e))) == (AppModel { status: "Error: "@ + e@, ..m }),
        complete_step(m, Outcome::RecentWorks(Err(e))) == (AppModel { status: "Error: "@ + e@, ..m }),
        complete_step(m, Outcome::Circles(Err(e))) == (AppModel { status: "Error: "@ + e@, ..m }),
{
}

/// The count of the library sets how many pages the sync reads, and the
/// sync then opens the database; once it is open, page 1 is fetched first,
/// or the sync ends at once when there are no pages.
pub proof fn law_sync_starts_at_page_one(j: FetchModel, user: u64, limit: u64)
    ensures
        j.phase == FetchPhase::Counting ==> ({
            let (k, s) = fetch_advance(j, FetchEvent::Count(Ok((user, limit))));
            &&& k.page_limit == limit && k.phase == FetchPhase::OpeningDb
            &&& s.action == FetchActionModel::OpenDb
            &&& s.messages == seq![
                "Total works: "@ + decimal(user as nat) + ", pages: "@ + decimal(limit as nat),
            ]
        }),
        j.phase == FetchPhase::OpeningDb ==> ({
            let (k, s) = fetch_advance(j, FetchEvent::DbOpened(Ok(())));
            &&& j.page_limit >= 1 ==> s.action == FetchActionModel::FetchPage(1) && k.page == 1
                && k.phase == FetchPhase::FetchingPage
            &&& j.page_limit == 0 ==> s.action == FetchActionModel::Finished && k.phase
                == FetchPhase::Done
        }),
{
}

/// A fetched page is worked through from its first work; an empty page or
/// one that could not be fetched moves on to the next page.
pub proof fn law_page_starts_with_first_work(j: FetchModel, items: Vec<(String, String)>, err: String)
    requires
        fetch_well_formed(j),
        j.phase == FetchPhase::FetchingPage,
    ensures
        items@.len() > 0 ==> ({
            let (k, s) = fetch_advance(j, FetchEvent::Page(Ok(items)));
            &&& s.action == FetchActionModel::FetchInfo(items@[0].0@)
            &&& k.phase == FetchPhase::FetchingInfo && k.item == 0 && k.page == j.page
            &&& k.items.len() == items@.len() && (forall|i: int|
                0 <= i < items@.len() ==> k.items[i] == (items@[i].0@, items@[i].1@))
            &&& s.messages.len() == 0
        }),
        items@.len() == 0 ==> fetch_advance(j, FetchEvent::Page(Ok(items))).1.action == (if j.page
            < j.page_limit {
            FetchActionModel::FetchPage((j.page + 1) as u64)
        } else {
            FetchActionModel::Finished
        }),
        fetch_advance(j, FetchEvent::Page(Err(err))).1.action == (if j.page < j.page_limit {
            FetchActionModel::FetchPage((j.page + 1) as u64)
        } else {
            FetchActionModel::Finished
        }),
        fetch_advance(j, FetchEvent::Page(Err(err))).1.messages[0] == "Error fetching page "@
            + decimal(j.page as nat) + ": "@ + err@,
{
}

/// The information of a work is saved as the work's record: its id and
/// purchase date from the page, its title and circle from the information,
/// and the number of its files; information that could not be fetched is
/// reported and the sync goes on to the next work.
pub proof fn law_info_is_saved(j: FetchModel, info: WorkInfo, err: String)
    requires
        fetch_well_formed(j),
        j.phase == FetchPhase::FetchingInfo,
        j.items.len() <= usize::MAX,
    ensures
        ({
            let (k, s) = fetch_advance(j, FetchEvent::Info(Ok(info)));
            &&& s.action == FetchActionModel::Save(
                WorkModel {
                    id: j.items[j.item as int].0,
                    name: info.work_name@,
                    circle: info.maker_name@,
                    file_count: info.contents@.len() as i64,
                    purchase_date: j.items[j.item as int].1,
                },
            )
            &&& k.phase == FetchPhase::Saving && k.item == j.item && k.page == j.page
        }),
        ({
            let (k, s) = fetch_advance(j, FetchEvent::Info(Err(err)));
            &&& s.messages[0] == "Error fetching info for "@ + j.items[j.item as int].0 + ": "@
                + err@
            &&& j.item + 1 < j.items.len() ==> s.action == FetchActionModel::FetchInfo(
                j.items[j.item + 1].0,
            ) && k.item == j.item + 1
            &&& j.item + 1 == j.items.len() ==> s.action == (if j.page < j.page_limit {
                FetchActionModel::FetchPage((j.page + 1) as u64)
            } else {
                FetchActionModel::Finished
            })
        }),
{
}

/// Where a page has neither form of the `_token` field, the token is the
/// quoted content of the first `name="csrf-token" content="`.
pub proof fn law_csrf_from_meta(pre: Seq<char>, token: Seq<char>, post: Seq<char>)
    requires
        !token.contains('"'),
        ({
            let body = pre + crate::api::meta_attr() + token + seq!['"'] + post;
            &&& forall|i: int| !occurs_at(body, token_attr(), i)
            &&& forall|i: int| !occurs_at(body, token_name(), i)
            &&& forall|i: int| 0 <= i < pre.len() ==> !occurs_at(body, crate::api::meta_attr(), i)
        }),
    ensures
        csrf_from_html(pre + crate::api::meta_attr() + token + seq!['"'] + post) == Some(token),
{
    let attr = crate::api::meta_attr();
    let body = pre + attr + token + seq!['"'] + post;
    lemma_find_from(body, token_attr(), 0);
    lemma_find_from(body, token_name(), 0);
    let k: int = (pre.len() + attr.len()) as int;
    assert(body.subrange(pre.len() as int, k) =~= attr);
    lemma_find_least(body, attr, pre.len() as int);
    let rest = body.skip(k);
    assert(rest =~= token + seq!['"'] + post);
    assert(rest.subrange(token.len() as int, token.len() + 1int) =~= seq!['"']);
    assert forall|j: int| 0 <= j < token.len() implies !occurs_at(rest, seq!['"'], j) by {
        if occurs_at(rest, seq!['"'], j) {
            assert(rest.subrange(j, j + 1)[0] == rest[j]);
            assert(token[j] == '"');
        }
    }
    lemma_find_least(rest, seq!['"'], token.len() as int);
    assert(body.subrange(k, k + token.len() as int) =~= token);
}

} // verus!
