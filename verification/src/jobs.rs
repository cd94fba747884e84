//! The background jobs: downloading the files of a work and syncing the
//! purchase list into the database. Each job is a state machine: it says
//! which request to make next and which progress messages to report, and is
//! told how each request went.
use vstd::prelude::*;
use crate::api::{WorkInfo, FileInfo};
use crate::db::{work_from_info, Work, WorkModel};
use crate::text::{decimal, owned, push_decimal, push_str};

verus! {

/// The values of a list of lines.
pub open spec fn strings_view(v: Seq<String>) -> Seq<Seq<char>> {
    v.map_values(|s: String| s@)
}

/// The file names of a list of files.
pub open spec fn file_names(files: Seq<FileInfo>) -> Seq<Seq<char>> {
    files.map_values(|f: FileInfo| f.file_name@)
}

// ---------------------------------------------------------------------
// Downloading one work.
// ---------------------------------------------------------------------

/// Where a download job stands.
#[derive(Clone, Copy, Debug, PartialEq, Eq, Structural)]
pub enum DownloadPhase {
    /// Waiting for the product information of the work.
    FetchingInfo,
    /// Waiting for file number `next + 1`.
    Downloading,
    /// Nothing more to do.
    Done,
}

/// The download of all files of one work.
pub struct DownloadJob {
    pub work_id: String,
    /// The names of the files, in the order the product lists them.
    pub files: Vec<String>,
    /// The directory the files go to, as path components.
    pub dir: Vec<String>,
    /// The index of the file being downloaded.
    pub next: usize,
    pub phase: DownloadPhase,
}

/// The value of a [`DownloadJob`].
pub struct DownloadModel {
    pub work_id: Seq<char>,
    pub files: Seq<Seq<char>>,
    pub dir: Seq<Seq<char>>,
    pub next: usize,
    pub phase: DownloadPhase,
}

impl View for DownloadJob {
    type V = DownloadModel;

    open spec fn view(&self) -> DownloadModel {
        DownloadModel {
            work_id: self.work_id@,
            files: strings_view(self.files@),
            dir: strings_view(self.dir@),
            next: self.next,
            phase: self.phase,
        }
    }
}

/// What a download job asks for next.
pub enum DownloadAction {
    /// Fetch the product information of the work.
    FetchInfo(String),
    /// Download file `number` (counted from 1) named `file_name` into `dir`.
    DownloadFile { work_id: String, number: usize, file_name: String, dir: Vec<String> },
    /// The job is over.
    Finished,
}

/// The value of a [`DownloadAction`].
pub enum DownloadActionModel {
    FetchInfo(Seq<char>),
    DownloadFile { work_id: Seq<char>, number: usize, file_name: Seq<char>, dir: Seq<Seq<char>> },
    Finished,
}

impl View for DownloadAction {
    type V = DownloadActionModel;

    open spec fn view(&self) -> DownloadActionModel {
        match self {
            DownloadAction::FetchInfo(id) => DownloadActionModel::FetchInfo(id@),
            DownloadAction::DownloadFile { work_id, number, file_name, dir } =>
                DownloadActionModel::DownloadFile {
                    work_id: work_id@,
                    number: *number,
                    file_name: file_name@,
                    dir: strings_view(dir@),
                },
            DownloadAction::Finished => DownloadActionModel::Finished,
        }
    }
}

/// How a request of a download job went (errors as their messages).
pub enum DownloadEvent {
    Info(Result<WorkInfo, String>),
    File(Result<u64, String>),
}

/// The progress messages to report, then the next request.
pub struct DownloadStep {
    pub messages: Vec<String>,
    pub action: DownloadAction,
}

/// The value of a [`DownloadStep`].
pub struct DownloadStepModel {
    pub messages: Seq<Seq<char>>,
    pub action: DownloadActionModel,
}

impl View for DownloadStep {
    type V = DownloadStepModel;

    open spec fn view(&self) -> DownloadStepModel {
        DownloadStepModel { messages: strings_view(self.messages@), action: self.action@ }
    }
}

/// The directory the files of a work go to: `downloads/<circle>/<work name>`.
pub open spec fn download_dir(info: WorkInfo) -> Seq<Seq<char>> {
    seq!["downloads"@, info.maker_name@, info.work_name@]
}

/// `Downloading file <i+1>/<n>: <name>`
pub open spec fn downloading_message(i: nat, n: nat, name: Seq<char>) -> Seq<char> {
    "Downloading file "@ + decimal(i + 1) + "/"@ + decimal(n) + ": "@ + name
}

/// The step that asks for file `i` of the job.
pub open spec fn file_step(j: DownloadModel, i: nat) -> DownloadStepModel {
    DownloadStepModel {
        messages: seq![downloading_message(i, j.files.len(), j.files[i as int])],
        action: DownloadActionModel::DownloadFile {
            work_id: j.work_id,
            number: (i + 1) as usize,
            file_name: j.files[i as int],
            dir: j.dir,
        },
    }
}

/// The job with nothing more to do, and the step that says so.
pub open spec fn download_finished(j: DownloadModel, messages: Seq<Seq<char>>) -> (
    DownloadModel,
    DownloadStepModel,
) {
    (
        DownloadModel { phase: DownloadPhase::Done, ..j },
        DownloadStepModel { messages, action: DownloadActionModel::Finished },
    )
}

/// A download job after a request of it has gone as `e`.
pub open spec fn download_advance(j: DownloadModel, e: DownloadEvent) -> (
    DownloadModel,
    DownloadStepModel,
) {
    match (j.phase, e) {
        (DownloadPhase::FetchingInfo, DownloadEvent::Info(Err(err))) => download_finished(
            j,
            seq!["Error fetching info for "@ + j.work_id + ": "@ + err@],
        ),
        (DownloadPhase::FetchingInfo, DownloadEvent::Info(Ok(info))) => {
            let k = DownloadModel {
                work_id: j.work_id,
                files: file_names(info.contents@),
                dir: download_dir(info),
                next: 0,
                phase: DownloadPhase::Downloading,
            };
            if k.files.len() == 0 {
                download_finished(k, seq![])
            } else {
                (k, file_step(k, 0))
            }
        },
        (DownloadPhase::Downloading, DownloadEvent::File(r)) => {
            let name = j.files[j.next as int];
            let report = match r {
                Ok(bytes) => "Downloaded "@ + name + " ("@ + decimal(bytes as nat) + " bytes)"@,
                Err(err) => "Error downloading "@ + name + ": "@ + err@,
            };
            if j.next + 1 < j.files.len() {
                let k = DownloadModel { next: (j.next + 1) as usize, ..j };
                let s = file_step(k, k.next as nat);
                (k, DownloadStepModel { messages: seq![report] + s.messages, action: s.action })
            } else {
                download_finished(j, seq![report])
            }
        },
        _ => (j, DownloadStepModel { messages: seq![], action: DownloadActionModel::Finished }),
    }
}

/// A download job is consistent: while it downloads, the file being
/// downloaded is one of the work's files.
pub open spec fn download_well_formed(j: DownloadModel) -> bool {
    j.phase == DownloadPhase::Downloading ==> j.next < j.files.len()
}

/// `a + b` as a fresh string.
fn cat(a: &str, b: &str) -> (r: String)
    ensures
        r@ == a@ + b@,
{
    let mut r = owned(a);
    push_str(&mut r, b);
    r
}

/// A step with nothing to report that ends the job.
fn idle_step() -> (s: DownloadStep)
    ensures
        s@ == (DownloadStepModel { messages: seq![], action: DownloadActionModel::Finished }),
{
    let s = DownloadStep { messages: Vec::new(), action: DownloadAction::Finished };
    assert(s@.messages =~= seq![]);
    s
}

/// The message and request for file `i` of the job.
fn file_step_exec(j: &DownloadJob, i: usize) -> (s: DownloadStep)
    requires
        i < j.files.len(),
    ensures
        s@ == file_step(j@, i as nat),
{
    let name = &j.files[i];
    let mut m = owned("Downloading file ");
    push_decimal(&mut m, (i + 1) as u64);
    push_str(&mut m, "/");
    push_decimal(&mut m, j.files.len() as u64);
    push_str(&mut m, ": ");
    push_str(&mut m, name.as_str());
    let messages = vec![m];
    let mut dir: Vec<String> = Vec::new();
    let mut k: usize = 0;
    while k < j.dir.len()
        invariant
            k <= j.dir.len(),
            strings_view(dir@) == strings_view(j.dir@).subrange(0, k as int),
        decreases j.dir.len() - k,
    {
        let c = j.dir[k].clone();
        let ghost before = dir@;
        dir.push(c);
        assert(dir@ == before.push(c));
        assert(strings_view(dir@) =~= strings_view(before).push(c@));
        assert(strings_view(dir@) =~= strings_view(j.dir@).subrange(0, k + 1));
        k = k + 1;
    }
    assert(strings_view(dir@) =~= strings_view(j.dir@));
    let step = DownloadStep {
        messages,
        action: DownloadAction::DownloadFile {
            work_id: j.work_id.clone(),
            number: i + 1,
            file_name: name.clone(),
            dir,
        },
    };
    assert(step@.messages =~= file_step(j@, i as nat).messages);
    step
}

/// Starts the download of work `work_id`: first its product information is
/// fetched.
pub fn download_work(work_id: &str) -> (r: (DownloadJob, DownloadStep))
    ensures
        r.0@ == (DownloadModel {
            work_id: work_id@,
            files: seq![],
            dir: seq![],
            next: 0,
            phase: DownloadPhase::FetchingInfo,
        }),
        r.1@ == (DownloadStepModel {
            messages: seq!["Fetching info for "@ + work_id@ + "..."@],
            action: DownloadActionModel::FetchInfo(work_id@),
        }),
{
    let job = DownloadJob {
        work_id: owned(work_id),
        files: Vec::new(),
        dir: Vec::new(),
        next: 0,
        phase: DownloadPhase::FetchingInfo,
    };
    let mut m = cat("Fetching info for ", work_id);
    push_str(&mut m, "...");
    let messages = vec![m];
    let step = DownloadStep { messages, action: DownloadAction::FetchInfo(owned(work_id)) };
    assert(job@.files =~= seq![]);
    assert(job@.dir =~= seq![]);
    assert(step@.messages =~= seq!["Fetching info for "@ + work_id@ + "..."@]);
    (job, step)
}

impl DownloadJob {
    /// Takes in how the last request went; gives the messages to report and
    /// the next request.
    pub fn advance(&mut self, event: DownloadEvent) -> (s: DownloadStep)
        requires
            download_well_formed(old(self)@),
        ensures
            (final(self)@, s@) == download_advance(old(self)@, event),
            download_well_formed(final(self)@),
    {
        match event {
            DownloadEvent::Info(r) => {
                if self.phase != DownloadPhase::FetchingInfo {
                    return idle_step();
                }
                match r {
                    Err(err) => {
                        self.phase = DownloadPhase::Done;
                        let mut m = cat("Error fetching info for ", self.work_id.as_str());
                        push_str(&mut m, ": ");
                        push_str(&mut m, err.as_str());
                        let messages = vec![m];
                        let s = DownloadStep { messages, action: DownloadAction::Finished };
                        assert(s@.messages =~= download_advance(old(self)@, event).1.messages);
                        s
                    },
                    Ok(info) => {
                        let mut files: Vec<String> = Vec::new();
                        let mut k: usize = 0;
                        while k < info.contents.len()
                            invariant
                                k <= info.contents.len(),
                                strings_view(files@) == file_names(info.contents@).subrange(
                                    0,
                                    k as int,
                                ),
                            decreases info.contents.len() - k,
                        {
                            let c = info.contents[k].file_name.clone();
                            let ghost before = files@;
                            files.push(c);
                            assert(strings_view(files@) =~= strings_view(before).push(c@));
                            assert(strings_view(files@) =~= file_names(info.contents@).subrange(
                                0,
                                k + 1,
                            ));
                            k = k + 1;
                        }
                        assert(strings_view(files@) =~= file_names(info.contents@));
                        let dir = vec![
                            owned("downloads"),
                            info.maker_name.clone(),
                            info.work_name.clone(),
                        ];
                        assert(strings_view(dir@) =~= download_dir(info));
                        self.files = files;
                        self.dir = dir;
                        self.next = 0;
                        if self.files.len() == 0 {
                            self.phase = DownloadPhase::Done;
                            let s = DownloadStep {
                                messages: Vec::new(),
                                action: DownloadAction::Finished,
                            };
                            assert(s@.messages =~= seq![]);
                            s
                        } else {
                            self.phase = DownloadPhase::Downloading;
                            file_step_exec(self, 0)
                        }
                    },
                }
            },
            DownloadEvent::File(r) => {
                if self.phase != DownloadPhase::Downloading {
                    return idle_step();
                }
                let report = {
                    let name = self.files[self.next].as_str();
                    match r {
                        Ok(bytes) => {
                            let mut m = cat("Downloaded ", name);
                            push_str(&mut m, " (");
                            push_decimal(&mut m, bytes);
                            push_str(&mut m, " bytes)");
                            m
                        },
                        Err(err) => {
                            let mut m = cat("Error downloading ", name);
                            push_str(&mut m, ": ");
                            push_str(&mut m, err.as_str());
                            m
                        },
                    }
                };
                if self.files.len() - self.next > 1 {
                    self.next = self.next + 1;
                    let s = file_step_exec(self, self.next);
                    let mut messages = vec![report];
                    let mut more = s.messages;
                    messages.append(&mut more);
                    let out = DownloadStep { messages, action: s.action };
                    assert(out@.messages =~= download_advance(old(self)@, event).1.messages);
                    out
                } else {
                    self.phase = DownloadPhase::Done;
                    let messages = vec![report];
                    let out = DownloadStep { messages, action: DownloadAction::Finished };
                    assert(out@.messages =~= download_advance(old(self)@, event).1.messages);
                    out
                }
            },
        }
    }
}

// ---------------------------------------------------------------------
// Syncing the library.
// ---------------------------------------------------------------------

/// Where a library sync stands.
#[derive(Clone, Copy, Debug, PartialEq, Eq, Structural)]
pub enum FetchPhase {
    /// Waiting for the number of works and pages.
    Counting,
    /// Waiting for the database.
    OpeningDb,
    /// Waiting for page `page` of the purchase list.
    FetchingPage,
    /// Waiting for the product information of work `items[item]`.
    FetchingInfo,
    /// Waiting for the record of work `items[item]` to be saved.
    Saving,
    /// Nothing more to do.
    Done,
}

/// A sync of the purchase list into the database.
pub struct FetchJob {
    pub phase: FetchPhase,
    /// The page being worked on, counted from 1.
    pub page: u64,
    pub page_limit: u64,
    /// The `(work id, purchase date)` pairs of the current page.
    pub items: Vec<(String, String)>,
    /// The index of the work being worked on.
    pub item: usize,
    /// The title of the work being saved.
    pub work_name: String,
}

/// The value of a [`FetchJob`].
pub struct FetchModel {
    pub phase: FetchPhase,
    pub page: u64,
    pub page_limit: u64,
    pub items: Seq<(Seq<char>, Seq<char>)>,
    pub item: usize,
    pub work_name: Seq<char>,
}

impl View for FetchJob {
    type V = FetchModel;

    open spec fn view(&self) -> FetchModel {
        FetchModel {
            phase: self.phase,
            page: self.page,
            page_limit: self.page_limit,
            items: crate::api::pairs_view(self.items@),
            item: self.item,
            work_name: self.work_name@,
        }
    }
}

/// What a sync asks for next.
pub enum FetchAction {
    /// Fetch the number of works and of pages.
    FetchCount,
    /// Open the database.
    OpenDb,
    /// Fetch a page of the purchase list.
    FetchPage(u64),
    /// Fetch the product information of a work.
    FetchInfo(String),
    /// Save (insert or update) the record of a work.
    Save(Work),
    /// The sync is over.
    Finished,
}

/// The value of a [`FetchAction`].
pub enum FetchActionModel {
    FetchCount,
    OpenDb,
    FetchPage(u64),
    FetchInfo(Seq<char>),
    Save(WorkModel),
    Finished,
}

impl View for FetchAction {
    type V = FetchActionModel;

    open spec fn view(&self) -> FetchActionModel {
        match self {
            FetchAction::FetchCount => FetchActionModel::FetchCount,
            FetchAction::OpenDb => FetchActionModel::OpenDb,
            FetchAction::FetchPage(p) => FetchActionModel::FetchPage(*p),
            FetchAction::FetchInfo(id) => FetchActionModel::FetchInfo(id@),
            FetchAction::Save(w) => FetchActionModel::Save(w@),
            FetchAction::Finished => FetchActionModel::Finished,
        }
    }
}

/// How a request of a sync went (errors as their messages).
pub enum FetchEvent {
    /// The number of works and the number of pages.
    Count(Result<(u64, u64), String>),
    DbOpened(Result<(), String>),
    /// The `(work id, purchase date)` pairs of a page.
    Page(Result<Vec<(String, String)>, String>),
    Info(Result<WorkInfo, String>),
    Saved(Result<(), String>),
}

/// The progress messages to report, then the next request.
pub struct FetchStep {
    pub messages: Vec<String>,
    pub action: FetchAction,
}

/// The value of a [`FetchStep`].
pub struct FetchStepModel {
    pub messages: Seq<Seq<char>>,
    pub action: FetchActionModel,
}

impl View for FetchStep {
    type V = FetchStepModel;

    open spec fn view(&self) -> FetchStepModel {
        FetchStepModel { messages: strings_view(self.messages@), action: self.action@ }
    }
}

/// `Fetching page <p>/<n>...`
pub open spec fn page_message(p: u64, n: u64) -> Seq<char> {
    "Fetching page "@ + decimal(p as nat) + "/"@ + decimal(n as nat) + "..."@
}

/// Moving on after the current page: to the next page, or the end.
pub open spec fn after_page(j: FetchModel, msgs: Seq<Seq<char>>) -> (FetchModel, FetchStepModel) {
    if j.page < j.page_limit {
        let p = (j.page + 1) as u64;
        (
            FetchModel { phase: FetchPhase::FetchingPage, page: p, ..j },
            FetchStepModel {
                messages: msgs.push(page_message(p, j.page_limit)),
                action: FetchActionModel::FetchPage(p),
            },
        )
    } else {
        (
            FetchModel { phase: FetchPhase::Done, ..j },
            FetchStepModel {
                messages: msgs.push("Library fetch complete!"@),
                action: FetchActionModel::Finished,
            },
        )
    }
}

/// Working on item `i` of the page, if there is one, else moving on.
pub open spec fn at_item(j: FetchModel, i: int, msgs: Seq<Seq<char>>) -> (FetchModel, FetchStepModel) {
    if 0 <= i < j.items.len() {
        (
            FetchModel { phase: FetchPhase::FetchingInfo, item: i as usize, ..j },
            FetchStepModel {
                messages: msgs,
                action: FetchActionModel::FetchInfo(j.items[i].0),
            },
        )
    } else {
        after_page(j, msgs)
    }
}

/// A sync after a request of it has gone as `e`.
pub open spec fn fetch_advance(j: FetchModel, e: FetchEvent) -> (FetchModel, FetchStepModel) {
    let done = |msgs: Seq<Seq<char>>|
        (
            FetchModel { phase: FetchPhase::Done, ..j },
            FetchStepModel { messages: msgs, action: FetchActionModel::Finished },
        );
    match (j.phase, e) {
        (FetchPhase::Counting, FetchEvent::Count(Err(err))) => done(
            seq!["Error fetching count: "@ + err@],
        ),
        (FetchPhase::Counting, FetchEvent::Count(Ok((user, limit)))) => (
            FetchModel { phase: FetchPhase::OpeningDb, page_limit: limit, ..j },
            FetchStepModel {
                messages: seq![
                    "Total works: "@ + decimal(user as nat) + ", pages: "@ + decimal(limit as nat),
                ],
                action: FetchActionModel::OpenDb,
            },
        ),
        (FetchPhase::OpeningDb, FetchEvent::DbOpened(Err(err))) => done(seq!["DB error: "@ + err@]),
        (FetchPhase::OpeningDb, FetchEvent::DbOpened(Ok(_))) => after_page(
            FetchModel { page: 0, ..j },
            seq![],
        ),
        (FetchPhase::FetchingPage, FetchEvent::Page(Err(err))) => after_page(
            j,
            seq!["Error fetching page "@ + decimal(j.page as nat) + ": "@ + err@],
        ),
        (FetchPhase::FetchingPage, FetchEvent::Page(Ok(items))) => at_item(
            FetchModel { items: crate::api::pairs_view(items@), ..j },
            0,
            seq![],
        ),
        (FetchPhase::FetchingInfo, FetchEvent::Info(Err(err))) => at_item(
            j,
            j.item + 1,
            seq!["Error fetching info for "@ + j.items[j.item as int].0 + ": "@ + err@],
        ),
        (FetchPhase::FetchingInfo, FetchEvent::Info(Ok(info))) => (
            FetchModel { phase: FetchPhase::Saving, work_name: info.work_name@, ..j },
            FetchStepModel {
                messages: seq![],
                action: FetchActionModel::Save(
                    WorkModel {
                        id: j.items[j.item as int].0,
                        name: info.work_name@,
                        circle: info.maker_name@,
                        file_count: info.contents@.len() as i64,
                        purchase_date: j.items[j.item as int].1,
                    },
                ),
            },
        ),
        (FetchPhase::Saving, FetchEvent::Saved(Err(err))) => at_item(
            j,
            j.item + 1,
            seq!["DB error for "@ + j.items[j.item as int].0 + ": "@ + err@],
        ),
        (FetchPhase::Saving, FetchEvent::Saved(Ok(_))) => at_item(
            j,
            j.item + 1,
            seq!["Saved: "@ + j.items[j.item as int].0 + " - "@ + j.work_name],
        ),
        _ => (j, FetchStepModel { messages: seq![], action: FetchActionModel::Finished }),
    }
}

/// A sync is consistent: the page being worked on is one of the pages, and
/// the work being worked on is one of the page's works.
pub open spec fn fetch_well_formed(j: FetchModel) -> bool {
    &&& (j.phase == FetchPhase::FetchingPage || j.phase == FetchPhase::FetchingInfo || j.phase
        == FetchPhase::Saving) ==> 1 <= j.page <= j.page_limit
    &&& (j.phase == FetchPhase::FetchingInfo || j.phase == FetchPhase::Saving) ==> j.item
        < j.items.len()
}

/// Starts a sync: first the number of works and pages is fetched.
pub fn fetch_library() -> (r: (FetchJob, FetchStep))
    ensures
        r.0@ == (FetchModel {
            phase: FetchPhase::Counting,
            page: 0,
            page_limit: 0,
            items: seq![],
            item: 0,
            work_name: seq![],
        }),
        fetch_well_formed(r.0@),
        r.1@ == (FetchStepModel {
            messages: seq!["Fetching library count..."@],
            action: FetchActionModel::FetchCount,
        }),
{
    let job = FetchJob {
        phase: FetchPhase::Counting,
        page: 0,
        page_limit: 0,
        items: Vec::new(),
        item: 0,
        work_name: String::new(),
    };
    assert(job@.items =~= seq![]);
    let messages = vec![owned("Fetching library count...")];
    let step = FetchStep { messages, action: FetchAction::FetchCount };
    assert(step@.messages =~= seq!["Fetching library count..."@]);
    (job, step)
}

/// A step with the given messages that ends the sync.
fn fetch_end(messages: Vec<String>) -> (s: FetchStep)
    ensures
        s@ == (FetchStepModel { messages: strings_view(messages@), action: FetchActionModel::Finished }),
{
    FetchStep { messages, action: FetchAction::Finished }
}

/// A step with nothing to report that ends the sync.
fn fetch_idle() -> (s: FetchStep)
    ensures
        s@ == (FetchStepModel { messages: seq![], action: FetchActionModel::Finished }),
{
    let s = FetchStep { messages: Vec::new(), action: FetchAction::Finished };
    assert(s@.messages =~= seq![]);
    s
}

/// `[m]`
fn one(m: String) -> (v: Vec<String>)
    ensures
        strings_view(v@) == seq![m@],
{
    let v = vec![m];
    assert(strings_view(v@) =~= seq![m@]);
    v
}

impl FetchJob {
    /// Moves on after the current page.
    fn next_page(&mut self, messages: Vec<String>) -> (s: FetchStep)
        ensures
            (final(self)@, s@) == after_page(old(self)@, strings_view(messages@)),
    {
        let mut messages = messages;
        let ghost before = messages@;
        if self.page < self.page_limit {
            self.page = self.page + 1;
            self.phase = FetchPhase::FetchingPage;
            let mut m = owned("Fetching page ");
            push_decimal(&mut m, self.page);
            push_str(&mut m, "/");
            push_decimal(&mut m, self.page_limit);
            push_str(&mut m, "...");
            messages.push(m);
            assert(strings_view(messages@) =~= strings_view(before).push(m@));
            FetchStep { messages, action: FetchAction::FetchPage(self.page) }
        } else {
            self.phase = FetchPhase::Done;
            let m = owned("Library fetch complete!");
            messages.push(m);
            assert(strings_view(messages@) =~= strings_view(before).push(m@));
            fetch_end(messages)
        }
    }

    /// Works on item `i` of the page if there is one, else moves on.
    fn work_on(&mut self, i: usize, messages: Vec<String>) -> (s: FetchStep)
        ensures
            (final(self)@, s@) == at_item(old(self)@, i as int, strings_view(messages@)),
    {
        if i < self.items.len() {
            self.phase = FetchPhase::FetchingInfo;
            self.item = i;
            let id = self.items[i].0.clone();
            FetchStep { messages, action: FetchAction::FetchInfo(id) }
        } else {
            self.next_page(messages)
        }
    }

    /// Works on the item after the current one if there is one, else moves
    /// on.
    fn work_on_next(&mut self, messages: Vec<String>) -> (s: FetchStep)
        ensures
            (final(self)@, s@) == at_item(old(self)@, old(self)@.item + 1, strings_view(messages@)),
    {
        if self.item < self.items.len() && self.items.len() - self.item > 1 {
            self.work_on(self.item + 1, messages)
        } else {
            self.next_page(messages)
        }
    }

    /// Takes in how the last request went; gives the messages to report and
    /// the next request.
    pub fn advance(&mut self, event: FetchEvent) -> (s: FetchStep)
        requires
            fetch_well_formed(old(self)@),
        ensures
            (final(self)@, s@) == fetch_advance(old(self)@, event),
            fetch_well_formed(final(self)@),
    {
        match event {
            FetchEvent::Count(r) => {
                if self.phase != FetchPhase::Counting {
                    return fetch_idle();
                }
                match r {
                    Err(err) => {
                        self.phase = FetchPhase::Done;
                        let m = cat("Error fetching count: ", err.as_str());
                        fetch_end(one(m))
                    },
                    Ok((user, limit)) => {
                        self.phase = FetchPhase::OpeningDb;
                        self.page_limit = limit;
                        let mut m = owned("Total works: ");
                        push_decimal(&mut m, user);
                        push_str(&mut m, ", pages: ");
                        push_decimal(&mut m, limit);
                        FetchStep { messages: one(m), action: FetchAction::OpenDb }
                    },
                }
            },
            FetchEvent::DbOpened(r) => {
                if self.phase != FetchPhase::OpeningDb {
                    return fetch_idle();
                }
                match r {
                    Err(err) => {
                        self.phase = FetchPhase::Done;
                        let m = cat("DB error: ", err.as_str());
                        fetch_end(one(m))
                    },
                    Ok(()) => {
                        self.page = 0;
                        let none: Vec<String> = Vec::new();
                        assert(strings_view(none@) =~= seq![]);
                        self.next_page(none)
                    },
                }
            },
            FetchEvent::Page(r) => {
                if self.phase != FetchPhase::FetchingPage {
                    return fetch_idle();
                }
                match r {
                    Err(err) => {
                        let mut m = owned("Error fetching page ");
                        push_decimal(&mut m, self.page);
                        push_str(&mut m, ": ");
                        push_str(&mut m, err.as_str());
                        self.next_page(one(m))
                    },
                    Ok(items) => {
                        self.items = items;
                        let none: Vec<String> = Vec::new();
                        assert(strings_view(none@) =~= seq![]);
                        self.work_on(0, none)
                    },
                }
            },
            FetchEvent::Info(r) => {
                if self.phase != FetchPhase::FetchingInfo {
                    return fetch_idle();
                }
                match r {
                    Err(err) => {
                        let mut m = cat("Error fetching info for ", self.items[self.item].0.as_str());
                        push_str(&mut m, ": ");
                        push_str(&mut m, err.as_str());
                        self.work_on_next(one(m))
                    },
                    Ok(info) => {
                        let work = work_from_info(
                            self.items[self.item].0.as_str(),
                            self.items[self.item].1.as_str(),
                            &info,
                        );
                        self.phase = FetchPhase::Saving;
                        self.work_name = info.work_name;
                        let none: Vec<String> = Vec::new();
                        assert(strings_view(none@) =~= seq![]);
                        FetchStep { messages: none, action: FetchAction::Save(work) }
                    },
                }
            },
            FetchEvent::Saved(r) => {
                if self.phase != FetchPhase::Saving {
                    return fetch_idle();
                }
                let id = self.items[self.item].0.as_str();
                let m = match r {
                    Err(err) => {
                        let mut m = cat("DB error for ", id);
                        push_str(&mut m, ": ");
                        push_str(&mut m, err.as_str());
                        m
                    },
                    Ok(()) => {
                        let mut m = cat("Saved: ", id);
                        push_str(&mut m, " - ");
                        push_str(&mut m, self.work_name.as_str());
                        m
                    },
                };
                self.work_on_next(one(m))
            },
        }
    }
}

/// The last message of a download of all works of a circle.
pub fn circle_download_done(circle: &str) -> (m: String)
    ensures
        m@ == "Done downloading circle: "@ + circle@,
{
    cat("Done downloading circle: ", circle)
}

/// The last message of a download of all works.
pub fn all_downloads_done() -> (m: String)
    ensures
        m@ == "Done downloading all works"@,
{
    owned("Done downloading all works")
}

} // verus!
