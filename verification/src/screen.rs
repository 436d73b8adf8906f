//! What the monitor shows: tables, their status line, and the question whether a
//! request is meant.

#[allow(unused_imports)]
use crate::diff::filter_push;
use crate::diff::JobDiff;
use crate::model::{Job, Pipeline, Request, User};
use crate::modes::{PipeDiff, PipelinesMode};
use crate::state::State;
#[allow(unused_imports)]
use crate::text::{decimal, views};
use crate::text::{decimal_text, same_text};
#[allow(unused_imports)]
use crate::timestamp::timestamp_text;
use std::collections::{HashMap, HashSet};
use vstd::prelude::*;
#[allow(unused_imports)]
use vstd::utf8::encode_utf8;

verus! {

broadcast use vstd::std_specs::hash::group_hash_axioms;

/// The colour of a text.
#[derive(Debug, Clone, Copy, PartialEq, Eq, Structural)]
pub enum Color {
    /// The one that its surroundings have.
    Plain,
    Red,
    Cyan,
    Green,
    Gray,
    White,
}

/// A field of a table.
#[derive(Debug)]
pub struct Cell {
    pub text: String,
    pub color: Color,
}

/// The characters of a field, and their colour.
pub struct CellView {
    pub text: Seq<char>,
    pub color: Color,
}

impl View for Cell {
    type V = CellView;

    open spec fn view(&self) -> CellView {
        CellView { text: self.text@, color: self.color }
    }
}

/// A table with its status line.
#[derive(Debug)]
pub struct Table {
    pub title: String,
    pub header: Vec<String>,
    pub rows: Vec<Vec<Cell>>,
    /// The widths of the columns.
    pub widths: Vec<u16>,
    pub status_line: String,
}

/// The fields of a row.
pub open spec fn row_view(row: Vec<Cell>) -> Seq<CellView> {
    Seq::new(row@.len(), |i: int| row@[i]@)
}

/// The fields of each row.
pub open spec fn rows_view(rows: Seq<Vec<Cell>>) -> Seq<Seq<CellView>> {
    Seq::new(rows.len(), |i: int| row_view(rows[i]))
}

/// A field without a colour of its own.
pub open spec fn plain(text: Seq<char>) -> CellView {
    CellView { text, color: Color::Plain }
}

/// The colour for the status of a job or a pipeline.
pub open spec fn status_color(status: Seq<char>) -> Color {
    if status == "failed"@ {
        Color::Red
    } else if status == "running"@ {
        Color::Cyan
    } else if status == "success"@ {
        Color::Green
    } else if status == "canceled"@ {
        Color::Gray
    } else {
        Color::White
    }
}

/// A status in its colour.
pub open spec fn status_cell(status: Seq<char>) -> CellView {
    CellView { text: status, color: status_color(status) }
}

fn plain_cell(text: &str) -> (cell: Cell)
    ensures
        cell@ == plain(text@),
{
    Cell { text: text.to_owned(), color: Color::Plain }
}

/// Shows a status in its colour.
pub fn styled_status(status: &str) -> (cell: Cell)
    ensures
        cell@ == status_cell(status@),
{
    let color = if same_text(status, "failed") {
        Color::Red
    } else if same_text(status, "running") {
        Color::Cyan
    } else if same_text(status, "success") {
        Color::Green
    } else if same_text(status, "canceled") {
        Color::Gray
    } else {
        Color::White
    };
    Cell { text: status.to_owned(), color }
}

impl Job {
    /// Shows the status of the job in its colour.
    pub fn styled_status(&self) -> (cell: Cell)
        ensures
            cell@ == status_cell(self.status@),
    {
        styled_status(self.status.as_str())
    }
}

/// The status line: whether the data is fetched again by itself, and how the last
/// request went.
pub open spec fn status_text(auto_refresh: bool, response: Option<Seq<char>>) -> Seq<char> {
    let refresh = if auto_refresh {
        "F1 for help | Auto-refresh: enabled"@
    } else {
        "F1 for help | Auto-refresh: disabled"@
    };
    match response {
        Some(response) => refresh + "| "@ + response,
        None => refresh,
    }
}

impl State {
    /// How the last request went.
    pub open spec fn response_text(self) -> Option<Seq<char>> {
        match self.response {
            Some((_, text)) => Some(text@),
            None => None,
        }
    }

    /// The status line.
    pub fn status_line(&self, auto_refresh: bool) -> (line: String)
        ensures
            line@ == status_text(auto_refresh, self.response_text()),
    {
        let line = if auto_refresh {
            "F1 for help | Auto-refresh: enabled".to_owned()
        } else {
            "F1 for help | Auto-refresh: disabled".to_owned()
        };
        match &self.response {
            Some((_, response)) => line.concat("| ").concat(response.as_str()),
            None => line,
        }
    }
}

fn texts(items: &[&'static str]) -> (texts: Vec<String>)
    ensures
        views(texts@) == Seq::new(items@.len(), |i: int| items@[i]@),
{
    let mut texts: Vec<String> = Vec::new();
    let mut i: usize = 0;
    while i < items.len()
        invariant
            i <= items.len(),
            views(texts@) =~= Seq::new(i as nat, |j: int| items@[j]@),
        decreases items.len() - i,
    {
        let ghost before = texts@;
        let text = items[i].to_owned();
        texts.push(text);
        assert(views(texts@) =~= views(before).push(text@));
        i += 1;
    }
    texts
}

/// The row of a job: its ID, that of its pipeline, its status and its name.
pub open spec fn job_cells(job: Job) -> Seq<CellView> {
    seq![
        plain(decimal(job.id as nat)),
        plain(decimal(job.pipeline.id as nat)),
        status_cell(job.status@),
        plain(job.name@),
    ]
}

fn job_row(job: &Job) -> (row: Vec<Cell>)
    ensures
        row_view(row) == job_cells(*job),
{
    let mut row: Vec<Cell> = Vec::new();
    row.push(Cell { text: decimal_text(job.id), color: Color::Plain });
    row.push(Cell { text: decimal_text(job.pipeline.id), color: Color::Plain });
    row.push(job.styled_status());
    row.push(plain_cell(job.name.as_str()));
    assert(row_view(row) =~= job_cells(*job));
    row
}

/// Whether a table shows `jobs`, one row each.
pub open spec fn is_jobs_table(table: Table, jobs: Seq<Job>, status_line: Seq<char>) -> bool {
    &&& table.title@ == "Jobs"@
    &&& views(table.header@) == seq!["ID"@, "Pipeline"@, "Status"@, "Name"@]
    &&& table.widths@ == seq![12u16, 12u16, 10u16, 40u16]
    &&& rows_view(table.rows@) == jobs.map_values(|job: Job| job_cells(job))
    &&& table.status_line@ == status_line
}

/// The table of jobs.
pub fn jobs_table(jobs: &Vec<Job>, status_line: String) -> (table: Table)
    ensures
        is_jobs_table(table, jobs@, status_line@),
{
    let mut rows: Vec<Vec<Cell>> = Vec::new();
    let mut i: usize = 0;
    while i < jobs.len()
        invariant
            i <= jobs.len(),
            rows_view(rows@) =~= jobs@.take(i as int).map_values(|job: Job| job_cells(job)),
        decreases jobs.len() - i,
    {
        let ghost before = rows@;
        let row = job_row(&jobs[i]);
        rows.push(row);
        assert(rows_view(rows@) =~= rows_view(before).push(row_view(row)));
        i += 1;
    }
    assert(jobs@.take(i as int) =~= jobs@);
    let header = texts(&["ID", "Pipeline", "Status", "Name"]);
    assert(views(header@) =~= seq!["ID"@, "Pipeline"@, "Status"@, "Name"@]);
    let mut widths: Vec<u16> = Vec::new();
    widths.push(12);
    widths.push(12);
    widths.push(10);
    widths.push(40);
    assert(widths@ =~= seq![12u16, 12u16, 10u16, 40u16]);
    Table { title: "Jobs".to_owned(), header, rows, widths, status_line }
}

/// The row of a job that is in two pipelines: its name, and its IDs and statuses.
pub open spec fn diff_cells(diff: JobDiff) -> Seq<CellView> {
    match diff {
        JobDiff::Both(a, b) => seq![
            plain(a.0@),
            plain(decimal(a.1.id as nat)),
            plain(decimal(b.1.id as nat)),
            status_cell(a.1.status@),
            status_cell(b.1.status@),
        ],
        _ => Seq::empty(),
    }
}

fn diff_row(diff: &JobDiff) -> (row: Vec<Cell>)
    ensures
        row_view(row) == diff_cells(*diff),
{
    let mut row: Vec<Cell> = Vec::new();
    if let JobDiff::Both(a, b) = diff {
        row.push(plain_cell(a.0.as_str()));
        row.push(Cell { text: decimal_text(a.1.id), color: Color::Plain });
        row.push(Cell { text: decimal_text(b.1.id), color: Color::Plain });
        row.push(a.1.styled_status());
        row.push(b.1.styled_status());
    }
    assert(row_view(row) =~= diff_cells(*diff));
    row
}

/// Whether a table shows the difference between two pipelines, with a row for each of
/// `diffs`.
pub open spec fn is_diff_table(
    table: Table,
    info: PipeDiff,
    diffs: Seq<JobDiff>,
    status_line: Seq<char>,
) -> bool {
    &&& table.title@ == "Jobs: Pipe diff "@ + decimal(info.from as nat) + " -> "@ + decimal(
        info.to as nat,
    )
    &&& views(table.header@) == seq![
        "Name"@,
        "Old ID"@,
        "New ID"@,
        "Old Status"@,
        "New Status"@,
    ]
    &&& table.widths@ == seq![40u16, 12u16, 12u16, 10u16, 10u16]
    &&& rows_view(table.rows@) == diffs.map_values(|diff: JobDiff| diff_cells(diff))
    &&& table.status_line@ == status_line
}

/// The table of the difference between two pipelines.
pub fn diff_table(info: PipeDiff, diffs: &Vec<JobDiff>, status_line: String) -> (table: Table)
    ensures
        is_diff_table(table, info, diffs@, status_line@),
{
    let mut rows: Vec<Vec<Cell>> = Vec::new();
    let mut i: usize = 0;
    while i < diffs.len()
        invariant
            i <= diffs.len(),
            rows_view(rows@) =~= diffs@.take(i as int).map_values(
                |diff: JobDiff| diff_cells(diff),
            ),
        decreases diffs.len() - i,
    {
        let ghost before = rows@;
        let row = diff_row(&diffs[i]);
        rows.push(row);
        assert(rows_view(rows@) =~= rows_view(before).push(row_view(row)));
        i += 1;
    }
    assert(diffs@.take(i as int) =~= diffs@);
    let title = "Jobs: Pipe diff ".to_owned().concat(decimal_text(info.from).as_str()).concat(
        " -> ",
    ).concat(decimal_text(info.to).as_str());
    let header = texts(&["Name", "Old ID", "New ID", "Old Status", "New Status"]);
    assert(views(header@) =~= seq![
        "Name"@,
        "Old ID"@,
        "New ID"@,
        "Old Status"@,
        "New Status"@,
    ]);
    let mut widths: Vec<u16> = Vec::new();
    widths.push(40);
    widths.push(12);
    widths.push(12);
    widths.push(10);
    widths.push(10);
    assert(widths@ =~= seq![40u16, 12u16, 12u16, 10u16, 10u16]);
    Table { title, header, rows, widths, status_line }
}

/// Two pipelines that are to be compared: the older one and the newer one.
pub type DiffChoice = Option<(Option<u64>, Option<u64>)>;

/// The mark of a pipeline that is to be compared.
pub open spec fn diff_mark(id: u64, from: Option<u64>, to: Option<u64>) -> Seq<char> {
    if to == Some(id) {
        "to"@
    } else if from == Some(id) {
        "from"@
    } else {
        " "@
    }
}

/// The row of a pipeline: its ID, who started it, its mark, its status, its branch, its
/// commit, and `created`, the text of when it was created. The second and the third
/// are there if they are wanted.
pub open spec fn pipeline_cells(
    pipeline: Pipeline,
    user: Seq<char>,
    created: Seq<char>,
    with_users: bool,
    choice: DiffChoice,
) -> Seq<CellView> {
    let id = seq![plain(decimal(pipeline.id as nat))];
    let user_column = if with_users {
        seq![plain(user)]
    } else {
        Seq::empty()
    };
    let mark_column = match choice {
        Some((from, to)) => seq![plain(diff_mark(pipeline.id, from, to))],
        None => Seq::empty(),
    };
    id + user_column + mark_column + seq![
        status_cell(pipeline.status@),
        plain(pipeline.ref_name@),
        plain(pipeline.sha@),
        plain(created),
    ]
}

/// The row of a pipeline, when the text of its creation is known.
pub fn pipeline_row(
    pipeline: &Pipeline,
    user: &str,
    created: String,
    with_users: bool,
    choice: &DiffChoice,
) -> (row: Vec<Cell>)
    ensures
        row_view(row) == pipeline_cells(*pipeline, user@, created@, with_users, *choice),
{
    let mut row: Vec<Cell> = Vec::new();
    row.push(Cell { text: decimal_text(pipeline.id), color: Color::Plain });
    if with_users {
        row.push(plain_cell(user));
    }
    if let Some((from, to)) = choice {
        let mut mark = " ";
        if let Some(from) = from {
            if pipeline.id == *from {
                mark = "from";
            }
        }
        if let Some(to) = to {
            if pipeline.id == *to {
                mark = "to";
            }
        }
        row.push(plain_cell(mark));
    }
    row.push(styled_status(pipeline.status.as_str()));
    row.push(plain_cell(pipeline.ref_name.as_str()));
    row.push(plain_cell(pipeline.sha.as_str()));
    row.push(Cell { text: created, color: Color::Plain });
    assert(row_view(row) =~= pipeline_cells(*pipeline, user@, created@, with_users, *choice));
    row
}

/// Who started a pipeline, as far as it is known.
pub open spec fn trigger_text(triggers: Map<u64, String>, id: u64) -> Seq<char> {
    if triggers.contains_key(id) {
        triggers[id]@
    } else {
        "..."@
    }
}

/// The length in bytes of the name of a pipeline's branch.
pub open spec fn ref_len(pipeline: Pipeline) -> usize {
    encode_utf8(pipeline.ref_name@).len() as usize
}

/// The length of the longest of the branches' names, but no less than thirty.
pub open spec fn longest_ref(pipelines: Seq<Pipeline>) -> usize
    decreases pipelines.len(),
{
    if pipelines.len() == 0 {
        30
    } else if ref_len(pipelines.last()) > longest_ref(pipelines.drop_last()) {
        ref_len(pipelines.last())
    } else {
        longest_ref(pipelines.drop_last())
    }
}

/// The widths of the columns of a table of pipelines.
pub open spec fn pipeline_widths(longest: usize, with_users: bool, with_marks: bool) -> Seq<u16> {
    let user_column = if with_users {
        seq![15u16]
    } else {
        Seq::empty()
    };
    let mark_column = if with_marks {
        seq![5u16]
    } else {
        Seq::empty()
    };
    seq![12u16] + user_column + mark_column + seq![10u16, longest as u16, 12u16, 19u16]
}

/// The headings of a table of pipelines.
pub open spec fn pipeline_header(with_users: bool, with_marks: bool) -> Seq<Seq<char>> {
    let user_column = if with_users {
        seq!["User"@]
    } else {
        Seq::empty()
    };
    let mark_column = if with_marks {
        seq!["Diff"@]
    } else {
        Seq::empty()
    };
    seq!["ID"@] + user_column + mark_column + seq!["Status"@, "Ref"@, "GitHash"@, "Created at"@]
}

/// The title of a table of pipelines: whose they are, and on which branch.
pub open spec fn pipelines_title(info: PipelinesMode, current_user: User) -> Seq<char> {
    let username = match info.custom_username {
        Some(username) => username@,
        None => current_user.username@,
    };
    match (info.ref_name, info.all_users) {
        (Some(name), false) => "Pipelines (user "@ + username + ", ref "@ + name@ + ")"@,
        (Some(name), true) => "Pipelines (all users, ref "@ + name@ + ")"@,
        (None, false) => "Pipelines (user "@ + username + ")"@,
        (None, true) => "Pipelines (all users)"@,
    }
}

fn title_of_pipelines(info: &PipelinesMode, current_user: &User) -> (title: String)
    ensures
        title@ == pipelines_title(*info, *current_user),
{
    let username = match &info.custom_username {
        Some(username) => username.as_str(),
        None => current_user.username.as_str(),
    };
    match (&info.ref_name, info.all_users) {
        (Some(name), false) => "Pipelines (user ".to_owned().concat(username).concat(
            ", ref ",
        ).concat(name.as_str()).concat(")"),
        (Some(name), true) => "Pipelines (all users, ref ".to_owned().concat(
            name.as_str(),
        ).concat(")"),
        (None, false) => "Pipelines (user ".to_owned().concat(username).concat(")"),
        (None, true) => "Pipelines (all users)".to_owned(),
    }
}

fn longest_ref_of(pipelines: &Vec<Pipeline>) -> (longest: usize)
    ensures
        longest == longest_ref(pipelines@),
{
    let mut longest: usize = 30;
    let mut i: usize = 0;
    assert(pipelines@.take(0) =~= Seq::<Pipeline>::empty());
    while i < pipelines.len()
        invariant
            i <= pipelines.len(),
            longest == longest_ref(pipelines@.take(i as int)),
        decreases pipelines.len() - i,
    {
        assert(pipelines@.take(i + 1).drop_last() =~= pipelines@.take(i as int));
        let len = pipelines[i].ref_name.as_str().len();
        if len > longest {
            longest = len;
        }
        i += 1;
    }
    assert(pipelines@.take(i as int) =~= pipelines@);
    longest
}

/// The pipelines that are not hidden.
pub open spec fn visible(pipelines: Seq<Pipeline>, ignored: Set<u64>) -> Seq<Pipeline> {
    pipelines.filter(|pipeline: Pipeline| !ignored.contains(pipeline.id))
}

/// Picks the pipelines that are not hidden.
pub fn visible_pipelines(pipelines: &Vec<Pipeline>, ignored: &HashSet<u64>) -> (shown: Vec<
    Pipeline,
>)
    ensures
        shown@ == visible(pipelines@, ignored@),
{
    let mut shown: Vec<Pipeline> = Vec::new();
    let mut i: usize = 0;
    let ghost keep = |pipeline: Pipeline| !ignored@.contains(pipeline.id);
    proof {
        reveal(Seq::filter);
        assert(pipelines@.take(0) =~= Seq::<Pipeline>::empty());
    }
    while i < pipelines.len()
        invariant
            i <= pipelines.len(),
            keep == (|pipeline: Pipeline| !ignored@.contains(pipeline.id)),
            shown@ =~= pipelines@.take(i as int).filter(keep),
        decreases pipelines.len() - i,
    {
        proof {
            filter_push(pipelines@, i as int, keep);
        }
        if !ignored.contains(&pipelines[i].id) {
            shown.push(pipelines[i].clone());
        }
        i += 1;
    }
    assert(pipelines@.take(i as int) =~= pipelines@);
    shown
}

/// The row of each pipeline of a table.
pub open spec fn pipeline_rows(
    pipelines: Seq<Pipeline>,
    triggers: Map<u64, String>,
    with_users: bool,
    choice: DiffChoice,
) -> Seq<Seq<CellView>> {
    pipelines.map_values(
        |p: Pipeline|
            pipeline_cells(
                p,
                trigger_text(triggers, p.id),
                timestamp_text(p.created_at@.0, p.created_at@.1, p.created_at@.2),
                with_users,
                choice,
            ),
    )
}

fn rows_of_pipelines(
    pipelines: &Vec<Pipeline>,
    triggers: &HashMap<u64, String>,
    with_users: bool,
    choice: &DiffChoice,
) -> (rows: Vec<Vec<Cell>>)
    ensures
        rows_view(rows@) == pipeline_rows(pipelines@, triggers@, with_users, *choice),
{
    let mut rows: Vec<Vec<Cell>> = Vec::new();
    let mut i: usize = 0;
    while i < pipelines.len()
        invariant
            i <= pipelines.len(),
            rows_view(rows@) =~= pipeline_rows(
                pipelines@.take(i as int),
                triggers@,
                with_users,
                *choice,
            ),
        decreases pipelines.len() - i,
    {
        let ghost before = rows@;
        let pipeline = &pipelines[i];
        let user = match triggers.get(&pipeline.id) {
            Some(user) => user.as_str(),
            None => "...",
        };
        let row = pipeline_row(pipeline, user, pipeline.created_at.text(), with_users, choice);
        rows.push(row);
        assert(rows_view(rows@) =~= rows_view(before).push(row_view(row)));
        assert(pipelines@.take(i + 1) =~= pipelines@.take(i as int).push(*pipeline));
        i += 1;
    }
    assert(pipelines@.take(i as int) =~= pipelines@);
    rows
}

/// Whether a table shows `shown`, as a mode asks for it; `longest` is the length of
/// the longest branch's name.
pub open spec fn is_pipelines_table(
    table: Table,
    info: PipelinesMode,
    shown: Seq<Pipeline>,
    longest: usize,
    triggers: Map<u64, String>,
    choice: DiffChoice,
    current_user: User,
    status_line: Seq<char>,
) -> bool {
    &&& table.title@ == pipelines_title(info, current_user)
    &&& views(table.header@) == pipeline_header(info.resolve_usernames, choice is Some)
    &&& table.widths@ == pipeline_widths(longest, info.resolve_usernames, choice is Some)
    &&& rows_view(table.rows@) == pipeline_rows(shown, triggers, info.resolve_usernames, choice)
    &&& table.status_line@ == status_line
}

/// The table of the pipelines `shown`, which are those of `all` that are not hidden.
pub fn pipelines_table(
    info: &PipelinesMode,
    all: &Vec<Pipeline>,
    shown: &Vec<Pipeline>,
    triggers: &HashMap<u64, String>,
    choice: &DiffChoice,
    current_user: &User,
    status_line: String,
) -> (table: Table)
    ensures
        is_pipelines_table(
            table,
            *info,
            shown@,
            longest_ref(all@),
            triggers@,
            *choice,
            *current_user,
            status_line@,
        ),
{
    let with_users = info.resolve_usernames;
    let longest = longest_ref_of(all);
    let mut widths: Vec<u16> = Vec::new();
    let mut header: Vec<String> = Vec::new();
    widths.push(12);
    header.push("ID".to_owned());
    if with_users {
        widths.push(15);
        header.push("User".to_owned());
    }
    if choice.is_some() {
        widths.push(5);
        header.push("Diff".to_owned());
    }
    widths.push(10);
    widths.push(
        #[verifier::truncate]
        (longest as u16),
    );
    widths.push(12);
    widths.push(19);
    header.push("Status".to_owned());
    header.push("Ref".to_owned());
    header.push("GitHash".to_owned());
    header.push("Created at".to_owned());
    assert(widths@ =~= pipeline_widths(longest, with_users, choice is Some));
    assert(views(header@) =~= pipeline_header(with_users, choice is Some));
    let rows = rows_of_pipelines(shown, triggers, with_users, choice);
    Table { title: title_of_pipelines(info, current_user), header, rows, widths, status_line }
}

/// The question whether a request is meant. It is shown over a table, in the middle
/// of the screen.
#[derive(Debug)]
pub struct Confirmation {
    pub title: String,
    /// What is to be done.
    pub subject: String,
    /// The ID of what it is to be done to.
    pub id: String,
    /// How to answer.
    pub prompt: String,
    /// How much of the screen's width it takes up, in percent.
    pub percent: u16,
    /// How much of it is left on either side.
    pub side_percent: u16,
    /// How many rows it takes up at least.
    pub height: u16,
}

/// What a request does, in words, without the ID.
pub open spec fn request_subject(request: Request) -> Seq<char> {
    match request {
        Request::DeletePipeline(_) => "Deletion of Pipeline "@,
        Request::CancelPipeline(_) => "Cancellation of Pipeline "@,
        Request::RetryJob(_) => "Retry of Job "@,
        Request::PlayJob(_) => "Play of Job "@,
        Request::RetryPipeline(_) => "Retry of Pipeline "@,
    }
}

/// The ID that a request is about.
pub open spec fn request_id(request: Request) -> u64 {
    match request {
        Request::DeletePipeline(id) => id,
        Request::CancelPipeline(id) => id,
        Request::RetryJob(id) => id,
        Request::PlayJob(id) => id,
        Request::RetryPipeline(id) => id,
    }
}

/// Whether a question asks for the confirmation of a request.
pub open spec fn is_confirmation(confirmation: Confirmation, request: Request) -> bool {
    &&& confirmation.title@ == "Confirmation"@
    &&& confirmation.subject@ == request_subject(request)
    &&& confirmation.id@ == decimal(request_id(request) as nat)
    &&& confirmation.prompt@ == "Press 'y' to confirm, 'n/'q'/ESC to cancel"@
    &&& confirmation.percent == 60
    &&& confirmation.side_percent == 20
    &&& confirmation.height == 7
}

/// Asks whether a request is meant.
pub fn confirmation(request: Request) -> (confirmation: Confirmation)
    ensures
        is_confirmation(confirmation, request),
{
    let (subject, id): (&str, u64) = match request {
        Request::DeletePipeline(id) => ("Deletion of Pipeline ", id),
        Request::CancelPipeline(id) => ("Cancellation of Pipeline ", id),
        Request::RetryJob(id) => ("Retry of Job ", id),
        Request::PlayJob(id) => ("Play of Job ", id),
        Request::RetryPipeline(id) => ("Retry of Pipeline ", id),
    };
    Confirmation {
        title: "Confirmation".to_owned(),
        subject: subject.to_owned(),
        id: decimal_text(id),
        prompt: "Press 'y' to confirm, 'n/'q'/ESC to cancel".to_owned(),
        percent: 60,
        side_percent: 20,
        height: 7,
    }
}

} // verus!
