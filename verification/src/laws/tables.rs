//! What holds of what is shown and reported.

use crate::diff::{change_report, JobDiff};
use crate::display::{
    has_short_sha, innermost, job_line, pipeline_line, question, Report, Screen, SHORT_SHA,
};
use crate::model::{Job, Pipeline, Request, User};
use crate::modes::{PipeDiff, PipelinesMode, RunMode};
use crate::monitor::Main;
use crate::screen::{
    diff_mark, is_confirmation, is_diff_table, is_jobs_table, is_pipelines_table, longest_ref,
    pipelines_title, plain, ref_len, row_view, rows_view, status_cell, status_text, trigger_text,
    visible, Cell, Color, Confirmation, DiffChoice, Table,
};
use crate::state::State;
use crate::text::{decimal, padded_right, views};
use crate::timestamp::timestamp_text;
use vstd::prelude::*;
use vstd::utf8::{decode_utf8, encode_utf8, is_char_boundary};

verus! {

/// A question says what will be done: deletion for a deletion, cancellation for a
/// cancellation, and so on, and nothing else; and it names the pipeline or job.
pub proof fn questions_say_what_will_be_done(question: Confirmation, request: Request)
    requires
        is_confirmation(question, request),
    ensures
        question.subject@ == "Deletion of Pipeline "@ <==> request is DeletePipeline,
        question.subject@ == "Cancellation of Pipeline "@ <==> request is CancelPipeline,
        question.subject@ == "Retry of Pipeline "@ <==> request is RetryPipeline,
        question.subject@ == "Retry of Job "@ <==> request is RetryJob,
        question.subject@ == "Play of Job "@ <==> request is PlayJob,
        request matches Request::DeletePipeline(id) ==> question.id@ == decimal(id as nat),
        request matches Request::CancelPipeline(id) ==> question.id@ == decimal(id as nat),
        request matches Request::RetryPipeline(id) ==> question.id@ == decimal(id as nat),
        request matches Request::RetryJob(id) ==> question.id@ == decimal(id as nat),
        request matches Request::PlayJob(id) ==> question.id@ == decimal(id as nat),
{
    reveal_strlit("Deletion of Pipeline ");
    reveal_strlit("Cancellation of Pipeline ");
    reveal_strlit("Retry of Pipeline ");
    reveal_strlit("Retry of Job ");
    reveal_strlit("Play of Job ");
    assert("Deletion of Pipeline "@.len() == 21);
    assert("Cancellation of Pipeline "@.len() == 25);
    assert("Retry of Pipeline "@.len() == 18);
    assert("Retry of Job "@.len() == 13);
    assert("Play of Job "@.len() == 12);
}

/// Two requests that are asked about in the same words are the same request.
pub proof fn questions_tell_requests_apart(
    question: Confirmation,
    request: Request,
    other: Confirmation,
    other_request: Request,
)
    requires
        is_confirmation(question, request),
        is_confirmation(other, other_request),
        question.subject@ == other.subject@,
        question.id@ == other.id@,
    ensures
        request == other_request,
{
    questions_say_what_will_be_done(question, request);
    questions_say_what_will_be_done(other, other_request);
    let (a, b): (u64, u64) = match (request, other_request) {
        (Request::DeletePipeline(a), Request::DeletePipeline(b)) => (a, b),
        (Request::CancelPipeline(a), Request::CancelPipeline(b)) => (a, b),
        (Request::RetryPipeline(a), Request::RetryPipeline(b)) => (a, b),
        (Request::RetryJob(a), Request::RetryJob(b)) => (a, b),
        (Request::PlayJob(a), Request::PlayJob(b)) => (a, b),
        _ => (0, 0),
    };
    crate::text::decimal_injective(a as nat, b as nat);
}

/// A question tells how to answer it, and takes up the middle of the screen.
pub proof fn questions_tell_the_answers(question: Confirmation, request: Request)
    requires
        is_confirmation(question, request),
    ensures
        question.title@ == "Confirmation"@,
        question.prompt@ == "Press 'y' to confirm, 'n/'q'/ESC to cancel"@,
        question.percent + 2 * question.side_percent == 100,
        question.percent == 60,
        question.height == 7,
{
}

/// A status is shown as it is, and its colour tells the four that are known: red is for
/// failure alone, green for success alone, and so on.
pub proof fn colours_tell_statuses(status: Seq<char>)
    ensures
        status_cell(status).text == status,
        status_cell(status).color == Color::Red <==> status == "failed"@,
        status_cell(status).color == Color::Cyan <==> status == "running"@,
        status_cell(status).color == Color::Green <==> status == "success"@,
        status_cell(status).color == Color::Gray <==> status == "canceled"@,
        status_cell(status).color == Color::White <==> status != "failed"@ && status
            != "running"@ && status != "success"@ && status != "canceled"@,
{
    reveal_strlit("failed");
    reveal_strlit("running");
    reveal_strlit("success");
    reveal_strlit("canceled");
    assert("failed"@.len() == 6);
    assert("canceled"@.len() == 8);
    assert("running"@.len() == 7 && "running"@[0] == 'r');
    assert("success"@.len() == 7 && "success"@[0] == 's');
}

/// The status line tells whether data is fetched by itself, and ends with how the last
/// request went, if that is shown.
pub proof fn status_line_tells_the_outcome(auto_refresh: bool, response: Seq<char>)
    ensures
        status_text(true, None) == "F1 for help | Auto-refresh: enabled"@,
        status_text(false, None) == "F1 for help | Auto-refresh: disabled"@,
        status_text(auto_refresh, Some(response)) == status_text(auto_refresh, None) + "| "@
            + response,
        status_text(true, None) != status_text(false, None),
{
    reveal_strlit("F1 for help | Auto-refresh: enabled");
    reveal_strlit("F1 for help | Auto-refresh: disabled");
    assert("F1 for help | Auto-refresh: enabled"@.len() == 35);
    assert("F1 for help | Auto-refresh: disabled"@.len() == 36);
}

/// A field without a colour of its own has its text and no colour, and the fields of a row
/// are those that it holds.
pub proof fn fields_are_shown_as_they_are(text: Seq<char>, row: Vec<Cell>, i: int)
    requires
        0 <= i < row@.len(),
    ensures
        plain(text).text == text,
        plain(text).color == Color::Plain,
        row_view(row).len() == row@.len(),
        row_view(row)[i].text == row@[i].text@,
        row_view(row)[i].color == row@[i].color,
{
}

/// The table of jobs is called so, with jobs or without. Its columns are as wide as what they
/// show: numbers take twelve characters, statuses ten and names forty.
pub proof fn jobs_have_their_columns(table: Table, jobs: Seq<Job>, line: Seq<char>, i: int)
    requires
        is_jobs_table(table, jobs, line),
        0 <= i < table.widths@.len(),
    ensures
        table.title@ == "Jobs"@,
        table.status_line@ == line,
        table.rows@.len() == jobs.len(),
        views(table.header@) == seq!["ID"@, "Pipeline"@, "Status"@, "Name"@],
        table.widths@.len() == table.header@.len(),
        table.header@[i]@ == "ID"@ || table.header@[i]@ == "Pipeline"@ ==> table.widths@[i] == 12,
        table.header@[i]@ == "Status"@ ==> table.widths@[i] == 10,
        table.header@[i]@ == "Name"@ ==> table.widths@[i] == 40,
{
    reveal_strlit("ID");
    reveal_strlit("Pipeline");
    reveal_strlit("Status");
    reveal_strlit("Name");
    assert("ID"@.len() == 2);
    assert("Pipeline"@.len() == 8);
    assert("Status"@.len() == 6);
    assert("Name"@.len() == 4);
    assert(views(table.header@).len() == table.header@.len());
    assert(views(table.header@)[i] == table.header@[i]@);
    assert(rows_view(table.rows@).len() == table.rows@.len());
}

/// The table of a difference names the two pipelines, the older one first, with jobs or
/// without. Its columns are as wide as those of the table of jobs.
pub proof fn differences_have_their_columns(
    table: Table,
    info: PipeDiff,
    diffs: Seq<JobDiff>,
    line: Seq<char>,
)
    requires
        is_diff_table(table, info, diffs, line),
    ensures
        table.title@ == "Jobs: Pipe diff "@ + decimal(info.from as nat) + " -> "@ + decimal(
            info.to as nat,
        ),
        table.status_line@ == line,
        table.rows@.len() == diffs.len(),
        views(table.header@) == seq!["Name"@, "Old ID"@, "New ID"@, "Old Status"@, "New Status"@],
        table.widths@.len() == table.header@.len(),
        table.widths@[0] == 40,
        table.widths@[1] == 12 && table.widths@[2] == 12,
        table.widths@[3] == 10 && table.widths@[4] == 10,
{
    assert(views(table.header@).len() == table.header@.len());
    assert(rows_view(table.rows@).len() == table.rows@.len());
}

/// The table of jobs has a row for each job, in their order, and each column has what its
/// heading says.
pub proof fn jobs_have_their_rows(table: Table, jobs: Seq<Job>, line: Seq<char>, i: int)
    requires
        is_jobs_table(table, jobs, line),
        0 <= i < jobs.len(),
    ensures
        table.rows@.len() == jobs.len(),
        views(table.header@) == seq!["ID"@, "Pipeline"@, "Status"@, "Name"@],
        table.widths@.len() == 4,
        row_view(table.rows@[i]).len() == 4,
        row_view(table.rows@[i])[0] == plain(decimal(jobs[i].id as nat)),
        row_view(table.rows@[i])[1] == plain(decimal(jobs[i].pipeline.id as nat)),
        row_view(table.rows@[i])[2] == status_cell(jobs[i].status@),
        row_view(table.rows@[i])[3] == plain(jobs[i].name@),
        table.status_line@ == line,
{
    let rows = rows_view(table.rows@);
    assert(rows.len() == jobs.len());
    assert(rows[i] == row_view(table.rows@[i]));
}

/// The table of a comparison has a row for each difference, in their order: the older
/// pipeline's number and status are the old ones, the newer one's the new ones.
pub proof fn differences_have_their_rows(
    table: Table,
    info: PipeDiff,
    diffs: Seq<JobDiff>,
    line: Seq<char>,
    i: int,
)
    requires
        is_diff_table(table, info, diffs, line),
        0 <= i < diffs.len(),
        diffs[i] is Both,
    ensures
        table.title@ == "Jobs: Pipe diff "@ + decimal(info.from as nat) + " -> "@ + decimal(
            info.to as nat,
        ),
        table.rows@.len() == diffs.len(),
        views(table.header@) == seq!["Name"@, "Old ID"@, "New ID"@, "Old Status"@, "New Status"@],
        table.widths@.len() == 5,
        row_view(table.rows@[i]).len() == 5,
        row_view(table.rows@[i])[0] == plain(diffs[i]->Both_0.0@),
        row_view(table.rows@[i])[1] == plain(decimal(diffs[i]->Both_0.1.id as nat)),
        row_view(table.rows@[i])[2] == plain(decimal(diffs[i]->Both_1.1.id as nat)),
        row_view(table.rows@[i])[3] == status_cell(diffs[i]->Both_0.1.status@),
        row_view(table.rows@[i])[4] == status_cell(diffs[i]->Both_1.1.status@),
{
    let rows = rows_view(table.rows@);
    assert(rows.len() == diffs.len());
    assert(rows[i] == row_view(table.rows@[i]));
}

/// The place of the column of statuses in a table of pipelines: behind the number, and
/// behind the user and the mark, where they are shown.
pub open spec fn status_column(info: PipelinesMode, choice: DiffChoice) -> int {
    1 + if info.resolve_usernames {
        1int
    } else {
        0
    } + if choice is Some {
        1int
    } else {
        0
    }
}

/// The table of pipelines has a row for each pipeline, in their order, and each column has
/// what its heading says: the user is there if and only if users are looked up, the mark if
/// and only if pipelines are to be compared.
pub proof fn pipelines_have_their_rows(
    table: Table,
    info: PipelinesMode,
    shown: Seq<Pipeline>,
    longest: usize,
    triggers: Map<u64, String>,
    choice: DiffChoice,
    current_user: User,
    line: Seq<char>,
    i: int,
)
    requires
        is_pipelines_table(
            table,
            info,
            shown,
            longest,
            triggers,
            choice,
            current_user,
            line,
        ),
        0 <= i < shown.len(),
    ensures
        ({
            let row = row_view(table.rows@[i]);
            let header = views(table.header@);
            let k = status_column(info, choice);
            let at = shown[i].created_at@;
            &&& table.rows@.len() == shown.len()
            &&& row.len() == k + 4 && header.len() == k + 4 && table.widths@.len() == k + 4
            &&& header[0] == "ID"@ && row[0] == plain(decimal(shown[i].id as nat))
            &&& info.resolve_usernames ==> header[1] == "User"@ && row[1] == plain(
                trigger_text(triggers, shown[i].id),
            )
            &&& choice matches Some((from, to)) ==> header[k - 1] == "Diff"@ && row[k - 1]
                == plain(diff_mark(shown[i].id, from, to))
            &&& header[k] == "Status"@ && row[k] == status_cell(shown[i].status@)
            &&& header[k + 1] == "Ref"@ && row[k + 1] == plain(shown[i].ref_name@)
            &&& header[k + 2] == "GitHash"@ && row[k + 2] == plain(shown[i].sha@)
            &&& header[k + 3] == "Created at"@ && row[k + 3] == plain(
                timestamp_text(at.0, at.1, at.2),
            )
            &&& longest <= u16::MAX ==> table.widths@[k + 1] == longest
            &&& table.widths@[0] == 12 && table.widths@[k] == 10
            &&& info.resolve_usernames ==> table.widths@[1] == 15
            &&& choice is Some ==> table.widths@[k - 1] == 5
            &&& table.widths@[k + 2] == 12 && table.widths@[k + 3] == 19
            &&& table.status_line@ == line
            &&& table.title@ == pipelines_title(info, current_user)
        }),
{
    let rows = rows_view(table.rows@);
    assert(rows.len() == shown.len());
    assert(rows[i] == row_view(table.rows@[i]));
}

/// The mark of a pipeline tells whether it is the newer or the older one of two to compare,
/// and is blank for all others.
pub proof fn marks_tell_the_ends(id: u64, from: Option<u64>, to: Option<u64>)
    ensures
        diff_mark(id, from, to) == "to"@ <==> to == Some(id),
        diff_mark(id, from, to) == "from"@ <==> from == Some(id) && to != Some(id),
        diff_mark(id, from, to) == " "@ <==> from != Some(id) && to != Some(id),
{
    reveal_strlit("to");
    reveal_strlit("from");
    reveal_strlit(" ");
    assert("to"@.len() == 2);
    assert("from"@.len() == 4);
    assert(" "@.len() == 1);
}

/// Who started a pipeline is shown where it is known.
pub proof fn known_starters_are_shown(triggers: Map<u64, String>, id: u64)
    ensures
        triggers.contains_key(id) ==> trigger_text(triggers, id) == triggers[id]@,
        !triggers.contains_key(id) ==> trigger_text(triggers, id) == "..."@,
{
}

/// The column of branches is wide enough for each of their names, no narrower than thirty,
/// and no wider than it has to be.
pub proof fn branches_fit_their_column(pipelines: Seq<Pipeline>)
    ensures
        longest_ref(pipelines) >= 30,
        forall|i: int|
            0 <= i < pipelines.len() ==> ref_len(#[trigger] pipelines[i]) <= longest_ref(
                pipelines,
            ),
        longest_ref(pipelines) == 30 || exists|i: int|
            0 <= i < pipelines.len() && ref_len(#[trigger] pipelines[i]) == longest_ref(pipelines),
    decreases pipelines.len(),
{
    if pipelines.len() > 0 {
        let rest = pipelines.drop_last();
        branches_fit_their_column(rest);
        let last = pipelines.len() - 1;
        assert(forall|i: int| 0 <= i < last ==> #[trigger] rest[i] == pipelines[i]);
        assert forall|i: int| 0 <= i < pipelines.len() implies ref_len(#[trigger] pipelines[i])
            <= longest_ref(pipelines) by {
            if i < last {
                assert(ref_len(rest[i]) <= longest_ref(rest));
            }
        }
        assert(pipelines[last] == pipelines.last());
        if longest_ref(pipelines) == longest_ref(rest) && longest_ref(rest) != 30 {
            let i = choose|i: int|
                0 <= i < rest.len() && ref_len(#[trigger] rest[i]) == longest_ref(rest);
            assert(ref_len(pipelines[i]) == longest_ref(pipelines));
        }
    }
}

/// The title of a list of pipelines names all users, or the one whose pipelines are asked
/// for, and the branch, if there is one.
pub proof fn titles_name_users_and_branch(info: PipelinesMode, current_user: User)
    ensures
        ({
            let title = pipelines_title(info, current_user);
            let whose = if info.all_users {
                "all users"@
            } else if info.custom_username is Some {
                "user "@ + info.custom_username->0@
            } else {
                "user "@ + current_user.username@
            };
            &&& info.ref_name is None ==> title == "Pipelines ("@ + whose + ")"@
            &&& info.ref_name matches Some(name) ==> title == "Pipelines ("@ + whose + ", ref "@
                + name@ + ")"@
        }),
{
    reveal_strlit("Pipelines (");
    reveal_strlit("user ");
    reveal_strlit("all users");
    reveal_strlit(", ref ");
    reveal_strlit(")");
    reveal_strlit("Pipelines (user ");
    reveal_strlit("Pipelines (all users, ref ");
    reveal_strlit("Pipelines (all users)");
    assert("Pipelines (user "@ =~= "Pipelines ("@ + "user "@);
    assert("Pipelines (all users, ref "@ =~= "Pipelines ("@ + "all users"@ + ", ref "@);
    assert("Pipelines (all users)"@ =~= "Pipelines ("@ + "all users"@ + ")"@);
    let title = pipelines_title(info, current_user);
    if !info.all_users {
        let name = if info.custom_username is Some {
            info.custom_username->0@
        } else {
            current_user.username@
        };
        assert("Pipelines ("@ + "user "@ + name =~= "Pipelines ("@ + ("user "@ + name));
    }
}

/// The line of a pipeline has its number at the right end of a column of nine characters,
/// then its status, filled up to ten, the first twelve bytes of its commit's hash, and its
/// page.
pub proof fn pipelines_are_told_in_columns(pipeline: Pipeline)
    ensures
        ({
            let id = decimal(pipeline.id as nat);
            let width = if id.len() < 9 {
                9
            } else {
                id.len() as int
            };
            let line = pipeline_line(pipeline);
            &&& line.subrange(width - id.len(), width) == id
            &&& forall|i: int| 0 <= i < width - id.len() ==> #[trigger] line[i] == ' '
            &&& line.skip(width) == "  "@ + padded_right(pipeline.status@, 10) + " "@
                + decode_utf8(encode_utf8(pipeline.sha@).take(12)) + "  "@ + pipeline.web_url@
            &&& SHORT_SHA == 12
        }),
{
    let id = decimal(pipeline.id as nat);
    let width = if id.len() < 9 {
        9
    } else {
        id.len() as int
    };
    let line = pipeline_line(pipeline);
    assert(line.subrange(width - id.len(), width) =~= id);
    assert(line.skip(width) =~= "  "@ + padded_right(pipeline.status@, 10) + " "@ + decode_utf8(
        encode_utf8(pipeline.sha@).take(12),
    ) + "  "@ + pipeline.web_url@);
}

/// The line of a job has its number at the right end of a column of nine characters, then
/// its status, filled up to ten, and its name.
pub proof fn jobs_are_told_in_columns(job: Job)
    ensures
        ({
            let id = decimal(job.id as nat);
            let width = if id.len() < 9 {
                9
            } else {
                id.len() as int
            };
            let line = job_line(job);
            &&& line.subrange(width - id.len(), width) == id
            &&& forall|i: int| 0 <= i < width - id.len() ==> #[trigger] line[i] == ' '
            &&& line.skip(width) == "  "@ + padded_right(job.status@, 10) + " "@ + job.name@
        }),
{
    let id = decimal(job.id as nat);
    let width = if id.len() < 9 {
        9
    } else {
        id.len() as int
    };
    let line = job_line(job);
    assert(line.subrange(width - id.len(), width) =~= id);
    assert(line.skip(width) =~= "  "@ + padded_right(job.status@, 10) + " "@ + job.name@);
}

/// A report can be made unless it has a line for a pipeline whose commit's hash cannot be cut
/// behind its twelfth byte.
pub proof fn reports_can_be_made(main: Main, state: State)
    ensures
        main.reportable(state) <==> !(main.mode is Pipelines) || main.json_output || forall|
            i: int,
        |
            0 <= i < state.pipelines.items().len() ==> is_char_boundary(
                encode_utf8((#[trigger] state.pipelines.items()[i]).sha@),
                12,
            ),
{
    let all = state.pipelines.items();
    if main.reportable(state) && main.mode is Pipelines && !main.json_output {
        assert forall|i: int| 0 <= i < all.len() implies is_char_boundary(
            encode_utf8((#[trigger] all[i]).sha@),
            12,
        ) by {
            assert(has_short_sha(all[i]));
        }
    }
}

/// A report waits for the data of what is shown, and for nothing else; then it has a line
/// for each job or pipeline, in their order, or for each change, or the pipelines themselves,
/// if and only if JSON is wanted.
pub proof fn reports_have_the_data(main: Main, state: State, report: Report)
    requires
        main.reported(state, report),
    ensures
        report is Pending <==> !({
            ||| main.mode is Jobs && state.jobs.data is Some
            ||| main.mode is PipeDiff && state.pipediff.data is Some
            ||| main.mode is Pipelines && state.pipelines.data is Some
        }),
        report is Json <==> main.mode is Pipelines && main.json_output && state.pipelines.data
            is Some,
        report matches Report::Json(pipelines) ==> pipelines@ == state.pipelines.items(),
        main.mode is Jobs ==> (report matches Report::Lines(lines) ==> lines@.len()
            == state.jobs.items().len() && forall|i: int|
            0 <= i < lines@.len() ==> (#[trigger] lines@[i])@ == job_line(state.jobs.items()[i])),
        main.mode is PipeDiff ==> (report matches Report::Lines(lines) ==> views(lines@)
            == change_report(state.pipediff.items())),
        main.mode is Pipelines ==> (report matches Report::Lines(lines) ==> lines@.len()
            == state.pipelines.items().len() && forall|i: int|
            0 <= i < lines@.len() ==> (#[trigger] lines@[i])@ == pipeline_line(
                state.pipelines.items()[i],
            )),
{
    if let Report::Lines(lines) = report {
        let shown = views(lines@);
        assert(shown.len() == lines@.len());
        assert forall|i: int| 0 <= i < lines@.len() implies (#[trigger] lines@[i])@ == shown[i] by {
        }
    }
}

/// Drawing shows what the mode under all questions says, with a question over it if and only
/// if one is open over a list; and it changes nothing but the selection and what is noted
/// as shown.
pub proof fn drawing_shows_the_mode(main: Main, state: State, after: Main, screen: Screen)
    requires
        main.drew(state, after, screen),
    ensures
        screen is Help <==> innermost(main.mode) is Help,
        screen is Jobs <==> innermost(main.mode) is Jobs,
        screen is Pipelines <==> innermost(main.mode) is Pipelines,
        screen is PipeDiff <==> innermost(main.mode) is PipeDiff,
        screen matches Screen::Jobs(_, question) ==> (question is Some <==> main.mode is Modal),
        screen matches Screen::Pipelines(_, question) ==> (question is Some <==> main.mode
            is Modal),
        after.mode == main.mode,
        after.prev_mode == main.prev_mode,
        after.leave == main.leave,
        after.first_load == main.first_load,
        after.auto_refresh == main.auto_refresh,
        after.ignored_pipeline_ids == main.ignored_pipeline_ids,
        after.pipelines_select_for_diff == main.pipelines_select_for_diff,
        after.pipediff_hide_unchanged == main.pipediff_hide_unchanged,
        after.selected_pipediff == main.selected_pipediff,
        !(innermost(main.mode) is Pipelines) ==> after.pipelines == main.pipelines
            && after.selected_pipeline == main.selected_pipeline,
        !(innermost(main.mode) is Jobs) ==> after.jobs == main.jobs,
        !(innermost(main.mode) is PipeDiff) ==> after.pipediffs == main.pipediffs,
        innermost(main.mode) is Pipelines || innermost(main.mode) is Help ==> after.selected_job
            == main.selected_job,
{
    innermost_is_no_question(main.mode);
}

proof fn innermost_is_no_question(mode: RunMode)
    ensures
        !(innermost(mode) is Modal),
        !(mode is Modal) ==> innermost(mode) == mode,
    decreases mode,
{
    if let RunMode::Modal(_, under) = mode {
        innermost_is_no_question(*under);
    }
}

/// The question that is drawn is the one that is open.
pub proof fn open_question_is_drawn(
    main: Main,
    request: Request,
    under: RunMode,
    state: State,
    after: Main,
    screen: Screen,
)
    requires
        main.mode == RunMode::Modal(request, Box::new(under)),
        !(under is Modal),
        main.drew(state, after, screen),
    ensures
        under is Jobs ==> (screen matches Screen::Jobs(_, Some(shown)) && is_confirmation(
            shown,
            request,
        )),
        under is Pipelines ==> (screen matches Screen::Pipelines(_, Some(shown))
            && is_confirmation(shown, request)),
{
    reveal_with_fuel(question, 2);
    reveal_with_fuel(innermost, 2);
}

/// The pipelines that are shown are those that are not hidden, in their order.
pub proof fn hidden_pipelines_are_left_out(
    pipelines: Seq<Pipeline>,
    pipeline: Pipeline,
    ignored: Set<u64>,
)
    ensures
        pipelines.len() == 0 ==> visible(pipelines, ignored).len() == 0,
        visible(pipelines.push(pipeline), ignored) == if ignored.contains(pipeline.id) {
            visible(pipelines, ignored)
        } else {
            visible(pipelines, ignored).push(pipeline)
        },
{
    reveal(Seq::filter);
    assert(pipelines.push(pipeline).drop_last() =~= pipelines);
}

/// What is drawn is a table of the list that is shown, under the status line: it tells whether
/// data is fetched by itself, and how the last request went. The selection is moved to where
/// it can be in that list.
pub proof fn drawing_tells_the_status(main: Main, state: State, after: Main, screen: Screen)
    requires
        main.drew(state, after, screen),
    ensures
        ({
            let line = status_text(main.auto_refresh, None) + match state.response {
                Some((_, text)) => "| "@ + text@,
                None => Seq::empty(),
            };
            &&& screen matches Screen::Jobs(table, _) ==> {
                &&& is_jobs_table(table, state.jobs.items(), line)
                &&& after.selected_job == state.jobs.fixed(main.selected_job, None)
            }
            &&& screen matches Screen::Pipelines(table, _) ==> innermost(main.mode) matches RunMode::Pipelines(
                info,
            ) && is_pipelines_table(
                table,
                info,
                after.pipelines@,
                longest_ref(state.pipelines.items()),
                state.pipeline_trigger@,
                main.pipelines_select_for_diff,
                main.current_user,
                line,
            ) && after.selected_pipeline == state.pipelines.fixed(
                main.selected_pipeline,
                Some(main.pipelines.len()),
            )
            &&& screen matches Screen::PipeDiff(table) ==> innermost(main.mode) matches RunMode::PipeDiff(
                info,
            ) && is_diff_table(table, info, after.pipediffs@, line)
        }),
{
    let start = status_text(main.auto_refresh, None);
    match state.response {
        Some((_, text)) => {
            status_line_tells_the_outcome(main.auto_refresh, text@);
            assert(start + "| "@ + text@ =~= start + ("| "@ + text@));
        },
        None => {
            assert(start + Seq::<char>::empty() =~= start);
        },
    }
}

/// Of the differences between two pipelines, each that is not left out is drawn: those of a
/// changed job, and the others as long as they are not hidden.
pub proof fn changed_jobs_are_drawn(
    main: Main,
    state: State,
    after: Main,
    screen: Screen,
    i: int,
)
    requires
        main.drew(state, after, screen),
        innermost(main.mode) is PipeDiff,
        0 <= i < state.pipediff.items().len(),
        state.pipediff.items()[i] is Both,
    ensures
        !main.pipediff_hide_unchanged || state.pipediff.items()[i]->Both_0.1.status@
            != state.pipediff.items()[i]->Both_1.1.status@ ==> after.pipediffs@.contains(
            state.pipediff.items()[i],
        ),
{
    let keep = |d: JobDiff| d.shown(main.pipediff_hide_unchanged);
    let all = state.pipediff.items();
    assert(after.pipediffs@ == all.filter(keep));
    if keep(all[i]) {
        all.lemma_filter_contains(keep, i);
    }
}

/// What is drawn of a list is all of it but what is hidden: all jobs, the pipelines that are
/// not ignored, and the differences that are not left out.
pub proof fn drawing_shows_the_data(main: Main, state: State, after: Main, screen: Screen)
    requires
        main.drew(state, after, screen),
    ensures
        screen matches Screen::Jobs(table, _) ==> after.jobs@ == state.jobs.items()
            && table.rows@.len() == state.jobs.items().len(),
        screen matches Screen::Pipelines(table, _) ==> after.pipelines@ == visible(
            state.pipelines.items(),
            main.ignored_pipeline_ids@,
        ) && table.rows@.len() == after.pipelines@.len(),
        screen matches Screen::PipeDiff(table) ==> table.rows@.len() == after.pipediffs@.len()
            && forall|i: int|
            0 <= i < after.pipediffs@.len() ==> (#[trigger] after.pipediffs@[i]) is Both && (
            main.pipediff_hide_unchanged ==> after.pipediffs@[i]->Both_0.1.status@
                != after.pipediffs@[i]->Both_1.1.status@),
{
    match screen {
        Screen::Jobs(table, _) => {
            assert(rows_view(table.rows@).len() == table.rows@.len());
        },
        Screen::Pipelines(table, _) => {
            assert(rows_view(table.rows@).len() == table.rows@.len());
        },
        Screen::PipeDiff(table) => {
            assert(rows_view(table.rows@).len() == table.rows@.len());
            let keep = |d: JobDiff| d.shown(main.pipediff_hide_unchanged);
            let all = state.pipediff.items();
            assert(after.pipediffs@ == all.filter(keep));
            assert forall|i: int| 0 <= i < after.pipediffs@.len() implies keep(
                #[trigger] after.pipediffs@[i],
            ) by {
                all.lemma_filter_pred(keep, i);
            }
        },
        _ => {},
    }
}

} // verus!
