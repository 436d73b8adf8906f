//! What holds of texts, names, points in time and addresses.

use crate::branch::{is_trimmed, is_white, one_trimmed_form};
use crate::bridges::path_segment;
use crate::config::Config;
use crate::model::Job;
use crate::names::{bytes_before, name_before};
use crate::text::{decimal, padded_left, padded_right, views};
use crate::timestamp::whole_seconds_between;
use vstd::prelude::*;
use vstd::utf8::encode_utf8;

verus! {

/// The number that a text of decimal digits stands for.
pub open spec fn number_of(text: Seq<char>) -> int
    decreases text.len(),
{
    if text.len() == 0 {
        0
    } else {
        10 * number_of(text.drop_last()) + (text.last() as u32 - '0' as u32)
    }
}

/// A number in decimal reads back as that number; it is made of digits alone, and begins
/// with a zero only where it is zero.
pub proof fn decimal_reads_back(n: nat)
    ensures
        number_of(decimal(n)) == n,
        decimal(n).len() > 0,
        forall|i: int| 0 <= i < decimal(n).len() ==> '0' <= #[trigger] decimal(n)[i] <= '9',
        decimal(n)[0] == '0' <==> n == 0,
    decreases n,
{
    if n < 10 {
        assert(decimal(n).drop_last() =~= Seq::<char>::empty());
        assert(number_of(decimal(n).drop_last()) == 0);
    } else {
        decimal_reads_back(n / 10);
        assert(decimal(n).drop_last() =~= decimal(n / 10));
        assert forall|i: int| 0 <= i < decimal(n).len() implies '0' <= #[trigger] decimal(n)[i]
            <= '9' by {
            if i < decimal(n / 10).len() {
                assert(decimal(n)[i] == decimal(n / 10)[i]);
            }
        }
        assert(decimal(n)[0] == decimal(n / 10)[0]);
    }
}

/// Filling up a text keeps it, puts blanks on one of its sides, and stops at the width; a
/// text that is long enough is not touched.
pub proof fn padding_keeps_the_text(text: Seq<char>, width: nat)
    ensures
        padded_right(text, width).len() == if text.len() < width {
            width
        } else {
            text.len()
        },
        padded_left(text, width).len() == padded_right(text, width).len(),
        padded_right(text, width).take(text.len() as int) == text,
        padded_left(text, width).skip(padded_left(text, width).len() - text.len()) == text,
        forall|i: int|
            text.len() <= i < padded_right(text, width).len() ==> #[trigger] padded_right(
                text,
                width,
            )[i] == ' ',
        forall|i: int|
            0 <= i < padded_left(text, width).len() - text.len() ==> #[trigger] padded_left(
                text,
                width,
            )[i] == ' ',
{
    assert(padded_right(text, width).take(text.len() as int) =~= text);
    assert(padded_left(text, width).skip(padded_left(text, width).len() - text.len()) =~= text);
}

/// The characters of texts are those of each text, in their order.
pub proof fn views_are_the_texts(texts: Seq<String>)
    ensures
        views(texts).len() == texts.len(),
        forall|i: int| 0 <= i < texts.len() ==> #[trigger] views(texts)[i] == texts[i]@,
{
}

/// Where two names first differ, the lesser byte comes first.
pub proof fn first_difference_decides(
    common: Seq<u8>,
    a: u8,
    b: u8,
    a_rest: Seq<u8>,
    b_rest: Seq<u8>,
)
    requires
        a != b,
    ensures
        bytes_before(common + seq![a] + a_rest, common + seq![b] + b_rest) <==> a < b,
    decreases common.len(),
{
    let left = common + seq![a] + a_rest;
    let right = common + seq![b] + b_rest;
    if common.len() == 0 {
        assert(left[0] == a && right[0] == b);
    } else {
        first_difference_decides(common.drop_first(), a, b, a_rest, b_rest);
        assert(left.drop_first() =~= common.drop_first() + seq![a] + a_rest);
        assert(right.drop_first() =~= common.drop_first() + seq![b] + b_rest);
        assert(left[0] == right[0]);
    }
}

/// The beginning of a name comes before the whole of it.
pub proof fn beginning_comes_first(common: Seq<u8>, rest: Seq<u8>)
    requires
        rest.len() > 0,
    ensures
        bytes_before(common, common + rest),
        !bytes_before(common + rest, common),
    decreases common.len(),
{
    if common.len() > 0 {
        beginning_comes_first(common.drop_first(), rest);
        assert((common + rest).drop_first() =~= common.drop_first() + rest);
    }
}

/// Names are compared by their UTF-8 forms.
pub proof fn names_compare_as_bytes(a: Seq<char>, b: Seq<char>)
    ensures
        name_before(a, b) <==> bytes_before(encode_utf8(a), encode_utf8(b)),
{
}

/// Of the characters of ASCII, white space is the blank, the tabs, the line ends and the form
/// feed; a letter or a digit is none.
pub proof fn blanks_and_line_ends_are_white(c: char)
    requires
        c as u32 <= 0x7f,
    ensures
        is_white(c) <==> c == ' ' || '\t' <= c <= '\r',
{
}

/// White space around a text that has none at its ends is cut off, and nothing else is; a text
/// of white space alone has nothing left.
pub proof fn white_space_around_is_cut_off(
    before: Seq<char>,
    core: Seq<char>,
    behind: Seq<char>,
    trimmed: Seq<char>,
)
    requires
        forall|i: int| 0 <= i < before.len() ==> is_white(#[trigger] before[i]),
        forall|i: int| 0 <= i < behind.len() ==> is_white(#[trigger] behind[i]),
        core.len() > 0 ==> !is_white(core[0]) && !is_white(core[core.len() - 1]),
        is_trimmed(before + core + behind, trimmed),
    ensures
        trimmed == core,
{
    let text = before + core + behind;
    let from = before.len() as int;
    let to = from + core.len();
    assert(core =~= text.subrange(from, to));
    assert forall|i: int| 0 <= i < from || to <= i < text.len() implies is_white(
        #[trigger] text[i],
    ) by {
        if i < from {
            assert(text[i] == before[i]);
        } else {
            assert(text[i] == behind[i - to]);
        }
    }
    assert(core.len() > 0 ==> text[from] == core[0] && text[to - 1] == core[core.len() - 1]);
    assert(is_trimmed(text, core));
    one_trimmed_form(text, trimmed, core);
}

/// Between two points in time outside of leap seconds lie the seconds of their difference,
/// and a begun second does not count; turned round, the number changes its sign.
pub proof fn seconds_are_the_difference(
    then_secs: i64,
    then_nanos: u32,
    now_secs: i64,
    now_nanos: u32,
)
    requires
        then_nanos < 1_000_000_000,
        now_nanos < 1_000_000_000,
    ensures
        whole_seconds_between(then_secs, then_nanos, now_secs, now_nanos) == -whole_seconds_between(
            now_secs,
            now_nanos,
            then_secs,
            then_nanos,
        ),
        now_secs >= then_secs && now_nanos >= then_nanos ==> whole_seconds_between(
            then_secs,
            then_nanos,
            now_secs,
            now_nanos,
        ) == now_secs - then_secs,
        now_secs > then_secs && now_nanos < then_nanos ==> whole_seconds_between(
            then_secs,
            then_nanos,
            now_secs,
            now_nanos,
        ) == now_secs - then_secs - 1,
{
}

/// An address begins with the server and the project, and ends with the number of what it
/// leads to; between them stands what kind of thing that is.
pub proof fn addresses_lead_to_the_project(config: Config, id: u64)
    ensures
        config.job_url(id) == "https://"@ + config.hostname@ + "/"@ + config.project@
            + "/-/jobs/"@ + decimal(id as nat),
        config.merge_request_url(id) == "https://"@ + config.hostname@ + "/"@ + config.project@
            + "/-/merge_requests/"@ + decimal(id as nat),
        config.pipeline_url(id) == "https://"@ + config.hostname@ + "/"@ + config.project@
            + "/pipelines/"@ + decimal(id as nat),
{
}

/// Addresses depend on the server, the project and the number alone.
pub proof fn addresses_ignore_the_rest(a: Config, b: Config, id: u64)
    requires
        a.hostname@ == b.hostname@,
        a.project@ == b.project@,
    ensures
        a.job_url(id) == b.job_url(id),
        a.merge_request_url(id) == b.merge_request_url(id),
        a.pipeline_url(id) == b.pipeline_url(id),
{
}

/// A segment of a path has none of the characters that would end it, and no blanks.
pub proof fn segments_stay_in_one_piece(bytes: Seq<u8>)
    ensures
        forall|i: int|
            0 <= i < path_segment(bytes).len() ==> {
                let c = #[trigger] path_segment(bytes)[i];
                c != '/' && c != '?' && c != '#' && c != ' '
            },
    decreases bytes.len(),
{
    if bytes.len() > 0 {
        segments_stay_in_one_piece(bytes.drop_last());
        let before = path_segment(bytes.drop_last());
        assert forall|i: int| 0 <= i < path_segment(bytes).len() implies {
            let c = #[trigger] path_segment(bytes)[i];
            c != '/' && c != '?' && c != '#' && c != ' '
        } by {
            if i < before.len() {
                assert(path_segment(bytes)[i] == before[i]);
            }
        }
    }
}

/// A name of letters, digits, dashes, dots and underscores is its own segment.
pub proof fn plain_names_are_segments(bytes: Seq<u8>)
    requires
        forall|i: int|
            0 <= i < bytes.len() ==> {
                let b = #[trigger] bytes[i];
                ||| 0x30 <= b <= 0x39
                ||| 0x41 <= b <= 0x5a
                ||| 0x61 <= b <= 0x7a
                ||| b == 0x2d || b == 0x2e || b == 0x5f
            },
    ensures
        path_segment(bytes) == Seq::new(bytes.len(), |i: int| bytes[i] as char),
    decreases bytes.len(),
{
    if bytes.len() > 0 {
        plain_names_are_segments(bytes.drop_last());
    }
    assert(path_segment(bytes) =~= Seq::new(bytes.len(), |i: int| bytes[i] as char));
}

/// The segment of a name in two parts is that of the one and that of the other.
pub proof fn segments_add_up(a: Seq<u8>, b: Seq<u8>)
    ensures
        path_segment(a + b) == path_segment(a) + path_segment(b),
    decreases b.len(),
{
    if b.len() == 0 {
        assert(a + b =~= a);
    } else {
        segments_add_up(a, b.drop_last());
        assert((a + b).drop_last() =~= a + b.drop_last());
    }
    assert(path_segment(a + b) =~= path_segment(a) + path_segment(b));
}

/// The command for a job finds its number and name, its pipeline, the server, the project
/// and the key under the documented names; whether certificates are checked is told both
/// ways; and the session is there if and only if the configuration has one.
pub proof fn commands_find_their_job(config: Config, job: Job, pipeline_id: u64)
    ensures
        ({
            let found = config.job_variables(job, pipeline_id);
            &&& found.contains(("GLCIM_JOB_ID"@, decimal(job.id as nat)))
            &&& found.contains(("GLCIM_JOB_NAME"@, job.name@))
            &&& found.contains(("GLCIM_PIPELINE_ID"@, decimal(pipeline_id as nat)))
            &&& found.contains(("GLCIM_PROJECT"@, config.project@))
            &&& found.contains(("GLCIM_HOSTNAME"@, config.hostname@))
            &&& found.contains(("GLCIM_API_KEY"@, config.api_key@))
            &&& found.contains(
                ("GLCIM_CERT_SECURE"@, if config.cert_insecure {
                    "false"@
                } else {
                    "true"@
                }),
            )
            &&& found.contains(
                ("GLCIM_CERT_INSECURE"@, if config.cert_insecure {
                    "true"@
                } else {
                    "false"@
                }),
            )
            &&& config.cookie matches Some(cookie) ==> found.contains(
                ("GLCIM_COOKIE"@, cookie@),
            )
            &&& found.len() == 8 + if config.cookie is Some {
                1int
            } else {
                0
            }
        }),
{
    let found = config.job_variables(job, pipeline_id);
    assert(found[0].0 == "GLCIM_JOB_ID"@);
    assert(found[1].0 == "GLCIM_JOB_NAME"@);
    assert(found[2].0 == "GLCIM_PIPELINE_ID"@);
    assert(found[3].0 == "GLCIM_PROJECT"@);
    assert(found[4].0 == "GLCIM_HOSTNAME"@);
    assert(found[5].0 == "GLCIM_API_KEY"@);
    assert(found[6].0 == "GLCIM_CERT_INSECURE"@);
    assert(found[7].0 == "GLCIM_CERT_SECURE"@);
    if let Some(cookie) = config.cookie {
        assert(found[8] == ("GLCIM_COOKIE"@, cookie@));
    }
}

} // verus!
