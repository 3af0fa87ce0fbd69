//! The reply formatter: the text sent back for a selected title, the
//! envelope it travels in, and the line written to the log.

use crate::rank::Candidate;
use crate::rank::CandidateView;
use crate::text::decimal;
use crate::text::decimal_string;
use vstd::prelude::*;
use vstd::string::StringExecFns;

verus! {

/// The year as it is shown: zero where it is not known.
pub open spec fn year_text(start_year: Option<u32>) -> Seq<char> {
    match start_year {
        Some(year) => decimal(year as nat),
        None => decimal(0),
    }
}

/// The rating as it is shown: `0.0` where there is none.
pub open spec fn rating_text(rating_value: Option<Seq<char>>) -> Seq<char> {
    match rating_value {
        Some(text) => text,
        None => "0.0"@,
    }
}

/// The address of a title's detail page.
pub open spec fn detail_url(base: Seq<char>, id: Seq<char>) -> Seq<char> {
    base + "/"@ + id + "/"@
}

/// The reply for a title: `<title> (<year> - <rating>) <base>/<id>/`.
pub open spec fn reply_text(c: CandidateView, base: Seq<char>) -> Seq<char> {
    c.title_text + " ("@ + year_text(c.start_year) + " - "@ + rating_text(c.rating_value) + ") "@
        + detail_url(base, c.id)
}

/// The wire form of a reply: `MSG {"data": "<reply>"}`.
pub open spec fn envelope_text(reply: Seq<char>) -> Seq<char> {
    "MSG {\"data\": \""@ + reply + "\"}"@
}

/// The log line for a title: `<rating> <title> <genres> <base>/<id>/`.
pub open spec fn log_text(c: CandidateView, base: Seq<char>) -> Seq<char> {
    rating_text(c.rating_value) + " "@ + c.title_text + " "@ + c.genres + " "@ + detail_url(
        base,
        c.id,
    )
}

/// Appends the address of the detail page of `id` to `line`.
fn append_detail_url(line: &mut String, base: &str, id: &str)
    ensures
        final(line)@ == old(line)@ + detail_url(base@, id@),
{
    line.append(base);
    line.append("/");
    line.append(id);
    line.append("/");
}

/// Appends the rating as it is shown to `line`.
fn append_rating(line: &mut String, rating_value: &Option<String>)
    ensures
        final(line)@ == old(line)@ + rating_text(
            match *rating_value {
                Some(text) => Some(text@),
                None => None,
            },
        ),
{
    match rating_value {
        Some(text) => line.append(text.as_str()),
        None => line.append("0.0"),
    }
}

/// Renders the reply for the selected title. A missing year is shown as `0`,
/// a missing rating as `0.0`.
pub fn format_reply(selection: &Candidate, detail_url_base: &str) -> (reply: String)
    ensures
        reply@ == reply_text(selection@, detail_url_base@),
{
    let mut reply = selection.title_text.clone();
    reply.append(" (");
    let year = decimal_string(
        match selection.start_year {
            Some(year) => year,
            None => 0,
        },
    );
    reply.append(year.as_str());
    reply.append(" - ");
    append_rating(&mut reply, &selection.rating_value);
    reply.append(") ");
    append_detail_url(&mut reply, detail_url_base, selection.id.as_str());
    reply
}

/// Puts a reply into the envelope that the protocol expects.
pub fn envelope(reply: &str) -> (line: String)
    ensures
        line@ == envelope_text(reply@),
{
    let mut line = String::from_str("MSG {\"data\": \"");
    line.append(reply);
    line.append("\"}");
    line
}

/// Renders the line that the log gets for the selected title.
pub fn format_log_line(selection: &Candidate, detail_url_base: &str) -> (line: String)
    ensures
        line@ == log_text(selection@, detail_url_base@),
{
    let mut line = String::new();
    append_rating(&mut line, &selection.rating_value);
    line.append(" ");
    line.append(selection.title_text.as_str());
    line.append(" ");
    line.append(selection.genres.as_str());
    line.append(" ");
    append_detail_url(&mut line, detail_url_base, selection.id.as_str());
    line
}

} // verus!
