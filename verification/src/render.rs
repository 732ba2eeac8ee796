//! Notification renderer: turns one qualifying merge request into a payload
//! for the sinks. Rendering is a pure transformation; its only degradation
//! is dropping the hyperlink block when the merge request's link cannot be
//! used, which is not an error.

use vstd::prelude::*;
use vstd::string::{StrSliceExecFns, StringExecFns};

use crate::digits::{decimal_string, spec_decimal};
use crate::model::{MergeRequestSummary, MrView, NotificationPayload, PayloadView};

verus! {

/// A link is usable when the URL is absolute with an `http` or `https`
/// scheme and is not the bare scheme alone.
pub open spec fn spec_has_http_prefix(s: Seq<char>) -> bool {
    s.len() > 7 && s[0] == 'h' && s[1] == 't' && s[2] == 't' && s[3] == 'p' && s[4] == ':'
        && s[5] == '/' && s[6] == '/'
}

pub open spec fn spec_has_https_prefix(s: Seq<char>) -> bool {
    s.len() > 8 && s[0] == 'h' && s[1] == 't' && s[2] == 't' && s[3] == 'p' && s[4] == 's'
        && s[5] == ':' && s[6] == '/' && s[7] == '/'
}

pub open spec fn spec_is_linkable_url(s: Seq<char>) -> bool {
    spec_has_http_prefix(s) || spec_has_https_prefix(s)
}

/// Exec mirror of `spec_is_linkable_url`.
pub fn is_linkable_url(s: &str) -> (r: bool)
    ensures
        r == spec_is_linkable_url(s@),
{
    let n = s.unicode_len();
    if n > 8 && s.get_char(0) == 'h' && s.get_char(1) == 't' && s.get_char(2) == 't'
        && s.get_char(3) == 'p' && s.get_char(4) == 's' && s.get_char(5) == ':' && s.get_char(6)
        == '/' && s.get_char(7) == '/' {
        true
    } else if n > 7 && s.get_char(0) == 'h' && s.get_char(1) == 't' && s.get_char(2) == 't'
        && s.get_char(3) == 'p' && s.get_char(4) == ':' && s.get_char(5) == '/' && s.get_char(6)
        == '/' {
        true
    } else {
        false
    }
}

/// Tail of the console line: a generic full stop, or the targeted branch
/// when a target-branch filter was configured.
pub open spec fn spec_suffix(target: Option<Seq<char>>) -> Seq<char> {
    match target {
        None => "."@,
        Some(tb) => " to target branch: "@ + tb + "."@,
    }
}

/// The plain console line for one merge request.
pub open spec fn spec_console_line(m: MrView, target: Option<Seq<char>>) -> Seq<char> {
    "MR #"@ + spec_decimal(m.id as int) + " ("@ + m.title + ") is awaiting merge"@ + spec_suffix(
        target,
    )
}

/// The summary text carried by structured sinks.
pub open spec fn spec_summary_text(m: MrView) -> Seq<char> {
    "MR #"@ + spec_decimal(m.id as int) + " awaiting merge: \""@ + m.title + "\""@
}

/// The markdown block with the hyperlink, built only for a usable link.
pub open spec fn spec_block_markdown(m: MrView) -> Seq<char> {
    "MR **#"@ + spec_decimal(m.id as int) + ": ["@ + m.title + "]("@ + m.web_url + ")**"@
}

/// The full rendered payload for one merge request.
pub open spec fn spec_render(m: MrView, target: Option<Seq<char>>) -> PayloadView {
    PayloadView {
        text: spec_console_line(m, target),
        summary: spec_summary_text(m),
        block_markdown: if spec_is_linkable_url(m.web_url) {
            Some(spec_block_markdown(m))
        } else {
            None
        },
    }
}

/// Notification renderer: a pure transformation of the merge request and the
/// configured target-branch filter into the payload the sinks consume.
pub fn render(mr: &MergeRequestSummary, target: &Option<String>) -> (p: NotificationPayload)
    ensures
        p@ == spec_render(mr@, target.deep_view()),
{
    let id_str = decimal_string(mr.id);

    let mut text = String::new();
    text.append("MR #");
    text.append(id_str.as_str());
    text.append(" (");
    text.append(mr.title.as_str());
    text.append(") is awaiting merge");
    match target {
        None => text.append("."),
        Some(tb) => {
            text.append(" to target branch: ");
            text.append(tb.as_str());
            text.append(".");
        },
    }
    proof {
        assert(text@ =~= spec_console_line(mr@, target.deep_view()));
    }

    let mut summary = String::new();
    summary.append("MR #");
    summary.append(id_str.as_str());
    summary.append(" awaiting merge: \"");
    summary.append(mr.title.as_str());
    summary.append("\"");
    proof {
        assert(summary@ =~= spec_summary_text(mr@));
    }

    let block_markdown = if is_linkable_url(mr.web_url.as_str()) {
        let mut b = String::new();
        b.append("MR **#");
        b.append(id_str.as_str());
        b.append(": [");
        b.append(mr.title.as_str());
        b.append("](");
        b.append(mr.web_url.as_str());
        b.append(")**");
        proof {
            assert(b@ =~= spec_block_markdown(mr@));
        }
        Some(b)
    } else {
        None
    };

    NotificationPayload { text, summary, block_markdown }
}

} // verus!
