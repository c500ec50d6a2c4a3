//! The error-report command: field resolution (defaults and the random
//! position) and the five lines of the printed diagnostic block.

use vstd::prelude::*;
use crate::text::{append_str, dec_str, u32_to_string};
use rand::Rng;

verus! {

/// Default for the `file` field.
pub open spec fn default_file() -> Seq<char> {
    "src/main.dtcm"@
}

/// Default for the `suggestion` field.
pub open spec fn default_suggestion() -> Seq<char> {
    "Check your datachemist syntax"@
}

/// Default for the `module` field.
pub open spec fn default_module() -> Seq<char> {
    "datalab-cli"@
}

/// Default for the `code` field.
pub open spec fn default_code() -> Seq<char> {
    "dl.core.001"@
}

/// The fields of an error report after the defaults were applied.
/// The position stays optional: where it is absent it is drawn at
/// random only when the report is produced.
#[derive(Debug)]
pub struct ErrorArgs {
    pub file: String,
    pub suggestion: String,
    pub pos: Option<u32>,
    pub module: String,
    pub code: String,
}

/// Applies the documented default to every omitted field; a supplied
/// value is kept exactly. The position is passed through unresolved.
pub fn resolve_error_args(
    file: Option<String>,
    suggestion: Option<String>,
    pos: Option<u32>,
    module: Option<String>,
    code: Option<String>,
) -> (r: ErrorArgs)
    ensures
        r.file@ == (match file {
            Option::Some(f) => f@,
            Option::None => default_file(),
        }),
        r.suggestion@ == (match suggestion {
            Option::Some(s) => s@,
            Option::None => default_suggestion(),
        }),
        r.pos == pos,
        r.module@ == (match module {
            Option::Some(m) => m@,
            Option::None => default_module(),
        }),
        r.code@ == (match code {
            Option::Some(c) => c@,
            Option::None => default_code(),
        }),
{
    ErrorArgs {
        file: match file {
            Option::Some(f) => f,
            Option::None => "src/main.dtcm".to_owned(),
        },
        suggestion: match suggestion {
            Option::Some(s) => s,
            Option::None => "Check your datachemist syntax".to_owned(),
        },
        pos,
        module: match module {
            Option::Some(m) => m,
            Option::None => "datalab-cli".to_owned(),
        },
        code: match code {
            Option::Some(c) => c,
            Option::None => "dl.core.001".to_owned(),
        },
    }
}

/// Relies on `rand::thread_rng` and `rand::Rng::gen_range`: a draw from the
/// uniform distribution over `[lo, hi)`, which panics only on an empty range.
#[verifier::external_body]
fn random_u32_in(lo: u32, hi: u32) -> (r: u32)
    requires
        lo < hi,
    ensures
        lo <= r < hi,
{
    rand::thread_rng().gen_range(lo..hi)
}

/// A supplied position is kept exactly; an absent one is drawn
/// uniformly at random from `[1, 200)`.
pub fn resolve_position(pos: Option<u32>) -> (r: u32)
    ensures
        pos matches Option::Some(p) ==> r == p,
        pos is None ==> 1 <= r < 200,
{
    match pos {
        Option::Some(p) => p,
        Option::None => random_u32_in(1, 200),
    }
}

/// First line: the header naming the reporting module.
pub open spec fn header_line(module: Seq<char>) -> Seq<char> {
    "[ERROR]: From: '"@ + module + "'"@
}

/// Second line: the generic message, annotated with the error code.
pub open spec fn code_line(code: Seq<char>) -> Seq<char> {
    "\tAn unexpected error occurred. ["@ + code + "]"@
}

/// Third line: the location, `file:position`.
pub open spec fn location_line(file: Seq<char>, pos: nat) -> Seq<char> {
    "\t-> "@ + file + ":"@ + dec_str(pos)
}

/// Fourth line: the fixed placeholder for the missing snippet.
pub open spec fn snippet_line() -> Seq<char> {
    "\t`<no snippet available>`"@
}

/// Fifth line: the suggestion.
pub open spec fn suggestion_line(suggestion: Seq<char>) -> Seq<char> {
    "\t-> Suggestion: "@ + suggestion
}

/// `lines` is the whole diagnostic block for these fields: exactly five
/// lines, in the fixed order, each holding its resolved field verbatim.
pub open spec fn report_for(
    lines: Seq<String>,
    module: Seq<char>,
    file: Seq<char>,
    suggestion: Seq<char>,
    pos: nat,
    code: Seq<char>,
) -> bool {
    &&& lines.len() == 5
    &&& lines[0]@ == header_line(module)
    &&& lines[1]@ == code_line(code)
    &&& lines[2]@ == location_line(file, pos)
    &&& lines[3]@ == snippet_line()
    &&& lines[4]@ == suggestion_line(suggestion)
}

/// Formats the five lines of the diagnostic block from resolved fields.
pub fn error_lines(module: &str, file: &str, suggestion: &str, pos: u32, code: &str) -> (lines: Vec<
    String,
>)
    ensures
        report_for(lines@, module@, file@, suggestion@, pos as nat, code@),
{
    let mut lines: Vec<String> = Vec::new();

    let mut header = String::new();
    append_str(&mut header, "[ERROR]: From: '");
    append_str(&mut header, module);
    append_str(&mut header, "'");
    proof {
        assert(header@ =~= header_line(module@));
    }
    lines.push(header);

    let mut message = String::new();
    append_str(&mut message, "\tAn unexpected error occurred. [");
    append_str(&mut message, code);
    append_str(&mut message, "]");
    proof {
        assert(message@ =~= code_line(code@));
    }
    lines.push(message);

    let mut location = String::new();
    append_str(&mut location, "\t-> ");
    append_str(&mut location, file);
    append_str(&mut location, ":");
    let rendered_pos = u32_to_string(pos);
    append_str(&mut location, rendered_pos.as_str());
    proof {
        assert(location@ =~= location_line(file@, pos as nat));
    }
    lines.push(location);

    let mut snippet = String::new();
    append_str(&mut snippet, "\t`<no snippet available>`");
    proof {
        assert(snippet@ =~= snippet_line());
    }
    lines.push(snippet);

    let mut advice = String::new();
    append_str(&mut advice, "\t-> Suggestion: ");
    append_str(&mut advice, suggestion);
    proof {
        assert(advice@ =~= suggestion_line(suggestion@));
    }
    lines.push(advice);

    lines
}

} // verus!
