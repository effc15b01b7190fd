//! Everything that can go wrong, and how responses become errors.

use crate::json::{document, opt_tree, parse, Json, Tree};
use crate::text::{
    cat, cat3, decimal, decimal_i64, decimal_u64, int_text, opt_string, trim, trimmed,
};
use vstd::prelude::*;

verus! {

broadcast use vstd::string::group_string_axioms;

/// The longest plain-text body that becomes a message uncut, in characters.
pub const MESSAGE_CAP: usize = 500;

/// Every failure that a client reports.
#[derive(Debug)]
pub enum WritError {
    /// A response outside 2xx.
    Api {
        /// HTTP status.
        status: u16,
        /// Machine code: the body's, else derived from the status.
        code: String,
        /// Message for people.
        message: String,
        /// The body as JSON, or its raw text as a JSON string.
        body: Json,
    },
    /// The keyless daily allowance is exhausted (429).
    RateLimited {
        status: u16,
        code: String,
        message: String,
        body: Json,
        /// When the allowance refills, if reported.
        reset_at: Option<String>,
        /// Requests left today, if reported.
        requests_remaining: Option<i64>,
        /// Pages left today, if reported.
        pages_remaining: Option<i64>,
    },
    /// A metered call without a credential: refused before any network call, or by a
    /// 402 with this code.
    ApiKeyRequired { status: u16, code: String, message: String, body: Json },
    /// The allotment is spent and the wallet cannot cover the call (402).
    InsufficientCredits { status: u16, code: String, message: String, body: Json },
    /// A plan ceiling was hit: a 402 that reports a numeric limit.
    PlanLimit {
        status: u16,
        code: String,
        message: String,
        body: Json,
        /// What was asked for; 0 where it is not reported.
        current: i64,
        /// What the plan allows.
        limit: i64,
        /// A plan that would allow it, if reported.
        upgrade_hint: Option<String>,
    },
    /// The budget of a waiting run expired. The run itself goes on.
    RunTimeout {
        run_id: i64,
        /// Where to read the outcome.
        status_url: Option<String>,
        /// Live events of the run.
        events_url: Option<String>,
    },
    /// A build did not finish in time. The build itself goes on.
    BuildTimeout { build_id: i64 },
    /// The network failed, a request timed out, or a response could not be read.
    Connection(String),
    /// No live daemon was found.
    Discovery(String),
}

impl ErrorView {
    /// The status of the answer that the error came with, where it came with one.
    pub open spec fn status(self) -> Option<u16> {
        match self {
            ErrorView::Api { status, .. } => Some(status),
            ErrorView::RateLimited { status, .. } => Some(status),
            ErrorView::ApiKeyRequired { status, .. } => Some(status),
            ErrorView::InsufficientCredits { status, .. } => Some(status),
            ErrorView::PlanLimit { status, .. } => Some(status),
            _ => None,
        }
    }

    /// The code of that answer.
    pub open spec fn code(self) -> Option<Seq<char>> {
        match self {
            ErrorView::Api { code, .. } => Some(code),
            ErrorView::RateLimited { code, .. } => Some(code),
            ErrorView::ApiKeyRequired { code, .. } => Some(code),
            ErrorView::InsufficientCredits { code, .. } => Some(code),
            ErrorView::PlanLimit { code, .. } => Some(code),
            _ => None,
        }
    }

    /// The message of that answer.
    pub open spec fn message(self) -> Option<Seq<char>> {
        match self {
            ErrorView::Api { message, .. } => Some(message),
            ErrorView::RateLimited { message, .. } => Some(message),
            ErrorView::ApiKeyRequired { message, .. } => Some(message),
            ErrorView::InsufficientCredits { message, .. } => Some(message),
            ErrorView::PlanLimit { message, .. } => Some(message),
            _ => None,
        }
    }

    /// The body of that answer.
    pub open spec fn body(self) -> Option<Tree> {
        match self {
            ErrorView::Api { body, .. } => Some(body),
            ErrorView::RateLimited { body, .. } => Some(body),
            ErrorView::ApiKeyRequired { body, .. } => Some(body),
            ErrorView::InsufficientCredits { body, .. } => Some(body),
            ErrorView::PlanLimit { body, .. } => Some(body),
            _ => None,
        }
    }
}

/// The contents of an error.
#[verifier::ext_equal]
pub enum ErrorView {
    Api { status: u16, code: Seq<char>, message: Seq<char>, body: Tree },
    RateLimited {
        status: u16,
        code: Seq<char>,
        message: Seq<char>,
        body: Tree,
        reset_at: Option<Seq<char>>,
        requests_remaining: Option<i64>,
        pages_remaining: Option<i64>,
    },
    ApiKeyRequired { status: u16, code: Seq<char>, message: Seq<char>, body: Tree },
    InsufficientCredits { status: u16, code: Seq<char>, message: Seq<char>, body: Tree },
    PlanLimit {
        status: u16,
        code: Seq<char>,
        message: Seq<char>,
        body: Tree,
        current: i64,
        limit: i64,
        upgrade_hint: Option<Seq<char>>,
    },
    RunTimeout { run_id: i64, status_url: Option<Seq<char>>, events_url: Option<Seq<char>> },
    BuildTimeout { build_id: i64 },
    Connection(Seq<char>),
    Discovery(Seq<char>),
}

impl View for WritError {
    type V = ErrorView;

    open spec fn view(&self) -> ErrorView {
        match *self {
            WritError::Api { status, code, message, body } => ErrorView::Api {
                status,
                code: code@,
                message: message@,
                body: body.tree(),
            },
            WritError::RateLimited {
                status,
                code,
                message,
                body,
                reset_at,
                requests_remaining,
                pages_remaining,
            } => ErrorView::RateLimited {
                status,
                code: code@,
                message: message@,
                body: body.tree(),
                reset_at: opt_string(reset_at),
                requests_remaining,
                pages_remaining,
            },
            WritError::ApiKeyRequired { status, code, message, body } => ErrorView::ApiKeyRequired {
                status,
                code: code@,
                message: message@,
                body: body.tree(),
            },
            WritError::InsufficientCredits { status, code, message, body } =>
                ErrorView::InsufficientCredits {
                status,
                code: code@,
                message: message@,
                body: body.tree(),
            },
            WritError::PlanLimit {
                status,
                code,
                message,
                body,
                current,
                limit,
                upgrade_hint,
            } => ErrorView::PlanLimit {
                status,
                code: code@,
                message: message@,
                body: body.tree(),
                current,
                limit,
                upgrade_hint: opt_string(upgrade_hint),
            },
            WritError::RunTimeout { run_id, status_url, events_url } => ErrorView::RunTimeout {
                run_id,
                status_url: opt_string(status_url),
                events_url: opt_string(events_url),
            },
            WritError::BuildTimeout { build_id } => ErrorView::BuildTimeout { build_id },
            WritError::Connection(m) => ErrorView::Connection(m@),
            WritError::Discovery(m) => ErrorView::Discovery(m@),
        }
    }
}

/// `<label> [<code>]: <message>`.
pub open spec fn coded_text(label: Seq<char>, code: Seq<char>, message: Seq<char>) -> Seq<char> {
    label + " ["@ + code + "]: "@ + message
}

fn coded(label: &str, code: &str, message: &str) -> (r: String)
    ensures
        r@ == coded_text(label@, code@, message@),
{
    let mut r: String = cat3(label, " [", code);
    r.append("]: ");
    r.append(message);
    r
}

impl WritError {
    /// The error in words.
    pub open spec fn text(&self) -> Seq<char> {
        match self {
            WritError::Api { status, code, message, .. } => coded_text(
                "writ api error "@ + decimal(*status as nat),
                code@,
                message@,
            ),
            WritError::RateLimited { code, message, .. } => coded_text(
                "writ rate limited"@,
                code@,
                message@,
            ),
            WritError::ApiKeyRequired { code, message, .. } => coded_text(
                "writ api key required"@,
                code@,
                message@,
            ),
            WritError::InsufficientCredits { code, message, .. } => coded_text(
                "writ insufficient credits"@,
                code@,
                message@,
            ),
            WritError::PlanLimit { code, message, .. } => coded_text(
                "writ plan limit"@,
                code@,
                message@,
            ),
            WritError::RunTimeout { run_id, .. } => "writ: run "@ + int_text(*run_id as int)
                + " did not finish within the requested budget and is STILL RUNNING — observe it with runs().events("@
                + int_text(*run_id as int) + ") or runs().get("@ + int_text(*run_id as int)
                + "); do not retry, that would start a second run"@,
            WritError::BuildTimeout { build_id } => "writ: build "@ + int_text(*build_id as int)
                + " did not finish within the requested budget and is STILL RUNNING — observe it with builds().get("@
                + int_text(*build_id as int) + "); do not retry, that would start a second build"@,
            WritError::Connection(m) => "writ connection error: "@ + m@,
            WritError::Discovery(m) => "writ discovery error: "@ + m@,
        }
    }

    /// The error in words.
    pub fn message(&self) -> (r: String)
        ensures
            r@ == self.text(),
    {
        match self {
            WritError::Api { status, code, message, .. } => {
                let number: String = decimal_u64(*status as u64);
                let label: String = cat("writ api error ", number.as_str());
                coded(label.as_str(), code.as_str(), message.as_str())
            },
            WritError::RateLimited { code, message, .. } => coded(
                "writ rate limited",
                code.as_str(),
                message.as_str(),
            ),
            WritError::ApiKeyRequired { code, message, .. } => coded(
                "writ api key required",
                code.as_str(),
                message.as_str(),
            ),
            WritError::InsufficientCredits { code, message, .. } => coded(
                "writ insufficient credits",
                code.as_str(),
                message.as_str(),
            ),
            WritError::PlanLimit { code, message, .. } => coded(
                "writ plan limit",
                code.as_str(),
                message.as_str(),
            ),
            WritError::RunTimeout { run_id, .. } => {
                let id: String = decimal_i64(*run_id);
                let mut r: String = cat3(
                    "writ: run ",
                    id.as_str(),
                    " did not finish within the requested budget and is STILL RUNNING — observe it with runs().events(",
                );
                r.append(id.as_str());
                r.append(") or runs().get(");
                r.append(id.as_str());
                r.append("); do not retry, that would start a second run");
                r
            },
            WritError::BuildTimeout { build_id } => {
                let id: String = decimal_i64(*build_id);
                let mut r: String = cat3(
                    "writ: build ",
                    id.as_str(),
                    " did not finish within the requested budget and is STILL RUNNING — observe it with builds().get(",
                );
                r.append(id.as_str());
                r.append("); do not retry, that would start a second build");
                r
            },
            WritError::Connection(m) => cat("writ connection error: ", m.as_str()),
            WritError::Discovery(m) => cat("writ discovery error: ", m.as_str()),
        }
    }
}

/// The machine code of a status, for bodies without one.
pub open spec fn status_code(status: u16) -> Seq<char> {
    if status == 400 {
        "bad_request"@
    } else if status == 401 {
        "unauthorized"@
    } else if status == 403 {
        "forbidden"@
    } else if status == 404 {
        "not_found"@
    } else if status == 409 {
        "conflict"@
    } else if status == 422 {
        "unprocessable"@
    } else if status == 429 {
        "rate_limited"@
    } else if status >= 500 {
        "internal"@
    } else {
        "http_"@ + decimal(status as nat)
    }
}

/// Derives the machine code from a status.
pub fn code_for_status(status: u16) -> (r: String)
    ensures
        r@ == status_code(status),
{
    match status {
        400 => "bad_request".to_owned(),
        401 => "unauthorized".to_owned(),
        403 => "forbidden".to_owned(),
        404 => "not_found".to_owned(),
        409 => "conflict".to_owned(),
        422 => "unprocessable".to_owned(),
        429 => "rate_limited".to_owned(),
        s => {
            if s >= 500 {
                "internal".to_owned()
            } else {
                let number: String = decimal_u64(s as u64);
                cat("http_", number.as_str())
            }
        },
    }
}

/// A text cut after the longest allowed length, with an ellipsis where it was cut.
pub open spec fn capped(text: Seq<char>) -> Seq<char> {
    if text.len() <= MESSAGE_CAP {
        text
    } else {
        text.take(MESSAGE_CAP as int).push('…')
    }
}

/// Cuts a plain-text body for use as a message.
pub fn truncate_message(text: &str) -> (r: String)
    ensures
        r@ == capped(text@),
{
    if text.unicode_len() <= MESSAGE_CAP {
        return text.to_owned();
    }
    assert(text@.subrange(0, 500) == text@.take(500));
    let mut r: String = text.substring_char(0, MESSAGE_CAP).to_owned();
    r.push('…');
    r
}

/// What a body without fields says: its text, or the status line where it is blank.
pub open spec fn plain_message(status_text: Seq<char>, text: Seq<char>) -> Seq<char> {
    if trimmed(text).len() == 0 {
        status_text
    } else {
        capped(text)
    }
}

/// The message of an object: the first of `error`, `detail` and `message` that is a
/// string, else the status line.
pub open spec fn object_message(body: Tree, status_text: Seq<char>) -> Seq<char> {
    match (body.str_at("error"@), body.str_at("detail"@), body.str_at("message"@)) {
        (Some(m), _, _) => m,
        (None, Some(m), _) => m,
        (None, None, Some(m)) => m,
        (None, None, None) => status_text,
    }
}

/// The error that a response outside 2xx stands for, given its body as text and as JSON.
pub open spec fn api_error_view(
    status: u16,
    status_text: Seq<char>,
    text: Seq<char>,
    parsed: Option<Tree>,
) -> ErrorView {
    match parsed {
        Some(Tree::Object(members)) => ErrorView::Api {
            status,
            code: match Tree::Object(members).str_at("code"@) {
                Some(c) => c,
                None => status_code(status),
            },
            message: object_message(Tree::Object(members), status_text),
            body: Tree::Object(members),
        },
        Some(other) => ErrorView::Api {
            status,
            code: status_code(status),
            message: plain_message(status_text, text),
            body: other,
        },
        None => ErrorView::Api {
            status,
            code: status_code(status),
            message: plain_message(status_text, text),
            body: Tree::Str(text),
        },
    }
}

/// The error for a response outside 2xx whose body was read as JSON, where it could be.
pub fn api_error_from(status: u16, status_text: &str, text: &str, parsed: Option<Json>) -> (r:
    WritError)
    ensures
        r@ == api_error_view(status, status_text@, text@, opt_tree(parsed)),
{
    let derived: String = code_for_status(status);
    let plain: String = if trim(text).is_empty() {
        status_text.to_owned()
    } else {
        truncate_message(text)
    };
    match parsed {
        Some(body) => {
            if body.is_object() {
                let code: String = match body.str_at("code") {
                    Some(c) => c.to_owned(),
                    None => derived,
                };
                let message: String = match body.str_at("error") {
                    Some(m) => m.to_owned(),
                    None => match body.str_at("detail") {
                        Some(m) => m.to_owned(),
                        None => match body.str_at("message") {
                            Some(m) => m.to_owned(),
                            None => status_text.to_owned(),
                        },
                    },
                };
                WritError::Api { status, code, message, body }
            } else {
                WritError::Api { status, code: derived, message: plain, body }
            }
        },
        None => WritError::Api {
            status,
            code: derived,
            message: plain,
            body: Json::Str(text.to_owned()),
        },
    }
}

/// The error for a response outside 2xx.
pub fn api_error(status: u16, status_text: &str, text: &str) -> (r: WritError)
    ensures
        r@ == api_error_view(status, status_text@, text@, document(text@)),
{
    api_error_from(status, status_text, text, parse(text))
}

/// A message made from plain text is at most one character longer than the cap, and a
/// short text is its own message.
pub proof fn law_plain_messages_are_short(status_text: Seq<char>, text: Seq<char>)
    requires
        trimmed(text).len() > 0,
    ensures
        plain_message(status_text, text).len() <= MESSAGE_CAP + 1,
        text.len() <= MESSAGE_CAP ==> plain_message(status_text, text) == text,
{
}

/// Whatever a daemon answers outside 2xx becomes an API error with that status, and what
/// it sent is kept whole: as JSON where it is JSON, else as its text.
pub proof fn law_api_error_keeps_the_answer(
    status: u16,
    status_text: Seq<char>,
    text: Seq<char>,
    parsed: Option<Tree>,
)
    ensures
        api_error_view(status, status_text, text, parsed) matches ErrorView::Api {
            status: s,
            body,
            ..
        } && s == status && body == match parsed {
            Some(t) => t,
            None => Tree::Str(text),
        },
{
}

/// An error of the daemon says what the daemon said, under its own names: the code, and the
/// first of `error`, `detail` and `message` that is a text. A body that is no object is its
/// own message, cut to its first five hundred characters.
pub proof fn law_api_errors_are_read_by_name(
    status: u16,
    status_text: Seq<char>,
    text: Seq<char>,
    body: Tree,
)
    ensures
        ({
            let e = api_error_view(status, status_text, text, Some(body));
            &&& e is Api
            &&& e.status() == Some(status)
            &&& e.body() == Some(body)
            &&& body.str_at("code"@) matches Some(c) ==> e.code() == Some(c)
            &&& body.str_at("error"@) matches Some(m) ==> e.message() == Some(m)
            &&& body.str_at("error"@) is None ==> (body.str_at("detail"@) matches Some(m)
                ==> e.message() == Some(m))
            &&& body.str_at("error"@) is None && body.str_at("detail"@) is None ==> (body.str_at(
                "message"@,
            ) matches Some(m) ==> e.message() == Some(m))
            &&& body is Object && body.str_at("error"@) is None && body.str_at("detail"@) is None
                && body.str_at("message"@) is None ==> e.message() == Some(status_text)
        }),
        ({
            let e = api_error_view(status, status_text, text, None);
            &&& e is Api
            &&& e.status() == Some(status)
            &&& e.body() == Some(Tree::Str(text))
            &&& 0 < trimmed(text).len() && text.len() <= 500 ==> e.message() == Some(text)
            &&& 0 < trimmed(text).len() && text.len() > 500 ==> e.message() == Some(
                text.take(500).push('…'),
            )
            &&& trimmed(text).len() == 0 ==> e.message() == Some(status_text)
        }),
{
}

} // verus!
