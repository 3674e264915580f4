//! The answers given on the session bus.
//!
//! Service name : `org.rewriteit.Rewriter1`
//! Object path  : `/org/rewriteit/Rewriter`

use vstd::prelude::*;
use vstd::utf8::encode_utf8;

use crate::clock::{clock_can_tell, current_unix_secs, secs_since_epoch};
use crate::config::{given_or, text_view};
use crate::llm::engine::{is_model_name, EngineManager, ManagerView};
use crate::prompt::{all_styles, Style};
use crate::text::{has_content, is_blank, is_white_space};

verus! {

pub const SERVICE_NAME: &'static str = "org.rewriteit.Rewriter1";

pub const OBJECT_PATH: &'static str = "/org/rewriteit/Rewriter";

/// The longest text that is accepted, in bytes: about 24 000 English words, well
/// within the model's context.
pub const MAX_TEXT_BYTES: usize = 32_000;

/// How many pieces may wait to be sent as signals.
pub const CHUNK_CAPACITY: usize = 64;

// ── Requests ─────────────────────────────────────────────────────────────────

/// How a request is refused.
pub enum RequestError {
    /// The arguments are not acceptable.
    InvalidArgs(String),
    /// The request was accepted and failed.
    Failed(String),
}

/// What a [`RequestError`] says.
#[verifier::ext_equal]
pub enum RequestErrorView {
    InvalidArgs(Seq<char>),
    Failed(Seq<char>),
}

impl View for RequestError {
    type V = RequestErrorView;

    open spec fn view(&self) -> RequestErrorView {
        match self {
            RequestError::InvalidArgs(reason) => RequestErrorView::InvalidArgs(reason@),
            RequestError::Failed(reason) => RequestErrorView::Failed(reason@),
        }
    }
}

/// Why `text` is not accepted, if it is not.
pub open spec fn refusal(text: Seq<char>) -> Option<Seq<char>> {
    if is_blank(text) {
        Some("text must not be empty"@)
    } else if encode_utf8(text).len() > MAX_TEXT_BYTES {
        Some("text exceeds maximum length (32 000 bytes)"@)
    } else {
        None
    }
}

/// Is `text` acceptable? It must not be empty, nor longer than 32 000 bytes.
pub fn validate_text(text: &str) -> (r: Result<(), RequestError>)
    ensures
        match refusal(text@) {
            None => r is Ok,
            Some(reason) => r matches Err(e) && e@ == RequestErrorView::InvalidArgs(reason),
        },
{
    if !has_content(text) {
        return Err(RequestError::InvalidArgs("text must not be empty".to_owned()));
    }
    if text.as_bytes().len() > MAX_TEXT_BYTES {
        return Err(
            RequestError::InvalidArgs("text exceeds maximum length (32 000 bytes)".to_owned()),
        );
    }
    Ok(())
}

/// The text that is selected, or that of the clipboard where nothing is.
pub open spec fn selected_text(
    selection: Option<Seq<char>>,
    clipboard: Option<Seq<char>>,
) -> Seq<char> {
    match selection {
        Some(text) if !is_blank(text) => text,
        _ => given_or(clipboard, Seq::empty()),
    }
}

/// A rewrite that was accepted.
pub struct Request {
    pub text: String,
    pub style: Style,
}

/// A streaming rewrite that was accepted.
pub struct StreamRequest {
    pub job_id: String,
    pub text: String,
    pub style: Style,
}

/// What came of a rewrite that was accepted.
pub enum RewriteOutcome {
    /// The engine could not be made ready.
    NotReady(String),
    /// The task that waited for the worker died.
    JoinFailed(String),
    /// The engine's answer.
    Answered(Result<String, String>),
}

pub open spec fn join_error_text(reason: Seq<char>) -> Seq<char> {
    "task join error: "@ + reason
}

pub(crate) fn join_error(reason: &str) -> (r: String)
    ensures
        r@ == join_error_text(reason@),
{
    let mut r = "task join error: ".to_owned();
    r.append(reason);
    r
}

/// The answer to a rewrite that was accepted.
pub fn rewrite_reply(outcome: RewriteOutcome) -> (r: Result<String, RequestError>)
    ensures
        match outcome {
            RewriteOutcome::NotReady(reason) => r matches Err(e) && e@ == RequestErrorView::Failed(
                reason@,
            ),
            RewriteOutcome::JoinFailed(reason) => r matches Err(e) && e@
                == RequestErrorView::Failed(join_error_text(reason@)),
            RewriteOutcome::Answered(Err(reason)) => r matches Err(e) && e@
                == RequestErrorView::Failed(reason@),
            RewriteOutcome::Answered(Ok(text)) => r matches Ok(t) && t@ == text@,
        },
{
    match outcome {
        RewriteOutcome::NotReady(reason) => Err(RequestError::Failed(reason)),
        RewriteOutcome::JoinFailed(reason) => Err(
            RequestError::Failed(join_error(reason.as_str())),
        ),
        RewriteOutcome::Answered(Err(reason)) => Err(RequestError::Failed(reason)),
        RewriteOutcome::Answered(Ok(text)) => Ok(text),
    }
}

// ── Job numbers ──────────────────────────────────────────────────────────────

pub open spec fn is_hex_digit(c: char) -> bool {
    '0' <= c <= '9' || 'a' <= c <= 'f'
}

/// A random UUID as it is written: lower-case hexadecimal digits in groups of
/// eight, four, four, four and twelve, with the digits that tell version and
/// variant.
pub open spec fn is_random_uuid(s: Seq<char>) -> bool {
    &&& s.len() == 36
    &&& forall|i: int|
        0 <= i < 36 ==> if i == 8 || i == 13 || i == 18 || i == 23 {
            #[trigger] s[i] == '-'
        } else {
            is_hex_digit(s[i])
        }
    &&& s[14] == '4'
    &&& s[19] == '8' || s[19] == '9' || s[19] == 'a' || s[19] == 'b'
}

/// `uuid::Uuid::new_v4`, in its hyphenated form: a random UUID. Which one, and
/// that no other call returns the same, is not stated.
#[verifier::external_body]
fn new_job_id() -> (r: String)
    ensures
        is_random_uuid(r@),
{
    uuid::Uuid::new_v4().to_string()
}

/// Can `id` be the number of a new job, as `uuid::Uuid::new_v4` makes them?
pub closed spec fn job_id_can_be(id: Seq<char>) -> bool {
    exists|s: String| #[trigger] call_ensures(new_job_id, (), s) && id == s@
}

// ── Service ──────────────────────────────────────────────────────────────────

/// The object on the session bus.
pub struct RewriterService {
    pub engine: EngineManager,
}

impl View for RewriterService {
    type V = ManagerView;

    open spec fn view(&self) -> ManagerView {
        self.engine@
    }
}

impl RewriterService {
    pub fn new(engine: EngineManager) -> (r: RewriterService)
        ensures
            r@ == engine@,
    {
        RewriterService { engine }
    }

    /// Accept a rewrite of `text` using `style` at the time `now`.
    pub fn rewrite_at(&mut self, text: String, style: &str, now: u64) -> (r: Result<
        Request,
        RequestError,
    >)
        ensures
            match refusal(text@) {
                Some(reason) => {
                    &&& r matches Err(e)
                    &&& e@ == RequestErrorView::InvalidArgs(reason)
                    &&& final(self)@ == old(self)@
                },
                None => {
                    &&& r matches Ok(request)
                    &&& request.text@ == text@
                    &&& request.style.is_parsed_from(style@)
                    &&& final(self)@ == old(self)@.touched(now)
                },
            },
    {
        match validate_text(text.as_str()) {
            Err(e) => Err(e),
            Ok(()) => {
                self.engine.touch_at(now);
                Ok(Request { text, style: Style::parse_lossy(style) })
            },
        }
    }

    /// Accept a rewrite of `text` using `style`.
    ///
    /// `text` must be non-empty and ≤ 32 000 bytes. `style` must be one of the
    /// values returned by `ListStyles`; unknown values default to "grammar".
    pub fn rewrite(&mut self, text: String, style: &str) -> (r: Result<Request, RequestError>)
        ensures
            match refusal(text@) {
                Some(reason) => {
                    &&& r matches Err(e)
                    &&& e@ == RequestErrorView::InvalidArgs(reason)
                    &&& final(self)@ == old(self)@
                },
                None => {
                    &&& r matches Ok(request)
                    &&& request.text@ == text@
                    &&& request.style.is_parsed_from(style@)
                    &&& exists|passed: Option<u64>| #[trigger]
                        clock_can_tell(passed) && final(self)@ == old(self)@.touched(
                            secs_since_epoch(passed),
                        )
                },
            },
    {
        let now = current_unix_secs();
        self.rewrite_at(text, style, now)
    }

    /// Accept an asynchronous rewrite, under a `job_id` of its own.
    pub fn start_rewrite(&mut self, text: String, style: &str) -> (r: Result<
        StreamRequest,
        RequestError,
    >)
        ensures
            match refusal(text@) {
                Some(reason) => {
                    &&& r matches Err(e)
                    &&& e@ == RequestErrorView::InvalidArgs(reason)
                    &&& final(self)@ == old(self)@
                },
                None => {
                    &&& r matches Ok(request)
                    &&& job_id_can_be(request.job_id@)
                    &&& is_random_uuid(request.job_id@)
                    &&& request.text@ == text@
                    &&& request.style.is_parsed_from(style@)
                    &&& exists|passed: Option<u64>| #[trigger]
                        clock_can_tell(passed) && final(self)@ == old(self)@.touched(
                            secs_since_epoch(passed),
                        )
                },
            },
    {
        match self.rewrite(text, style) {
            Err(e) => Err(e),
            Ok(request) => {
                let job_id = new_job_id();
                assert(job_id_can_be(job_id@));
                Ok(StreamRequest { job_id, text: request.text, style: request.style })
            },
        }
    }

    /// Accept a rewrite of the current selection, or of the clipboard where
    /// nothing is selected.
    pub fn rewrite_selection(
        &mut self,
        selection: Option<String>,
        clipboard: Option<String>,
        style: &str,
    ) -> (r: Result<Request, RequestError>)
        ensures
            match refusal(selected_text(text_view(selection), text_view(clipboard))) {
                Some(reason) => {
                    &&& r matches Err(e)
                    &&& e@ == RequestErrorView::InvalidArgs(reason)
                    &&& final(self)@ == old(self)@
                },
                None => {
                    &&& r matches Ok(request)
                    &&& request.text@ == selected_text(text_view(selection), text_view(clipboard))
                    &&& request.style.is_parsed_from(style@)
                    &&& exists|passed: Option<u64>| #[trigger]
                        clock_can_tell(passed) && final(self)@ == old(self)@.touched(
                            secs_since_epoch(passed),
                        )
                },
            },
    {
        let text = match selection {
            Some(text) if has_content(text.as_str()) => text,
            _ => match clipboard {
                Some(text) => text,
                None => String::new(),
            },
        };
        self.rewrite(text, style)
    }

    /// Record that a request was completed at `now`.
    pub fn completed_at(&mut self, now: u64)
        ensures
            final(self)@ == old(self)@.touched(now),
    {
        self.engine.touch_at(now);
    }

    /// Record that a request is completed: its reply, or its last signal, has
    /// gone out.
    pub fn completed(&mut self)
        ensures
            exists|passed: Option<u64>| #[trigger]
                clock_can_tell(passed) && final(self)@ == old(self)@.touched(
                    secs_since_epoch(passed),
                ),
    {
        let now = current_unix_secs();
        self.completed_at(now);
    }

    /// Return the list of supported style names.
    pub fn list_styles(&self) -> (r: Vec<String>)
        ensures
            r@.len() == all_styles().len(),
            forall|i: int| 0 <= i < r@.len() ==> (#[trigger] r@[i])@ == all_styles()[i].name(),
    {
        let names = Style::all_names();
        let mut r: Vec<String> = Vec::new();
        let mut i: usize = 0;
        while i < names.len()
            invariant
                i <= names@.len(),
                names@.len() == all_styles().len(),
                forall|k: int|
                    0 <= k < names@.len() ==> (#[trigger] names@[k])@ == all_styles()[k].name(),
                r@.len() == i,
                forall|k: int| 0 <= k < i ==> (#[trigger] r@[k])@ == all_styles()[k].name(),
            decreases names@.len() - i,
        {
            r.push(names[i].to_owned());
            i += 1;
        }
        r
    }

    /// Return `true` when the model has already been downloaded and loaded.
    pub fn is_ready(&self) -> (r: bool)
        ensures
            r == self@.engine is Some,
    {
        self.engine.is_ready()
    }

    /// Return metadata about the running service.
    pub fn model_name(&self) -> (r: String)
        ensures
            match self@.engine {
                Some(engine) => r@ == engine.model_name,
                None => is_model_name(r@, self@.config.model_path),
            },
    {
        self.engine.model_name()
    }

    /// Return the current model lifecycle status.
    pub fn status(&self) -> (r: String)
        ensures
            r@ == self@.status_text(),
    {
        self.engine.status()
    }
}

// ── Laws ─────────────────────────────────────────────────────────────────────

/// A text is accepted just when it holds something other than white space and is
/// at most 32 000 bytes long. Of a text that is blank and too long, the blank is
/// what is said.
pub proof fn texts_are_refused_when_blank_or_too_long(text: Seq<char>)
    ensures
        refusal(text) is None <==> encode_utf8(text).len() <= 32_000 && exists|i: int|
            0 <= i < text.len() && !is_white_space(#[trigger] text[i]),
        (forall|i: int| 0 <= i < text.len() ==> is_white_space(#[trigger] text[i])) ==> refusal(text)
            == Some("text must not be empty"@),
        encode_utf8(text).len() > 32_000 && (exists|i: int|
            0 <= i < text.len() && !is_white_space(#[trigger] text[i])) ==> refusal(text) == Some(
            "text exceeds maximum length (32 000 bytes)"@,
        ),
{
}

/// What is selected goes before the clipboard: a selection that is not blank is
/// the text, whatever the clipboard holds, and where there is none. Where nothing
/// is selected, or only white space, the text is that of the clipboard; where
/// there is none of that either, it is empty and so refused.
pub proof fn selections_go_before_the_clipboard(
    selection: Seq<char>,
    blank: Seq<char>,
    clipboard: Option<Seq<char>>,
    text: Seq<char>,
)
    requires
        exists|i: int| 0 <= i < selection.len() && !is_white_space(#[trigger] selection[i]),
        is_blank(blank),
    ensures
        selected_text(Some(selection), clipboard) == selection,
        selected_text(Some(selection), None) == selection,
        selected_text(None, Some(text)) == text,
        selected_text(Some(blank), Some(text)) == text,
        selected_text(None, None) == Seq::<char>::empty(),
        selected_text(Some(blank), None) == Seq::<char>::empty(),
        refusal(selected_text(None, None)) == Some("text must not be empty"@),
{
}

/// The message of a task that died names the reason, behind the words for it.
pub proof fn join_errors_name_their_reason(reason: Seq<char>)
    ensures
        join_error_text(reason) == "task join error: "@ + reason,
{
}

/// A job number is written in 36 characters, of which the ninth, the fourteenth,
/// the nineteenth and the twenty-fourth are hyphens; all others are digits or the
/// letters from a to f, and the fifteenth, which tells the version, is a 4.
pub proof fn job_numbers_are_written_in_groups(id: Seq<char>, i: int)
    requires
        is_random_uuid(id),
        0 <= i < id.len(),
    ensures
        id.len() == 36,
        id[i] == '-' <==> i == 8 || i == 13 || i == 18 || i == 23,
        id[i] == '-' || '0' <= id[i] <= '9' || 'a' <= id[i] <= 'f',
        id[14] == '4',
{
}

/// The service and its object are found on the bus under these names.
pub proof fn the_service_has_its_names()
    ensures
        SERVICE_NAME@ == "org.rewriteit.Rewriter1"@,
        OBJECT_PATH@ == "/org/rewriteit/Rewriter"@,
        MAX_TEXT_BYTES == 32_000,
        CHUNK_CAPACITY == 64,
{
}

/// A job number comes from the generator of such numbers, and so has their form.
proof fn job_numbers_come_from_the_generator(id: Seq<char>)
    requires
        job_id_can_be(id),
    ensures
        is_random_uuid(id),
        exists|s: String| #[trigger] call_ensures(new_job_id, (), s) && id == s@,
{
}

/// A refusal says why: the reason in a view is the reason that is sent.
pub proof fn refusals_are_viewed_as_they_are(e: RequestError)
    ensures
        e matches RequestError::InvalidArgs(reason) ==> e@ == RequestErrorView::InvalidArgs(reason@),
        e matches RequestError::Failed(reason) ==> e@ == RequestErrorView::Failed(reason@),
{
}

} // verus!
