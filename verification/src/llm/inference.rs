//! One inference job, token by token.
//!
//! The model itself is outside this library. A job is a dialogue with it:
//! [`InferenceRun::action`] says what to do with the model next, and
//! [`InferenceRun::resume`] takes what came of it.
//!
//! ## KV-cache prefix reuse
//!
//! The user message is always formatted as `{instruction}\n\n---\n{user_text}`.
//! Everything before (and including) the `---\n` separator is invariant for a
//! given style. On consecutive requests with the same style only the suffix
//! tokens are evicted from the KV-cache and prefilled again, leaving the
//! system-prompt and style-instruction prefix warm.
//!
//! The cached prefix, `(style, prefix_token_len)`, is handed from one job to the
//! next.

use vstd::prelude::*;

use crate::prompt::{
    build_prompt, chat_messages, prefix_end, prefix_end_in_bounds, prompt_for, split_prompt, user_message_text,
    ChatMessage, PromptError, Style, TemplateOutcome, SYSTEM_PROMPT,
};
use crate::text::{digits, digits_text, trimmed};

verus! {

/// A job submitted to the inference worker.
pub enum InferenceJob {
    /// Full (non-streaming) rewrite; the complete result is returned.
    Full { text: String, style: Style },
    /// Streaming rewrite; each piece is sent on as it comes.
    Streaming { text: String, style: Style },
}

impl InferenceJob {
    pub open spec fn text(self) -> Seq<char> {
        match self {
            InferenceJob::Full { text, style } => text@,
            InferenceJob::Streaming { text, style } => text@,
        }
    }

    pub open spec fn style(self) -> Style {
        match self {
            InferenceJob::Full { text, style } => style,
            InferenceJob::Streaming { text, style } => style,
        }
    }
}

/// Why a job failed.
#[derive(Debug, Clone, Copy, PartialEq, Eq, Structural)]
pub enum JobError {
    Prompt(PromptError),
    SuffixTokens,
    PromptTokens,
    PromptTooLong { n_total: u128, max_new: u32, n_ctx: u32 },
    SuffixBatch,
    PromptBatch,
    SuffixDecode,
    PromptDecode,
    Piece,
    TokenBatch,
    TokenDecode,
}

impl JobError {
    pub open spec fn text(self) -> Seq<char> {
        match self {
            JobError::Prompt(e) => e.text(),
            JobError::SuffixTokens => "tokenising prompt suffix"@,
            JobError::PromptTokens => "tokenising prompt"@,
            JobError::PromptTooLong { n_total, max_new, n_ctx } => "prompt ("@ + digits(
                n_total as nat,
            ) + " tokens) + max_tokens ("@ + digits(max_new as nat)
                + ") exceeds context size ("@ + digits(n_ctx as nat)
                + "); increase context_size in config or shorten the input"@,
            JobError::SuffixBatch => "adding suffix token to batch"@,
            JobError::PromptBatch => "adding prompt token to batch"@,
            JobError::SuffixDecode => "suffix prefill decode failed"@,
            JobError::PromptDecode => "prefill decode failed"@,
            JobError::Piece => "decoding token to string"@,
            JobError::TokenBatch => "adding generated token to batch"@,
            JobError::TokenDecode => "generation decode failed"@,
        }
    }

    /// The message that the caller gets.
    pub fn message(&self) -> (r: String)
        ensures
            r@ == self.text(),
    {
        match *self {
            JobError::Prompt(e) => e.message().to_owned(),
            JobError::SuffixTokens => "tokenising prompt suffix".to_owned(),
            JobError::PromptTokens => "tokenising prompt".to_owned(),
            JobError::PromptTooLong { n_total, max_new, n_ctx } => {
                let mut r = "prompt (".to_owned();
                r.append(digits_text(n_total).as_str());
                r.append(" tokens) + max_tokens (");
                r.append(digits_text(max_new as u128).as_str());
                r.append(") exceeds context size (");
                r.append(digits_text(n_ctx as u128).as_str());
                r.append("); increase context_size in config or shorten the input");
                r
            },
            JobError::SuffixBatch => "adding suffix token to batch".to_owned(),
            JobError::PromptBatch => "adding prompt token to batch".to_owned(),
            JobError::SuffixDecode => "suffix prefill decode failed".to_owned(),
            JobError::PromptDecode => "prefill decode failed".to_owned(),
            JobError::Piece => "decoding token to string".to_owned(),
            JobError::TokenBatch => "adding generated token to batch".to_owned(),
            JobError::TokenDecode => "generation decode failed".to_owned(),
        }
    }
}

// ── Dialogue ─────────────────────────────────────────────────────────────────

/// One token of a batch: its position in the context, and whether its logits
/// are wanted.
#[derive(Debug, Clone, Copy, PartialEq, Eq, Structural)]
pub struct BatchEntry {
    pub token: i32,
    pub pos: i32,
    pub logits: bool,
}

/// What to do with the model next.
pub enum Action {
    /// Apply the model's chat template to the messages.
    ApplyTemplate { messages: Vec<ChatMessage> },
    /// Count the tokens of `text`, with the begin-of-text token in front.
    CountTokens { text: String },
    /// Evict the tokens at `position` and behind it from the KV-cache.
    EvictFrom { position: usize },
    /// Clear the whole KV-cache.
    ClearCache,
    /// Turn `text` into tokens, with the begin-of-text token in front if `bos`.
    Tokenize { text: String, bos: bool },
    /// Decode a batch, made with room for `capacity` tokens.
    Decode { capacity: usize, entries: Vec<BatchEntry> },
    /// Sample a token from the logits at `slot` of the last batch.
    Sample { slot: i32 },
    /// Turn a token into a piece of text.
    Detokenize { token: i32 },
    /// Send a piece to the client.
    Send { piece: String },
    /// The job is over. Of a streaming job the text is empty.
    Finish(Result<String, JobError>),
}

/// What came of an action.
pub enum Event {
    /// The chat template was looked up and applied.
    Template(TemplateOutcome),
    /// The number of tokens, or nothing where the text has no tokens.
    Counted(Option<usize>),
    /// The KV-cache was evicted or cleared.
    CacheReady,
    /// The tokens of the text, and the size of the model's context.
    Tokens { tokens: Vec<i32>, n_ctx: u32 },
    /// The text has no tokens.
    TokensFailed,
    /// The batch was decoded.
    Decoded,
    /// A token did not fit in the batch.
    BatchFull,
    /// The batch could not be decoded.
    DecodeFailed,
    /// A token was sampled; `end` if it ends the generation.
    Sampled { token: i32, end: bool },
    /// The text of the token.
    Piece(String),
    /// The token has no text.
    PieceFailed,
    /// The client took the piece, or is gone.
    Sent(bool),
}

/// What an [`Action`] says.
#[verifier::ext_equal]
pub enum ActionView {
    ApplyTemplate { system: Seq<char>, user: Seq<char> },
    CountTokens { text: Seq<char> },
    EvictFrom { position: usize },
    ClearCache,
    Tokenize { text: Seq<char>, bos: bool },
    Decode { capacity: usize, entries: Seq<BatchEntry> },
    Sample { slot: i32 },
    Detokenize { token: i32 },
    Send { piece: Seq<char> },
    Finish(Result<Seq<char>, JobError>),
}

/// Are these the two messages of a chat, the system's and the user's?
pub open spec fn are_messages(
    messages: Seq<ChatMessage>,
    system: Seq<char>,
    user: Seq<char>,
) -> bool {
    &&& messages.len() == 2
    &&& messages[0].role@ == "system"@
    &&& messages[0].content@ == system
    &&& messages[1].role@ == "user"@
    &&& messages[1].content@ == user
}

impl Action {
    /// Does the action say `v`?
    pub open spec fn says(self, v: ActionView) -> bool {
        match (self, v) {
            (
                Action::ApplyTemplate { messages },
                ActionView::ApplyTemplate { system, user },
            ) => are_messages(messages@, system, user),
            (Action::CountTokens { text }, ActionView::CountTokens { text: t }) => text@ == t,
            (
                Action::EvictFrom { position },
                ActionView::EvictFrom { position: p },
            ) => position == p,
            (Action::ClearCache, ActionView::ClearCache) => true,
            (
                Action::Tokenize { text, bos },
                ActionView::Tokenize { text: t, bos: b },
            ) => text@ == t && bos == b,
            (
                Action::Decode { capacity, entries },
                ActionView::Decode { capacity: c, entries: e },
            ) => capacity == c && entries@ == e,
            (Action::Sample { slot }, ActionView::Sample { slot: s }) => slot == s,
            (Action::Detokenize { token }, ActionView::Detokenize { token: t }) => token == t,
            (Action::Send { piece }, ActionView::Send { piece: p }) => piece@ == p,
            (Action::Finish(r), ActionView::Finish(v)) => result_is(r, v),
            _ => false,
        }
    }
}

/// Does `r` hold the result `v`?
pub open spec fn result_is(r: Result<String, JobError>, v: Result<Seq<char>, JobError>) -> bool {
    match (r, v) {
        (Ok(text), Ok(t)) => text@ == t,
        (Err(e), Err(x)) => e == x,
        _ => false,
    }
}

// ── Model of a job ───────────────────────────────────────────────────────────

/// How many tokens a context of `n_ctx` tokens can hold: the model counts its
/// positions in 31 bits.
pub open spec fn usable(n_ctx: u32) -> u32 {
    if n_ctx <= i32::MAX {
        n_ctx
    } else {
        i32::MAX as u32
    }
}

/// Does a prompt of `n_total` tokens leave room for `max_new` more?
pub open spec fn fits(n_total: int, max_new: int, n_ctx: u32) -> bool {
    n_total + max_new <= usable(n_ctx)
}

/// The batch that puts `tokens` at `start` and behind it. Only the logits of
/// the last one are wanted.
pub open spec fn batch(tokens: Seq<i32>, start: int) -> Seq<BatchEntry> {
    Seq::new(
        tokens.len(),
        |i: int|
            BatchEntry {
                token: tokens[i],
                pos: (start + i) as i32,
                logits: i == tokens.len() - 1,
            },
    )
}

/// How far a job has come.
#[verifier::ext_equal]
pub enum StageView {
    /// The prompt is being built.
    Templating { text: Seq<char> },
    /// The tokens of the prompt's prefix are being counted.
    Counting { prompt: Seq<char> },
    /// The KV-cache is being evicted (`reuse`) or cleared.
    Preparing { prompt: Seq<char>, prefix_len: usize, reuse: bool },
    /// The prompt, or only its suffix (`reuse`), is being turned into tokens.
    Tokenizing { prompt: Seq<char>, prefix_len: usize, reuse: bool },
    /// The tokens of the prompt are being decoded from position `start` on.
    Prefilling { tokens: Seq<i32>, start: int, prefix_len: usize, reuse: bool, n_max: int },
    /// The token at position `n_cur` is being sampled.
    Sampling { slot: int, n_cur: int, n_max: int },
    /// The text of the token for position `n_cur` is being looked up.
    Detokenizing { token: i32, n_cur: int, n_max: int },
    /// Its text is being sent.
    Sending { token: i32, piece: Seq<char>, n_cur: int, n_max: int },
    /// The token was put at position `n_cur - 1` and is being decoded.
    Decoding { token: i32, n_cur: int, n_max: int },
    /// The job is over.
    Finished(Result<Seq<char>, JobError>),
}

/// A job under way.
#[verifier::ext_equal]
pub struct RunView {
    pub streaming: bool,
    pub style: Style,
    /// How many tokens may be generated.
    pub max_new: int,
    /// The style and the number of tokens of the prefix that stands at the
    /// beginning of the KV-cache.
    pub cached: Option<(Style, usize)>,
    /// What a full job has generated so far.
    pub output: Seq<char>,
    pub stage: StageView,
}

impl RunView {
    /// A job at its beginning.
    pub open spec fn begun(
        job: InferenceJob,
        max_tokens: u32,
        cached: Option<(Style, usize)>,
    ) -> RunView {
        RunView {
            streaming: job is Streaming,
            style: job.style(),
            max_new: max_tokens as int,
            cached,
            output: Seq::empty(),
            stage: StageView::Templating { text: job.text() },
        }
    }

    pub open spec fn at(self, stage: StageView) -> RunView {
        RunView { stage, ..self }
    }

    pub open spec fn failed(self, e: JobError) -> RunView {
        self.at(StageView::Finished(Err(e)))
    }

    /// The end of the generation. A full job hands over its text without the
    /// white space around it; a streaming job has sent its pieces already.
    pub open spec fn done(self) -> RunView {
        let text = if self.streaming {
            Seq::empty()
        } else {
            trimmed(self.output)
        };
        self.at(StageView::Finished(Ok(text)))
    }

    /// Is the prefix in the KV-cache the one of this job?
    pub open spec fn can_reuse(self, prefix_len: usize) -> bool {
        prefix_len > 0 && self.cached == Some((self.style, prefix_len))
    }

    /// The KV-cache is to be evicted down to the prefix where it can be reused;
    /// else it is to be cleared, and no prefix is cached any more.
    pub open spec fn preparing(self, prompt: Seq<char>, prefix_len: usize) -> RunView {
        let reuse = self.can_reuse(prefix_len);
        RunView {
            cached: if reuse {
                self.cached
            } else {
                None
            },
            stage: StageView::Preparing { prompt, prefix_len, reuse },
            ..self
        }
    }

    /// The tokens of the prompt are known: they are prefilled if they leave
    /// room for the tokens to be generated.
    pub open spec fn admitted(
        self,
        tokens: Seq<i32>,
        n_ctx: u32,
        prefix_len: usize,
        reuse: bool,
    ) -> RunView {
        let start: int = if reuse {
            prefix_len as int
        } else {
            0
        };
        let n_total = start + tokens.len();
        if fits(n_total, self.max_new, n_ctx) {
            self.at(
                StageView::Prefilling {
                    tokens,
                    start,
                    prefix_len,
                    reuse,
                    n_max: n_total + self.max_new,
                },
            )
        } else {
            self.failed(
                JobError::PromptTooLong {
                    n_total: n_total as u128,
                    max_new: self.max_new as u32,
                    n_ctx: usable(n_ctx),
                },
            )
        }
    }

    /// The prompt is in the KV-cache; after a full prefill its prefix is
    /// remembered.
    pub open spec fn prefilled(self, prefix_len: usize, reuse: bool) -> RunView {
        RunView {
            cached: if !reuse && prefix_len > 0 {
                Some((self.style, prefix_len))
            } else {
                self.cached
            },
            ..self
        }
    }

    /// The next token is sampled as long as there is one to generate.
    pub open spec fn generating(self, slot: int, n_cur: int, n_max: int) -> RunView {
        if n_cur < n_max {
            self.at(StageView::Sampling { slot, n_cur, n_max })
        } else {
            self.done()
        }
    }

    /// Is `e` what can come of the action at this stage?
    pub open spec fn awaits(self, e: Event) -> bool {
        match self.stage {
            StageView::Templating { .. } => e is Template,
            StageView::Counting { .. } => e is Counted,
            StageView::Preparing { .. } => e is CacheReady,
            StageView::Tokenizing { .. } => e is Tokens || e is TokensFailed,
            StageView::Prefilling { .. } => e is Decoded || e is BatchFull || e is DecodeFailed,
            StageView::Sampling { .. } => e is Sampled,
            StageView::Detokenizing { .. } => e is Piece || e is PieceFailed,
            StageView::Sending { .. } => e is Sent,
            StageView::Decoding { .. } => e is Decoded || e is BatchFull || e is DecodeFailed,
            StageView::Finished(_) => false,
        }
    }

    /// The job after `e`.
    pub open spec fn next(self, e: Event) -> RunView {
        match (self.stage, e) {
            (StageView::Templating { text }, Event::Template(outcome)) => match prompt_for(
                text,
                self.style,
                outcome,
            ) {
                Err(e) => self.failed(JobError::Prompt(e)),
                Ok(prompt) => if prefix_end(prompt) > 0 {
                    self.at(StageView::Counting { prompt })
                } else {
                    self.preparing(prompt, 0)
                },
            },
            (StageView::Counting { prompt }, Event::Counted(n)) => self.preparing(
                prompt,
                match n {
                    Some(n) => n,
                    None => 0,
                },
            ),
            (
                StageView::Preparing { prompt, prefix_len, reuse },
                Event::CacheReady,
            ) => self.at(StageView::Tokenizing { prompt, prefix_len, reuse }),
            (
                StageView::Tokenizing { prompt, prefix_len, reuse },
                Event::Tokens { tokens, n_ctx },
            ) => self.admitted(tokens@, n_ctx, prefix_len, reuse),
            (
                StageView::Tokenizing { prompt, prefix_len, reuse },
                Event::TokensFailed,
            ) => self.failed(
                if reuse {
                    JobError::SuffixTokens
                } else {
                    JobError::PromptTokens
                },
            ),
            (
                StageView::Prefilling { tokens, start, prefix_len, reuse, n_max },
                Event::Decoded,
            ) => self.prefilled(prefix_len, reuse).generating(
                tokens.len() - 1,
                start + tokens.len(),
                n_max,
            ),
            (
                StageView::Prefilling { tokens, start, prefix_len, reuse, n_max },
                Event::BatchFull,
            ) => self.failed(
                if reuse {
                    JobError::SuffixBatch
                } else {
                    JobError::PromptBatch
                },
            ),
            (
                StageView::Prefilling { tokens, start, prefix_len, reuse, n_max },
                Event::DecodeFailed,
            ) => self.failed(
                if reuse {
                    JobError::SuffixDecode
                } else {
                    JobError::PromptDecode
                },
            ),
            (
                StageView::Sampling { slot, n_cur, n_max },
                Event::Sampled { token, end },
            ) => if end {
                self.done()
            } else {
                self.at(StageView::Detokenizing { token, n_cur, n_max })
            },
            (
                StageView::Detokenizing { token, n_cur, n_max },
                Event::Piece(piece),
            ) => if self.streaming {
                self.at(StageView::Sending { token, piece: piece@, n_cur, n_max })
            } else {
                RunView {
                    output: self.output + piece@,
                    stage: StageView::Decoding { token, n_cur: n_cur + 1, n_max },
                    ..self
                }
            },
            (StageView::Detokenizing { .. }, Event::PieceFailed) => self.failed(JobError::Piece),
            (
                StageView::Sending { token, piece, n_cur, n_max },
                Event::Sent(taken),
            ) => if taken {
                self.at(StageView::Decoding { token, n_cur: n_cur + 1, n_max })
            } else {
                self.done()
            },
            (
                StageView::Decoding { token, n_cur, n_max },
                Event::Decoded,
            ) => self.generating(0, n_cur, n_max),
            (StageView::Decoding { .. }, Event::BatchFull) => self.failed(JobError::TokenBatch),
            (StageView::Decoding { .. }, Event::DecodeFailed) => self.failed(
                JobError::TokenDecode,
            ),
            _ => self,
        }
    }

    /// What is to be done with the model at this stage.
    pub open spec fn action(self) -> ActionView {
        match self.stage {
            StageView::Templating { text } => ActionView::ApplyTemplate {
                system: SYSTEM_PROMPT@,
                user: user_message_text(text, self.style),
            },
            StageView::Counting { prompt } => ActionView::CountTokens {
                text: prompt.take(prefix_end(prompt)),
            },
            StageView::Preparing { prompt, prefix_len, reuse } => if reuse {
                ActionView::EvictFrom { position: prefix_len }
            } else {
                ActionView::ClearCache
            },
            StageView::Tokenizing { prompt, prefix_len, reuse } => if reuse {
                ActionView::Tokenize { text: prompt.skip(prefix_end(prompt)), bos: false }
            } else {
                ActionView::Tokenize { text: prompt, bos: true }
            },
            StageView::Prefilling { tokens, start, .. } => ActionView::Decode {
                capacity: if tokens.len() == 0 {
                    1
                } else {
                    tokens.len() as usize
                },
                entries: batch(tokens, start),
            },
            StageView::Sampling { slot, .. } => ActionView::Sample { slot: slot as i32 },
            StageView::Detokenizing { token, .. } => ActionView::Detokenize { token },
            StageView::Sending { piece, .. } => ActionView::Send { piece },
            StageView::Decoding { token, n_cur, .. } => ActionView::Decode {
                capacity: 1,
                entries: batch(seq![token], n_cur - 1),
            },
            StageView::Finished(r) => ActionView::Finish(r),
        }
    }

    /// Up to the end of the prefill a job that reuses the cached prefix has it
    /// cached; any other has none.
    pub open spec fn counts_on(self, prefix_len: usize, reuse: bool) -> bool {
        if reuse {
            self.can_reuse(prefix_len)
        } else {
            self.cached is None
        }
    }

    /// What every job keeps.
    pub open spec fn valid(self) -> bool {
        &&& 0 <= self.max_new <= u32::MAX
        &&& match self.stage {
            StageView::Preparing { prefix_len, reuse, .. } => self.counts_on(prefix_len, reuse),
            StageView::Tokenizing { prefix_len, reuse, .. } => self.counts_on(prefix_len, reuse),
            StageView::Prefilling { tokens, start, prefix_len, reuse, n_max } => {
                &&& start == (if reuse {
                    prefix_len as int
                } else {
                    0
                })
                &&& self.counts_on(prefix_len, reuse)
                &&& start + tokens.len() <= i32::MAX
                &&& n_max == start + tokens.len() + self.max_new
                &&& n_max <= i32::MAX
            },
            StageView::Sampling { slot, n_cur, n_max } => {
                &&& -1 <= slot < n_cur
                &&& 0 <= n_cur < n_max <= i32::MAX
            },
            StageView::Detokenizing { n_cur, n_max, .. } => 0 <= n_cur < n_max <= i32::MAX,
            StageView::Sending { n_cur, n_max, .. } => 0 <= n_cur < n_max <= i32::MAX,
            StageView::Decoding { n_cur, n_max, .. } => 0 < n_cur <= n_max <= i32::MAX,
            _ => true,
        }
    }
}

// ── Jobs ─────────────────────────────────────────────────────────────────────

enum Stage {
    Templating { text: String },
    Counting { prompt: String },
    Preparing { prompt: String, prefix_len: usize, reuse: bool },
    Tokenizing { prompt: String, prefix_len: usize, reuse: bool },
    Prefilling { tokens: Vec<i32>, start: i32, prefix_len: usize, reuse: bool, n_max: i32 },
    Sampling { slot: i32, n_cur: i32, n_max: i32 },
    Detokenizing { token: i32, n_cur: i32, n_max: i32 },
    Sending { token: i32, piece: String, n_cur: i32, n_max: i32 },
    Decoding { token: i32, n_cur: i32, n_max: i32 },
    Finished(Result<String, JobError>),
}

impl Stage {
    spec fn model(self) -> StageView {
        match self {
            Stage::Templating { text } => StageView::Templating { text: text@ },
            Stage::Counting { prompt } => StageView::Counting { prompt: prompt@ },
            Stage::Preparing { prompt, prefix_len, reuse } => StageView::Preparing {
                prompt: prompt@,
                prefix_len,
                reuse,
            },
            Stage::Tokenizing { prompt, prefix_len, reuse } => StageView::Tokenizing {
                prompt: prompt@,
                prefix_len,
                reuse,
            },
            Stage::Prefilling { tokens, start, prefix_len, reuse, n_max } => StageView::Prefilling {
                tokens: tokens@,
                start: start as int,
                prefix_len,
                reuse,
                n_max: n_max as int,
            },
            Stage::Sampling { slot, n_cur, n_max } => StageView::Sampling {
                slot: slot as int,
                n_cur: n_cur as int,
                n_max: n_max as int,
            },
            Stage::Detokenizing { token, n_cur, n_max } => StageView::Detokenizing {
                token,
                n_cur: n_cur as int,
                n_max: n_max as int,
            },
            Stage::Sending { token, piece, n_cur, n_max } => StageView::Sending {
                token,
                piece: piece@,
                n_cur: n_cur as int,
                n_max: n_max as int,
            },
            Stage::Decoding { token, n_cur, n_max } => StageView::Decoding {
                token,
                n_cur: n_cur as int,
                n_max: n_max as int,
            },
            Stage::Finished(r) => StageView::Finished(
                match r {
                    Ok(text) => Ok(text@),
                    Err(e) => Err(e),
                },
            ),
        }
    }
}

/// A job under way.
pub struct InferenceRun {
    streaming: bool,
    style: Style,
    max_new: u32,
    cached: Option<(Style, usize)>,
    output: String,
    stage: Stage,
}

impl View for InferenceRun {
    type V = RunView;

    closed spec fn view(&self) -> RunView {
        RunView {
            streaming: self.streaming,
            style: self.style,
            max_new: self.max_new as int,
            cached: self.cached,
            output: self.output@,
            stage: self.stage.model(),
        }
    }
}

/// How many tokens a context of `n_ctx` tokens can hold.
fn usable_context(n_ctx: u32) -> (r: u32)
    ensures
        r == usable(n_ctx),
{
    if n_ctx <= 0x7fff_ffff {
        n_ctx
    } else {
        0x7fff_ffff
    }
}

/// The batch that puts `tokens` at `start` and behind it.
fn batch_of(tokens: &Vec<i32>, start: i32) -> (r: Vec<BatchEntry>)
    requires
        0 <= start,
        start + tokens@.len() <= i32::MAX,
    ensures
        r@ == batch(tokens@, start as int),
{
    let n: usize = tokens.len();
    let mut r: Vec<BatchEntry> = Vec::new();
    let mut i: usize = 0;
    while i < n
        invariant
            n == tokens@.len(),
            i <= n,
            0 <= start,
            start + n <= i32::MAX,
            r@ == batch(tokens@, start as int).take(i as int),
        decreases n - i,
    {
        r.push(BatchEntry { token: tokens[i], pos: start + i as i32, logits: i == n - 1 });
        i += 1;
        assert(r@ =~= batch(tokens@, start as int).take(i as int));
    }
    assert(r@ =~= batch(tokens@, start as int));
    r
}

impl InferenceRun {
    #[verifier::type_invariant]
    spec fn kept(self) -> bool {
        self@.valid()
    }

    /// Begin a job that may generate `max_tokens` tokens, with what the job
    /// before it left cached.
    pub fn begin(job: InferenceJob, max_tokens: u32, cached: Option<(Style, usize)>) -> (r:
        InferenceRun)
        ensures
            r@ == RunView::begun(job, max_tokens, cached),
    {
        let (streaming, text, style) = match job {
            InferenceJob::Full { text, style } => (false, text, style),
            InferenceJob::Streaming { text, style } => (true, text, style),
        };
        InferenceRun {
            streaming,
            style,
            max_new: max_tokens,
            cached,
            output: String::new(),
            stage: Stage::Templating { text },
        }
    }

    /// The prefix that stands in the KV-cache: its style and its number of
    /// tokens.
    pub fn cached_prefix(&self) -> (r: Option<(Style, usize)>)
        ensures
            r == self@.cached,
    {
        self.cached
    }

    /// Is `event` what can come of the action at this stage?
    pub fn awaits(&self, event: &Event) -> (r: bool)
        ensures
            r == self@.awaits(*event),
    {
        match (&self.stage, event) {
            (Stage::Templating { .. }, Event::Template(_)) => true,
            (Stage::Counting { .. }, Event::Counted(_)) => true,
            (Stage::Preparing { .. }, Event::CacheReady) => true,
            (Stage::Tokenizing { .. }, Event::Tokens { .. }) => true,
            (Stage::Tokenizing { .. }, Event::TokensFailed) => true,
            (Stage::Prefilling { .. }, Event::Decoded) => true,
            (Stage::Prefilling { .. }, Event::BatchFull) => true,
            (Stage::Prefilling { .. }, Event::DecodeFailed) => true,
            (Stage::Sampling { .. }, Event::Sampled { .. }) => true,
            (Stage::Detokenizing { .. }, Event::Piece(_)) => true,
            (Stage::Detokenizing { .. }, Event::PieceFailed) => true,
            (Stage::Sending { .. }, Event::Sent(_)) => true,
            (Stage::Decoding { .. }, Event::Decoded) => true,
            (Stage::Decoding { .. }, Event::BatchFull) => true,
            (Stage::Decoding { .. }, Event::DecodeFailed) => true,
            _ => false,
        }
    }

    /// What to do with the model next.
    pub fn action(&self) -> (r: Action)
        ensures
            r.says(self@.action()),
    {
        proof {
            use_type_invariant(self);
        }
        match &self.stage {
            Stage::Templating { text } => Action::ApplyTemplate {
                messages: chat_messages(text.as_str(), self.style),
            },
            Stage::Counting { prompt } => {
                let (prefix, _) = split_prompt(prompt.as_str());
                Action::CountTokens { text: prefix }
            },
            Stage::Preparing { prefix_len, reuse, .. } => if *reuse {
                Action::EvictFrom { position: *prefix_len }
            } else {
                Action::ClearCache
            },
            Stage::Tokenizing { prompt, reuse, .. } => if *reuse {
                let (_, suffix) = split_prompt(prompt.as_str());
                Action::Tokenize { text: suffix, bos: false }
            } else {
                Action::Tokenize { text: prompt.clone(), bos: true }
            },
            Stage::Prefilling { tokens, start, .. } => {
                let n: usize = tokens.len();
                Action::Decode {
                    capacity: if n == 0 {
                        1
                    } else {
                        n
                    },
                    entries: batch_of(tokens, *start),
                }
            },
            Stage::Sampling { slot, .. } => Action::Sample { slot: *slot },
            Stage::Detokenizing { token, .. } => Action::Detokenize { token: *token },
            Stage::Sending { piece, .. } => Action::Send { piece: piece.clone() },
            Stage::Decoding { token, n_cur, .. } => {
                let mut one: Vec<i32> = Vec::new();
                one.push(*token);
                assert(one@ =~= seq![*token]);
                Action::Decode { capacity: 1, entries: batch_of(&one, *n_cur - 1) }
            },
            Stage::Finished(r) => Action::Finish(
                match r {
                    Ok(text) => Ok(text.clone()),
                    Err(e) => Err(*e),
                },
            ),
        }
    }

    fn at(self, stage: Stage) -> (r: InferenceRun)
        requires
            self@.at(stage.model()).valid(),
        ensures
            r@ == self@.at(stage.model()),
    {
        InferenceRun {
            streaming: self.streaming,
            style: self.style,
            max_new: self.max_new,
            cached: self.cached,
            output: self.output,
            stage,
        }
    }

    fn failed(self, e: JobError) -> (r: InferenceRun)
        ensures
            r@ == self@.failed(e),
    {
        proof {
            use_type_invariant(&self);
        }
        self.at(Stage::Finished(Err(e)))
    }

    fn done(self) -> (r: InferenceRun)
        ensures
            r@ == self@.done(),
    {
        proof {
            use_type_invariant(&self);
        }
        let text = if self.streaming {
            String::new()
        } else {
            self.output.as_str().trim().to_owned()
        };
        self.at(Stage::Finished(Ok(text)))
    }

    fn preparing(self, prompt: String, prefix_len: usize) -> (r: InferenceRun)
        ensures
            r@ == self@.preparing(prompt@, prefix_len),
    {
        proof {
            use_type_invariant(&self);
        }
        let reuse = prefix_len > 0 && match self.cached {
            Some((style, len)) => style == self.style && len == prefix_len,
            None => false,
        };
        InferenceRun {
            streaming: self.streaming,
            style: self.style,
            max_new: self.max_new,
            cached: if reuse {
                self.cached
            } else {
                None
            },
            output: self.output,
            stage: Stage::Preparing { prompt, prefix_len, reuse },
        }
    }

    fn admitted(self, tokens: Vec<i32>, n_ctx: u32, prefix_len: usize, reuse: bool) -> (r:
        InferenceRun)
        requires
            self@.counts_on(prefix_len, reuse),
        ensures
            r@ == self@.admitted(tokens@, n_ctx, prefix_len, reuse),
    {
        proof {
            use_type_invariant(&self);
        }
        let start: usize = if reuse {
            prefix_len
        } else {
            0
        };
        let n_total: i128 = start as i128 + tokens.len() as i128;
        let n_ctx: u32 = usable_context(n_ctx);
        let max_new: u32 = self.max_new;
        if n_total + max_new as i128 <= n_ctx as i128 {
            let n_max: i32 = (n_total + max_new as i128) as i32;
            self.at(Stage::Prefilling { tokens, start: start as i32, prefix_len, reuse, n_max })
        } else {
            self.failed(JobError::PromptTooLong { n_total: n_total as u128, max_new, n_ctx })
        }
    }

    fn generating(self, slot: i32, n_cur: i32, n_max: i32) -> (r: InferenceRun)
        requires
            -1 <= slot < n_cur,
            0 <= n_cur,
        ensures
            r@ == self@.generating(slot as int, n_cur as int, n_max as int),
    {
        proof {
            use_type_invariant(&self);
        }
        if n_cur < n_max {
            self.at(Stage::Sampling { slot, n_cur, n_max })
        } else {
            self.done()
        }
    }

    /// The job after `event`.
    pub fn resume(self, event: Event) -> (r: InferenceRun)
        requires
            self@.awaits(event),
        ensures
            r@ == self@.next(event),
    {
        proof {
            use_type_invariant(&self);
        }
        let run = InferenceRun {
            streaming: self.streaming,
            style: self.style,
            max_new: self.max_new,
            cached: self.cached,
            output: self.output,
            stage: Stage::Finished(Ok(String::new())),
        };
        assert(self@.at(run.stage.model()) == run@);
        match (self.stage, event) {
            (Stage::Templating { text }, Event::Template(outcome)) => {
                match build_prompt(text.as_str(), run.style, outcome) {
                    Err(e) => run.failed(JobError::Prompt(e)),
                    Ok(prompt) => {
                        let (prefix, _) = split_prompt(prompt.as_str());
                        proof {
                            prefix_end_in_bounds(prompt@);
                        }
                        if !prefix.as_str().is_empty() {
                            run.at(Stage::Counting { prompt })
                        } else {
                            run.preparing(prompt, 0)
                        }
                    },
                }
            },
            (Stage::Counting { prompt }, Event::Counted(n)) => run.preparing(
                prompt,
                n.unwrap_or(0),
            ),
            (Stage::Preparing { prompt, prefix_len, reuse }, Event::CacheReady) => run.at(
                Stage::Tokenizing { prompt, prefix_len, reuse },
            ),
            (
                Stage::Tokenizing { prompt: _, prefix_len, reuse },
                Event::Tokens { tokens, n_ctx },
            ) => run.admitted(tokens, n_ctx, prefix_len, reuse),
            (Stage::Tokenizing { prompt: _, prefix_len: _, reuse }, Event::TokensFailed) => run.failed(
                if reuse {
                    JobError::SuffixTokens
                } else {
                    JobError::PromptTokens
                },
            ),
            (Stage::Prefilling { tokens, start, prefix_len, reuse, n_max }, Event::Decoded) => {
                let n: i32 = tokens.len() as i32;
                let warm = InferenceRun {
                    streaming: run.streaming,
                    style: run.style,
                    max_new: run.max_new,
                    cached: if !reuse && prefix_len > 0 {
                        Some((run.style, prefix_len))
                    } else {
                        run.cached
                    },
                    output: run.output,
                    stage: run.stage,
                };
                warm.generating(n - 1, start + n, n_max)
            },
            (Stage::Prefilling { reuse, .. }, Event::BatchFull) => run.failed(
                if reuse {
                    JobError::SuffixBatch
                } else {
                    JobError::PromptBatch
                },
            ),
            (Stage::Prefilling { reuse, .. }, Event::DecodeFailed) => run.failed(
                if reuse {
                    JobError::SuffixDecode
                } else {
                    JobError::PromptDecode
                },
            ),
            (Stage::Sampling { slot: _, n_cur, n_max }, Event::Sampled { token, end }) => if end {
                run.done()
            } else {
                run.at(Stage::Detokenizing { token, n_cur, n_max })
            },
            (Stage::Detokenizing { token, n_cur, n_max }, Event::Piece(piece)) => if run.streaming {
                run.at(Stage::Sending { token, piece, n_cur, n_max })
            } else {
                let mut output = run.output;
                output.append(piece.as_str());
                InferenceRun {
                    streaming: run.streaming,
                    style: run.style,
                    max_new: run.max_new,
                    cached: run.cached,
                    output,
                    stage: Stage::Decoding { token, n_cur: n_cur + 1, n_max },
                }
            },
            (Stage::Detokenizing { .. }, Event::PieceFailed) => run.failed(JobError::Piece),
            (Stage::Sending { token, piece: _, n_cur, n_max }, Event::Sent(taken)) => if taken {
                run.at(Stage::Decoding { token, n_cur: n_cur + 1, n_max })
            } else {
                run.done()
            },
            (Stage::Decoding { token: _, n_cur, n_max }, Event::Decoded) => run.generating(
                0,
                n_cur,
                n_max,
            ),
            (Stage::Decoding { .. }, Event::BatchFull) => run.failed(JobError::TokenBatch),
            (Stage::Decoding { .. }, Event::DecodeFailed) => run.failed(JobError::TokenDecode),
            _ => run,
        }
    }
}

} // verus!
