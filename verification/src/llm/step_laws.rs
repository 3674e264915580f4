//! What each step of an inference job leads to, and what ends a job.

use vstd::prelude::*;

use crate::llm::inference::{Action, ActionView, Event, InferenceJob, JobError, RunView, StageView};
use crate::llm::inference_laws::{
    after, jobs_stay_valid, lemma_constants, lemma_counts_at, pieces, possible,
};
use crate::prompt::{
    prefix_end, prompt_for, user_message_text, PromptError, Style, TemplateOutcome,
};
use crate::text::{digits, trimmed};

verus! {

// ── From the text to the prompt ──────────────────────────────────────────────

/// A job begins by asking the model to put the system prompt and the request of
/// the user into its chat template.
pub proof fn jobs_begin_with_the_template(
    job: InferenceJob,
    max_tokens: u32,
    cached: Option<(Style, usize)>,
)
    ensures
        ({
            let s = RunView::begun(job, max_tokens, cached);
            &&& s.action() == (ActionView::ApplyTemplate {
                system: "You are a precise writing assistant. When asked to rewrite text, output only the improved version — no explanations, no preamble, no quotation marks, no markdown."@,
                user: user_message_text(job.text(), job.style()),
            })
            &&& s.max_new == max_tokens
            &&& s.cached == cached
            &&& s.style == job.style()
            &&& s.streaming <==> job is Streaming
        }),
{
}

/// Once the prompt is there, the tokens of what stands in front of the caller's
/// text are counted, so that it can be found in the KV-cache; where nothing stands
/// there, the KV-cache is cleared. A prompt that could not be built ends the job.
pub proof fn prompts_are_counted_to_the_separator(
    job: InferenceJob,
    max_tokens: u32,
    cached: Option<(Style, usize)>,
    outcome: TemplateOutcome,
)
    ensures
        ({
            let a = RunView::begun(job, max_tokens, cached).next(Event::Template(outcome)).action();
            match prompt_for(job.text(), job.style(), outcome) {
                Ok(prompt) => if prefix_end(prompt) > 0 {
                    a == (ActionView::CountTokens { text: prompt.take(prefix_end(prompt)) })
                } else {
                    a == ActionView::ClearCache
                },
                Err(e) => a == ActionView::Finish(Err(JobError::Prompt(e))),
            }
        }),
{
}

/// The KV-cache keeps `n` tokens just where the job before left a prefix of the
/// same style and of just that many tokens, and then only the rest of the prompt
/// is turned into tokens, without a begin-of-text token. Else the KV-cache is
/// cleared, and the whole prompt is turned into tokens, with that token in front.
pub proof fn prefixes_are_kept_just_where_they_match(s: RunView, prompt: Seq<char>, n: usize)
    requires
        s.stage == (StageView::Counting { prompt }),
    ensures
        ({
            let t = s.next(Event::Counted(Some(n)));
            let u = t.next(Event::CacheReady);
            if n > 0 && s.cached == Some((s.style, n)) {
                &&& t.action() == (ActionView::EvictFrom { position: n })
                &&& t.cached == s.cached
                &&& u.action() == (ActionView::Tokenize {
                    text: prompt.skip(prefix_end(prompt)),
                    bos: false,
                })
            } else {
                &&& t.action() == ActionView::ClearCache
                &&& t.cached is None
                &&& u.action() == (ActionView::Tokenize { text: prompt, bos: true })
            }
        }),
        ({
            let t = s.next(Event::Counted(None));
            &&& t.action() == ActionView::ClearCache
            &&& t.cached is None
            &&& t.next(Event::CacheReady).action() == (ActionView::Tokenize {
                text: prompt,
                bos: true,
            })
        }),
{
}

// ── From the prompt to the first token ───────────────────────────────────────

/// How many tokens of the prompt are in the KV-cache already.
pub open spec fn kept(stage: StageView) -> int {
    match stage {
        StageView::Tokenizing { prefix_len, reuse, .. } => if reuse {
            prefix_len as int
        } else {
            0
        },
        _ => 0,
    }
}

/// A prompt is refused as too long just when it and the tokens that may be
/// generated are more than the context holds: if they are not, all its tokens are
/// decoded, each at its place behind those that are in the KV-cache, and only the
/// last one with its logits. The refusal tells the three numbers.
pub proof fn prompts_that_fit_are_decoded(s: RunView, tokens: Vec<i32>, n_ctx: u32)
    requires
        s.valid(),
        s.stage is Tokenizing,
    ensures
        ({
            let n = kept(s.stage) + tokens@.len();
            let a = s.next(Event::Tokens { tokens, n_ctx }).action();
            &&& n_ctx <= i32::MAX && n + s.max_new <= n_ctx ==> {
                &&& a matches ActionView::Decode { capacity, entries }
                &&& entries.len() == tokens@.len()
                &&& capacity >= 1 && capacity >= entries.len()
                &&& capacity == 1 || capacity == entries.len()
                &&& forall|i: int|
                    0 <= i < entries.len() ==> {
                        &&& (#[trigger] entries[i]).token == tokens@[i]
                        &&& entries[i].pos == kept(s.stage) + i
                        &&& entries[i].logits <==> i == entries.len() - 1
                    }
            }
            &&& n_ctx <= i32::MAX && n + s.max_new > n_ctx ==> a == ActionView::Finish(
                Err(
                    JobError::PromptTooLong {
                        n_total: n as u128,
                        max_new: s.max_new as u32,
                        n_ctx,
                    },
                ),
            )
            &&& n_ctx > i32::MAX ==> (a is Decode <==> n + s.max_new <= i32::MAX) && (a is Finish
                <==> n + s.max_new > i32::MAX)
        }),
{
}

/// A job is refused as too long only if its prompt and `max_tokens` more are more
/// than the context holds, as the model told it.
pub proof fn jobs_are_refused_only_when_too_long(
    job: InferenceJob,
    max_tokens: u32,
    cached: Option<(Style, usize)>,
    es: Seq<Event>,
    n_total: u128,
    max_new: u32,
    n_ctx: u32,
)
    requires
        possible(RunView::begun(job, max_tokens, cached), es),
        after(RunView::begun(job, max_tokens, cached), es).action() == ActionView::Finish(
            Err(JobError::PromptTooLong { n_total, max_new, n_ctx }),
        ),
    ensures
        max_new == max_tokens,
        n_total + max_tokens > n_ctx,
        es.len() > 0,
        es.last() matches Event::Tokens { tokens, n_ctx: told } && {
            &&& n_total == kept(
                after(RunView::begun(job, max_tokens, cached), es.drop_last()).stage,
            ) + tokens@.len()
            &&& told <= i32::MAX ==> n_ctx == told
            &&& told > i32::MAX ==> n_ctx == i32::MAX
        },
{
    let s = RunView::begun(job, max_tokens, cached);
    if es.len() > 0 {
        jobs_stay_valid(job, max_tokens, cached, es.drop_last());
        lemma_constants(s, es.drop_last());
        match (after(s, es.drop_last()).stage, es.last()) {
            (
                StageView::Tokenizing { prefix_len, reuse, .. },
                Event::Tokens { tokens, n_ctx: told },
            ) => {
                assert(tokens.len() == tokens@.len());
            },
            _ => {},
        }
    }
}

/// What a job returns that ends well: all that was generated, without the white
/// space around it, or nothing where it was sent already.
pub open spec fn result_of(s: RunView) -> Seq<char> {
    if s.streaming {
        Seq::empty()
    } else {
        trimmed(s.output)
    }
}

/// Once the prompt is decoded, a token is sampled from the logits of its last
/// token, unless none may be generated: then the job is done. A full prefill
/// leaves the prefix of the prompt cached for the next job of the style.
pub proof fn decoded_prompts_are_sampled(
    s: RunView,
    tokens: Seq<i32>,
    start: int,
    prefix_len: usize,
    reuse: bool,
    n_max: int,
)
    requires
        s.valid(),
        s.stage == (StageView::Prefilling { tokens, start, prefix_len, reuse, n_max }),
    ensures
        ({
            let t = s.next(Event::Decoded);
            &&& s.max_new > 0 ==> t.action() == (ActionView::Sample { slot: (tokens.len() - 1) as i32 })
            &&& s.max_new == 0 ==> t.action() == ActionView::Finish(Ok(result_of(s)))
            &&& !reuse && prefix_len > 0 ==> t.cached == Some((s.style, prefix_len))
            &&& reuse || prefix_len == 0 ==> t.cached == s.cached
        }),
{
}

// ── Token by token ───────────────────────────────────────────────────────────

/// The token that ends the generation ends the job well; any other is turned into
/// text.
pub proof fn sampled_tokens_end_the_job_or_become_text(s: RunView, token: i32)
    requires
        s.action() is Sample,
    ensures
        s.next(Event::Sampled { token, end: false }).action() == (ActionView::Detokenize { token }),
        s.next(Event::Sampled { token, end: true }).action() == ActionView::Finish(
            Ok(result_of(s)),
        ),
{
}

/// The text of a token goes to the client of a streaming job, and to the result
/// of a full one, as it is. The token itself is then put behind those in the
/// KV-cache, with its logits; where the client is gone, the job is done.
pub proof fn pieces_go_to_the_caller_and_tokens_to_the_cache(
    s: RunView,
    token: i32,
    n_cur: int,
    n_max: int,
    piece: String,
)
    requires
        s.valid(),
        s.stage == (StageView::Detokenizing { token, n_cur, n_max }),
    ensures
        ({
            let t = s.next(Event::Piece(piece));
            let u = if s.streaming {
                t.next(Event::Sent(true))
            } else {
                t
            };
            &&& s.streaming ==> t.action() == (ActionView::Send { piece: piece@ })
            &&& s.streaming ==> t.next(Event::Sent(false)).action() == ActionView::Finish(
                Ok(Seq::empty()),
            )
            &&& s.streaming ==> u.output == s.output
            &&& !s.streaming ==> u.output == s.output + piece@
            &&& u.action() matches ActionView::Decode { capacity, entries } && capacity == 1
                && entries.len() == 1 && entries[0].token == token && entries[0].pos == n_cur
                && entries[0].logits
        }),
{
}

/// After each token but the last that may be generated, the next one is sampled,
/// from the one token of the batch; after the last one the job is done.
pub proof fn generation_goes_on_below_the_limit(
    job: InferenceJob,
    max_tokens: u32,
    cached: Option<(Style, usize)>,
    es: Seq<Event>,
)
    requires
        possible(RunView::begun(job, max_tokens, cached), es),
        after(RunView::begun(job, max_tokens, cached), es).stage is Decoding,
    ensures
        ({
            let s = RunView::begun(job, max_tokens, cached);
            let t = after(s, es).next(Event::Decoded);
            &&& pieces(s, es).len() < max_tokens ==> t.action() == (ActionView::Sample { slot: 0 })
            &&& pieces(s, es).len() >= max_tokens ==> t.action() == ActionView::Finish(
                Ok(result_of(after(s, es))),
            )
        }),
{
    jobs_stay_valid(job, max_tokens, cached, es);
    lemma_counts_at(job, max_tokens, cached, es);
    lemma_constants(RunView::begun(job, max_tokens, cached), es);
}

// ── Failures ─────────────────────────────────────────────────────────────────

/// A job fails only because the model failed it at its last step, or because the
/// prompt is too long; each failure is told by what failed.
pub proof fn jobs_fail_only_by_a_failure(
    job: InferenceJob,
    max_tokens: u32,
    cached: Option<(Style, usize)>,
    es: Seq<Event>,
    e: JobError,
)
    requires
        possible(RunView::begun(job, max_tokens, cached), es),
        after(RunView::begun(job, max_tokens, cached), es).action() == ActionView::Finish(Err(e)),
    ensures
        es.len() > 0,
        match e {
            JobError::Prompt(PromptError::SystemMessage) => es.last() == Event::Template(
                TemplateOutcome::SystemRejected,
            ),
            JobError::Prompt(PromptError::UserMessage) => es.last() == Event::Template(
                TemplateOutcome::UserRejected,
            ),
            JobError::Prompt(PromptError::Template) => es.last() == Event::Template(
                TemplateOutcome::Failed,
            ),
            JobError::SuffixTokens => es.last() is TokensFailed,
            JobError::PromptTokens => es.last() is TokensFailed,
            JobError::PromptTooLong { .. } => es.last() is Tokens,
            JobError::SuffixBatch => es.last() is BatchFull,
            JobError::PromptBatch => es.last() is BatchFull,
            JobError::TokenBatch => es.last() is BatchFull,
            JobError::SuffixDecode => es.last() is DecodeFailed,
            JobError::PromptDecode => es.last() is DecodeFailed,
            JobError::TokenDecode => es.last() is DecodeFailed,
            JobError::Piece => es.last() is PieceFailed,
        },
{
}

/// A step that the model fails ends the job with an error, which tells the rest
/// of a prompt from a whole prompt and both from a token that was generated.
pub proof fn failed_steps_end_the_job(s: RunView)
    ensures
        s.stage matches StageView::Tokenizing { reuse, .. } ==> s.next(
            Event::TokensFailed,
        ).action() == ActionView::Finish(
            Err(
                if reuse {
                    JobError::SuffixTokens
                } else {
                    JobError::PromptTokens
                },
            ),
        ),
        s.stage matches StageView::Prefilling { reuse, .. } ==> {
            &&& s.next(Event::BatchFull).action() == ActionView::Finish(
                Err(
                    if reuse {
                        JobError::SuffixBatch
                    } else {
                        JobError::PromptBatch
                    },
                ),
            )
            &&& s.next(Event::DecodeFailed).action() == ActionView::Finish(
                Err(
                    if reuse {
                        JobError::SuffixDecode
                    } else {
                        JobError::PromptDecode
                    },
                ),
            )
        },
        s.stage is Decoding ==> {
            &&& s.next(Event::BatchFull).action() == ActionView::Finish(Err(JobError::TokenBatch))
            &&& s.next(Event::DecodeFailed).action() == ActionView::Finish(
                Err(JobError::TokenDecode),
            )
        },
        s.stage is Detokenizing ==> s.next(Event::PieceFailed).action() == ActionView::Finish(
            Err(JobError::Piece),
        ),
{
}

/// The messages that callers get. The one on a prompt that is too long gives the
/// tokens of the prompt, those that may be generated, and those that the context
/// holds, in this order.
pub proof fn failures_have_their_messages(n_total: u128, max_new: u32, n_ctx: u32, e: PromptError)
    ensures
        JobError::SuffixTokens.text() == "tokenising prompt suffix"@,
        JobError::PromptTokens.text() == "tokenising prompt"@,
        JobError::SuffixBatch.text() == "adding suffix token to batch"@,
        JobError::PromptBatch.text() == "adding prompt token to batch"@,
        JobError::SuffixDecode.text() == "suffix prefill decode failed"@,
        JobError::PromptDecode.text() == "prefill decode failed"@,
        JobError::Piece.text() == "decoding token to string"@,
        JobError::TokenBatch.text() == "adding generated token to batch"@,
        JobError::TokenDecode.text() == "generation decode failed"@,
        JobError::Prompt(e).text() == e.text(),
        (JobError::PromptTooLong { n_total, max_new, n_ctx }).text() == "prompt ("@ + digits(
            n_total as nat,
        ) + " tokens) + max_tokens ("@ + digits(max_new as nat) + ") exceeds context size ("@
            + digits(n_ctx as nat) + "); increase context_size in config or shorten the input"@,
{
}

/// From the choice of the cached prefix on, only the decoded prompt changes what
/// is cached: neither what is generated nor a failure does. A prompt that could
/// not be built leaves it as well.
pub proof fn the_cached_prefix_outlasts_the_job(s: RunView, e: Event)
    ensures
        !(s.stage is Templating) && !(s.stage is Counting) && !(s.stage is Prefilling
            && e is Decoded) ==> s.next(e).cached == s.cached,
        s.stage is Templating && s.next(e).action() is Finish ==> s.next(e).cached == s.cached,
        s.stage is Templating && s.next(e).action() is CountTokens ==> s.next(e).cached == s.cached,
        s.next(e).style == s.style,
        s.next(e).streaming == s.streaming,
        s.next(e).max_new == s.max_new,
{
}

/// A job holds the text and the style that it was given.
pub proof fn jobs_hold_what_they_were_given(text: String, style: Style)
    ensures
        (InferenceJob::Full { text, style }).text() == text@,
        (InferenceJob::Full { text, style }).style() == style,
        (InferenceJob::Streaming { text, style }).text() == text@,
        (InferenceJob::Streaming { text, style }).style() == style,
{
}

/// What a job asks for in the model is what it asks for in fact: the same action,
/// with the same texts, tokens and numbers. The messages are the system's and then
/// the user's.
pub proof fn actions_are_what_they_say(a: Action, v: ActionView)
    requires
        a.says(v),
    ensures
        a matches Action::ApplyTemplate { messages } ==> {
            &&& messages@.len() == 2
            &&& messages@[0].role@ == "system"@
            &&& messages@[1].role@ == "user"@
            &&& v == (ActionView::ApplyTemplate {
                system: messages@[0].content@,
                user: messages@[1].content@,
            })
        },
        a matches Action::CountTokens { text } ==> v == (ActionView::CountTokens { text: text@ }),
        a matches Action::EvictFrom { position } ==> v == (ActionView::EvictFrom { position }),
        a is ClearCache ==> v is ClearCache,
        a matches Action::Tokenize { text, bos } ==> v == (ActionView::Tokenize { text: text@, bos }),
        a matches Action::Decode { capacity, entries } ==> v == (ActionView::Decode {
            capacity,
            entries: entries@,
        }),
        a matches Action::Sample { slot } ==> v == (ActionView::Sample { slot }),
        a matches Action::Detokenize { token } ==> v == (ActionView::Detokenize { token }),
        a matches Action::Send { piece } ==> v == (ActionView::Send { piece: piece@ }),
        a matches Action::Finish(Ok(text)) ==> v == ActionView::Finish(Ok(text@)),
        a matches Action::Finish(Err(e)) ==> v == ActionView::Finish(Err(e)),
{
}

/// A job awaits what can come of what it asked for, and nothing else.
pub proof fn jobs_await_what_they_asked_for(s: RunView, e: Event)
    ensures
        s.action() is ApplyTemplate ==> (s.awaits(e) <==> e is Template),
        s.action() is CountTokens ==> (s.awaits(e) <==> e is Counted),
        s.action() is EvictFrom || s.action() is ClearCache ==> (s.awaits(e) <==> e is CacheReady),
        s.action() is Tokenize ==> (s.awaits(e) <==> e is Tokens || e is TokensFailed),
        s.action() is Decode ==> (s.awaits(e) <==> e is Decoded || e is BatchFull
            || e is DecodeFailed),
        s.action() is Sample ==> (s.awaits(e) <==> e is Sampled),
        s.action() is Detokenize ==> (s.awaits(e) <==> e is Piece || e is PieceFailed),
        s.action() is Send ==> (s.awaits(e) <==> e is Sent),
        s.action() is Finish ==> !s.awaits(e),
{
}

} // verus!
