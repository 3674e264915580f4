//! What the KV-cache holds: which tokens a cached prefix is made of, and that
//! reusing it changes nothing but the cost.

use vstd::prelude::*;

use crate::llm::inference::{ActionView, Event, InferenceJob, RunView, StageView};
use crate::llm::inference_laws::{
    after, batches_continue_the_cache, cache_step, history, jobs_stay_valid, lemma_constants, pieces,
    steps_keep_the_cache,
};
use crate::prompt::{prefix_end, prompt_for, Style, TemplateOutcome};

verus! {

// ── The tokens of a cached prefix ────────────────────────────────────────────

/// The tokens of the prompt with which the KV-cache was filled anew along `es`,
/// if it was.
pub open spec fn filled_with(s: RunView, es: Seq<Event>) -> Option<Seq<i32>>
    decreases es.len(),
{
    if es.len() == 0 {
        None
    } else {
        match (after(s, es.drop_last()).stage, es.last()) {
            (StageView::Prefilling { tokens, reuse: false, .. }, Event::Decoded) => Some(tokens),
            _ => filled_with(s, es.drop_last()),
        }
    }
}

/// The prefix that a job leaves cached stands at the beginning of the KV-cache.
/// After a full prefill it is the first tokens of the prompt that filled the
/// cache; after a reuse, or where nothing was prefilled, it is the prefix that
/// the job found, with the same tokens as before.
pub proof fn cached_prefixes_stand_in_the_cache(
    job: InferenceJob,
    max_tokens: u32,
    cached: Option<(Style, usize)>,
    es: Seq<Event>,
    caches: Seq<Seq<i32>>,
)
    requires
        history(RunView::begun(job, max_tokens, cached), es, caches),
        cached matches Some((_, n)) ==> n <= caches[0].len(),
    ensures
        ({
            let s = RunView::begun(job, max_tokens, cached);
            after(s, es).cached matches Some((style, n)) ==> {
                &&& n <= caches.last().len()
                &&& match filled_with(s, es) {
                    Some(tokens) => {
                        &&& style == job.style()
                        &&& n <= tokens.len()
                        &&& caches.last().take(n as int) == tokens.take(n as int)
                    },
                    None => {
                        &&& cached == Some((style, n))
                        &&& caches.last().take(n as int) == caches[0].take(n as int)
                    },
                }
            }
        }),
    decreases es.len(),
{
    let s = RunView::begun(job, max_tokens, cached);
    if es.len() > 0 {
        let earlier = es.drop_last();
        let before = caches[es.len() - 1];
        let now = caches[es.len() as int];
        assert(caches.drop_last()[0] == caches[0]);
        cached_prefixes_stand_in_the_cache(job, max_tokens, cached, earlier, caches.drop_last());
        batches_continue_the_cache(job, max_tokens, cached, earlier, caches.drop_last());
        jobs_stay_valid(job, max_tokens, cached, earlier);
        lemma_constants(s, earlier);
        let was = after(s, earlier);
        steps_keep_the_cache(was, es.last(), before, now);
        match (was.stage, es.last()) {
            (
                StageView::Prefilling { tokens, reuse: false, prefix_len, .. },
                Event::Decoded,
            ) => {
                assert(now =~= tokens);
            },
            _ => {},
        }
    }
}

/// How a model turns a text into tokens (with the begin-of-text token in front
/// or without), and what stands in front of the caller's text in its prompts of
/// each style.
pub struct Tokenizer {
    pub tokens: spec_fn(Seq<char>, bool) -> Seq<i32>,
    pub prefix: spec_fn(Style) -> Seq<char>,
}

impl Tokenizer {
    pub open spec fn prefix_tokens(self, style: Style) -> Seq<i32> {
        (self.tokens)((self.prefix)(style), true)
    }

    /// The tokens of the prompt are those of its prefix followed by those of the
    /// rest.
    pub open spec fn parts(self, prompt: Seq<char>) -> bool {
        (self.tokens)(prompt, true) == (self.tokens)(prompt.take(prefix_end(prompt)), true) + (
        self.tokens)(prompt.skip(prefix_end(prompt)), false)
    }

    /// Is `e` what the model can answer?
    pub open spec fn answers(self, s: RunView, e: Event) -> bool {
        match (s.stage, e) {
            (StageView::Templating { text }, Event::Template(outcome)) => {
                prompt_for(text, s.style, outcome) matches Ok(prompt) ==> prefix_end(prompt) > 0
                    ==> prompt.take(prefix_end(prompt)) == (self.prefix)(s.style)
            },
            (StageView::Counting { prompt }, Event::Counted(n)) => {
                n matches Some(n) ==> n == self.prefix_tokens(s.style).len()
            },
            (
                StageView::Tokenizing { prompt, reuse, .. },
                Event::Tokens { tokens, .. },
            ) => {
                &&& self.parts(prompt)
                &&& tokens@ == if reuse {
                    (self.tokens)(prompt.skip(prefix_end(prompt)), false)
                } else {
                    (self.tokens)(prompt, true)
                }
            },
            _ => true,
        }
    }

    /// Are all of `es` what the model can answer?
    pub open spec fn answers_all(self, s: RunView, es: Seq<Event>) -> bool
        decreases es.len(),
    {
        es.len() > 0 ==> {
            &&& self.answers_all(s, es.drop_last())
            &&& self.answers(after(s, es.drop_last()), es.last())
        }
    }

    /// The prefix `cached` is at the beginning of `cache`, and it is the prefix
    /// of its style.
    pub open spec fn holds(self, cached: Option<(Style, usize)>, cache: Seq<i32>) -> bool {
        cached matches Some((style, n)) ==> {
            &&& n <= cache.len()
            &&& cache.take(n as int) == self.prefix_tokens(style)
        }
    }

    /// What a job knows of the prefix of its prompt.
    spec fn knows(self, s: RunView) -> bool {
        match s.stage {
            StageView::Counting { prompt } => {
                &&& prefix_end(prompt) > 0
                &&& prompt.take(prefix_end(prompt)) == (self.prefix)(s.style)
            },
            StageView::Preparing { prompt, prefix_len, .. } => prefix_len > 0 ==> {
                &&& prompt.take(prefix_end(prompt)) == (self.prefix)(s.style)
                &&& prefix_len == self.prefix_tokens(s.style).len()
            },
            StageView::Tokenizing { prompt, prefix_len, .. } => prefix_len > 0 ==> {
                &&& prompt.take(prefix_end(prompt)) == (self.prefix)(s.style)
                &&& prefix_len == self.prefix_tokens(s.style).len()
            },
            StageView::Prefilling { tokens, prefix_len, reuse, .. } => prefix_len > 0 && !reuse
                ==> {
                &&& prefix_len <= tokens.len()
                &&& tokens.take(prefix_len as int) == self.prefix_tokens(s.style)
            },
            _ => true,
        }
    }
}

/// Whatever comes of a job, well or badly, the prefix that it leaves cached is
/// in the KV-cache, and is made of the tokens of its style's prefix, if that was
/// so before.
pub proof fn jobs_leave_the_prefix_of_a_style(
    t: Tokenizer,
    job: InferenceJob,
    max_tokens: u32,
    cached: Option<(Style, usize)>,
    es: Seq<Event>,
    caches: Seq<Seq<i32>>,
)
    requires
        history(RunView::begun(job, max_tokens, cached), es, caches),
        t.answers_all(RunView::begun(job, max_tokens, cached), es),
        t.holds(cached, caches[0]),
    ensures
        t.holds(after(RunView::begun(job, max_tokens, cached), es).cached, caches.last()),
{
    lemma_prefix_of_a_style(t, job, max_tokens, cached, es, caches);
}

proof fn lemma_prefix_of_a_style(
    t: Tokenizer,
    job: InferenceJob,
    max_tokens: u32,
    cached: Option<(Style, usize)>,
    es: Seq<Event>,
    caches: Seq<Seq<i32>>,
)
    requires
        history(RunView::begun(job, max_tokens, cached), es, caches),
        t.answers_all(RunView::begun(job, max_tokens, cached), es),
        t.holds(cached, caches[0]),
    ensures
        t.holds(after(RunView::begun(job, max_tokens, cached), es).cached, caches.last()),
        t.knows(after(RunView::begun(job, max_tokens, cached), es)),
    decreases es.len(),
{
    let s = RunView::begun(job, max_tokens, cached);
    if es.len() > 0 {
        let earlier = es.drop_last();
        let before = caches[es.len() - 1];
        let now = caches[es.len() as int];
        assert(caches.drop_last()[0] == caches[0]);
        lemma_prefix_of_a_style(t, job, max_tokens, cached, earlier, caches.drop_last());
        batches_continue_the_cache(job, max_tokens, cached, earlier, caches.drop_last());
        jobs_stay_valid(job, max_tokens, cached, earlier);
        let was = after(s, earlier);
        steps_keep_the_cache(was, es.last(), before, now);
        match (was.stage, es.last()) {
            (
                StageView::Tokenizing { prompt, prefix_len, reuse: false },
                Event::Tokens { tokens, .. },
            ) => {
                if prefix_len > 0 {
                    assert(tokens@.take(prefix_len as int) =~= t.prefix_tokens(was.style));
                }
            },
            (
                StageView::Prefilling { tokens, reuse: false, prefix_len, .. },
                Event::Decoded,
            ) => {
                assert(now =~= tokens);
            },
            _ => {},
        }
    }
}

/// One job of a worker: what was asked, what came of the actions, and what was
/// in the KV-cache before each of them and after the last.
pub struct Turn {
    pub job: InferenceJob,
    pub max_tokens: u32,
    pub es: Seq<Event>,
    pub caches: Seq<Seq<i32>>,
}

/// The prefix that is cached after all of `turns`, of which each finds what the
/// one before it left, and the first finds none.
pub open spec fn cached_after(turns: Seq<Turn>) -> Option<(Style, usize)>
    decreases turns.len(),
{
    if turns.len() == 0 {
        None
    } else {
        let turn = turns.last();
        after(RunView::begun(turn.job, turn.max_tokens, cached_after(turns.drop_last())), turn.es).cached
    }
}

/// What is in the KV-cache after all of `turns`.
pub open spec fn cache_after(turns: Seq<Turn>) -> Seq<i32> {
    if turns.len() == 0 {
        Seq::empty()
    } else {
        turns.last().caches.last()
    }
}

/// `turns` can be the jobs of a worker, one behind the other.
pub open spec fn worked(t: Tokenizer, turns: Seq<Turn>) -> bool
    decreases turns.len(),
{
    turns.len() > 0 ==> {
        let turn = turns.last();
        let s = RunView::begun(turn.job, turn.max_tokens, cached_after(turns.drop_last()));
        &&& worked(t, turns.drop_last())
        &&& history(s, turn.es, turn.caches)
        &&& t.answers_all(s, turn.es)
        &&& turn.caches[0] == cache_after(turns.drop_last())
    }
}

/// However many jobs a worker has done, of whatever styles and with whatever
/// outcome: the prefix that is cached is at the beginning of the KV-cache, and is
/// made of the tokens of its style's prefix.
pub proof fn workers_keep_the_prefix_of_a_style(t: Tokenizer, turns: Seq<Turn>)
    requires
        worked(t, turns),
    ensures
        t.holds(cached_after(turns), cache_after(turns)),
    decreases turns.len(),
{
    if turns.len() > 0 {
        let turn = turns.last();
        workers_keep_the_prefix_of_a_style(t, turns.drop_last());
        jobs_leave_the_prefix_of_a_style(
            t,
            turn.job,
            turn.max_tokens,
            cached_after(turns.drop_last()),
            turn.es,
            turn.caches,
        );
    }
}

// ── Reuse ────────────────────────────────────────────────────────────────────

/// Do two template outcomes give the same prompt, or fail alike?
pub open spec fn same_outcome(a: TemplateOutcome, b: TemplateOutcome) -> bool {
    match (a, b) {
        (TemplateOutcome::SystemRejected, TemplateOutcome::SystemRejected) => true,
        (TemplateOutcome::UserRejected, TemplateOutcome::UserRejected) => true,
        (TemplateOutcome::Missing, TemplateOutcome::Missing) => true,
        (TemplateOutcome::Failed, TemplateOutcome::Failed) => true,
        (TemplateOutcome::Applied(p), TemplateOutcome::Applied(q)) => p@ == q@,
        _ => false,
    }
}

/// Do two events say the same?
pub open spec fn same_answer(a: Event, b: Event) -> bool {
    match (a, b) {
        (Event::Template(p), Event::Template(q)) => same_outcome(p, q),
        (
            Event::Tokens { tokens: p, n_ctx: m },
            Event::Tokens { tokens: q, n_ctx: n },
        ) => p@ == q@ && m == n,
        (Event::Piece(p), Event::Piece(q)) => p@ == q@,
        _ => a == b,
    }
}

/// From the prefill on, the answers of two runs differ only where the tokens in
/// the KV-cache differ, or an answer before differed.
pub open spec fn answers_follow_the_cache(
    es: Seq<Event>,
    caches: Seq<Seq<i32>>,
    others: Seq<Event>,
    other_caches: Seq<Seq<i32>>,
) -> bool {
    forall|i: int|
        5 <= i < es.len() && i < others.len() && caches[i] == other_caches[i] && (forall|j: int|
            5 <= j < i ==> same_answer(es[j], #[trigger] others[j])) ==> same_answer(
            es[i],
            #[trigger] others[i],
        )
}

/// The same but for the slot to sample from: both runs sample from the last
/// token of the batch that they decoded.
pub open spec fn same_but_for_the_slot(a: RunView, b: RunView) -> bool {
    match (a.stage, b.stage) {
        (
            StageView::Sampling { n_cur, n_max, .. },
            StageView::Sampling { slot, n_cur: m, n_max: n },
        ) => n_cur == m && n_max == n && a.at(b.stage) == b,
        _ => a == b,
    }
}

/// One run, which finds the prefix of its prompt cached, turns the rest of the
/// prompt into tokens; another turns the whole of the same prompt into tokens,
/// and gets those of the prefix followed by those of the rest.
pub open spec fn tokenized_alike(
    n: usize,
    es: Seq<Event>,
    caches: Seq<Seq<i32>>,
    others: Seq<Event>,
) -> bool {
    &&& es.len() >= 4
    &&& others.len() >= 4
    &&& same_answer(es[0], others[0])
    &&& es[1] == Event::Counted(Some(n))
    &&& others[1] == Event::Counted(Some(n))
    &&& es[3] matches Event::Tokens { tokens: rest, n_ctx } && others[3] matches Event::Tokens {
        tokens: all,
        n_ctx: m,
    } && n_ctx == m && all@ == caches[0].take(n as int) + rest@
}

/// As [`tokenized_alike`], and both decode their tokens.
pub open spec fn prefilled_alike(
    n: usize,
    es: Seq<Event>,
    caches: Seq<Seq<i32>>,
    others: Seq<Event>,
) -> bool {
    &&& tokenized_alike(n, es, caches, others)
    &&& es.len() >= 5
    &&& others.len() >= 5
    &&& es[4] is Decoded
    &&& others[4] is Decoded
}

proof fn lemma_take(s: RunView, es: Seq<Event>, caches: Seq<Seq<i32>>, i: int)
    requires
        history(s, es, caches),
        0 <= i < es.len(),
    ensures
        after(s, es.take(i + 1)) == after(s, es.take(i)).next(es[i]),
        after(s, es.take(i)).awaits(es[i]),
        cache_step(after(s, es.take(i)), es[i], caches[i], caches[i + 1]),
        pieces(s, es.take(i + 1)) == (match (after(s, es.take(i)).stage, es[i]) {
            (StageView::Detokenizing { .. }, Event::Piece(piece)) => pieces(s, es.take(i)).push(
                piece@,
            ),
            _ => pieces(s, es.take(i)),
        }),
    decreases es.len(),
{
    assert(es.take(i + 1).drop_last() =~= es.take(i));
    assert(es.take(i + 1).last() == es[i]);
    if i < es.len() - 1 {
        let earlier = es.drop_last();
        lemma_take(s, earlier, caches.drop_last(), i);
        assert(earlier.take(i) =~= es.take(i));
    } else {
        assert(es.drop_last() =~= es.take(i));
    }
}

/// A run that counted `n` tokens in the prefix of its prompt has the tokens to
/// be decoded after four steps.
proof fn lemma_admit(
    job: InferenceJob,
    max_tokens: u32,
    cached: Option<(Style, usize)>,
    n: usize,
    tokens: Seq<i32>,
    n_ctx: u32,
    es: Seq<Event>,
    caches: Seq<Seq<i32>>,
)
    requires
        history(RunView::begun(job, max_tokens, cached), es, caches),
        n > 0,
        es.len() >= 4,
        es[1] == Event::Counted(Some(n)),
        es[3] matches Event::Tokens { tokens: ts, n_ctx: m } && ts@ == tokens && m == n_ctx,
    ensures
        ({
            let s = RunView::begun(job, max_tokens, cached);
            let reuse = s.can_reuse(n);
            &&& after(s, es.take(4)) == (RunView {
                cached: if reuse {
                    cached
                } else {
                    None
                },
                ..s
            }).admitted(tokens, n_ctx, n, reuse)
            &&& pieces(s, es.take(4)) == Seq::<Seq<char>>::empty()
            &&& caches[4] == (if reuse {
                caches[0].take(n as int)
            } else {
                Seq::<i32>::empty()
            })
            &&& after(s, es.take(2)).action() == (if reuse {
                ActionView::EvictFrom { position: n }
            } else {
                ActionView::ClearCache
            })
        }),
{
    let s = RunView::begun(job, max_tokens, cached);
    assert(es.take(0) =~= Seq::empty());
    assert(after(s, es.take(0)) == s);
    lemma_take(s, es, caches, 0);
    lemma_take(s, es, caches, 1);
    let s1 = after(s, es.take(1));
    assert(s1.stage is Counting);
    let prompt = s1.stage->Counting_prompt;
    assert(s1 == s.at(StageView::Counting { prompt }));
    let s2 = after(s, es.take(2));
    assert(s2 == s1.preparing(prompt, n));
    lemma_take(s, es, caches, 2);
    let s3 = after(s, es.take(3));
    let reuse = s.can_reuse(n);
    assert(s3 == s2.at(StageView::Tokenizing { prompt, prefix_len: n, reuse }));
    lemma_take(s, es, caches, 3);
}

/// A run that counted `n` tokens in the prefix of its prompt is prefilled after
/// five steps.
proof fn lemma_prefill(
    job: InferenceJob,
    max_tokens: u32,
    cached: Option<(Style, usize)>,
    n: usize,
    tokens: Seq<i32>,
    n_ctx: u32,
    es: Seq<Event>,
    caches: Seq<Seq<i32>>,
)
    requires
        history(RunView::begun(job, max_tokens, cached), es, caches),
        n > 0,
        es.len() >= 5,
        es[1] == Event::Counted(Some(n)),
        es[3] matches Event::Tokens { tokens: ts, n_ctx: m } && ts@ == tokens && m == n_ctx,
        es[4] is Decoded,
    ensures
        ({
            let s = RunView::begun(job, max_tokens, cached);
            let reuse = s.can_reuse(n);
            let start: int = if reuse {
                n as int
            } else {
                0
            };
            let len = tokens.len() as int;
            &&& after(s, es.take(5)) == (RunView {
                cached: Some((s.style, n)),
                ..s
            }).generating(len - 1, start + len, start + len + s.max_new)
            &&& pieces(s, es.take(5)) == Seq::<Seq<char>>::empty()
            &&& caches[5] == (if reuse {
                caches[0].take(n as int)
            } else {
                Seq::<i32>::empty()
            }) + tokens
        }),
{
    let s = RunView::begun(job, max_tokens, cached);
    lemma_admit(job, max_tokens, cached, n, tokens, n_ctx, es, caches);
    lemma_take(s, es, caches, 4);
    assert(after(s, es.take(4)).stage is Prefilling);
}

proof fn lemma_prefilled(
    job: InferenceJob,
    max_tokens: u32,
    n: usize,
    es: Seq<Event>,
    caches: Seq<Seq<i32>>,
    others: Seq<Event>,
    other_caches: Seq<Seq<i32>>,
)
    requires
        0 < n <= caches[0].len(),
        history(RunView::begun(job, max_tokens, Some((job.style(), n))), es, caches),
        history(RunView::begun(job, max_tokens, None), others, other_caches),
        prefilled_alike(n, es, caches, others),
    ensures
        ({
            let a = RunView::begun(job, max_tokens, Some((job.style(), n)));
            let b = RunView::begun(job, max_tokens, None);
            &&& same_but_for_the_slot(after(a, es.take(5)), after(b, others.take(5)))
            &&& pieces(a, es.take(5)) == pieces(b, others.take(5))
            &&& caches[5] == other_caches[5]
            &&& after(a, es.take(2)).action() == ActionView::EvictFrom { position: n }
            &&& after(b, others.take(2)).action() == ActionView::ClearCache
        }),
{
    let rest = es[3]->Tokens_tokens@;
    let all = others[3]->Tokens_tokens@;
    let n_ctx = es[3]->Tokens_n_ctx;
    let cached = Some((job.style(), n));
    lemma_admit(job, max_tokens, cached, n, rest, n_ctx, es, caches);
    lemma_admit(job, max_tokens, None, n, all, n_ctx, others, other_caches);
    lemma_prefill(job, max_tokens, cached, n, rest, n_ctx, es, caches);
    lemma_prefill(job, max_tokens, None, n, all, n_ctx, others, other_caches);
    assert(caches[5] =~= other_caches[5]);
}

proof fn lemma_alike(
    job: InferenceJob,
    max_tokens: u32,
    n: usize,
    es: Seq<Event>,
    caches: Seq<Seq<i32>>,
    others: Seq<Event>,
    other_caches: Seq<Seq<i32>>,
    i: int,
)
    requires
        0 < n <= caches[0].len(),
        history(RunView::begun(job, max_tokens, Some((job.style(), n))), es, caches),
        history(RunView::begun(job, max_tokens, None), others, other_caches),
        prefilled_alike(n, es, caches, others),
        answers_follow_the_cache(es, caches, others, other_caches),
        5 <= i <= es.len(),
        i <= others.len(),
    ensures
        ({
            let a = RunView::begun(job, max_tokens, Some((job.style(), n)));
            let b = RunView::begun(job, max_tokens, None);
            let x = after(a, es.take(i));
            let y = after(b, others.take(i));
            &&& same_but_for_the_slot(x, y)
            &&& pieces(a, es.take(i)) == pieces(b, others.take(i))
            &&& !(x.stage is Finished) ==> caches[i] == other_caches[i]
            &&& forall|j: int| 5 <= j < i ==> same_answer(es[j], #[trigger] others[j])
        }),
    decreases i,
{
    let a = RunView::begun(job, max_tokens, Some((job.style(), n)));
    let b = RunView::begun(job, max_tokens, None);
    if i == 5 {
        lemma_prefilled(job, max_tokens, n, es, caches, others, other_caches);
    } else {
        lemma_alike(job, max_tokens, n, es, caches, others, other_caches, i - 1);
        lemma_take(a, es, caches, i - 1);
        lemma_take(b, others, other_caches, i - 1);
        assert(same_answer(es[i - 1], others[i - 1]));
    }
}

/// A prompt that does not fit is refused with the same error, whether its prefix
/// is reused or not.
pub proof fn reuse_refuses_alike(
    job: InferenceJob,
    max_tokens: u32,
    n: usize,
    es: Seq<Event>,
    caches: Seq<Seq<i32>>,
    others: Seq<Event>,
    other_caches: Seq<Seq<i32>>,
)
    requires
        0 < n <= caches[0].len(),
        history(RunView::begun(job, max_tokens, Some((job.style(), n))), es, caches),
        history(RunView::begun(job, max_tokens, None), others, other_caches),
        tokenized_alike(n, es, caches, others),
    ensures
        ({
            let x = after(RunView::begun(job, max_tokens, Some((job.style(), n))), es.take(4));
            let y = after(RunView::begun(job, max_tokens, None), others.take(4));
            &&& x.action() is Finish <==> y.action() is Finish
            &&& x.action() is Finish ==> x.action() == y.action()
        }),
{
    let rest = es[3]->Tokens_tokens@;
    let all = others[3]->Tokens_tokens@;
    let n_ctx = es[3]->Tokens_n_ctx;
    lemma_admit(job, max_tokens, Some((job.style(), n)), n, rest, n_ctx, es, caches);
    lemma_admit(job, max_tokens, None, n, all, n_ctx, others, other_caches);
}

/// Reusing a cached prefix changes the cost of a job and nothing else. Let one
/// run find the prefix of its prompt in the KV-cache, behind which anything may
/// stand, and another run of the same job find nothing. Where the tokens of the
/// prompt are those of the prefix followed by those of the rest, both have the
/// same tokens in the KV-cache after the prefill; so a model that answers by what
/// is in there gives both the same pieces, and both end alike. Nothing of an
/// earlier text or answer has any influence.
pub proof fn reuse_changes_nothing_but_the_cost(
    job: InferenceJob,
    max_tokens: u32,
    n: usize,
    es: Seq<Event>,
    caches: Seq<Seq<i32>>,
    others: Seq<Event>,
    other_caches: Seq<Seq<i32>>,
)
    requires
        0 < n <= caches[0].len(),
        history(RunView::begun(job, max_tokens, Some((job.style(), n))), es, caches),
        history(RunView::begun(job, max_tokens, None), others, other_caches),
        prefilled_alike(n, es, caches, others),
        answers_follow_the_cache(es, caches, others, other_caches),
        after(RunView::begun(job, max_tokens, Some((job.style(), n))), es).action() is Finish,
        after(RunView::begun(job, max_tokens, None), others).action() is Finish,
    ensures
        ({
            let a = RunView::begun(job, max_tokens, Some((job.style(), n)));
            let b = RunView::begun(job, max_tokens, None);
            &&& after(a, es.take(2)).action() == ActionView::EvictFrom { position: n }
            &&& after(b, others.take(2)).action() == ActionView::ClearCache
            &&& caches[5] == other_caches[5]
            &&& pieces(a, es) == pieces(b, others)
            &&& after(a, es).action() == after(b, others).action()
            &&& after(a, es).cached == after(b, others).cached
        }),
{
    let a = RunView::begun(job, max_tokens, Some((job.style(), n)));
    let b = RunView::begun(job, max_tokens, None);
    lemma_prefilled(job, max_tokens, n, es, caches, others, other_caches);
    let k = if es.len() <= others.len() {
        es.len() as int
    } else {
        others.len() as int
    };
    lemma_alike(job, max_tokens, n, es, caches, others, other_caches, k);
    assert(es.take(es.len() as int) =~= es);
    assert(others.take(others.len() as int) =~= others);
    if es.len() < others.len() {
        lemma_take(b, others, other_caches, k);
    } else if others.len() < es.len() {
        lemma_take(a, es, caches, k);
    }
}

} // verus!
