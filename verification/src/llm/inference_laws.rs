//! What holds of every inference job, whatever the model answers.

use vstd::prelude::*;

use crate::llm::inference::{
    usable, ActionView, BatchEntry, Event, InferenceJob, RunView, StageView,
};
use crate::prompt::Style;
use crate::text::{trimmed, trimming_is_idempotent};

verus! {

/// The job after all of `es`.
pub open spec fn after(s: RunView, es: Seq<Event>) -> RunView
    decreases es.len(),
{
    if es.len() == 0 {
        s
    } else {
        after(s, es.drop_last()).next(es.last())
    }
}

/// Is each of `es` what can come of the action at its turn?
pub open spec fn possible(s: RunView, es: Seq<Event>) -> bool
    decreases es.len(),
{
    es.len() > 0 ==> {
        &&& possible(s, es.drop_last())
        &&& after(s, es.drop_last()).awaits(es.last())
    }
}

/// The pieces of text that were generated along `es`.
pub open spec fn pieces(s: RunView, es: Seq<Event>) -> Seq<Seq<char>>
    decreases es.len(),
{
    if es.len() == 0 {
        Seq::empty()
    } else {
        let earlier = pieces(s, es.drop_last());
        match (after(s, es.drop_last()).stage, es.last()) {
            (StageView::Detokenizing { .. }, Event::Piece(piece)) => earlier.push(piece@),
            _ => earlier,
        }
    }
}

/// The pieces that were offered to the client along `es`, the one being sent
/// included.
pub open spec fn offered(s: RunView, es: Seq<Event>) -> Seq<Seq<char>>
    decreases es.len(),
{
    if es.len() == 0 {
        Seq::empty()
    } else {
        let earlier = offered(s, es.drop_last());
        match after(s, es).action() {
            ActionView::Send { piece } => earlier.push(piece),
            _ => earlier,
        }
    }
}

/// All of `ps`, one behind the other.
pub open spec fn concatenated(ps: Seq<Seq<char>>) -> Seq<char>
    decreases ps.len(),
{
    if ps.len() == 0 {
        Seq::empty()
    } else {
        concatenated(ps.drop_last()) + ps.last()
    }
}

// ── Validity ─────────────────────────────────────────────────────────────────

/// A job is valid at its beginning, and each step keeps it so.
pub proof fn jobs_stay_valid(
    job: InferenceJob,
    max_tokens: u32,
    cached: Option<(Style, usize)>,
    es: Seq<Event>,
)
    ensures
        after(RunView::begun(job, max_tokens, cached), es).valid(),
    decreases es.len(),
{
    if es.len() > 0 {
        jobs_stay_valid(job, max_tokens, cached, es.drop_last());
    }
}

/// The style, the delivery and the number of tokens allowed never change.
pub(crate) proof fn lemma_constants(s: RunView, es: Seq<Event>)
    ensures
        after(s, es).style == s.style,
        after(s, es).streaming == s.streaming,
        after(s, es).max_new == s.max_new,
    decreases es.len(),
{
    if es.len() > 0 {
        lemma_constants(s, es.drop_last());
    }
}

// ── How much is generated ────────────────────────────────────────────────────

/// `k` pieces were generated and `n` steps taken by the time of `s`.
spec fn counts(s: RunView, k: int, n: int) -> bool {
    match s.stage {
        StageView::Templating { .. } => k == 0 && n == 0,
        StageView::Counting { .. } => k == 0 && n == 1,
        StageView::Preparing { .. } => k == 0 && n <= 2,
        StageView::Tokenizing { .. } => k == 0 && n <= 3,
        StageView::Prefilling { .. } => k == 0 && n <= 4,
        StageView::Sampling { n_cur, n_max, .. } => {
            &&& k == n_cur - (n_max - s.max_new)
            &&& n <= 5 + 4 * k
        },
        StageView::Detokenizing { n_cur, n_max, .. } => {
            &&& k == n_cur - (n_max - s.max_new)
            &&& n <= 6 + 4 * k
        },
        StageView::Sending { n_cur, n_max, .. } => {
            &&& k == n_cur + 1 - (n_max - s.max_new)
            &&& n <= 3 + 4 * k
        },
        StageView::Decoding { n_cur, n_max, .. } => {
            &&& k == n_cur - (n_max - s.max_new)
            &&& n <= 4 + 4 * k
        },
        StageView::Finished(_) => {
            &&& k <= s.max_new
            &&& n <= 5 + 4 * s.max_new
        },
    }
}

proof fn lemma_counts(
    job: InferenceJob,
    max_tokens: u32,
    cached: Option<(Style, usize)>,
    es: Seq<Event>,
)
    requires
        possible(RunView::begun(job, max_tokens, cached), es),
    ensures
        ({
            let s = RunView::begun(job, max_tokens, cached);
            counts(after(s, es), pieces(s, es).len() as int, es.len() as int)
        }),
    decreases es.len(),
{
    let s = RunView::begun(job, max_tokens, cached);
    if es.len() > 0 {
        lemma_counts(job, max_tokens, cached, es.drop_last());
        jobs_stay_valid(job, max_tokens, cached, es.drop_last());
        lemma_constants(s, es.drop_last());
    }
}

/// While a token is decoded, its place tells how many pieces there are.
pub(crate) proof fn lemma_counts_at(
    job: InferenceJob,
    max_tokens: u32,
    cached: Option<(Style, usize)>,
    es: Seq<Event>,
)
    requires
        possible(RunView::begun(job, max_tokens, cached), es),
    ensures
        ({
            let s = RunView::begun(job, max_tokens, cached);
            after(s, es).stage matches StageView::Decoding { n_cur, n_max, .. } ==> pieces(
                s,
                es,
            ).len() == n_cur - (n_max - after(s, es).max_new)
        }),
{
    lemma_counts(job, max_tokens, cached, es);
}

/// No request generates more than `max_tokens` new tokens.
pub proof fn new_tokens_are_bounded(
    job: InferenceJob,
    max_tokens: u32,
    cached: Option<(Style, usize)>,
    es: Seq<Event>,
)
    requires
        possible(RunView::begun(job, max_tokens, cached), es),
    ensures
        pieces(RunView::begun(job, max_tokens, cached), es).len() <= max_tokens,
{
    let s = RunView::begun(job, max_tokens, cached);
    lemma_counts(job, max_tokens, cached, es);
    jobs_stay_valid(job, max_tokens, cached, es);
    lemma_constants(s, es);
}

/// Every job ends: it takes no more steps than a fixed number and four for each
/// token that it may generate.
pub proof fn jobs_end(
    job: InferenceJob,
    max_tokens: u32,
    cached: Option<(Style, usize)>,
    es: Seq<Event>,
)
    requires
        possible(RunView::begun(job, max_tokens, cached), es),
    ensures
        es.len() <= 5 + 4 * max_tokens,
{
    let s = RunView::begun(job, max_tokens, cached);
    lemma_counts(job, max_tokens, cached, es);
    jobs_stay_valid(job, max_tokens, cached, es);
    lemma_constants(s, es);
}

/// Does `e` end the generation before its time, because the model says that it
/// is done or because the client is gone?
pub open spec fn ends_generation(e: Event) -> bool {
    match e {
        Event::Sampled { end, .. } => end,
        Event::Sent(taken) => !taken,
        _ => false,
    }
}

/// A job whose generation nothing ends before its time generates exactly
/// `max_tokens` tokens.
pub proof fn generation_goes_on_to_max_tokens(
    job: InferenceJob,
    max_tokens: u32,
    cached: Option<(Style, usize)>,
    es: Seq<Event>,
)
    requires
        possible(RunView::begun(job, max_tokens, cached), es),
        forall|i: int| 0 <= i < es.len() ==> !ends_generation(#[trigger] es[i]),
    ensures
        after(RunView::begun(job, max_tokens, cached), es).action() matches ActionView::Finish(
            Ok(_),
        ) ==> pieces(RunView::begun(job, max_tokens, cached), es).len() == max_tokens,
    decreases es.len(),
{
    let s = RunView::begun(job, max_tokens, cached);
    if es.len() > 0 {
        let earlier = es.drop_last();
        assert(forall|i: int| 0 <= i < earlier.len() ==> earlier[i] == es[i]);
        generation_goes_on_to_max_tokens(job, max_tokens, cached, earlier);
        lemma_counts(job, max_tokens, cached, earlier);
        jobs_stay_valid(job, max_tokens, cached, earlier);
        lemma_constants(s, earlier);
        assert(!ends_generation(es[es.len() - 1]));
    }
}

/// A job that is over stays as it is: nothing can come after it.
pub proof fn finished_jobs_stay_finished(s: RunView, e: Event)
    requires
        s.stage is Finished,
    ensures
        !s.awaits(e),
        s.next(e) == s,
{
}

// ── What the caller gets ─────────────────────────────────────────────────────

proof fn lemma_concatenated_push(ps: Seq<Seq<char>>, p: Seq<char>)
    ensures
        concatenated(ps.push(p)) == concatenated(ps) + p,
{
    assert(ps.push(p).drop_last() =~= ps);
}

proof fn lemma_output(job: InferenceJob, max_tokens: u32, cached: Option<(Style, usize)>, es: Seq<Event>)
    requires
        job is Full,
        possible(RunView::begun(job, max_tokens, cached), es),
    ensures
        ({
            let s = RunView::begun(job, max_tokens, cached);
            let text = concatenated(pieces(s, es));
            &&& after(s, es).output == text
            &&& after(s, es).stage matches StageView::Finished(Ok(t)) ==> t == trimmed(text)
        }),
    decreases es.len(),
{
    let s = RunView::begun(job, max_tokens, cached);
    if es.len() > 0 {
        let earlier = es.drop_last();
        lemma_output(job, max_tokens, cached, earlier);
        lemma_constants(s, earlier);
        match (after(s, earlier).stage, es.last()) {
            (StageView::Detokenizing { .. }, Event::Piece(piece)) => {
                lemma_concatenated_push(pieces(s, earlier), piece@);
            },
            _ => {},
        }
    }
}

/// A full rewrite that succeeds returns all the pieces that were generated, one
/// behind the other, without the white space around them.
pub proof fn full_result_is_all_pieces(
    job: InferenceJob,
    max_tokens: u32,
    cached: Option<(Style, usize)>,
    es: Seq<Event>,
    result: Seq<char>,
)
    requires
        job is Full,
        possible(RunView::begun(job, max_tokens, cached), es),
        after(RunView::begun(job, max_tokens, cached), es).action() == ActionView::Finish(
            Ok(result),
        ),
    ensures
        result == trimmed(concatenated(pieces(RunView::begun(job, max_tokens, cached), es))),
        trimmed(result) == result,
{
    lemma_output(job, max_tokens, cached, es);
    trimming_is_idempotent(concatenated(pieces(RunView::begun(job, max_tokens, cached), es)));
}

/// A streaming rewrite offers every piece to the client, once and in order.
pub proof fn streaming_offers_every_piece(
    job: InferenceJob,
    max_tokens: u32,
    cached: Option<(Style, usize)>,
    es: Seq<Event>,
)
    requires
        job is Streaming,
        possible(RunView::begun(job, max_tokens, cached), es),
    ensures
        offered(RunView::begun(job, max_tokens, cached), es) == pieces(
            RunView::begun(job, max_tokens, cached),
            es,
        ),
    decreases es.len(),
{
    let s = RunView::begun(job, max_tokens, cached);
    if es.len() > 0 {
        streaming_offers_every_piece(job, max_tokens, cached, es.drop_last());
        lemma_constants(s, es.drop_last());
    }
}

/// A full rewrite sends nothing to a client on its way.
pub proof fn full_jobs_send_nothing(
    job: InferenceJob,
    max_tokens: u32,
    cached: Option<(Style, usize)>,
    es: Seq<Event>,
)
    requires
        job is Full,
    ensures
        !(after(RunView::begun(job, max_tokens, cached), es).action() is Send),
    decreases es.len(),
{
    let s = RunView::begun(job, max_tokens, cached);
    if es.len() > 0 {
        full_jobs_send_nothing(job, max_tokens, cached, es.drop_last());
        lemma_constants(s, es.drop_last());
    }
}

/// `es` without what the client answered.
pub open spec fn model_answers(es: Seq<Event>) -> Seq<Event>
    decreases es.len(),
{
    if es.len() == 0 {
        Seq::empty()
    } else if es.last() is Sent {
        model_answers(es.drop_last())
    } else {
        model_answers(es.drop_last()).push(es.last())
    }
}

/// The full job `f` stands where the streaming job `g` does.
spec fn side_by_side(f: RunView, g: RunView) -> bool {
    &&& !f.streaming
    &&& g.streaming
    &&& f.style == g.style
    &&& f.max_new == g.max_new
    &&& f.cached == g.cached
    &&& match g.stage {
        StageView::Sending { token, n_cur, n_max, .. } => f.stage == (StageView::Decoding {
            token,
            n_cur: n_cur + 1,
            n_max,
        }),
        StageView::Finished(Ok(_)) => f.stage matches StageView::Finished(Ok(_)),
        _ => f.stage == g.stage,
    }
}

proof fn lemma_side_by_side(
    full: InferenceJob,
    streaming: InferenceJob,
    max_tokens: u32,
    cached: Option<(Style, usize)>,
    es: Seq<Event>,
)
    requires
        full is Full,
        streaming is Streaming,
        full.text() == streaming.text(),
        full.style() == streaming.style(),
        possible(RunView::begun(streaming, max_tokens, cached), es),
        forall|i: int| 0 <= i < es.len() ==> #[trigger] es[i] != Event::Sent(false),
    ensures
        ({
            let f = RunView::begun(full, max_tokens, cached);
            let g = RunView::begun(streaming, max_tokens, cached);
            &&& possible(f, model_answers(es))
            &&& pieces(f, model_answers(es)) == pieces(g, es)
            &&& side_by_side(after(f, model_answers(es)), after(g, es))
        }),
    decreases es.len(),
{
    let f = RunView::begun(full, max_tokens, cached);
    let g = RunView::begun(streaming, max_tokens, cached);
    if es.len() > 0 {
        let earlier = es.drop_last();
        assert(forall|i: int| 0 <= i < earlier.len() ==> earlier[i] == es[i]);
        lemma_side_by_side(full, streaming, max_tokens, cached, earlier);
        assert(es[es.len() - 1] != Event::Sent(false));
        if !(es.last() is Sent) {
            assert(model_answers(es).drop_last() =~= model_answers(earlier));
        }
    }
}

/// With the same answers of the model, a full and a streaming rewrite generate
/// the same pieces, as long as the client stays, and one succeeds where the
/// other does; the full one returns what the other has sent.
pub proof fn full_and_streaming_jobs_generate_alike(
    full: InferenceJob,
    streaming: InferenceJob,
    max_tokens: u32,
    cached: Option<(Style, usize)>,
    es: Seq<Event>,
)
    requires
        full is Full,
        streaming is Streaming,
        full.text() == streaming.text(),
        full.style() == streaming.style(),
        possible(RunView::begun(streaming, max_tokens, cached), es),
        forall|i: int| 0 <= i < es.len() ==> #[trigger] es[i] != Event::Sent(false),
    ensures
        ({
            let f = RunView::begun(full, max_tokens, cached);
            let g = RunView::begun(streaming, max_tokens, cached);
            &&& possible(f, model_answers(es))
            &&& pieces(f, model_answers(es)) == pieces(g, es)
            &&& match after(g, es).action() {
                ActionView::Finish(Ok(_)) => after(f, model_answers(es)).action()
                    == ActionView::Finish(Ok(trimmed(concatenated(offered(g, es))))),
                ActionView::Finish(Err(e)) => after(f, model_answers(es)).action()
                    == ActionView::Finish(Err(e)),
                _ => !(after(f, model_answers(es)).action() is Finish),
            }
        }),
{
    lemma_side_by_side(full, streaming, max_tokens, cached, es);
    lemma_output(full, max_tokens, cached, model_answers(es));
    streaming_offers_every_piece(streaming, max_tokens, cached, es);
}

/// A client that is gone ends its job at once, and without an error.
pub proof fn lost_client_ends_the_job(s: RunView)
    requires
        s.stage is Sending,
    ensures
        s.next(Event::Sent(false)).action() is Finish,
        s.streaming ==> s.next(Event::Sent(false)).action() == ActionView::Finish(
            Ok(Seq::empty()),
        ),
{
}

// ── Context size ─────────────────────────────────────────────────────────────

/// How many tokens the model's context holds, as it told along `es`, if it did.
pub open spec fn context_of(es: Seq<Event>) -> Option<int>
    decreases es.len(),
{
    if es.len() == 0 {
        None
    } else {
        match es.last() {
            Event::Tokens { tokens, n_ctx } => Some(usable(n_ctx) as int),
            _ => context_of(es.drop_last()),
        }
    }
}

spec fn within(s: RunView, n_ctx: Option<int>) -> bool {
    match s.stage {
        StageView::Prefilling { tokens, start, n_max, .. } => n_ctx matches Some(c) && n_max <= c,
        StageView::Sampling { n_max, .. } => n_ctx matches Some(c) && n_max <= c,
        StageView::Detokenizing { n_max, .. } => n_ctx matches Some(c) && n_max <= c,
        StageView::Sending { n_max, .. } => n_ctx matches Some(c) && n_max <= c,
        StageView::Decoding { n_max, .. } => n_ctx matches Some(c) && n_max <= c,
        _ => true,
    }
}

proof fn lemma_within(
    job: InferenceJob,
    max_tokens: u32,
    cached: Option<(Style, usize)>,
    es: Seq<Event>,
)
    requires
        possible(RunView::begun(job, max_tokens, cached), es),
    ensures
        within(after(RunView::begun(job, max_tokens, cached), es), context_of(es)),
    decreases es.len(),
{
    if es.len() > 0 {
        lemma_within(job, max_tokens, cached, es.drop_last());
    }
}

/// No token is ever put at a position outside the model's context.
pub proof fn positions_stay_in_the_context(
    job: InferenceJob,
    max_tokens: u32,
    cached: Option<(Style, usize)>,
    es: Seq<Event>,
    capacity: usize,
    entries: Seq<BatchEntry>,
    i: int,
)
    requires
        possible(RunView::begun(job, max_tokens, cached), es),
        after(RunView::begun(job, max_tokens, cached), es).action() == (ActionView::Decode {
            capacity,
            entries,
        }),
        0 <= i < entries.len(),
    ensures
        context_of(es) matches Some(n_ctx) && 0 <= entries[i].pos < n_ctx,
        entries.len() <= capacity,
{
    let s = RunView::begun(job, max_tokens, cached);
    lemma_within(job, max_tokens, cached, es);
    jobs_stay_valid(job, max_tokens, cached, es);
    lemma_constants(s, es);
}

// ── KV-cache ─────────────────────────────────────────────────────────────────

/// The tokens in the KV-cache go from `before` to `now` in the step from `s` by
/// `e`: eviction keeps those in front, clearing keeps none, and a decoded batch
/// is added behind them. A batch that fails leaves those in front of it alone.
pub open spec fn cache_step(s: RunView, e: Event, before: Seq<i32>, now: Seq<i32>) -> bool {
    match (s.stage, e) {
        (StageView::Preparing { prefix_len, reuse, .. }, Event::CacheReady) => if reuse {
            now == before.take(prefix_len as int)
        } else {
            now == Seq::<i32>::empty()
        },
        (StageView::Prefilling { tokens, .. }, Event::Decoded) => now == before + tokens,
        (StageView::Decoding { token, .. }, Event::Decoded) => now == before.push(token),
        (StageView::Prefilling { .. }, _) => before.is_prefix_of(now),
        (StageView::Decoding { .. }, _) => before.is_prefix_of(now),
        _ => now == before,
    }
}

/// The KV-cache holds what the job takes it to hold: the cached prefix is there,
/// and the next batch continues where the cache ends.
pub open spec fn coherent(s: RunView, cache: Seq<i32>) -> bool {
    &&& s.cached matches Some((_, n)) ==> n <= cache.len()
    &&& match s.stage {
        StageView::Tokenizing { prefix_len, reuse, .. } => cache.len() == (if reuse {
            prefix_len as int
        } else {
            0
        }),
        StageView::Prefilling { tokens, start, prefix_len, reuse, .. } => {
            &&& cache.len() == start
            &&& !reuse ==> prefix_len <= tokens.len()
        },
        StageView::Sampling { n_cur, .. } => cache.len() == n_cur,
        StageView::Detokenizing { n_cur, .. } => cache.len() == n_cur,
        StageView::Sending { n_cur, .. } => cache.len() == n_cur,
        StageView::Decoding { n_cur, .. } => cache.len() == n_cur - 1,
        _ => true,
    }
}

/// The prefix of a prompt has no more tokens than the prompt.
pub open spec fn counted_rightly(s: RunView, e: Event) -> bool {
    match (s.stage, e) {
        (
            StageView::Tokenizing { prefix_len, reuse, .. },
            Event::Tokens { tokens, .. },
        ) => !reuse ==> prefix_len <= tokens@.len(),
        _ => true,
    }
}

/// `caches` are the contents of the KV-cache before each of `es` and after the
/// last, and each of `es` is possible at its turn.
pub open spec fn history(s: RunView, es: Seq<Event>, caches: Seq<Seq<i32>>) -> bool
    decreases es.len(),
{
    &&& caches.len() == es.len() + 1
    &&& es.len() > 0 ==> {
        let earlier = after(s, es.drop_last());
        &&& history(s, es.drop_last(), caches.drop_last())
        &&& earlier.awaits(es.last())
        &&& counted_rightly(earlier, es.last())
        &&& cache_step(earlier, es.last(), caches[es.len() - 1], caches[es.len() as int])
    }
}

/// Each step keeps the KV-cache and the job in agreement, and leaves the tokens
/// of a prefix that stays cached as they are.
pub proof fn steps_keep_the_cache(s: RunView, e: Event, before: Seq<i32>, now: Seq<i32>)
    requires
        s.valid(),
        s.awaits(e),
        coherent(s, before),
        counted_rightly(s, e),
        cache_step(s, e, before, now),
    ensures
        coherent(s.next(e), now),
        s.cached matches Some((_, n)) ==> (s.next(e).cached == s.cached ==> now.take(n as int)
            == before.take(n as int)),
{
    match s.cached {
        Some((style, n)) => {
            if s.next(e).cached == s.cached {
                assert(now.take(n as int) =~= before.take(n as int));
            }
        },
        None => {},
    }
}

/// A job that finds the prefix cached which the job before it left, decodes each
/// batch exactly where the KV-cache ends, and leaves the next job such a prefix.
pub proof fn batches_continue_the_cache(
    job: InferenceJob,
    max_tokens: u32,
    cached: Option<(Style, usize)>,
    es: Seq<Event>,
    caches: Seq<Seq<i32>>,
)
    requires
        history(RunView::begun(job, max_tokens, cached), es, caches),
        cached matches Some((_, n)) ==> n <= caches[0].len(),
    ensures
        ({
            let s = after(RunView::begun(job, max_tokens, cached), es);
            &&& coherent(s, caches.last())
            &&& s.cached matches Some((_, n)) ==> n <= caches.last().len()
            &&& s.action() matches ActionView::Decode { entries, .. } ==> forall|i: int|
                0 <= i < entries.len() ==> (#[trigger] entries[i]).pos == caches.last().len() + i
        }),
    decreases es.len(),
{
    let s = RunView::begun(job, max_tokens, cached);
    jobs_stay_valid(job, max_tokens, cached, es);
    if es.len() > 0 {
        let earlier = es.drop_last();
        assert(caches.drop_last()[0] == caches[0]);
        batches_continue_the_cache(job, max_tokens, cached, earlier, caches.drop_last());
        jobs_stay_valid(job, max_tokens, cached, earlier);
        steps_keep_the_cache(
            after(s, earlier),
            es.last(),
            caches[es.len() - 1],
            caches[es.len() as int],
        );
    }
}

spec fn cache_choice(s: RunView, cached: Option<(Style, usize)>) -> bool {
    match s.stage {
        StageView::Templating { .. } => s.cached == cached,
        StageView::Counting { .. } => s.cached == cached,
        StageView::Preparing { prefix_len, reuse, .. } => reuse == (prefix_len > 0 && cached
            == Some((s.style, prefix_len))),
        _ => true,
    }
}

/// The KV-cache is evicted down to a prefix only where the request before was of
/// the same style and left that prefix; otherwise it is cleared.
pub proof fn style_change_clears_the_cache(
    job: InferenceJob,
    max_tokens: u32,
    cached: Option<(Style, usize)>,
    es: Seq<Event>,
)
    ensures
        ({
            let s = after(RunView::begun(job, max_tokens, cached), es);
            &&& s.action() matches ActionView::EvictFrom { position } ==> position > 0 && cached
                == Some((job.style(), position))
            &&& s.action() is ClearCache ==> s.cached is None && (s.stage matches
                StageView::Preparing { prefix_len, .. } && !(prefix_len > 0 && cached == Some(
                (job.style(), prefix_len),
            )))
        }),
{
    jobs_stay_valid(job, max_tokens, cached, es);
    lemma_cache_choice(job, max_tokens, cached, es);
    lemma_constants(RunView::begun(job, max_tokens, cached), es);
}

proof fn lemma_cache_choice(
    job: InferenceJob,
    max_tokens: u32,
    cached: Option<(Style, usize)>,
    es: Seq<Event>,
)
    ensures
        cache_choice(after(RunView::begun(job, max_tokens, cached), es), cached),
    decreases es.len(),
{
    if es.len() > 0 {
        lemma_cache_choice(job, max_tokens, cached, es.drop_last());
        lemma_constants(RunView::begun(job, max_tokens, cached), es.drop_last());
    }
}

} // verus!
