//! The signals of a streaming rewrite: a `Chunk` for each piece of text, and
//! then `Done` or `Error`.

use vstd::prelude::*;

use crate::dbus::{join_error, join_error_text};

verus! {

/// How the inference of a streaming rewrite ended.
pub enum Completion {
    Succeeded,
    /// The engine could not be made ready, or the rewrite failed.
    Failed(String),
    /// The thread that waited for the worker died.
    WaitFailed(String),
    /// The task of the inference died.
    TaskFailed(String),
}

/// What to do next for a streaming rewrite.
pub enum RelayAction {
    /// Wait for the next piece.
    Receive,
    /// Emit `Chunk(job_id, text)`.
    EmitChunk { job_id: String, text: String },
    /// Wait for the end of the inference.
    AwaitInference,
    /// Emit `Done(job_id)`.
    EmitDone { job_id: String },
    /// Emit `Error(job_id, message)`.
    EmitError { job_id: String, message: String },
    /// Nothing is left to do.
    Stop,
}

/// What came of an action.
pub enum RelayEvent {
    /// A piece, or nothing where no more will come.
    Received(Option<String>),
    /// The signal was emitted, or could not be.
    Emitted(bool),
    /// The inference ended.
    Completed(Completion),
}

/// What a [`RelayAction`] says.
#[verifier::ext_equal]
pub enum RelayActionView {
    Receive,
    EmitChunk { job_id: Seq<char>, text: Seq<char> },
    AwaitInference,
    EmitDone { job_id: Seq<char> },
    EmitError { job_id: Seq<char>, message: Seq<char> },
    Stop,
}

impl View for RelayAction {
    type V = RelayActionView;

    open spec fn view(&self) -> RelayActionView {
        match self {
            RelayAction::Receive => RelayActionView::Receive,
            RelayAction::EmitChunk { job_id, text } => RelayActionView::EmitChunk {
                job_id: job_id@,
                text: text@,
            },
            RelayAction::AwaitInference => RelayActionView::AwaitInference,
            RelayAction::EmitDone { job_id } => RelayActionView::EmitDone { job_id: job_id@ },
            RelayAction::EmitError { job_id, message } => RelayActionView::EmitError {
                job_id: job_id@,
                message: message@,
            },
            RelayAction::Stop => RelayActionView::Stop,
        }
    }
}

/// Why an inference failed, if it did.
pub open spec fn failure_of(completion: Completion) -> Option<Seq<char>> {
    match completion {
        Completion::Succeeded => None,
        Completion::Failed(reason) => Some(reason@),
        Completion::WaitFailed(reason) => Some(join_error_text(reason@)),
        Completion::TaskFailed(reason) => Some(reason@),
    }
}

/// How far a streaming rewrite has come.
#[verifier::ext_equal]
pub enum RelayStage {
    Receiving,
    Emitting { text: Seq<char> },
    Awaiting,
    Closing { failure: Option<Seq<char>> },
    Stopped,
}

/// A streaming rewrite.
#[verifier::ext_equal]
pub struct RelayView {
    pub job_id: Seq<char>,
    pub stage: RelayStage,
}

impl RelayView {
    pub open spec fn begun(job_id: Seq<char>) -> RelayView {
        RelayView { job_id, stage: RelayStage::Receiving }
    }

    pub open spec fn action(self) -> RelayActionView {
        match self.stage {
            RelayStage::Receiving => RelayActionView::Receive,
            RelayStage::Emitting { text } => RelayActionView::EmitChunk {
                job_id: self.job_id,
                text,
            },
            RelayStage::Awaiting => RelayActionView::AwaitInference,
            RelayStage::Closing { failure: None } => RelayActionView::EmitDone {
                job_id: self.job_id,
            },
            RelayStage::Closing { failure: Some(message) } => RelayActionView::EmitError {
                job_id: self.job_id,
                message,
            },
            RelayStage::Stopped => RelayActionView::Stop,
        }
    }

    /// Is `e` what can come of the action?
    pub open spec fn awaits(self, e: RelayEvent) -> bool {
        match self.stage {
            RelayStage::Receiving => e is Received,
            RelayStage::Emitting { .. } => e is Emitted,
            RelayStage::Awaiting => e is Completed,
            RelayStage::Closing { .. } => e is Emitted,
            RelayStage::Stopped => false,
        }
    }

    /// The rewrite after `e`. Pieces are passed on until no more come, or until
    /// one cannot be emitted.
    pub open spec fn next(self, e: RelayEvent) -> RelayView {
        let stage = match (self.stage, e) {
            (RelayStage::Receiving, RelayEvent::Received(Some(text))) => RelayStage::Emitting {
                text: text@,
            },
            (RelayStage::Receiving, RelayEvent::Received(None)) => RelayStage::Awaiting,
            (RelayStage::Emitting { .. }, RelayEvent::Emitted(true)) => RelayStage::Receiving,
            (RelayStage::Emitting { .. }, RelayEvent::Emitted(false)) => RelayStage::Awaiting,
            (RelayStage::Awaiting, RelayEvent::Completed(completion)) => RelayStage::Closing {
                failure: failure_of(completion),
            },
            (RelayStage::Closing { .. }, RelayEvent::Emitted(_)) => RelayStage::Stopped,
            _ => self.stage,
        };
        RelayView { stage, ..self }
    }
}

enum Stage {
    Receiving,
    Emitting { text: String },
    Awaiting,
    Closing { failure: Option<String> },
    Stopped,
}

impl Stage {
    spec fn model(self) -> RelayStage {
        match self {
            Stage::Receiving => RelayStage::Receiving,
            Stage::Emitting { text } => RelayStage::Emitting { text: text@ },
            Stage::Awaiting => RelayStage::Awaiting,
            Stage::Closing { failure } => RelayStage::Closing {
                failure: match failure {
                    Some(message) => Some(message@),
                    None => None,
                },
            },
            Stage::Stopped => RelayStage::Stopped,
        }
    }
}

/// A streaming rewrite under way.
pub struct StreamRelay {
    job_id: String,
    stage: Stage,
}

impl View for StreamRelay {
    type V = RelayView;

    closed spec fn view(&self) -> RelayView {
        RelayView { job_id: self.job_id@, stage: self.stage.model() }
    }
}

impl StreamRelay {
    /// Begin to pass on the pieces of the job `job_id`.
    pub fn begin(job_id: String) -> (r: StreamRelay)
        ensures
            r@ == RelayView::begun(job_id@),
    {
        StreamRelay { job_id, stage: Stage::Receiving }
    }

    /// Is `event` what can come of the action?
    pub fn awaits(&self, event: &RelayEvent) -> (r: bool)
        ensures
            r == self@.awaits(*event),
    {
        match (&self.stage, event) {
            (Stage::Receiving, RelayEvent::Received(_)) => true,
            (Stage::Emitting { .. }, RelayEvent::Emitted(_)) => true,
            (Stage::Awaiting, RelayEvent::Completed(_)) => true,
            (Stage::Closing { .. }, RelayEvent::Emitted(_)) => true,
            _ => false,
        }
    }

    /// What to do next.
    pub fn action(&self) -> (r: RelayAction)
        ensures
            r@ == self@.action(),
    {
        let job_id = self.job_id.clone();
        match &self.stage {
            Stage::Receiving => RelayAction::Receive,
            Stage::Emitting { text } => RelayAction::EmitChunk { job_id, text: text.clone() },
            Stage::Awaiting => RelayAction::AwaitInference,
            Stage::Closing { failure } => match failure {
                None => RelayAction::EmitDone { job_id },
                Some(message) => RelayAction::EmitError { job_id, message: message.clone() },
            },
            Stage::Stopped => RelayAction::Stop,
        }
    }

    /// The rewrite after `event`.
    pub fn resume(self, event: RelayEvent) -> (r: StreamRelay)
        requires
            self@.awaits(event),
        ensures
            r@ == self@.next(event),
    {
        let stage = match (self.stage, event) {
            (Stage::Receiving, RelayEvent::Received(Some(text))) => Stage::Emitting { text },
            (Stage::Receiving, RelayEvent::Received(None)) => Stage::Awaiting,
            (Stage::Emitting { .. }, RelayEvent::Emitted(taken)) => if taken {
                Stage::Receiving
            } else {
                Stage::Awaiting
            },
            (Stage::Awaiting, RelayEvent::Completed(completion)) => Stage::Closing {
                failure: match completion {
                    Completion::Succeeded => None,
                    Completion::Failed(reason) => Some(reason),
                    Completion::WaitFailed(reason) => Some(join_error(reason.as_str())),
                    Completion::TaskFailed(reason) => Some(reason),
                },
            },
            (Stage::Closing { .. }, RelayEvent::Emitted(_)) => Stage::Stopped,
            (stage, _) => stage,
        };
        StreamRelay { job_id: self.job_id, stage }
    }
}

// ── Laws ─────────────────────────────────────────────────────────────────────

/// The rewrite after all of `es`.
pub open spec fn after(s: RelayView, es: Seq<RelayEvent>) -> RelayView
    decreases es.len(),
{
    if es.len() == 0 {
        s
    } else {
        after(s, es.drop_last()).next(es.last())
    }
}

/// Is each of `es` what can come of the action at its turn?
pub open spec fn possible(s: RelayView, es: Seq<RelayEvent>) -> bool
    decreases es.len(),
{
    es.len() > 0 ==> {
        &&& possible(s, es.drop_last())
        &&& after(s, es.drop_last()).awaits(es.last())
    }
}

pub open spec fn is_signal(a: RelayActionView) -> bool {
    a is EmitChunk || a is EmitDone || a is EmitError
}

/// The signals that were to be emitted along `es`, in order.
pub open spec fn signals(s: RelayView, es: Seq<RelayEvent>) -> Seq<RelayActionView>
    decreases es.len(),
{
    if es.len() == 0 {
        Seq::empty()
    } else {
        let earlier = signals(s, es.drop_last());
        let a = after(s, es).action();
        if is_signal(a) {
            earlier.push(a)
        } else {
            earlier
        }
    }
}

/// The pieces that came along `es`, in order.
pub open spec fn received(es: Seq<RelayEvent>) -> Seq<Seq<char>>
    decreases es.len(),
{
    if es.len() == 0 {
        Seq::empty()
    } else {
        match es.last() {
            RelayEvent::Received(Some(text)) => received(es.drop_last()).push(text@),
            _ => received(es.drop_last()),
        }
    }
}

/// The signals of `texts`: a chunk for each.
pub open spec fn chunks(job_id: Seq<char>, texts: Seq<Seq<char>>) -> Seq<RelayActionView> {
    Seq::new(texts.len(), |i: int| RelayActionView::EmitChunk { job_id, text: texts[i] })
}

/// How the inference ended, along `es`: not yet, or with a failure or without.
pub open spec fn ending(es: Seq<RelayEvent>) -> Option<Option<Seq<char>>>
    decreases es.len(),
{
    if es.len() == 0 {
        None
    } else {
        match es.last() {
            RelayEvent::Completed(completion) => Some(failure_of(completion)),
            _ => ending(es.drop_last()),
        }
    }
}

/// The last signal of a job.
pub open spec fn closing(job_id: Seq<char>, failure: Option<Seq<char>>) -> RelayActionView {
    match failure {
        None => RelayActionView::EmitDone { job_id },
        Some(message) => RelayActionView::EmitError { job_id, message },
    }
}

/// Each piece that comes is signalled as a chunk of the job, in order. Behind
/// the chunks comes nothing until the inference has ended, and then exactly one
/// signal: `Done` if it succeeded, else `Error` with the reason.
pub proof fn chunks_and_then_one_ending(job_id: Seq<char>, es: Seq<RelayEvent>)
    requires
        possible(RelayView::begun(job_id), es),
    ensures
        signals(RelayView::begun(job_id), es) == (match ending(es) {
            None => chunks(job_id, received(es)),
            Some(failure) => chunks(job_id, received(es)).push(closing(job_id, failure)),
        }),
        after(RelayView::begun(job_id), es).action() == RelayActionView::Stop ==> ending(
            es,
        ) is Some,
{
    lemma_signals(job_id, es);
}

/// Why an inference failed is told as it was, or as the death of a task; one that
/// succeeded has no reason to tell.
pub proof fn failures_are_told_as_they_were(reason: String)
    ensures
        failure_of(Completion::Succeeded) is None,
        failure_of(Completion::Failed(reason)) == Some(reason@),
        failure_of(Completion::WaitFailed(reason)) == Some("task join error: "@ + reason@),
        failure_of(Completion::TaskFailed(reason)) == Some(reason@),
{
}

/// Pieces are waited for until no more come or one cannot be emitted: the
/// inference is awaited only then, and each chunk that was emitted is followed by
/// another wait for a piece.
pub proof fn pieces_are_passed_on_to_the_end(job_id: Seq<char>, es: Seq<RelayEvent>)
    requires
        possible(RelayView::begun(job_id), es),
    ensures
        ({
            let a = after(RelayView::begun(job_id), es).action();
            &&& es.len() == 0 ==> a is Receive
            &&& a is AwaitInference ==> es.len() > 0 && (es.last() == RelayEvent::Received(None)
                || es.last() == RelayEvent::Emitted(false))
            &&& a is Stop ==> es.len() > 0 && es.last() is Emitted
            &&& es.len() > 0 && es.last() == RelayEvent::Received(None) ==> a is AwaitInference
            &&& es.len() > 0 ==> (es.last() matches RelayEvent::Received(Some(text)) ==> a == (
            RelayActionView::EmitChunk { job_id, text: text@ }))
            &&& es.len() > 0 && es.last() is Completed ==> a is EmitDone || a is EmitError
        }),
    decreases es.len(),
{
    lemma_signals(job_id, es);
    if es.len() > 0 {
        pieces_are_passed_on_to_the_end(job_id, es.drop_last());
        lemma_signals(job_id, es.drop_last());
    }
}

/// A chunk that was emitted is followed by a wait for the next piece, one that
/// could not be emitted by the end of the inference; the last signal, emitted or
/// not, is followed by nothing.
pub proof fn signals_are_followed_up(s: RelayView, emitted: bool)
    ensures
        s.action() is EmitChunk ==> {
            &&& s.next(RelayEvent::Emitted(true)).action() is Receive
            &&& s.next(RelayEvent::Emitted(false)).action() is AwaitInference
        },
        s.action() is EmitDone || s.action() is EmitError ==> s.next(
            RelayEvent::Emitted(emitted),
        ).action() is Stop,
        s.next(RelayEvent::Emitted(emitted)).job_id == s.job_id,
{
}

/// A rewrite that is not over always awaits something: a piece where it receives,
/// the fate of a signal where it emits, and the end of the inference where it
/// waits for that.
pub proof fn rewrites_await_what_they_asked_for(s: RelayView, e: RelayEvent)
    ensures
        s.action() is Receive ==> (s.awaits(e) <==> e is Received),
        s.action() is EmitChunk || s.action() is EmitDone || s.action() is EmitError ==> (s.awaits(e)
            <==> e is Emitted),
        s.action() is AwaitInference ==> (s.awaits(e) <==> e is Completed),
        s.action() is Stop ==> !s.awaits(e),
{
}

proof fn lemma_signals(job_id: Seq<char>, es: Seq<RelayEvent>)
    requires
        possible(RelayView::begun(job_id), es),
    ensures
        ({
            let s = after(RelayView::begun(job_id), es);
            &&& s.job_id == job_id
            &&& ending(es) is Some <==> (s.stage is Closing || s.stage is Stopped)
            &&& s.stage matches RelayStage::Closing { failure } ==> ending(es) == Some(failure)
            &&& signals(RelayView::begun(job_id), es) == (match ending(es) {
                None => chunks(job_id, received(es)),
                Some(failure) => chunks(job_id, received(es)).push(closing(job_id, failure)),
            })
        }),
    decreases es.len(),
{
    if es.len() > 0 {
        let earlier = es.drop_last();
        lemma_signals(job_id, earlier);
        match es.last() {
            RelayEvent::Received(Some(text)) => {
                assert(chunks(job_id, received(es)) =~= chunks(job_id, received(earlier)).push(
                    RelayActionView::EmitChunk { job_id, text: text@ },
                ));
            },
            _ => {},
        }
    } else {
        assert(chunks(job_id, received(es)) =~= Seq::empty());
    }
}

/// A view of an action names the job, and the piece or the message, as they are.
pub proof fn signals_are_viewed_as_they_are(a: RelayAction)
    ensures
        a is Receive <==> a@ is Receive,
        a is AwaitInference <==> a@ is AwaitInference,
        a is Stop <==> a@ is Stop,
        a matches RelayAction::EmitChunk { job_id, text } ==> a@ == (RelayActionView::EmitChunk {
            job_id: job_id@,
            text: text@,
        }),
        a matches RelayAction::EmitDone { job_id } ==> a@ == (RelayActionView::EmitDone {
            job_id: job_id@,
        }),
        a matches RelayAction::EmitError { job_id, message } ==> a@ == (RelayActionView::EmitError {
            job_id: job_id@,
            message: message@,
        }),
{
}

} // verus!
