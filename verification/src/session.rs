//! The order of a decode: what to ask of the engine next, given what it
//! answered last.
//!
//! A session owns no engine. It is told what the engine did ([`Event`]) and
//! says what to do next ([`Action`]); whoever holds the engine carries the
//! actions out. One session serves one decode and one engine context:
//!
//! - the context is created;
//! - the globals stream, where there is one, is fed, then the primary stream;
//! - the engine is asked to complete the page;
//! - pages are drained one at a time, each copied and then released before
//!   the next is asked for;
//! - the context is disposed, whether or not the page was completed;
//! - the outcome is handed out: all pages, or an error and no page.

use vstd::prelude::*;

use crate::diagnostics::{diagnostic_text, DiagnosticsSink};
use crate::document::{rasters, Document};
use crate::errors::{Error, ErrorView};
use crate::image::{Image, PageGeometry, Raster};
use crate::options::{Jbig2Options, OpenFlag};

verus! {

/// What a session is waiting to hear.
#[derive(Debug, Copy, Clone, PartialEq, Eq, Hash, Structural)]
pub enum Phase {
    /// Whether the engine made a context.
    AwaitContext,
    /// That the globals stream was fed.
    AwaitGlobals,
    /// That the primary stream was fed.
    AwaitPrimary,
    /// The status of completing the page.
    AwaitCompletion,
    /// The next page, or that there is none.
    AwaitPage,
    /// The bytes of the page of this geometry.
    AwaitCopy(PageGeometry),
    /// That the page just copied was released.
    AwaitRelease,
    /// That the context was disposed.
    AwaitDisposal,
}

/// What the holder of the engine is to do next.
#[derive(Debug, Copy, Clone, PartialEq, Eq, Hash, Structural)]
pub enum Action {
    /// Create a context with these options and the diagnostics callback.
    CreateContext(Jbig2Options),
    /// Feed the whole globals stream.
    FeedGlobals,
    /// Feed the whole primary stream.
    FeedPrimary,
    /// Ask the engine to complete the page.
    CompletePage,
    /// Ask the engine for the next completed page.
    NextPage,
    /// Copy this many bytes out of the page the engine just handed over.
    CopyPage(usize),
    /// Give the page back to the engine.
    ReleasePage,
    /// Dispose the context.
    DisposeContext,
}

/// What the engine did.
#[derive(Debug)]
pub enum Event {
    /// A context was created.
    ContextCreated,
    /// The engine returned no context.
    ContextRefused,
    /// A stream was fed; the engine returned this status. The status is not
    /// looked at: a feed that failed shows when the page is completed.
    DataFed(i32),
    /// The engine was asked to complete the page and returned this status.
    PageCompleted(i32),
    /// The engine handed over a page of this geometry.
    PageReady(PageGeometry),
    /// The engine has no further page.
    NoMorePages,
    /// The bytes of the page at hand.
    PageCopied(Vec<u8>),
    /// The page at hand was given back.
    PageReleased,
    /// The context was disposed.
    ContextDisposed,
}

/// An [`Event`] with the bytes it carries as a sequence.
pub enum EventView {
    ContextCreated,
    ContextRefused,
    DataFed(i32),
    PageCompleted(i32),
    PageReady(PageGeometry),
    NoMorePages,
    PageCopied(Seq<u8>),
    PageReleased,
    ContextDisposed,
}

impl View for Event {
    type V = EventView;

    open spec fn view(&self) -> EventView {
        match self {
            Event::ContextCreated => EventView::ContextCreated,
            Event::ContextRefused => EventView::ContextRefused,
            Event::DataFed(status) => EventView::DataFed(*status),
            Event::PageCompleted(status) => EventView::PageCompleted(*status),
            Event::PageReady(geometry) => EventView::PageReady(*geometry),
            Event::NoMorePages => EventView::NoMorePages,
            Event::PageCopied(bytes) => EventView::PageCopied(bytes@),
            Event::PageReleased => EventView::PageReleased,
            Event::ContextDisposed => EventView::ContextDisposed,
        }
    }
}

/// One decode in progress.
#[derive(Debug)]
pub struct Session {
    flag: OpenFlag,
    has_globals: bool,
    phase: Phase,
    images: Vec<Image>,
    failure: Option<String>,
}

/// What a [`Session`] is.
#[verifier::ext_equal]
pub struct SessionState {
    /// The stream mode the decode was opened with.
    pub flag: OpenFlag,
    /// Whether a globals stream goes before the primary stream.
    pub has_globals: bool,
    /// What the session is waiting to hear.
    pub phase: Phase,
    /// The pages copied so far, first page first.
    pub pages: Seq<Raster>,
    /// The diagnostic of a failed completion, kept until the context is
    /// disposed.
    pub failure: Option<Seq<char>>,
}

impl View for Session {
    type V = SessionState;

    closed spec fn view(&self) -> SessionState {
        SessionState {
            flag: self.flag,
            has_globals: self.has_globals,
            phase: self.phase,
            pages: rasters(self.images@),
            failure: match self.failure {
                Some(m) => Some(m@),
                None => None,
            },
        }
    }
}

/// How one event was answered.
#[derive(Debug)]
pub enum Step {
    /// The decode goes on: the session as it is now, and what to do next.
    Next(Session, Action),
    /// The decode is over, with this outcome.
    Done(Result<Document, Error>),
    /// The event is not an answer to what the session asked for, or it
    /// describes a page that cannot be a raster. The decode cannot go on and
    /// has no outcome; the diagnostics slot is left as it is. Whoever holds
    /// the engine gives back what it still holds of it.
    Rejected,
}

/// What a [`Step`] is.
pub enum StepView {
    Next(SessionState, Action),
    Done(Result<Seq<Raster>, ErrorView>),
    Rejected,
}

impl View for Step {
    type V = StepView;

    open spec fn view(&self) -> StepView {
        match self {
            Step::Next(session, action) => StepView::Next(session@, *action),
            Step::Done(Ok(document)) => StepView::Done(Ok(document@)),
            Step::Done(Err(error)) => StepView::Done(Err(error@)),
            Step::Rejected => StepView::Rejected,
        }
    }
}

/// The first thing to do in a decode.
pub open spec fn first_action(flag: OpenFlag) -> Action {
    Action::CreateContext(flag.spec_options())
}

impl SessionState {
    /// A decode that has asked for its context and heard nothing yet.
    pub open spec fn initial(flag: OpenFlag, has_globals: bool) -> SessionState {
        SessionState {
            flag,
            has_globals,
            phase: Phase::AwaitContext,
            pages: Seq::empty(),
            failure: None,
        }
    }

    /// The same decode in another phase.
    pub open spec fn at(self, phase: Phase) -> SessionState {
        SessionState { phase, ..self }
    }

    /// The same decode with one more page, waiting for its release.
    pub open spec fn with_page(self, page: Raster) -> SessionState {
        SessionState { phase: Phase::AwaitRelease, pages: self.pages.push(page), ..self }
    }

    /// The same decode after a failed completion, waiting for the disposal.
    pub open spec fn failed(self, diagnostic: Seq<char>) -> SessionState {
        SessionState { phase: Phase::AwaitDisposal, failure: Some(diagnostic), ..self }
    }

    /// The action whose answer the decode is waiting for.
    pub open spec fn asked(self) -> Action {
        match self.phase {
            Phase::AwaitContext => first_action(self.flag),
            Phase::AwaitGlobals => Action::FeedGlobals,
            Phase::AwaitPrimary => Action::FeedPrimary,
            Phase::AwaitCompletion => Action::CompletePage,
            Phase::AwaitPage => Action::NextPage,
            Phase::AwaitCopy(geometry) => Action::CopyPage(geometry.buffer_bytes() as usize),
            Phase::AwaitRelease => Action::ReleasePage,
            Phase::AwaitDisposal => Action::DisposeContext,
        }
    }

    /// What the decode comes to once its context is disposed: the failure
    /// where the completion failed, else all pages.
    pub open spec fn outcome(self) -> Result<Seq<Raster>, ErrorView> {
        match self.failure {
            Some(diagnostic) => Err(ErrorView::IncompletePage(diagnostic)),
            None => Ok(self.pages),
        }
    }
}

/// Whether answering `event` in `phase` uses up the waiting diagnostic: it
/// does where the answer is a failure.
pub open spec fn takes_diagnostic(phase: Phase, event: EventView) -> bool {
    match event {
        EventView::ContextRefused => phase == Phase::AwaitContext,
        EventView::PageCompleted(status) => phase == Phase::AwaitCompletion && status != 0,
        _ => false,
    }
}

/// The answer to `event` of a decode in state `s`, where the diagnostics
/// slot holds `slot`.
pub open spec fn transition(s: SessionState, event: EventView, slot: Option<Seq<char>>) -> StepView {
    match s.phase {
        Phase::AwaitContext => match event {
            EventView::ContextCreated => if s.has_globals {
                StepView::Next(s.at(Phase::AwaitGlobals), Action::FeedGlobals)
            } else {
                StepView::Next(s.at(Phase::AwaitPrimary), Action::FeedPrimary)
            },
            EventView::ContextRefused => StepView::Done(
                Err(ErrorView::CreateContextFailed(diagnostic_text(slot))),
            ),
            _ => StepView::Rejected,
        },
        Phase::AwaitGlobals => match event {
            EventView::DataFed(_) => StepView::Next(s.at(Phase::AwaitPrimary), Action::FeedPrimary),
            _ => StepView::Rejected,
        },
        Phase::AwaitPrimary => match event {
            EventView::DataFed(_) => StepView::Next(
                s.at(Phase::AwaitCompletion),
                Action::CompletePage,
            ),
            _ => StepView::Rejected,
        },
        Phase::AwaitCompletion => match event {
            EventView::PageCompleted(status) => if status == 0 {
                StepView::Next(s.at(Phase::AwaitPage), Action::NextPage)
            } else {
                StepView::Next(s.failed(diagnostic_text(slot)), Action::DisposeContext)
            },
            _ => StepView::Rejected,
        },
        Phase::AwaitPage => match event {
            EventView::PageReady(geometry) => if geometry.fits() {
                StepView::Next(
                    s.at(Phase::AwaitCopy(geometry)),
                    Action::CopyPage(geometry.buffer_bytes() as usize),
                )
            } else {
                StepView::Rejected
            },
            EventView::NoMorePages => StepView::Next(
                s.at(Phase::AwaitDisposal),
                Action::DisposeContext,
            ),
            _ => StepView::Rejected,
        },
        Phase::AwaitCopy(geometry) => match event {
            EventView::PageCopied(bytes) => if Raster::of(geometry, bytes).valid() {
                StepView::Next(s.with_page(Raster::of(geometry, bytes)), Action::ReleasePage)
            } else {
                StepView::Rejected
            },
            _ => StepView::Rejected,
        },
        Phase::AwaitRelease => match event {
            EventView::PageReleased => StepView::Next(s.at(Phase::AwaitPage), Action::NextPage),
            _ => StepView::Rejected,
        },
        Phase::AwaitDisposal => match event {
            EventView::ContextDisposed => StepView::Done(s.outcome()),
            _ => StepView::Rejected,
        },
    }
}

/// A session always waits for the answer to the action it asked for last,
/// and a step changes neither the stream mode nor whether there are globals.
pub proof fn lemma_session_waits_for_what_it_asked(
    s: SessionState,
    event: EventView,
    slot: Option<Seq<char>>,
)
    ensures
        transition(s, event, slot) matches StepView::Next(t, action) ==> {
            &&& t.asked() == action
            &&& t.flag == s.flag
            &&& t.has_globals == s.has_globals
        },
{
}

/// At most one page of the engine is at hand at any time: the next page is
/// asked for only after the completion or after a release, and while a page
/// is at hand nothing is accepted but its copy and then its release.
pub proof fn lemma_one_page_at_a_time(s: SessionState, event: EventView, slot: Option<Seq<char>>)
    ensures
        transition(s, event, slot) matches StepView::Next(_, Action::NextPage) ==> s.phase
            == Phase::AwaitCompletion || s.phase == Phase::AwaitRelease,
        s.phase is AwaitCopy && transition(s, event, slot) !is Rejected ==> event is PageCopied
            && transition(s, event, slot) matches StepView::Next(_, Action::ReleasePage),
        s.phase == Phase::AwaitRelease && transition(s, event, slot) !is Rejected ==> event
            is PageReleased && transition(s, event, slot) matches StepView::Next(
            _,
            Action::NextPage,
        ),
{
}

/// A page that was copied stays as it is: a step leaves the pages alone or
/// puts one more behind them, and what it puts there is the raster of the
/// geometry at hand over the bytes of the event. Nothing that happens to the
/// engine's page or context afterwards reaches it.
pub proof fn lemma_copied_pages_stay(s: SessionState, event: EventView, slot: Option<Seq<char>>)
    ensures
        transition(s, event, slot) matches StepView::Next(t, _) ==> {
            ||| t.pages == s.pages
            ||| (s.phase matches Phase::AwaitCopy(geometry) && event matches EventView::PageCopied(
                bytes,
            ) && t.pages == s.pages.push(Raster::of(geometry, bytes)))
        },
        transition(s, event, slot) matches StepView::Done(Ok(pages)) ==> pages == s.pages,
{
}

impl Session {
    /// Starts a decode in the given stream mode, with or without a globals
    /// stream, and says what to do first.
    pub fn open(flag: OpenFlag, has_globals: bool) -> (start: (Session, Action))
        ensures
            start.0@ == SessionState::initial(flag, has_globals),
            start.1 == first_action(flag),
    {
        let session = Session {
            flag,
            has_globals,
            phase: Phase::AwaitContext,
            images: Vec::new(),
            failure: None,
        };
        (session, Action::CreateContext(flag.options()))
    }

    /// What the session is waiting to hear.
    pub fn phase(&self) -> (phase: Phase)
        ensures
            phase == self@.phase,
    {
        self.phase
    }

    /// Number of pages copied so far.
    pub fn pages(&self) -> (count: usize)
        ensures
            count == self@.pages.len(),
    {
        self.images.len()
    }

    /// Answers one event.
    ///
    /// Where the answer is a failure, the waiting diagnostic is taken out of
    /// `sink` and goes into the error; in every other case `sink` is left as
    /// it is.
    pub fn step(self, event: Event, sink: &mut DiagnosticsSink) -> (step: Step)
        ensures
            step@ == transition(self@, event@, old(sink)@),
            final(sink)@ == if takes_diagnostic(self@.phase, event@) {
                None
            } else {
                old(sink)@
            },
    {
        let Session { flag, has_globals, phase, images, failure } = self;
        match phase {
            Phase::AwaitContext => match event {
                Event::ContextCreated => {
                    let phase = if has_globals {
                        Phase::AwaitGlobals
                    } else {
                        Phase::AwaitPrimary
                    };
                    let action = if has_globals {
                        Action::FeedGlobals
                    } else {
                        Action::FeedPrimary
                    };
                    Step::Next(Session { flag, has_globals, phase, images, failure }, action)
                },
                Event::ContextRefused => Step::Done(Err(Error::CreateContextFailed(sink.take()))),
                _ => Step::Rejected,
            },
            Phase::AwaitGlobals => match event {
                Event::DataFed(_) => Step::Next(
                    Session { flag, has_globals, phase: Phase::AwaitPrimary, images, failure },
                    Action::FeedPrimary,
                ),
                _ => Step::Rejected,
            },
            Phase::AwaitPrimary => match event {
                Event::DataFed(_) => Step::Next(
                    Session { flag, has_globals, phase: Phase::AwaitCompletion, images, failure },
                    Action::CompletePage,
                ),
                _ => Step::Rejected,
            },
            Phase::AwaitCompletion => match event {
                Event::PageCompleted(status) => {
                    if status == 0 {
                        Step::Next(
                            Session { flag, has_globals, phase: Phase::AwaitPage, images, failure },
                            Action::NextPage,
                        )
                    } else {
                        let diagnostic = sink.take();
                        Step::Next(
                            Session {
                                flag,
                                has_globals,
                                phase: Phase::AwaitDisposal,
                                images,
                                failure: Some(diagnostic),
                            },
                            Action::DisposeContext,
                        )
                    }
                },
                _ => Step::Rejected,
            },
            Phase::AwaitPage => match event {
                Event::PageReady(geometry) => match geometry.buffer_len() {
                    Some(len) => Step::Next(
                        Session {
                            flag,
                            has_globals,
                            phase: Phase::AwaitCopy(geometry),
                            images,
                            failure,
                        },
                        Action::CopyPage(len),
                    ),
                    None => Step::Rejected,
                },
                Event::NoMorePages => Step::Next(
                    Session { flag, has_globals, phase: Phase::AwaitDisposal, images, failure },
                    Action::DisposeContext,
                ),
                _ => Step::Rejected,
            },
            Phase::AwaitCopy(geometry) => match event {
                Event::PageCopied(bytes) => match Image::from_raw(geometry, bytes) {
                    Some(image) => {
                        let mut images = images;
                        let ghost before = images@;
                        images.push(image);
                        assert(rasters(images@) =~= rasters(before).push(image@));
                        Step::Next(
                            Session {
                                flag,
                                has_globals,
                                phase: Phase::AwaitRelease,
                                images,
                                failure,
                            },
                            Action::ReleasePage,
                        )
                    },
                    None => Step::Rejected,
                },
                _ => Step::Rejected,
            },
            Phase::AwaitRelease => match event {
                Event::PageReleased => Step::Next(
                    Session { flag, has_globals, phase: Phase::AwaitPage, images, failure },
                    Action::NextPage,
                ),
                _ => Step::Rejected,
            },
            Phase::AwaitDisposal => match event {
                Event::ContextDisposed => match failure {
                    Some(diagnostic) => Step::Done(Err(Error::IncompletePage(diagnostic))),
                    None => Step::Done(Ok(Document::new(images))),
                },
                _ => Step::Rejected,
            },
        }
    }
}

} // verus!
