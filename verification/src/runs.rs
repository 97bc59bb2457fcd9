//! Whole decodes: what holds of every sequence of events that a session
//! answers from its first state to its outcome.

use vstd::prelude::*;

use crate::diagnostics::diagnostic_text;
use crate::errors::ErrorView;
use crate::image::{PageGeometry, Raster};
use crate::options::OpenFlag;
use crate::session::{
    takes_diagnostic, transition, Action, EventView, Phase, SessionState, StepView,
};

verus! {

/// One event together with what the diagnostics slot held when the session
/// was told of it.
pub struct Stimulus {
    pub event: EventView,
    pub slot: Option<Seq<char>>,
}

/// Where a session stands after a sequence of events.
pub enum Run {
    /// Every event was answered and the decode goes on from this state.
    Waiting(SessionState),
    /// The last event ended the decode with this outcome.
    Finished(Result<Seq<Raster>, ErrorView>),
    /// An event was rejected, or events came after the decode had ended.
    Broken,
}

/// Where a session in state `s` stands after `inputs`.
pub open spec fn run(s: SessionState, inputs: Seq<Stimulus>) -> Run
    decreases inputs.len(),
{
    if inputs.len() == 0 {
        Run::Waiting(s)
    } else {
        match transition(s, inputs[0].event, inputs[0].slot) {
            StepView::Next(t, _) => run(t, inputs.drop_first()),
            StepView::Done(outcome) => if inputs.len() == 1 {
                Run::Finished(outcome)
            } else {
                Run::Broken
            },
            StepView::Rejected => Run::Broken,
        }
    }
}

/// The actions with which a session in state `s` answers `inputs`, one for
/// each event up to the one that ends the decode or is rejected.
pub open spec fn requests(s: SessionState, inputs: Seq<Stimulus>) -> Seq<Action>
    decreases inputs.len(),
{
    if inputs.len() == 0 {
        Seq::empty()
    } else {
        match transition(s, inputs[0].event, inputs[0].slot) {
            StepView::Next(t, action) => seq![action] + requests(t, inputs.drop_first()),
            _ => Seq::empty(),
        }
    }
}

/// The events of `inputs`, without the slots.
pub open spec fn events(inputs: Seq<Stimulus>) -> Seq<EventView> {
    Seq::new(inputs.len(), |i: int| inputs[i].event)
}

/// The geometries of the pages that the engine handed over, in order.
pub open spec fn reported(inputs: Seq<Stimulus>) -> Seq<PageGeometry>
    decreases inputs.len(),
{
    if inputs.len() == 0 {
        Seq::empty()
    } else {
        match inputs[0].event {
            EventView::PageReady(geometry) => seq![geometry] + reported(inputs.drop_first()),
            _ => reported(inputs.drop_first()),
        }
    }
}

/// The buffers that were copied out of the engine's pages, in order.
pub open spec fn copied(inputs: Seq<Stimulus>) -> Seq<Seq<u8>>
    decreases inputs.len(),
{
    if inputs.len() == 0 {
        Seq::empty()
    } else {
        match inputs[0].event {
            EventView::PageCopied(bytes) => seq![bytes] + copied(inputs.drop_first()),
            _ => copied(inputs.drop_first()),
        }
    }
}

/// The rasters made of the geometries and the buffers, pair by pair.
pub open spec fn paired(geometries: Seq<PageGeometry>, buffers: Seq<Seq<u8>>) -> Seq<Raster> {
    Seq::new(geometries.len(), |i: int| Raster::of(geometries[i], buffers[i]))
}

/// Whether every raster of the sequence is valid.
pub open spec fn all_valid(pages: Seq<Raster>) -> bool {
    forall|i: int| 0 <= i < pages.len() ==> (#[trigger] pages[i]).valid()
}

/// Whether each of `pages` is a raster that an engine can hand over: valid,
/// and of a length that a buffer can have.
pub open spec fn all_fit(pages: Seq<Raster>) -> bool {
    forall|i: int|
        0 <= i < pages.len() ==> (#[trigger] pages[i]).valid() && pages[i].geometry().fits()
}

/// How often `action` occurs in `actions`.
pub open spec fn occurrences(actions: Seq<Action>, action: Action) -> nat
    decreases actions.len(),
{
    if actions.len() == 0 {
        0
    } else {
        occurrences(actions.drop_first(), action) + if actions[0] == action {
            1nat
        } else {
            0nat
        }
    }
}

/// How often a session in state `s` takes the waiting diagnostic out of the
/// slot while it answers `inputs`.
pub open spec fn diagnostics_taken(s: SessionState, inputs: Seq<Stimulus>) -> nat
    decreases inputs.len(),
{
    if inputs.len() == 0 {
        0
    } else {
        let now: nat = if takes_diagnostic(s.phase, inputs[0].event) {
            1
        } else {
            0
        };
        match transition(s, inputs[0].event, inputs[0].slot) {
            StepView::Next(t, _) => now + diagnostics_taken(t, inputs.drop_first()),
            _ => now,
        }
    }
}

/// The status that the engine returned for the feed at `index`.
pub open spec fn fed_status(inputs: Seq<Stimulus>, index: int) -> i32 {
    match inputs[index].event {
        EventView::DataFed(status) => status,
        _ => 0,
    }
}

/// Where the completion that a decode failed on stands among its events.
pub open spec fn completion_index(has_globals: bool) -> int {
    if has_globals {
        3
    } else {
        2
    }
}

/// What an engine does up to the completion of the page: it makes a context,
/// takes the globals stream where there is one, takes the primary stream, and
/// reports `status` for the completion. The statuses of feeding are
/// `globals_status` and `primary_status`.
pub open spec fn feed_events(
    has_globals: bool,
    globals_status: i32,
    primary_status: i32,
    status: i32,
) -> Seq<EventView> {
    if has_globals {
        seq![
            EventView::ContextCreated,
            EventView::DataFed(globals_status),
            EventView::DataFed(primary_status),
            EventView::PageCompleted(status),
        ]
    } else {
        seq![
            EventView::ContextCreated,
            EventView::DataFed(primary_status),
            EventView::PageCompleted(status),
        ]
    }
}

/// What a session asks for up to the completion of the page, after the
/// context.
pub open spec fn feed_requests(has_globals: bool) -> Seq<Action> {
    if has_globals {
        seq![Action::FeedGlobals, Action::FeedPrimary, Action::CompletePage]
    } else {
        seq![Action::FeedPrimary, Action::CompletePage]
    }
}

/// What an engine does with one page while it is drained: hands it over,
/// lets it be copied, takes it back.
pub open spec fn page_events(page: Raster) -> Seq<EventView> {
    seq![
        EventView::PageReady(page.geometry()),
        EventView::PageCopied(page.data),
        EventView::PageReleased,
    ]
}

/// What a session asks for while one page is drained: the copy, the release,
/// the next page.
pub open spec fn page_requests(page: Raster) -> Seq<Action> {
    seq![
        Action::CopyPage(page.geometry().buffer_bytes() as usize),
        Action::ReleasePage,
        Action::NextPage,
    ]
}

/// The events of draining `pages` one after the other.
pub open spec fn drain_events(pages: Seq<Raster>) -> Seq<EventView>
    decreases pages.len(),
{
    if pages.len() == 0 {
        Seq::empty()
    } else {
        page_events(pages[0]) + drain_events(pages.drop_first())
    }
}

/// The requests of draining `pages` one after the other.
pub open spec fn drain_requests(pages: Seq<Raster>) -> Seq<Action>
    decreases pages.len(),
{
    if pages.len() == 0 {
        Seq::empty()
    } else {
        page_requests(pages[0]) + drain_requests(pages.drop_first())
    }
}

/// The page whose geometry is known and whose bytes are still to come.
pub open spec fn at_hand(phase: Phase) -> Seq<PageGeometry> {
    match phase {
        Phase::AwaitCopy(geometry) => seq![geometry],
        _ => Seq::empty(),
    }
}

proof fn lemma_pages_from(s: SessionState, inputs: Seq<Stimulus>, pages: Seq<Raster>)
    requires
        run(s, inputs) == Run::Finished(Ok(pages)),
    ensures
        at_hand(s.phase).len() + reported(inputs).len() == copied(inputs).len(),
        pages == s.pages + paired(at_hand(s.phase) + reported(inputs), copied(inputs)),
        all_valid(s.pages) ==> all_valid(pages),
    decreases inputs.len(),
{
    let rest = inputs.drop_first();
    match transition(s, inputs[0].event, inputs[0].slot) {
        StepView::Next(t, _) => {
            lemma_pages_from(t, rest, pages);
        },
        StepView::Done(_) => {
            assert(reported(rest) =~= Seq::empty());
            assert(copied(rest) =~= Seq::empty());
        },
        StepView::Rejected => {},
    }
}

/// A decode that succeeds hands back exactly the pages that were copied: as
/// many as the engine handed over, each with the geometry the engine reported
/// for it and the bytes that were copied out of it, in the engine's order.
/// What happened after a page was copied (its release, later pages, the
/// disposal of the context) has no part in what the page holds. Every page is
/// a valid raster.
pub proof fn lemma_success_returns_the_copied_pages(
    flag: OpenFlag,
    has_globals: bool,
    inputs: Seq<Stimulus>,
    pages: Seq<Raster>,
)
    requires
        run(SessionState::initial(flag, has_globals), inputs) == Run::Finished(Ok(pages)),
    ensures
        pages.len() == reported(inputs).len(),
        pages.len() == copied(inputs).len(),
        pages == paired(reported(inputs), copied(inputs)),
        all_valid(pages),
{
    lemma_pages_from(SessionState::initial(flag, has_globals), inputs, pages);
}

/// One step of a decode that goes on: if the first of `inputs` takes the
/// session from `s` to `t` with `action`, then the rest of the decode is the
/// decode of the rest from `t`, and `action` goes before its requests.
proof fn lemma_goes_on(
    s: SessionState,
    inputs: Seq<Stimulus>,
    course: Seq<EventView>,
    t: SessionState,
    action: Action,
)
    requires
        events(inputs) == course,
        course.len() > 0,
        transition(s, course[0], inputs[0].slot) == StepView::Next(t, action),
    ensures
        inputs.len() == course.len(),
        events(inputs.drop_first()) == course.drop_first(),
        run(s, inputs) == run(t, inputs.drop_first()),
        requests(s, inputs) == seq![action] + requests(t, inputs.drop_first()),
{
    assert(events(inputs)[0] == inputs[0].event);
    assert(events(inputs.drop_first()) =~= course.drop_first());
}

/// The last step of a decode: if the only one of `inputs` ends the decode
/// from `s` with `outcome`, that is where the decode stands, and nothing more
/// is asked for.
proof fn lemma_ends(
    s: SessionState,
    inputs: Seq<Stimulus>,
    course: Seq<EventView>,
    outcome: Result<Seq<Raster>, ErrorView>,
)
    requires
        events(inputs) == course,
        course.len() == 1,
        transition(s, course[0], inputs[0].slot) == StepView::Done(outcome),
    ensures
        inputs.len() == 1,
        run(s, inputs) == Run::Finished(outcome),
        requests(s, inputs) == Seq::<Action>::empty(),
{
    assert(events(inputs)[0] == inputs[0].event);
}

proof fn lemma_drain(s: SessionState, inputs: Seq<Stimulus>, pages: Seq<Raster>)
    requires
        s.phase == Phase::AwaitPage,
        s.failure is None,
        all_fit(pages),
        events(inputs) == drain_events(pages) + seq![
            EventView::NoMorePages,
            EventView::ContextDisposed,
        ],
    ensures
        run(s, inputs) == Run::Finished(Ok(s.pages + pages)),
        requests(s, inputs) == drain_requests(pages) + seq![Action::DisposeContext],
    decreases pages.len(),
{
    let end = seq![EventView::NoMorePages, EventView::ContextDisposed];
    let c0 = drain_events(pages) + end;
    let i1 = inputs.drop_first();
    let c1 = c0.drop_first();
    if pages.len() == 0 {
        let s1 = s.at(Phase::AwaitDisposal);
        lemma_goes_on(s, inputs, c0, s1, Action::DisposeContext);
        lemma_ends(s1, i1, c1, Ok(s.pages));
        assert(s.pages + pages =~= s.pages);
        assert(requests(s, inputs) =~= drain_requests(pages) + seq![Action::DisposeContext]);
    } else {
        let page = pages[0];
        let later = pages.drop_first();
        let s1 = s.at(Phase::AwaitCopy(page.geometry()));
        let s2 = s1.with_page(page);
        let s3 = s2.at(Phase::AwaitPage);
        let i2 = i1.drop_first();
        let c2 = c1.drop_first();
        let i3 = i2.drop_first();
        let c3 = c2.drop_first();
        assert(Raster::of(page.geometry(), page.data) == page);
        lemma_goes_on(s, inputs, c0, s1, page_requests(page)[0]);
        lemma_goes_on(s1, i1, c1, s2, Action::ReleasePage);
        lemma_goes_on(s2, i2, c2, s3, Action::NextPage);
        assert(c3 =~= drain_events(later) + end);
        assert(all_fit(later)) by {
            assert forall|i: int| 0 <= i < later.len() implies (#[trigger] later[i]).valid()
                && later[i].geometry().fits() by {
                assert(later[i] == pages[i + 1]);
            }
        }
        lemma_drain(s3, i3, later);
        assert(s3.pages + later =~= s.pages + pages);
        assert(requests(s, inputs) =~= drain_requests(pages) + seq![Action::DisposeContext]);
    }
}

/// Success is owed to every engine that behaves: if the engine makes a
/// context, takes the streams (with whatever status), completes the page with
/// status zero, hands over `pages` one by one and then reports that there are
/// no more, the decode ends with exactly `pages`, whatever the diagnostics
/// slot held along the way. With no page at all the outcome is the empty
/// document, not an error.
///
/// The session's requests in such a decode are, after the creation of the
/// context: the feeds, globals first; the completion; the first page; for
/// each page its copy, its release and then the next page; the disposal.
pub proof fn lemma_clean_decode_succeeds(
    flag: OpenFlag,
    has_globals: bool,
    globals_status: i32,
    primary_status: i32,
    pages: Seq<Raster>,
    inputs: Seq<Stimulus>,
)
    requires
        all_fit(pages),
        events(inputs) == feed_events(has_globals, globals_status, primary_status, 0)
            + drain_events(pages) + seq![EventView::NoMorePages, EventView::ContextDisposed],
    ensures
        run(SessionState::initial(flag, has_globals), inputs) == Run::Finished(Ok(pages)),
        requests(SessionState::initial(flag, has_globals), inputs) == feed_requests(has_globals)
            + seq![Action::NextPage] + drain_requests(pages) + seq![Action::DisposeContext],
{
    let s = SessionState::initial(flag, has_globals);
    let tail = drain_events(pages) + seq![EventView::NoMorePages, EventView::ContextDisposed];
    let c0 = feed_events(has_globals, globals_status, primary_status, 0) + tail;
    assert(events(inputs) == c0);
    let i1 = inputs.drop_first();
    let c1 = c0.drop_first();
    let primary = s.at(Phase::AwaitPrimary);
    let completion = s.at(Phase::AwaitCompletion);
    let draining = s.at(Phase::AwaitPage);
    if has_globals {
        let i2 = i1.drop_first();
        let c2 = c1.drop_first();
        let i3 = i2.drop_first();
        let c3 = c2.drop_first();
        lemma_goes_on(s, inputs, c0, s.at(Phase::AwaitGlobals), Action::FeedGlobals);
        lemma_goes_on(s.at(Phase::AwaitGlobals), i1, c1, primary, Action::FeedPrimary);
        lemma_goes_on(primary, i2, c2, completion, Action::CompletePage);
        lemma_goes_on(completion, i3, c3, draining, Action::NextPage);
        assert(c3.drop_first() =~= tail);
        lemma_drain(draining, i3.drop_first(), pages);
    } else {
        let i2 = i1.drop_first();
        let c2 = c1.drop_first();
        lemma_goes_on(s, inputs, c0, primary, Action::FeedPrimary);
        lemma_goes_on(primary, i1, c1, completion, Action::CompletePage);
        lemma_goes_on(completion, i2, c2, draining, Action::NextPage);
        assert(c2.drop_first() =~= tail);
        lemma_drain(draining, i2.drop_first(), pages);
    }
    assert(draining.pages + pages =~= pages);
    assert(requests(s, inputs) =~= feed_requests(has_globals) + seq![Action::NextPage]
        + drain_requests(pages) + seq![Action::DisposeContext]);
}

/// The events that are still to come in a successful decode that stands in
/// `phase` and has `later` yet to hand out, the page at hand included.
spec fn course_from(phase: Phase, later: Seq<Raster>) -> Seq<EventView> {
    let end = seq![EventView::NoMorePages, EventView::ContextDisposed];
    match phase {
        Phase::AwaitPage => drain_events(later) + end,
        Phase::AwaitCopy(_) => seq![EventView::PageCopied(later[0].data), EventView::PageReleased]
            + drain_events(later.drop_first()) + end,
        Phase::AwaitRelease => seq![EventView::PageReleased] + drain_events(later) + end,
        Phase::AwaitDisposal => seq![EventView::ContextDisposed],
        _ => Seq::empty(),
    }
}

proof fn lemma_events_unfold(inputs: Seq<Stimulus>)
    requires
        inputs.len() > 0,
    ensures
        events(inputs) == seq![inputs[0].event] + events(inputs.drop_first()),
{
}

proof fn lemma_course_from(s: SessionState, inputs: Seq<Stimulus>, pages: Seq<Raster>)
    requires
        run(s, inputs) == Run::Finished(Ok(pages)),
        s.phase == Phase::AwaitPage || s.phase is AwaitCopy || s.phase == Phase::AwaitRelease
            || s.phase == Phase::AwaitDisposal,
    ensures
        s.pages.len() + at_hand(s.phase).len() <= pages.len(),
        pages.take(s.pages.len() as int) == s.pages,
        s.phase matches Phase::AwaitCopy(geometry) ==> pages[s.pages.len() as int].geometry()
            == geometry,
        events(inputs) == course_from(s.phase, pages.skip(s.pages.len() as int)),
    decreases inputs.len(),
{
    let rest = inputs.drop_first();
    let n = s.pages.len() as int;
    let later = pages.skip(n);
    lemma_events_unfold(inputs);
    match transition(s, inputs[0].event, inputs[0].slot) {
        StepView::Next(t, _) => {
            lemma_course_from(t, rest, pages);
            let later_t = pages.skip(t.pages.len() as int);
            match s.phase {
                Phase::AwaitPage => {
                    assert(later_t == later);
                    if inputs[0].event is NoMorePages {
                        lemma_events_unfold(rest);
                        assert(rest.len() == 1);
                        assert(pages =~= s.pages) by {
                            assert(run(t, rest) == Run::Finished(t.outcome()));
                        }
                        assert(later =~= Seq::empty());
                        assert(events(inputs) =~= course_from(s.phase, later));
                    } else {
                        let page = later[0];
                        assert(page == pages[n]);
                        assert(inputs[0].event == EventView::PageReady(page.geometry()));
                        assert(drain_events(later) == page_events(page) + drain_events(
                            later.drop_first(),
                        ));
                        assert(events(inputs) =~= course_from(s.phase, later));
                    }
                },
                Phase::AwaitCopy(geometry) => {
                    let page = t.pages[n];
                    assert(pages.take(n + 1)[n] == page);
                    assert(pages[n] == page);
                    assert(later[0] == page);
                    assert(later_t =~= later.drop_first());
                    assert(pages.take(n) =~= pages.take(n + 1).take(n));
                    assert(t.pages.take(n) =~= s.pages);
                    assert(events(inputs) =~= course_from(s.phase, later));
                },
                Phase::AwaitRelease => {
                    assert(later_t == later);
                    assert(events(inputs) =~= course_from(s.phase, later));
                },
                _ => {},
            }
        },
        StepView::Done(_) => {
            assert(pages == s.pages);
            assert(pages.take(n) =~= s.pages);
            assert(later =~= Seq::empty());
            assert(events(rest) =~= Seq::empty());
            assert(events(inputs) =~= course_from(s.phase, later));
        },
        StepView::Rejected => {},
    }
}

proof fn lemma_pages_fit(s: SessionState, inputs: Seq<Stimulus>, pages: Seq<Raster>)
    requires
        run(s, inputs) == Run::Finished(Ok(pages)),
        all_fit(s.pages),
        s.phase matches Phase::AwaitCopy(geometry) ==> geometry.fits(),
    ensures
        all_fit(pages),
    decreases inputs.len(),
{
    match transition(s, inputs[0].event, inputs[0].slot) {
        StepView::Next(t, _) => {
            assert(all_fit(t.pages)) by {
                assert forall|i: int| 0 <= i < t.pages.len() implies (#[trigger] t.pages[i]).valid()
                    && t.pages[i].geometry().fits() by {
                    if i < s.pages.len() {
                        assert(t.pages[i] == s.pages[i]);
                    }
                }
            }
            lemma_pages_fit(t, inputs.drop_first(), pages);
        },
        _ => {},
    }
}

/// Success comes from a clean decode only: if a decode ends with `pages`,
/// then the engine made a context, took the streams, completed the page with
/// status zero, handed over exactly `pages`, one by one, each copied and
/// released in turn, said that there are no more, and had its context
/// disposed. Together with [`lemma_clean_decode_succeeds`] this says when a
/// decode succeeds and what the session asks for when it does.
pub proof fn lemma_success_was_a_clean_decode(
    flag: OpenFlag,
    has_globals: bool,
    inputs: Seq<Stimulus>,
    pages: Seq<Raster>,
)
    requires
        run(SessionState::initial(flag, has_globals), inputs) == Run::Finished(Ok(pages)),
    ensures
        all_fit(pages),
        events(inputs) == feed_events(
            has_globals,
            fed_status(inputs, 1),
            fed_status(inputs, completion_index(has_globals) - 1),
            0,
        ) + drain_events(pages) + seq![EventView::NoMorePages, EventView::ContextDisposed],
{
    let s = SessionState::initial(flag, has_globals);
    lemma_events_unfold(inputs);
    match transition(s, inputs[0].event, inputs[0].slot) {
        StepView::Next(s1, _) => {
            let i1 = inputs.drop_first();
            assert(run(s, inputs) == run(s1, i1));
            lemma_events_unfold(i1);
            let s2 = s.at(Phase::AwaitPrimary);
            let i2 = if has_globals {
                i1.drop_first()
            } else {
                i1
            };
            assert(run(s1, i1) == run(s2, i2));
            lemma_events_unfold(i2);
            let i3 = i2.drop_first();
            let s3 = s.at(Phase::AwaitCompletion);
            assert(run(s2, i2) == run(s3, i3));
            lemma_events_unfold(i3);
            let i4 = i3.drop_first();
            assert(i1[0] == inputs[1]);
            assert(i2[0] == inputs[completion_index(has_globals) - 1]);
            assert(i3[0] == inputs[completion_index(has_globals)]);
            match transition(s3, i3[0].event, i3[0].slot) {
                StepView::Next(s4, _) => {
                    assert(run(s3, i3) == run(s4, i4));
                    if s4.failure is None {
                        assert(s4 == s.at(Phase::AwaitPage));
                        lemma_course_from(s4, i4, pages);
                        assert(pages.skip(0) =~= pages);
                        assert(events(inputs) =~= feed_events(
                            has_globals,
                            fed_status(inputs, 1),
                            fed_status(inputs, completion_index(has_globals) - 1),
                            0,
                        ) + drain_events(pages) + seq![
                            EventView::NoMorePages,
                            EventView::ContextDisposed,
                        ]);
                    } else {
                        assert(run(s4, i4) != Run::Finished(Ok(pages)));
                    }
                },
                _ => {},
            }
        },
        _ => {},
    }
    lemma_pages_fit(s, inputs, pages);
}

/// A refused context ends the decode at once: the error carries what the
/// diagnostics slot held, and nothing further is asked of the engine, no
/// disposal either.
pub proof fn lemma_refused_context_fails(flag: OpenFlag, has_globals: bool, inputs: Seq<Stimulus>)
    requires
        events(inputs) == seq![EventView::ContextRefused],
    ensures
        run(SessionState::initial(flag, has_globals), inputs) == Run::Finished(
            Err(ErrorView::CreateContextFailed(diagnostic_text(inputs[0].slot))),
        ),
        requests(SessionState::initial(flag, has_globals), inputs) == Seq::<Action>::empty(),
{
    lemma_ends(
        SessionState::initial(flag, has_globals),
        inputs,
        seq![EventView::ContextRefused],
        Err(ErrorView::CreateContextFailed(diagnostic_text(inputs[0].slot))),
    );
}

/// A completion with a status other than zero fails the decode: the error
/// carries what the diagnostics slot held when the status came in, the
/// context is still disposed, and no page is asked for.
pub proof fn lemma_failed_completion_fails(
    flag: OpenFlag,
    has_globals: bool,
    globals_status: i32,
    primary_status: i32,
    status: i32,
    inputs: Seq<Stimulus>,
)
    requires
        status != 0,
        events(inputs) == feed_events(has_globals, globals_status, primary_status, status) + seq![
            EventView::ContextDisposed,
        ],
    ensures
        inputs.len() == completion_index(has_globals) + 2,
        run(SessionState::initial(flag, has_globals), inputs) == Run::Finished(
            Err(
                ErrorView::IncompletePage(
                    diagnostic_text(inputs[completion_index(has_globals)].slot),
                ),
            ),
        ),
        requests(SessionState::initial(flag, has_globals), inputs) == feed_requests(has_globals)
            + seq![Action::DisposeContext],
{
    let s = SessionState::initial(flag, has_globals);
    let c0 = feed_events(has_globals, globals_status, primary_status, status) + seq![
        EventView::ContextDisposed,
    ];
    let i1 = inputs.drop_first();
    let c1 = c0.drop_first();
    let i2 = i1.drop_first();
    let c2 = c1.drop_first();
    let primary = s.at(Phase::AwaitPrimary);
    let completion = s.at(Phase::AwaitCompletion);
    let failed = completion.failed(diagnostic_text(inputs[completion_index(has_globals)].slot));
    if has_globals {
        let i3 = i2.drop_first();
        let c3 = c2.drop_first();
        assert(i3[0] == inputs[3]);
        lemma_goes_on(s, inputs, c0, s.at(Phase::AwaitGlobals), Action::FeedGlobals);
        lemma_goes_on(s.at(Phase::AwaitGlobals), i1, c1, primary, Action::FeedPrimary);
        lemma_goes_on(primary, i2, c2, completion, Action::CompletePage);
        lemma_goes_on(completion, i3, c3, failed, Action::DisposeContext);
        lemma_ends(failed, i3.drop_first(), c3.drop_first(), failed.outcome());
    } else {
        assert(i2[0] == inputs[2]);
        lemma_goes_on(s, inputs, c0, primary, Action::FeedPrimary);
        lemma_goes_on(primary, i1, c1, completion, Action::CompletePage);
        lemma_goes_on(completion, i2, c2, failed, Action::DisposeContext);
        lemma_ends(failed, i2.drop_first(), c2.drop_first(), failed.outcome());
    }
    assert(requests(s, inputs) =~= feed_requests(has_globals) + seq![Action::DisposeContext]);
}

proof fn lemma_no_failure_no_error(s: SessionState, inputs: Seq<Stimulus>)
    requires
        run(s, inputs) is Finished,
        s.failure is None,
        s.phase != Phase::AwaitContext,
        s.phase != Phase::AwaitGlobals,
        s.phase != Phase::AwaitPrimary,
        s.phase != Phase::AwaitCompletion,
    ensures
        run(s, inputs)->Finished_0 is Ok,
    decreases inputs.len(),
{
    match transition(s, inputs[0].event, inputs[0].slot) {
        StepView::Next(t, _) => {
            lemma_no_failure_no_error(t, inputs.drop_first());
        },
        _ => {},
    }
}

/// A decode fails in two ways only, and each error says which: the engine
/// made no context, which ends the decode with its first event; or the
/// engine made a context, took the streams and came back from the completion
/// with a status other than zero, after which nothing but the disposal
/// follows. Either error carries what the diagnostics slot held at that
/// event, and no decode ends in an I/O error. Together with
/// [`lemma_refused_context_fails`] and [`lemma_failed_completion_fails`] this
/// says when a decode fails and with which error.
pub proof fn lemma_failure_names_its_cause(
    flag: OpenFlag,
    has_globals: bool,
    inputs: Seq<Stimulus>,
    error: ErrorView,
)
    requires
        run(SessionState::initial(flag, has_globals), inputs) == Run::Finished(Err(error)),
    ensures
        match error {
            ErrorView::Io => false,
            ErrorView::CreateContextFailed(diagnostic) => {
                &&& events(inputs) == seq![EventView::ContextRefused]
                &&& diagnostic == diagnostic_text(inputs[0].slot)
            },
            ErrorView::IncompletePage(diagnostic) => {
                let k = completion_index(has_globals);
                &&& inputs[k].event matches EventView::PageCompleted(status) && status != 0
                    && events(inputs) == feed_events(
                    has_globals,
                    fed_status(inputs, 1),
                    fed_status(inputs, k - 1),
                    status,
                ) + seq![EventView::ContextDisposed]
                &&& diagnostic == diagnostic_text(inputs[k].slot)
            },
        },
{
    let s = SessionState::initial(flag, has_globals);
    let k = completion_index(has_globals);
    lemma_events_unfold(inputs);
    match transition(s, inputs[0].event, inputs[0].slot) {
        StepView::Next(s1, _) => {
            let i1 = inputs.drop_first();
            assert(run(s, inputs) == run(s1, i1));
            lemma_events_unfold(i1);
            let s2 = s.at(Phase::AwaitPrimary);
            let i2 = if has_globals {
                i1.drop_first()
            } else {
                i1
            };
            assert(run(s1, i1) == run(s2, i2));
            lemma_events_unfold(i2);
            let i3 = i2.drop_first();
            let s3 = s.at(Phase::AwaitCompletion);
            assert(run(s2, i2) == run(s3, i3));
            lemma_events_unfold(i3);
            let i4 = i3.drop_first();
            assert(i1[0] == inputs[1]);
            assert(i2[0] == inputs[k - 1]);
            assert(i3[0] == inputs[k]);
            match transition(s3, i3[0].event, i3[0].slot) {
                StepView::Next(s4, _) => {
                    assert(run(s3, i3) == run(s4, i4));
                    if s4.failure is None {
                        lemma_no_failure_no_error(s4, i4);
                    } else {
                        lemma_events_unfold(i4);
                        assert(i4.len() == 1);
                        assert(events(i4.drop_first()) =~= Seq::empty());
                        assert(events(inputs) =~= feed_events(
                            has_globals,
                            fed_status(inputs, 1),
                            fed_status(inputs, k - 1),
                            i3[0].event->PageCompleted_0,
                        ) + seq![EventView::ContextDisposed]);
                    }
                },
                _ => {},
            }
        },
        _ => {
            assert(events(inputs.drop_first()) =~= Seq::empty());
            assert(events(inputs) =~= seq![EventView::ContextRefused]);
        },
    }
}

/// Number of disposals that a finished decode starting in `s` with `inputs`
/// still has to ask for.
spec fn disposals_due(s: SessionState, inputs: Seq<Stimulus>) -> nat {
    match s.phase {
        Phase::AwaitContext => if inputs.len() > 0 && inputs[0].event is ContextCreated {
            1
        } else {
            0
        },
        Phase::AwaitDisposal => 0,
        _ => 1,
    }
}

proof fn lemma_first_request(s: SessionState, inputs: Seq<Stimulus>, action: Action)
    requires
        inputs.len() > 0,
        transition(s, inputs[0].event, inputs[0].slot) is Next,
    ensures
        occurrences(requests(s, inputs), action) == occurrences(
            requests(transition(s, inputs[0].event, inputs[0].slot)->Next_0, inputs.drop_first()),
            action,
        ) + if transition(s, inputs[0].event, inputs[0].slot)->Next_1 == action {
            1nat
        } else {
            0nat
        },
{
    let t = transition(s, inputs[0].event, inputs[0].slot)->Next_0;
    let first = transition(s, inputs[0].event, inputs[0].slot)->Next_1;
    let later = requests(t, inputs.drop_first());
    assert((seq![first] + later).drop_first() =~= later);
}

proof fn lemma_disposals_from(s: SessionState, inputs: Seq<Stimulus>)
    requires
        run(s, inputs) is Finished,
    ensures
        occurrences(requests(s, inputs), Action::DisposeContext) == disposals_due(s, inputs),
    decreases inputs.len(),
{
    match transition(s, inputs[0].event, inputs[0].slot) {
        StepView::Next(t, _) => {
            lemma_disposals_from(t, inputs.drop_first());
            lemma_first_request(s, inputs, Action::DisposeContext);
        },
        _ => {},
    }
}

proof fn lemma_releases_from(s: SessionState, inputs: Seq<Stimulus>)
    requires
        run(s, inputs) is Finished,
    ensures
        occurrences(requests(s, inputs), Action::ReleasePage) == at_hand(s.phase).len()
            + reported(inputs).len(),
    decreases inputs.len(),
{
    let rest = inputs.drop_first();
    match transition(s, inputs[0].event, inputs[0].slot) {
        StepView::Next(t, _) => {
            lemma_releases_from(t, rest);
            lemma_first_request(s, inputs, Action::ReleasePage);
        },
        _ => {
            assert(reported(rest) =~= Seq::empty());
        },
    }
}

/// A decode that comes to an end, with whatever outcome, has asked for the
/// disposal of its context exactly once if the engine made a context, and
/// not at all if the engine made none.
pub proof fn lemma_context_is_disposed_once(
    flag: OpenFlag,
    has_globals: bool,
    inputs: Seq<Stimulus>,
)
    requires
        run(SessionState::initial(flag, has_globals), inputs) is Finished,
    ensures
        inputs.len() > 0,
        inputs[0].event is ContextCreated || inputs[0].event is ContextRefused,
        occurrences(
            requests(SessionState::initial(flag, has_globals), inputs),
            Action::DisposeContext,
        ) == if inputs[0].event is ContextCreated {
            1nat
        } else {
            0nat
        },
{
    lemma_disposals_from(SessionState::initial(flag, has_globals), inputs);
}

/// A decode that comes to an end, with whatever outcome, has asked for the
/// release of a page exactly as often as the engine handed a page over.
pub proof fn lemma_every_page_is_released(flag: OpenFlag, has_globals: bool, inputs: Seq<Stimulus>)
    requires
        run(SessionState::initial(flag, has_globals), inputs) is Finished,
    ensures
        occurrences(requests(SessionState::initial(flag, has_globals), inputs), Action::ReleasePage)
            == reported(inputs).len(),
{
    lemma_releases_from(SessionState::initial(flag, has_globals), inputs);
}

proof fn lemma_diagnostics_from(s: SessionState, inputs: Seq<Stimulus>)
    requires
        run(s, inputs) is Finished,
        s.failure is Some ==> s.phase == Phase::AwaitDisposal,
    ensures
        run(s, inputs)->Finished_0 is Ok ==> s.failure is None && diagnostics_taken(s, inputs)
            == 0,
        run(s, inputs)->Finished_0 is Err ==> diagnostics_taken(s, inputs) + if s.failure
            is Some {
            1nat
        } else {
            0nat
        } == 1,
    decreases inputs.len(),
{
    match transition(s, inputs[0].event, inputs[0].slot) {
        StepView::Next(t, _) => {
            lemma_diagnostics_from(t, inputs.drop_first());
        },
        _ => {},
    }
}

/// The diagnostics slot is read and cleared exactly once in a decode that
/// fails, and not touched in a decode that succeeds.
pub proof fn lemma_diagnostic_is_taken_once_per_failure(
    flag: OpenFlag,
    has_globals: bool,
    inputs: Seq<Stimulus>,
)
    requires
        run(SessionState::initial(flag, has_globals), inputs) is Finished,
    ensures
        diagnostics_taken(SessionState::initial(flag, has_globals), inputs) == if run(
            SessionState::initial(flag, has_globals),
            inputs,
        )->Finished_0 is Ok {
            0nat
        } else {
            1nat
        },
{
    lemma_diagnostics_from(SessionState::initial(flag, has_globals), inputs);
}

} // verus!
