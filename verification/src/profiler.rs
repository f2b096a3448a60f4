use vstd::prelude::*;

use crate::recorder::{Device, ProfilerCommandRecorder};

verus! {

/// One call into the profiler backend, as specifications see it: either
/// "begin a scope with this label" or "end the most recently begun scope".
/// Each call targets one recorder; `on_pass` tells whether that recorder
/// was an in-progress pass, as opposed to a command encoder, so a contract
/// can pin *which* recorder a scope was begun and ended on.
pub enum Event {
    Begin { label: Seq<char>, on_pass: bool },
    End { on_pass: bool },
}

/// One call into the profiler backend, as recorded at run time.
#[derive(Debug)]
pub enum ProfilerEvent {
    Begin { label: String, on_pass: bool },
    End { on_pass: bool },
}

impl View for ProfilerEvent {
    type V = Event;

    open spec fn view(&self) -> Event {
        match self {
            ProfilerEvent::Begin { label, on_pass } => Event::Begin {
                label: label@,
                on_pass: *on_pass,
            },
            ProfilerEvent::End { on_pass } => Event::End { on_pass: *on_pass },
        }
    }
}

/// Labels of the scopes that a call log leaves open, outermost first.
pub open spec fn open_scopes(log: Seq<Event>) -> Seq<Seq<char>>
    decreases log.len(),
{
    if log.len() == 0 {
        Seq::empty()
    } else {
        match log.last() {
            Event::Begin { label, on_pass: _ } => open_scopes(log.drop_last()).push(label),
            Event::End { on_pass: _ } => open_scopes(log.drop_last()).drop_last(),
        }
    }
}

/// A call log is well bracketed when every "end" call closes a scope that
/// was actually open at that point.
pub open spec fn well_bracketed(log: Seq<Event>) -> bool
    decreases log.len(),
{
    log.len() == 0 || {
        &&& well_bracketed(log.drop_last())
        &&& (log.last() is End ==> open_scopes(log.drop_last()).len() > 0)
    }
}

/// A "begin" call opens exactly one scope, whichever recorder it targets:
/// it pushes the label onto the open stack and keeps the log well
/// bracketed.
pub proof fn lemma_begin_call(log: Seq<Event>, label: Seq<char>, on_pass: bool)
    ensures
        open_scopes(log.push((Event::Begin { label, on_pass }))) == open_scopes(log).push(label),
        well_bracketed(log) ==> well_bracketed(log.push((Event::Begin { label, on_pass }))),
{
    assert(log.push((Event::Begin { label, on_pass })).drop_last() =~= log);
}

/// An "end" call closes exactly the innermost open scope, whichever
/// recorder it targets: it pops the open stack, and keeps the log well
/// bracketed whenever a scope was open.
pub proof fn lemma_end_call(log: Seq<Event>, on_pass: bool)
    ensures
        open_scopes(log.push((Event::End { on_pass }))) == open_scopes(log).drop_last(),
        well_bracketed(log) && open_scopes(log).len() > 0 ==> well_bracketed(
            log.push((Event::End { on_pass })),
        ),
{
    assert(log.push((Event::End { on_pass })).drop_last() =~= log);
}

/// `calls` is a sequence of "begin" calls carrying `labels`, in order; the
/// recorders they target are left free, so nested scopes may sit on
/// different recorders.
pub open spec fn begins_scopes(calls: Seq<Event>, labels: Seq<Seq<char>>) -> bool {
    &&& calls.len() == labels.len()
    &&& forall|i: int|
        0 <= i < calls.len() ==> (#[trigger] calls[i]) is Begin && calls[i]->Begin_label
            == labels[i]
}

/// `calls` is a sequence of "end" calls, whatever recorders they target.
pub open spec fn all_end_calls(calls: Seq<Event>) -> bool {
    forall|i: int| 0 <= i < calls.len() ==> (#[trigger] calls[i]) is End
}

/// The label of the scope that the call at position `i` of `log` closes:
/// the innermost scope still open just before that call.
pub open spec fn scope_closed_at(log: Seq<Event>, i: int) -> Seq<char> {
    open_scopes(log.take(i)).last()
}

proof fn lemma_begin_calls_open(log: Seq<Event>, calls: Seq<Event>, labels: Seq<Seq<char>>)
    requires
        begins_scopes(calls, labels),
    ensures
        open_scopes(log + calls) == open_scopes(log) + labels,
        well_bracketed(log) ==> well_bracketed(log + calls),
    decreases calls.len(),
{
    if calls.len() == 0 {
        assert(log + calls =~= log);
        assert(open_scopes(log) + labels =~= open_scopes(log));
    } else {
        let calls0 = calls.drop_last();
        let labels0 = labels.drop_last();
        assert forall|i: int|
            0 <= i < calls0.len() implies (#[trigger] calls0[i]) is Begin && calls0[i]->Begin_label
            == labels0[i] by {
            assert(calls0[i] == calls[i]);
        }
        lemma_begin_calls_open(log, calls0, labels0);
        assert(log + calls =~= (log + calls0).push(calls.last()));
        match calls.last() {
            Event::Begin { label, on_pass } => {
                lemma_begin_call(log + calls0, label, on_pass);
                assert(label == labels.last());
            },
            Event::End { on_pass: _ } => {
                assert(false);
            },
        }
        assert((open_scopes(log) + labels0).push(labels.last()) =~= open_scopes(log) + labels);
    }
}

proof fn lemma_end_calls_close(log: Seq<Event>, calls: Seq<Event>)
    requires
        well_bracketed(log),
        all_end_calls(calls),
        calls.len() <= open_scopes(log).len(),
    ensures
        well_bracketed(log + calls),
        open_scopes(log + calls) == open_scopes(log).take(
            open_scopes(log).len() - calls.len(),
        ),
        forall|j: int|
            0 <= j < calls.len() ==> #[trigger] scope_closed_at(log + calls, log.len() + j)
                == open_scopes(log)[open_scopes(log).len() - 1 - j],
    decreases calls.len(),
{
    if calls.len() == 0 {
        assert(log + calls =~= log);
        assert(open_scopes(log).take(open_scopes(log).len() - calls.len()) =~= open_scopes(log));
    } else {
        let rest = calls.drop_first();
        let log1 = log.push(calls[0]);
        match calls[0] {
            Event::End { on_pass } => {
                lemma_end_call(log, on_pass);
            },
            Event::Begin { label: _, on_pass: _ } => {
                assert(false);
            },
        }
        assert forall|i: int| 0 <= i < rest.len() implies (#[trigger] rest[i]) is End by {
            assert(rest[i] == calls[i + 1]);
        }
        lemma_end_calls_close(log1, rest);
        assert(log + calls =~= log1 + rest);
        assert(open_scopes(log1).take(open_scopes(log1).len() - rest.len()) =~= open_scopes(
            log,
        ).take(open_scopes(log).len() - calls.len()));
        assert((log1 + rest).take(log.len() as int) =~= log);
        assert(scope_closed_at(log + calls, log.len() as int) == open_scopes(log)[open_scopes(
            log,
        ).len() - 1]);
        assert forall|j: int| 1 <= j < calls.len() implies #[trigger] scope_closed_at(
            log + calls,
            log.len() + j,
        ) == open_scopes(log)[open_scopes(log).len() - 1 - j] by {
            assert(scope_closed_at(log1 + rest, log1.len() + (j - 1)) == open_scopes(
                log1,
            )[open_scopes(log1).len() - 1 - (j - 1)]);
        }
    }
}

/// Law: for any nesting depth, starting scopes named `labels` in sequence —
/// on whichever recorders — and then closing them in strict reverse order
/// appends exactly `labels.len()` matched begin/end call pairs: the log
/// stays well bracketed, the scopes open before are exactly the scopes open
/// after, and the calls pair up in strict stack order: the j-th "end" call
/// closes the scope named `labels[labels.len() - 1 - j]`, so the innermost
/// scope begins last and ends first.
pub proof fn lemma_nested_scopes_stack_order(
    log: Seq<Event>,
    begins: Seq<Event>,
    ends: Seq<Event>,
    labels: Seq<Seq<char>>,
)
    requires
        well_bracketed(log),
        begins_scopes(begins, labels),
        all_end_calls(ends),
        ends.len() == begins.len(),
    ensures
        well_bracketed(log + begins + ends),
        open_scopes(log + begins + ends) == open_scopes(log),
        forall|j: int|
            0 <= j < labels.len() ==> #[trigger] scope_closed_at(
                log + begins + ends,
                log.len() + labels.len() + j,
            ) == labels[labels.len() - 1 - j],
{
    let mid = log + begins;
    lemma_begin_calls_open(log, begins, labels);
    lemma_end_calls_close(mid, ends);
    assert(open_scopes(mid).take(open_scopes(mid).len() - labels.len()) =~= open_scopes(log));
    assert(mid.len() == log.len() + labels.len());
    assert forall|j: int| 0 <= j < labels.len() implies #[trigger] scope_closed_at(
        mid + ends,
        log.len() + labels.len() + j,
    ) == labels[labels.len() - 1 - j] by {
        assert(scope_closed_at(mid + ends, mid.len() + j) == open_scopes(mid)[open_scopes(
            mid,
        ).len() - 1 - j]);
        assert(open_scopes(mid)[open_scopes(mid).len() - 1 - j] == (open_scopes(log)
            + labels)[open_scopes(log).len() + labels.len() - 1 - j]);
    }
}

/// Law: one begin/end pair on one recorder, appended to a log, adds exactly
/// one matched, nested pair: the "end" call closes exactly the scope the
/// "begin" call opened, on the same recorder, and the scopes open around
/// the pair are left exactly as they were; in particular an enclosing scope
/// is not ended by it.
pub proof fn lemma_inner_pair_leaves_outer_open(log: Seq<Event>, label: Seq<char>, on_pass: bool)
    requires
        well_bracketed(log),
    ensures
        well_bracketed(log.push((Event::Begin { label, on_pass })).push((Event::End { on_pass }))),
        open_scopes(log.push((Event::Begin { label, on_pass })).push((Event::End { on_pass })))
            == open_scopes(log),
        scope_closed_at(
            log.push((Event::Begin { label, on_pass })).push((Event::End { on_pass })),
            log.len() + 1int,
        ) == label,
{
    let log1 = log.push((Event::Begin { label, on_pass }));
    lemma_begin_call(log, label, on_pass);
    lemma_end_call(log1, on_pass);
    assert(open_scopes(log).push(label).drop_last() =~= open_scopes(log));
    assert(log1.push((Event::End { on_pass })).take(log.len() + 1int) =~= log1);
}

/// Model of the profiler backend, at the interface the scope layer relies
/// on: it accepts "begin scope" and "end scope" calls, keeps the full log of
/// those calls — each tagged with whether its target recorder was a pass —
/// and keeps the stack of currently open scope labels. How the backend
/// turns those calls into timestamp queries is not this layer's concern.
pub struct GpuProfiler {
    events: Vec<ProfilerEvent>,
    open_stack: Vec<String>,
}

impl View for GpuProfiler {
    type V = Seq<Event>;

    closed spec fn view(&self) -> Seq<Event> {
        self.events@.map_values(|e: ProfilerEvent| e@)
    }
}

impl GpuProfiler {
    /// Labels of the scopes currently open, outermost first.
    pub closed spec fn open_labels(&self) -> Seq<Seq<char>> {
        self.open_stack@.map_values(|s: String| s@)
    }

    /// The profiler's open-scope stack agrees with its call log, and the log
    /// is well bracketed.
    pub open spec fn wf(&self) -> bool {
        &&& well_bracketed(self@)
        &&& self.open_labels() == open_scopes(self@)
    }

    /// A fresh profiler: no calls made, no scope open.
    pub fn new() -> (p: GpuProfiler)
        ensures
            p@ == Seq::<Event>::empty(),
            p.wf(),
    {
        let p = GpuProfiler { events: Vec::new(), open_stack: Vec::new() };
        proof {
            assert(p@ =~= Seq::<Event>::empty());
            assert(p.open_labels() =~= open_scopes(p@));
        }
        p
    }

    /// Begins a scope named `label` against `recorder`: appends one "begin"
    /// call — targeting exactly that recorder — to the log and pushes the
    /// label onto the open stack. The recorder is left as it was.
    pub fn begin_scope<W: ProfilerCommandRecorder>(
        &mut self,
        label: &str,
        recorder: &mut W,
        device: &Device,
    )
        requires
            old(self).wf(),
        ensures
            final(self)@ == old(self)@.push(
                (Event::Begin { label: label@, on_pass: (*old(recorder)).spec_is_pass() }),
            ),
            final(self).wf(),
            final(self).open_labels() == old(self).open_labels().push(label@),
            open_scopes(final(self)@) == open_scopes(old(self)@).push(label@),
            *final(recorder) == *old(recorder),
    {
        let _ = device;
        let on_pass = recorder.is_pass();
        self.events.push(ProfilerEvent::Begin { label: label.to_owned(), on_pass });
        self.open_stack.push(label.to_owned());
        proof {
            assert(self@ =~= old(self)@.push((Event::Begin { label: label@, on_pass })));
            assert(self.open_labels() =~= old(self).open_labels().push(label@));
            lemma_begin_call(old(self)@, label@, on_pass);
        }
    }

    /// Ends the most recently begun scope that is still open: appends one
    /// "end" call — targeting exactly `recorder` — to the log and pops the
    /// open stack. The recorder is left as it was.
    pub fn end_scope<W: ProfilerCommandRecorder>(&mut self, recorder: &mut W)
        requires
            old(self).wf(),
            open_scopes(old(self)@).len() > 0,
        ensures
            final(self)@ == old(self)@.push(
                (Event::End { on_pass: (*old(recorder)).spec_is_pass() }),
            ),
            final(self).wf(),
            final(self).open_labels() == old(self).open_labels().drop_last(),
            open_scopes(final(self)@) == open_scopes(old(self)@).drop_last(),
            *final(recorder) == *old(recorder),
    {
        let on_pass = recorder.is_pass();
        self.events.push(ProfilerEvent::End { on_pass });
        let _popped = self.open_stack.pop();
        proof {
            assert(self@ =~= old(self)@.push((Event::End { on_pass })));
            assert(self.open_labels() =~= old(self).open_labels().drop_last());
            lemma_end_call(old(self)@, on_pass);
        }
    }

    /// How many scopes are currently open.
    pub fn num_open_scopes(&self) -> (n: usize)
        ensures
            n == self.open_labels().len(),
    {
        self.open_stack.len()
    }

    /// The recorded backend calls, in order, for inspection.
    pub fn events(&self) -> (r: &Vec<ProfilerEvent>)
        ensures
            r@.map_values(|e: ProfilerEvent| e@) == self@,
    {
        &self.events
    }
}

} // verus!
