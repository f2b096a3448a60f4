use vstd::prelude::*;

use crate::profiler::{Event, GpuProfiler, open_scopes};
use crate::recorder::{
    Device, Encoder, Pass, PassDescriptor, PassKind, PassView, ProfilerCommandRecorder,
};

verus! {

/// Guard over a profiler and a *borrowed* recorder. Starting it begins one
/// scope; the consuming `end` call closes exactly that scope, and closes it
/// on the same recorder. While the guard lives it holds exclusive access to
/// both the profiler and the recorder, so a parent guard cannot be used or
/// closed while a nested guard taken from it is alive. There is no
/// destructor: a guard dropped without `end` leaves its scope open.
pub struct Scope<'a, W: ProfilerCommandRecorder> {
    pub profiler: &'a mut GpuProfiler,
    pub recorder: &'a mut W,
}

/// Guard over a profiler and a recorder it *owns*. Starting it begins one
/// scope; the consuming `end` call closes exactly that scope on the same
/// recorder and then releases the owned recorder, which is the point where
/// an owned pass is finished. There is no destructor: a guard dropped
/// without `end` leaves its scope open.
pub struct OwningScope<'a, W: ProfilerCommandRecorder> {
    pub profiler: &'a mut GpuProfiler,
    pub recorder: W,
}

/// Guard over a profiler and a recorder it owns, closed only by an explicit
/// `end_scope` call, which hands back the recorder and the profiler
/// reference. Dropping it without that call leaves the scope open: matching
/// the begin elsewhere is then the caller's responsibility.
pub struct ManualOwningScope<'a, W: ProfilerCommandRecorder> {
    pub profiler: &'a mut GpuProfiler,
    pub recorder: W,
}

impl<'a, W: ProfilerCommandRecorder> Scope<'a, W> {
    /// Starts a new profiler scope over a borrowed recorder. The scope is
    /// closed by `end`.
    pub fn start(
        profiler: &'a mut GpuProfiler,
        recorder: &'a mut W,
        device: &Device,
        label: &str,
    ) -> (s: Self)
        requires
            old(profiler).wf(),
        ensures
            (*s.profiler)@ == (*old(profiler))@.push(
                (Event::Begin { label: label@, on_pass: (*old(recorder)).spec_is_pass() }),
            ),
            (*s.profiler).wf(),
            open_scopes((*s.profiler)@) == open_scopes((*old(profiler))@).push(label@),
            *s.recorder == *old(recorder),
            *final(profiler) == *final(s.profiler),
            *final(recorder) == *final(s.recorder),
    {
        profiler.begin_scope(label, recorder, device);
        Scope { profiler, recorder }
    }

    /// Starts a scope nested within this one, reusing the same profiler and
    /// the same borrowed recorder. This guard cannot be used again until the
    /// nested guard is closed.
    pub fn scope(&mut self, device: &Device, label: &str) -> (s: Scope<'_, W>)
        requires
            (*old(self.profiler)).wf(),
        ensures
            (*s.profiler)@ == (*old(self.profiler))@.push(
                (Event::Begin { label: label@, on_pass: (*old(self.recorder)).spec_is_pass() }),
            ),
            (*s.profiler).wf(),
            open_scopes((*s.profiler)@) == open_scopes((*old(self.profiler))@).push(label@),
            *s.recorder == *old(self.recorder),
            *final(self).profiler == *final(s.profiler),
            *final(final(self).profiler) == *final(old(self.profiler)),
            *final(self).recorder == *final(s.recorder),
            *final(final(self).recorder) == *final(old(self.recorder)),
    {
        Scope::start(&mut *self.profiler, &mut *self.recorder, device, label)
    }

    /// Ends the scope this guard began. Taking the guard by value, this can
    /// happen at most once per guard.
    pub fn end(self)
        requires
            (*self.profiler).wf(),
            open_scopes((*self.profiler)@).len() > 0,
        ensures
            (*final(self.profiler))@ == (*old(self.profiler))@.push(
                (Event::End { on_pass: (*old(self.recorder)).spec_is_pass() }),
            ),
            (*final(self.profiler)).wf(),
            open_scopes((*final(self.profiler))@) == open_scopes((*old(self.profiler))@).drop_last(),
            *final(self.recorder) == *old(self.recorder),
    {
        let Scope { profiler, recorder } = self;
        profiler.end_scope(recorder);
    }

    /// Read access to the wrapped recorder: exactly the recorder itself.
    pub fn recorder(&self) -> (r: &W)
        ensures
            *r == *old(self.recorder),
    {
        &*self.recorder
    }

    /// Write access to the wrapped recorder: mutations through the returned
    /// reference are mutations of the recorder itself, and nothing else of
    /// the guard changes.
    pub fn recorder_mut(&mut self) -> (r: &mut W)
        ensures
            *r == *old(self.recorder),
            *final(self).recorder == *final(r),
            *final(final(self).recorder) == *final(old(self.recorder)),
            final(self).profiler == old(self).profiler,
    {
        &mut *self.recorder
    }
}

impl<'a, W: ProfilerCommandRecorder> OwningScope<'a, W> {
    /// Starts a new profiler scope, taking ownership of the recorder. The
    /// scope is closed by `end`.
    pub fn start(
        profiler: &'a mut GpuProfiler,
        recorder: W,
        device: &Device,
        label: &str,
    ) -> (s: Self)
        requires
            old(profiler).wf(),
        ensures
            (*s.profiler)@ == (*old(profiler))@.push(
                (Event::Begin { label: label@, on_pass: recorder.spec_is_pass() }),
            ),
            (*s.profiler).wf(),
            open_scopes((*s.profiler)@) == open_scopes((*old(profiler))@).push(label@),
            s.recorder == recorder,
            *final(profiler) == *final(s.profiler),
    {
        let mut recorder = recorder;
        profiler.begin_scope(label, &mut recorder, device);
        OwningScope { profiler, recorder }
    }

    /// Starts a scope nested within this one: a borrowing guard over the
    /// owned recorder; ownership stays with this guard.
    pub fn scope(&mut self, device: &Device, label: &str) -> (s: Scope<'_, W>)
        requires
            (*old(self.profiler)).wf(),
        ensures
            (*s.profiler)@ == (*old(self.profiler))@.push(
                (Event::Begin { label: label@, on_pass: old(self).recorder.spec_is_pass() }),
            ),
            (*s.profiler).wf(),
            open_scopes((*s.profiler)@) == open_scopes((*old(self.profiler))@).push(label@),
            *s.recorder == old(self).recorder,
            *final(self).profiler == *final(s.profiler),
            *final(final(self).profiler) == *final(old(self.profiler)),
            final(self).recorder == *final(s.recorder),
    {
        Scope::start(&mut *self.profiler, &mut self.recorder, device, label)
    }

    /// Ends the scope this guard began, then releases the owned recorder.
    pub fn end(self)
        requires
            (*self.profiler).wf(),
            open_scopes((*self.profiler)@).len() > 0,
        ensures
            (*final(self.profiler))@ == (*old(self.profiler))@.push(
                (Event::End { on_pass: self.recorder.spec_is_pass() }),
            ),
            (*final(self.profiler)).wf(),
            open_scopes((*final(self.profiler))@) == open_scopes((*old(self.profiler))@).drop_last(),
    {
        let OwningScope { profiler, recorder } = self;
        let mut recorder = recorder;
        profiler.end_scope(&mut recorder);
    }

    /// Read access to the owned recorder: exactly the recorder itself.
    pub fn recorder(&self) -> (r: &W)
        ensures
            *r == self.recorder,
    {
        &self.recorder
    }

    /// Write access to the owned recorder: mutations through the returned
    /// reference are mutations of the recorder itself, and nothing else of
    /// the guard changes.
    pub fn recorder_mut(&mut self) -> (r: &mut W)
        ensures
            *r == old(self).recorder,
            final(self).recorder == *final(r),
            final(self).profiler == old(self).profiler,
    {
        &mut self.recorder
    }
}

impl<'a, W: ProfilerCommandRecorder> ManualOwningScope<'a, W> {
    /// Starts a new profiler scope, taking ownership of the recorder. The
    /// scope is *not* closed automatically: it must be closed with
    /// `end_scope`.
    pub fn start(
        profiler: &'a mut GpuProfiler,
        recorder: W,
        device: &Device,
        label: &str,
    ) -> (s: Self)
        requires
            old(profiler).wf(),
        ensures
            (*s.profiler)@ == (*old(profiler))@.push(
                (Event::Begin { label: label@, on_pass: recorder.spec_is_pass() }),
            ),
            (*s.profiler).wf(),
            open_scopes((*s.profiler)@) == open_scopes((*old(profiler))@).push(label@),
            s.recorder == recorder,
            *final(profiler) == *final(s.profiler),
    {
        let mut recorder = recorder;
        profiler.begin_scope(label, &mut recorder, device);
        ManualOwningScope { profiler, recorder }
    }

    /// Starts a scope nested within this one: a borrowing guard over the
    /// owned recorder; ownership stays with this guard.
    pub fn scope(&mut self, device: &Device, label: &str) -> (s: Scope<'_, W>)
        requires
            (*old(self.profiler)).wf(),
        ensures
            (*s.profiler)@ == (*old(self.profiler))@.push(
                (Event::Begin { label: label@, on_pass: old(self).recorder.spec_is_pass() }),
            ),
            (*s.profiler).wf(),
            open_scopes((*s.profiler)@) == open_scopes((*old(self.profiler))@).push(label@),
            *s.recorder == old(self).recorder,
            *final(self).profiler == *final(s.profiler),
            *final(final(self).profiler) == *final(old(self.profiler)),
            final(self).recorder == *final(s.recorder),
    {
        Scope::start(&mut *self.profiler, &mut self.recorder, device, label)
    }

    /// Ends the scope this guard began and hands back the owned recorder
    /// together with the profiler reference. Taking the guard by value, the
    /// scope cannot be ended twice through it.
    pub fn end_scope(self) -> (r: (W, &'a mut GpuProfiler))
        requires
            (*self.profiler).wf(),
            open_scopes((*self.profiler)@).len() > 0,
        ensures
            r.0 == self.recorder,
            (*r.1)@ == (*old(self.profiler))@.push(
                (Event::End { on_pass: self.recorder.spec_is_pass() }),
            ),
            (*r.1).wf(),
            open_scopes((*r.1)@) == open_scopes((*old(self.profiler))@).drop_last(),
            *final(r.1) == *final(self.profiler),
    {
        let ManualOwningScope { profiler, recorder } = self;
        let mut recorder = recorder;
        profiler.end_scope(&mut recorder);
        (recorder, profiler)
    }

    /// Read access to the owned recorder: exactly the recorder itself.
    pub fn recorder(&self) -> (r: &W)
        ensures
            *r == self.recorder,
    {
        &self.recorder
    }

    /// Write access to the owned recorder: mutations through the returned
    /// reference are mutations of the recorder itself, and nothing else of
    /// the guard changes.
    pub fn recorder_mut(&mut self) -> (r: &mut W)
        ensures
            *r == old(self).recorder,
            final(self).recorder == *final(r),
            final(self).profiler == old(self).profiler,
    {
        &mut self.recorder
    }
}

impl<'a> Scope<'a, Encoder> {
    /// Begins a render pass on the wrapped encoder and wraps it in an owning
    /// scope over the same profiler. The returned guard borrows this one, so
    /// this guard cannot be used or closed until the pass guard is closed.
    pub fn scoped_render_pass(
        &mut self,
        device: &Device,
        label: &str,
        pass_descriptor: &PassDescriptor,
    ) -> (s: OwningScope<'_, Pass>)
        requires
            (*old(self.profiler)).wf(),
        ensures
            (*s.profiler)@ == (*old(self.profiler))@.push(
                (Event::Begin { label: label@, on_pass: true }),
            ),
            (*s.profiler).wf(),
            open_scopes((*s.profiler)@) == open_scopes((*old(self.profiler))@).push(label@),
            s.recorder@ == (PassView { kind: PassKind::Render, label: pass_descriptor.label@ }),
            (*final(self).recorder)@ == (*old(self.recorder))@.push(
                (PassView { kind: PassKind::Render, label: pass_descriptor.label@ }),
            ),
            *final(self).profiler == *final(s.profiler),
            *final(final(self).profiler) == *final(old(self.profiler)),
            *final(final(self).recorder) == *final(old(self.recorder)),
    {
        let render_pass = self.recorder.begin_render_pass(pass_descriptor);
        OwningScope::start(&mut *self.profiler, render_pass, device, label)
    }

    /// Begins a compute pass on the wrapped encoder and wraps it in an
    /// owning scope over the same profiler.
    pub fn scoped_compute_pass(
        &mut self,
        device: &Device,
        label: &str,
        pass_descriptor: &PassDescriptor,
    ) -> (s: OwningScope<'_, Pass>)
        requires
            (*old(self.profiler)).wf(),
        ensures
            (*s.profiler)@ == (*old(self.profiler))@.push(
                (Event::Begin { label: label@, on_pass: true }),
            ),
            (*s.profiler).wf(),
            open_scopes((*s.profiler)@) == open_scopes((*old(self.profiler))@).push(label@),
            s.recorder@ == (PassView { kind: PassKind::Compute, label: pass_descriptor.label@ }),
            (*final(self).recorder)@ == (*old(self.recorder))@.push(
                (PassView { kind: PassKind::Compute, label: pass_descriptor.label@ }),
            ),
            *final(self).profiler == *final(s.profiler),
            *final(final(self).profiler) == *final(old(self.profiler)),
            *final(final(self).recorder) == *final(old(self.recorder)),
    {
        let compute_pass = self.recorder.begin_compute_pass(pass_descriptor);
        OwningScope::start(&mut *self.profiler, compute_pass, device, label)
    }
}

impl<'a> OwningScope<'a, Encoder> {
    /// Begins a render pass on the owned encoder and wraps it in an owning
    /// scope over the same profiler.
    pub fn scoped_render_pass(
        &mut self,
        device: &Device,
        label: &str,
        pass_descriptor: &PassDescriptor,
    ) -> (s: OwningScope<'_, Pass>)
        requires
            (*old(self.profiler)).wf(),
        ensures
            (*s.profiler)@ == (*old(self.profiler))@.push(
                (Event::Begin { label: label@, on_pass: true }),
            ),
            (*s.profiler).wf(),
            open_scopes((*s.profiler)@) == open_scopes((*old(self.profiler))@).push(label@),
            s.recorder@ == (PassView { kind: PassKind::Render, label: pass_descriptor.label@ }),
            final(self).recorder@ == old(self).recorder@.push(
                (PassView { kind: PassKind::Render, label: pass_descriptor.label@ }),
            ),
            *final(self).profiler == *final(s.profiler),
            *final(final(self).profiler) == *final(old(self.profiler)),
    {
        let render_pass = self.recorder.begin_render_pass(pass_descriptor);
        OwningScope::start(&mut *self.profiler, render_pass, device, label)
    }

    /// Begins a compute pass on the owned encoder and wraps it in an owning
    /// scope over the same profiler.
    pub fn scoped_compute_pass(
        &mut self,
        device: &Device,
        label: &str,
        pass_descriptor: &PassDescriptor,
    ) -> (s: OwningScope<'_, Pass>)
        requires
            (*old(self.profiler)).wf(),
        ensures
            (*s.profiler)@ == (*old(self.profiler))@.push(
                (Event::Begin { label: label@, on_pass: true }),
            ),
            (*s.profiler).wf(),
            open_scopes((*s.profiler)@) == open_scopes((*old(self.profiler))@).push(label@),
            s.recorder@ == (PassView { kind: PassKind::Compute, label: pass_descriptor.label@ }),
            final(self).recorder@ == old(self).recorder@.push(
                (PassView { kind: PassKind::Compute, label: pass_descriptor.label@ }),
            ),
            *final(self).profiler == *final(s.profiler),
            *final(final(self).profiler) == *final(old(self.profiler)),
    {
        let compute_pass = self.recorder.begin_compute_pass(pass_descriptor);
        OwningScope::start(&mut *self.profiler, compute_pass, device, label)
    }
}

impl<'a> ManualOwningScope<'a, Encoder> {
    /// Begins a render pass on the owned encoder and wraps it in an owning
    /// scope over the same profiler.
    pub fn scoped_render_pass(
        &mut self,
        device: &Device,
        label: &str,
        pass_descriptor: &PassDescriptor,
    ) -> (s: OwningScope<'_, Pass>)
        requires
            (*old(self.profiler)).wf(),
        ensures
            (*s.profiler)@ == (*old(self.profiler))@.push(
                (Event::Begin { label: label@, on_pass: true }),
            ),
            (*s.profiler).wf(),
            open_scopes((*s.profiler)@) == open_scopes((*old(self.profiler))@).push(label@),
            s.recorder@ == (PassView { kind: PassKind::Render, label: pass_descriptor.label@ }),
            final(self).recorder@ == old(self).recorder@.push(
                (PassView { kind: PassKind::Render, label: pass_descriptor.label@ }),
            ),
            *final(self).profiler == *final(s.profiler),
            *final(final(self).profiler) == *final(old(self.profiler)),
    {
        let render_pass = self.recorder.begin_render_pass(pass_descriptor);
        OwningScope::start(&mut *self.profiler, render_pass, device, label)
    }

    /// Begins a compute pass on the owned encoder and wraps it in an owning
    /// scope over the same profiler.
    pub fn scoped_compute_pass(
        &mut self,
        device: &Device,
        label: &str,
        pass_descriptor: &PassDescriptor,
    ) -> (s: OwningScope<'_, Pass>)
        requires
            (*old(self.profiler)).wf(),
        ensures
            (*s.profiler)@ == (*old(self.profiler))@.push(
                (Event::Begin { label: label@, on_pass: true }),
            ),
            (*s.profiler).wf(),
            open_scopes((*s.profiler)@) == open_scopes((*old(self.profiler))@).push(label@),
            s.recorder@ == (PassView { kind: PassKind::Compute, label: pass_descriptor.label@ }),
            final(self).recorder@ == old(self).recorder@.push(
                (PassView { kind: PassKind::Compute, label: pass_descriptor.label@ }),
            ),
            *final(self).profiler == *final(s.profiler),
            *final(final(self).profiler) == *final(old(self.profiler)),
    {
        let compute_pass = self.recorder.begin_compute_pass(pass_descriptor);
        OwningScope::start(&mut *self.profiler, compute_pass, device, label)
    }
}

} // verus!

