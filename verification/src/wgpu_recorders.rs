use vstd::prelude::*;

use crate::profiler::{Event, GpuProfiler, open_scopes};
use crate::recorder::{Device, ProfilerCommandRecorder};
use crate::scope::{ManualOwningScope, OwningScope, Scope};

verus! {

/// wgpu's command encoder, declared opaquely so that guards can wrap it.
#[verifier::external_type_specification]
#[verifier::external_body]
pub struct ExCommandEncoder(wgpu::CommandEncoder);

/// wgpu's in-progress render pass, declared opaquely so that an owning
/// guard can hold it.
#[verifier::external_type_specification]
#[verifier::external_body]
pub struct ExRenderPass<'encoder>(wgpu::RenderPass<'encoder>);

/// wgpu's in-progress compute pass, declared opaquely so that an owning
/// guard can hold it.
#[verifier::external_type_specification]
#[verifier::external_body]
pub struct ExComputePass<'encoder>(wgpu::ComputePass<'encoder>);

/// wgpu's render-pass settings, declared opaquely and only handed through.
#[verifier::external_type_specification]
#[verifier::external_body]
pub struct ExRenderPassDescriptor<'a>(wgpu::RenderPassDescriptor<'a>);

/// wgpu's compute-pass settings, declared opaquely and only handed through.
#[verifier::external_type_specification]
#[verifier::external_body]
pub struct ExComputePassDescriptor<'a>(wgpu::ComputePassDescriptor<'a>);

/// Relies on wgpu::CommandEncoder::begin_render_pass: begins recording of
/// one render pass on the encoder, which the returned pass borrows until it
/// is finished. The pass is opaque to this layer, so nothing is assumed of
/// it. A validation failure during pass creation is reported through wgpu's
/// uncaptured-error handler, whose default panics inside this call.
pub assume_specification<'encoder>[ wgpu::CommandEncoder::begin_render_pass ](
    enc: &'encoder mut wgpu::CommandEncoder,
    desc: &wgpu::RenderPassDescriptor<'_>,
) -> wgpu::RenderPass<'encoder>
;

/// Relies on wgpu::CommandEncoder::begin_compute_pass: begins recording of
/// one compute pass on the encoder, which the returned pass borrows until
/// it is finished. The pass is opaque to this layer, so nothing is assumed
/// of it. A validation failure during pass creation is reported through
/// wgpu's uncaptured-error handler, whose default panics inside this call.
pub assume_specification<'encoder>[ wgpu::CommandEncoder::begin_compute_pass ](
    enc: &'encoder mut wgpu::CommandEncoder,
    desc: &wgpu::ComputePassDescriptor<'_>,
) -> wgpu::ComputePass<'encoder>
;

impl ProfilerCommandRecorder for wgpu::CommandEncoder {
    open spec fn spec_is_pass(&self) -> bool {
        false
    }

    fn is_pass(&self) -> (r: bool) {
        false
    }
}

impl<'encoder> ProfilerCommandRecorder for wgpu::RenderPass<'encoder> {
    open spec fn spec_is_pass(&self) -> bool {
        true
    }

    fn is_pass(&self) -> (r: bool) {
        true
    }
}

impl<'encoder> ProfilerCommandRecorder for wgpu::ComputePass<'encoder> {
    open spec fn spec_is_pass(&self) -> bool {
        true
    }

    fn is_pass(&self) -> (r: bool) {
        true
    }
}

impl<'a> Scope<'a, wgpu::CommandEncoder> {
    /// Begins a render pass on the wrapped wgpu encoder and wraps it in an
    /// owning scope over the same profiler. The returned guard borrows this
    /// one, so this guard cannot be used or closed until the pass guard is
    /// closed, and the pass is finished before this guard's scope ends.
    pub fn scoped_render_pass<'b>(
        &'b mut self,
        device: &Device,
        label: &str,
        pass_descriptor: &wgpu::RenderPassDescriptor<'_>,
    ) -> (s: OwningScope<'b, wgpu::RenderPass<'b>>)
        requires
            (*old(self.profiler)).wf(),
        ensures
            (*s.profiler)@ == (*old(self.profiler))@.push(
                (Event::Begin { label: label@, on_pass: true }),
            ),
            (*s.profiler).wf(),
            open_scopes((*s.profiler)@) == open_scopes((*old(self.profiler))@).push(label@),
            *final(self).profiler == *final(s.profiler),
            *final(final(self).profiler) == *final(old(self.profiler)),
    {
        let render_pass = self.recorder.begin_render_pass(pass_descriptor);
        OwningScope::start(&mut *self.profiler, render_pass, device, label)
    }

    /// Begins a compute pass on the wrapped wgpu encoder and wraps it in an
    /// owning scope over the same profiler.
    pub fn scoped_compute_pass<'b>(
        &'b mut self,
        device: &Device,
        label: &str,
        pass_descriptor: &wgpu::ComputePassDescriptor<'_>,
    ) -> (s: OwningScope<'b, wgpu::ComputePass<'b>>)
        requires
            (*old(self.profiler)).wf(),
        ensures
            (*s.profiler)@ == (*old(self.profiler))@.push(
                (Event::Begin { label: label@, on_pass: true }),
            ),
            (*s.profiler).wf(),
            open_scopes((*s.profiler)@) == open_scopes((*old(self.profiler))@).push(label@),
            *final(self).profiler == *final(s.profiler),
            *final(final(self).profiler) == *final(old(self.profiler)),
    {
        let compute_pass = self.recorder.begin_compute_pass(pass_descriptor);
        OwningScope::start(&mut *self.profiler, compute_pass, device, label)
    }
}

impl<'a> OwningScope<'a, wgpu::CommandEncoder> {
    /// Begins a render pass on the owned wgpu encoder and wraps it in an
    /// owning scope over the same profiler.
    pub fn scoped_render_pass<'b>(
        &'b mut self,
        device: &Device,
        label: &str,
        pass_descriptor: &wgpu::RenderPassDescriptor<'_>,
    ) -> (s: OwningScope<'b, wgpu::RenderPass<'b>>)
        requires
            (*old(self.profiler)).wf(),
        ensures
            (*s.profiler)@ == (*old(self.profiler))@.push(
                (Event::Begin { label: label@, on_pass: true }),
            ),
            (*s.profiler).wf(),
            open_scopes((*s.profiler)@) == open_scopes((*old(self.profiler))@).push(label@),
            *final(self).profiler == *final(s.profiler),
            *final(final(self).profiler) == *final(old(self.profiler)),
    {
        let render_pass = self.recorder.begin_render_pass(pass_descriptor);
        OwningScope::start(&mut *self.profiler, render_pass, device, label)
    }

    /// Begins a compute pass on the owned wgpu encoder and wraps it in an
    /// owning scope over the same profiler.
    pub fn scoped_compute_pass<'b>(
        &'b mut self,
        device: &Device,
        label: &str,
        pass_descriptor: &wgpu::ComputePassDescriptor<'_>,
    ) -> (s: OwningScope<'b, wgpu::ComputePass<'b>>)
        requires
            (*old(self.profiler)).wf(),
        ensures
            (*s.profiler)@ == (*old(self.profiler))@.push(
                (Event::Begin { label: label@, on_pass: true }),
            ),
            (*s.profiler).wf(),
            open_scopes((*s.profiler)@) == open_scopes((*old(self.profiler))@).push(label@),
            *final(self).profiler == *final(s.profiler),
            *final(final(self).profiler) == *final(old(self.profiler)),
    {
        let compute_pass = self.recorder.begin_compute_pass(pass_descriptor);
        OwningScope::start(&mut *self.profiler, compute_pass, device, label)
    }
}

impl<'a> ManualOwningScope<'a, wgpu::CommandEncoder> {
    /// Begins a render pass on the owned wgpu encoder and wraps it in an
    /// owning scope over the same profiler.
    pub fn scoped_render_pass<'b>(
        &'b mut self,
        device: &Device,
        label: &str,
        pass_descriptor: &wgpu::RenderPassDescriptor<'_>,
    ) -> (s: OwningScope<'b, wgpu::RenderPass<'b>>)
        requires
            (*old(self.profiler)).wf(),
        ensures
            (*s.profiler)@ == (*old(self.profiler))@.push(
                (Event::Begin { label: label@, on_pass: true }),
            ),
            (*s.profiler).wf(),
            open_scopes((*s.profiler)@) == open_scopes((*old(self.profiler))@).push(label@),
            *final(self).profiler == *final(s.profiler),
            *final(final(self).profiler) == *final(old(self.profiler)),
    {
        let render_pass = self.recorder.begin_render_pass(pass_descriptor);
        OwningScope::start(&mut *self.profiler, render_pass, device, label)
    }

    /// Begins a compute pass on the owned wgpu encoder and wraps it in an
    /// owning scope over the same profiler.
    pub fn scoped_compute_pass<'b>(
        &'b mut self,
        device: &Device,
        label: &str,
        pass_descriptor: &wgpu::ComputePassDescriptor<'_>,
    ) -> (s: OwningScope<'b, wgpu::ComputePass<'b>>)
        requires
            (*old(self.profiler)).wf(),
        ensures
            (*s.profiler)@ == (*old(self.profiler))@.push(
                (Event::Begin { label: label@, on_pass: true }),
            ),
            (*s.profiler).wf(),
            open_scopes((*s.profiler)@) == open_scopes((*old(self.profiler))@).push(label@),
            *final(self).profiler == *final(s.profiler),
            *final(final(self).profiler) == *final(old(self.profiler)),
    {
        let compute_pass = self.recorder.begin_compute_pass(pass_descriptor);
        OwningScope::start(&mut *self.profiler, compute_pass, device, label)
    }
}

} // verus!
