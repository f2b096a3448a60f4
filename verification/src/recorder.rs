use vstd::prelude::*;

verus! {

/// Handle for the GPU device that the profiler backend resolves its timing
/// queries against. The scope layer never reads it; it only hands it through
/// to the backend on every "begin scope" call.
pub struct Device {}

impl Device {
    pub fn new() -> Device {
        Device {  }
    }
}

/// Capability of an object that can accept begin/end scope markers while
/// commands are recorded against it: a command encoder, or an in-progress
/// render or compute pass.
pub trait ProfilerCommandRecorder {
    /// Whether this recorder is an in-progress pass, as opposed to a
    /// command encoder.
    spec fn spec_is_pass(&self) -> bool;

    /// Reports whether this recorder is an in-progress pass.
    fn is_pass(&self) -> (r: bool)
        ensures
            r == self.spec_is_pass(),
    ;
}

/// The two kinds of pass a command encoder can spawn.
#[derive(Clone, Copy, PartialEq, Eq, Structural, Debug)]
pub enum PassKind {
    Render,
    Compute,
}

/// Specification-level record of a pass: its kind and its label.
pub struct PassView {
    pub kind: PassKind,
    pub label: Seq<char>,
}

/// Settings for a pass, as far as this layer reads them: its label.
pub struct PassDescriptor {
    pub label: String,
}

/// A pass begun on a command encoder: an in-progress recorder of its own,
/// distinct from the encoder it was spawned from. Its view is its kind and
/// the label it was begun with.
pub struct Pass {
    kind: PassKind,
    label: String,
}

impl View for Pass {
    type V = PassView;

    closed spec fn view(&self) -> PassView {
        PassView { kind: self.kind, label: self.label@ }
    }
}

impl Pass {
    /// The kind this pass was begun as.
    pub fn kind(&self) -> (k: PassKind)
        ensures
            k == self@.kind,
    {
        self.kind
    }

    /// The label this pass was begun with.
    pub fn label(&self) -> (r: &String)
        ensures
            r@ == self@.label,
    {
        &self.label
    }
}

/// A command encoder: accepts recorded commands and spawns passes. Its view
/// is the sequence of passes begun on it, in order.
pub struct Encoder {
    passes: Vec<Pass>,
}

impl View for Encoder {
    type V = Seq<PassView>;

    closed spec fn view(&self) -> Seq<PassView> {
        self.passes@.map_values(|p: Pass| p@)
    }
}

impl Encoder {
    pub fn new() -> (e: Encoder)
        ensures
            e@ == Seq::<PassView>::empty(),
    {
        let e = Encoder { passes: Vec::new() };
        proof {
            assert(e@ =~= Seq::<PassView>::empty());
        }
        e
    }

    /// Begins a render pass on this encoder, per the descriptor.
    pub fn begin_render_pass(&mut self, desc: &PassDescriptor) -> (p: Pass)
        ensures
            final(self)@ == old(self)@.push((PassView { kind: PassKind::Render, label: desc.label@ })),
            p@ == (PassView { kind: PassKind::Render, label: desc.label@ }),
    {
        self.passes.push(Pass { kind: PassKind::Render, label: desc.label.clone() });
        proof {
            assert(self@ =~= old(self)@.push((PassView { kind: PassKind::Render, label: desc.label@ })));
        }
        Pass { kind: PassKind::Render, label: desc.label.clone() }
    }

    /// Begins a compute pass on this encoder, per the descriptor.
    pub fn begin_compute_pass(&mut self, desc: &PassDescriptor) -> (p: Pass)
        ensures
            final(self)@ == old(self)@.push((PassView { kind: PassKind::Compute, label: desc.label@ })),
            p@ == (PassView { kind: PassKind::Compute, label: desc.label@ }),
    {
        self.passes.push(Pass { kind: PassKind::Compute, label: desc.label.clone() });
        proof {
            assert(self@ =~= old(self)@.push((PassView { kind: PassKind::Compute, label: desc.label@ })));
        }
        Pass { kind: PassKind::Compute, label: desc.label.clone() }
    }

    /// The passes begun on this encoder so far, for inspection.
    pub fn passes(&self) -> (r: &Vec<Pass>)
        ensures
            r@.map_values(|p: Pass| p@) == self@,
    {
        &self.passes
    }
}

impl ProfilerCommandRecorder for Encoder {
    open spec fn spec_is_pass(&self) -> bool {
        false
    }

    fn is_pass(&self) -> (r: bool) {
        false
    }
}

impl ProfilerCommandRecorder for Pass {
    open spec fn spec_is_pass(&self) -> bool {
        true
    }

    fn is_pass(&self) -> (r: bool) {
        true
    }
}

} // verus!
