use gpu_scopes::{
    Device, Encoder, GpuProfiler, ManualOwningScope, OwningScope, PassDescriptor, PassKind,
    ProfilerCommandRecorder, ProfilerEvent, Scope,
};

fn is_begin(e: &ProfilerEvent, label: &str) -> bool {
    match e {
        ProfilerEvent::Begin { label: l, .. } => l == label,
        ProfilerEvent::End { .. } => false,
    }
}

// A "begin" call with this label, made on a pass (`on_pass` true) or on an
// encoder (`on_pass` false).
fn is_begin_on(e: &ProfilerEvent, label: &str, on_pass: bool) -> bool {
    match e {
        ProfilerEvent::Begin { label: l, on_pass: p } => l == label && *p == on_pass,
        ProfilerEvent::End { .. } => false,
    }
}

fn is_end(e: &ProfilerEvent) -> bool {
    matches!(e, ProfilerEvent::End { .. })
}

// An "end" call made on a pass (`on_pass` true) or on an encoder (false).
fn is_end_on(e: &ProfilerEvent, on_pass: bool) -> bool {
    match e {
        ProfilerEvent::End { on_pass: p } => *p == on_pass,
        ProfilerEvent::Begin { .. } => false,
    }
}

fn count_begins(events: &[ProfilerEvent]) -> usize {
    events.iter().filter(|e| matches!(e, ProfilerEvent::Begin { .. })).count()
}

fn count_ends(events: &[ProfilerEvent]) -> usize {
    events.iter().filter(|e| is_end(e)).count()
}

#[test]
fn fresh_profiler_has_no_calls() {
    let profiler = GpuProfiler::new();
    assert_eq!(profiler.events().len(), 0);
    assert_eq!(profiler.num_open_scopes(), 0);
}

#[test]
fn single_scope_one_matched_pair() {
    let mut profiler = GpuProfiler::new();
    let mut encoder = Encoder::new();
    let device = Device::new();
    let scope = Scope::start(&mut profiler, &mut encoder, &device, "Frame");
    scope.end();
    let events = profiler.events();
    assert_eq!(events.len(), 2);
    assert!(is_begin(&events[0], "Frame"));
    assert!(is_end(&events[1]));
    assert_eq!(profiler.num_open_scopes(), 0);
}

#[test]
fn nested_scopes_on_one_recorder() {
    let mut profiler = GpuProfiler::new();
    let mut encoder = Encoder::new();
    let device = Device::new();
    let mut outer = Scope::start(&mut profiler, &mut encoder, &device, "Frame");
    let inner = outer.scope(&device, "Pass");
    inner.end();
    outer.end();
    let events = profiler.events();
    assert_eq!(events.len(), 4);
    assert!(is_begin_on(&events[0], "Frame", false));
    assert!(is_begin_on(&events[1], "Pass", false));
    assert!(is_end_on(&events[2], false));
    assert!(is_end_on(&events[3], false));
}

#[test]
fn deep_nesting_closes_in_strict_reverse_order() {
    let mut profiler = GpuProfiler::new();
    let mut encoder = Encoder::new();
    let device = Device::new();
    let mut level0 = Scope::start(&mut profiler, &mut encoder, &device, "depth0");
    {
        let mut level1 = level0.scope(&device, "depth1");
        {
            let mut level2 = level1.scope(&device, "depth2");
            {
                let level3 = level2.scope(&device, "depth3");
                level3.end();
            }
            level2.end();
        }
        level1.end();
    }
    level0.end();
    let events = profiler.events();
    assert_eq!(events.len(), 8);
    assert_eq!(count_begins(events), 4);
    assert_eq!(count_ends(events), 4);
    for (i, label) in ["depth0", "depth1", "depth2", "depth3"].iter().enumerate() {
        assert!(is_begin(&events[i], label));
    }
    for i in 4..8 {
        assert!(is_end(&events[i]));
    }
    assert_eq!(profiler.num_open_scopes(), 0);
}

#[test]
fn each_close_ends_exactly_once() {
    let mut profiler = GpuProfiler::new();
    let mut encoder = Encoder::new();
    let device = Device::new();
    let mut outer = Scope::start(&mut profiler, &mut encoder, &device, "outer");
    let inner = outer.scope(&device, "inner");
    inner.end();
    // Between the two closes, exactly the inner scope has been ended.
    assert_eq!(count_ends(outer.profiler.events()), 1);
    assert_eq!(count_begins(outer.profiler.events()), 2);
    outer.end();
    let events = profiler.events();
    assert_eq!(count_begins(events), 2);
    assert_eq!(count_ends(events), 2);
}

#[test]
fn owning_scope_releases_recorder_on_end() {
    let mut profiler = GpuProfiler::new();
    let encoder = Encoder::new();
    let device = Device::new();
    let scope = OwningScope::start(&mut profiler, encoder, &device, "Frame");
    assert!(!scope.recorder().is_pass());
    scope.end();
    let events = profiler.events();
    assert_eq!(events.len(), 2);
    assert!(is_begin(&events[0], "Frame"));
    assert!(is_end(&events[1]));
}

#[test]
fn owning_scope_nested_scope_borrows() {
    let mut profiler = GpuProfiler::new();
    let encoder = Encoder::new();
    let device = Device::new();
    let mut outer = OwningScope::start(&mut profiler, encoder, &device, "Frame");
    let inner = outer.scope(&device, "Pass");
    inner.end();
    outer.end();
    let events = profiler.events();
    assert_eq!(events.len(), 4);
    assert!(is_begin(&events[0], "Frame"));
    assert!(is_begin(&events[1], "Pass"));
    assert!(is_end(&events[2]));
    assert!(is_end(&events[3]));
}

#[test]
fn manual_owning_scope_returns_recorder_and_profiler() {
    let mut profiler = GpuProfiler::new();
    let encoder = Encoder::new();
    let device = Device::new();
    let scope = ManualOwningScope::start(&mut profiler, encoder, &device, "First");
    let (encoder, profiler_ref) = scope.end_scope();
    // Both returned handles stay usable: open a sibling scope with them.
    let scope2 = ManualOwningScope::start(profiler_ref, encoder, &device, "Second");
    let (_encoder, profiler_ref) = scope2.end_scope();
    assert_eq!(profiler_ref.num_open_scopes(), 0);
    let events = profiler.events();
    assert_eq!(events.len(), 4);
    assert!(is_begin(&events[0], "First"));
    assert!(is_end(&events[1]));
    assert!(is_begin(&events[2], "Second"));
    assert!(is_end(&events[3]));
}

#[test]
fn manual_owning_scope_left_open_without_explicit_end() {
    let mut profiler = GpuProfiler::new();
    let encoder = Encoder::new();
    let device = Device::new();
    {
        let _scope = ManualOwningScope::start(&mut profiler, encoder, &device, "Leaked");
        // Goes out of scope without end_scope: the escape hatch leaves the
        // scope open on the profiler.
    }
    let events = profiler.events();
    assert_eq!(events.len(), 1);
    assert!(is_begin(&events[0], "Leaked"));
    assert_eq!(profiler.num_open_scopes(), 1);
}

#[test]
fn scoped_render_pass_adds_one_nested_pair() {
    let mut profiler = GpuProfiler::new();
    let encoder = Encoder::new();
    let device = Device::new();
    let mut outer = OwningScope::start(&mut profiler, encoder, &device, "Frame");
    let desc = PassDescriptor { label: String::from("Main pass") };
    let pass_guard = outer.scoped_render_pass(&device, "Draw", &desc);
    assert!(pass_guard.recorder().is_pass());
    assert_eq!(pass_guard.recorder().label().as_str(), "Main pass");
    assert_eq!(pass_guard.recorder().kind(), PassKind::Render);
    pass_guard.end();
    // The pass was recorded on the encoder before the outer scope ends.
    assert_eq!(outer.recorder().passes().len(), 1);
    assert_eq!(outer.recorder().passes()[0].kind(), PassKind::Render);
    outer.end();
    let events = profiler.events();
    assert_eq!(events.len(), 4);
    assert!(is_begin_on(&events[0], "Frame", false));
    // The nested scope is begun and ended on the spawned pass, not on the
    // encoder; the outer pair stays on the encoder.
    assert!(is_begin_on(&events[1], "Draw", true));
    assert!(is_end_on(&events[2], true));
    assert!(is_end_on(&events[3], false));
}

#[test]
fn scoped_compute_pass_on_borrowing_scope() {
    let mut profiler = GpuProfiler::new();
    let mut encoder = Encoder::new();
    let device = Device::new();
    let mut outer = Scope::start(&mut profiler, &mut encoder, &device, "Frame");
    let desc = PassDescriptor { label: String::from("Sim step") };
    let pass_guard = outer.scoped_compute_pass(&device, "Compute", &desc);
    assert_eq!(pass_guard.recorder().kind(), PassKind::Compute);
    pass_guard.end();
    outer.end();
    let events = profiler.events();
    assert_eq!(events.len(), 4);
    assert!(is_begin_on(&events[0], "Frame", false));
    assert!(is_begin_on(&events[1], "Compute", true));
    assert!(is_end_on(&events[2], true));
    assert!(is_end_on(&events[3], false));
    assert_eq!(encoder.passes().len(), 1);
    assert_eq!(encoder.passes()[0].kind(), PassKind::Compute);
    assert_eq!(encoder.passes()[0].label().as_str(), "Sim step");
}

#[test]
fn scoped_passes_on_manual_owning_scope() {
    let mut profiler = GpuProfiler::new();
    let encoder = Encoder::new();
    let device = Device::new();
    let mut outer = ManualOwningScope::start(&mut profiler, encoder, &device, "Frame");
    let desc = PassDescriptor { label: String::from("geometry") };
    let render_guard = outer.scoped_render_pass(&device, "Draw", &desc);
    render_guard.end();
    let desc2 = PassDescriptor { label: String::from("lighting") };
    let compute_guard = outer.scoped_compute_pass(&device, "Dispatch", &desc2);
    compute_guard.end();
    let (encoder, profiler_ref) = outer.end_scope();
    assert_eq!(profiler_ref.num_open_scopes(), 0);
    assert_eq!(encoder.passes().len(), 2);
    assert_eq!(encoder.passes()[0].kind(), PassKind::Render);
    assert_eq!(encoder.passes()[1].kind(), PassKind::Compute);
    let events = profiler.events();
    assert_eq!(events.len(), 6);
    assert!(is_begin_on(&events[0], "Frame", false));
    assert!(is_begin_on(&events[1], "Draw", true));
    assert!(is_end_on(&events[2], true));
    assert!(is_begin_on(&events[3], "Dispatch", true));
    assert!(is_end_on(&events[4], true));
    assert!(is_end_on(&events[5], false));
}

#[test]
fn guard_access_matches_unwrapped_recorder() {
    let mut profiler = GpuProfiler::new();
    let device = Device::new();
    let mut wrapped = Encoder::new();
    let mut plain = Encoder::new();
    {
        let mut guard = Scope::start(&mut profiler, &mut wrapped, &device, "S");
        let desc = PassDescriptor { label: String::from("P") };
        guard.recorder_mut().begin_render_pass(&desc);
        assert!(!guard.recorder().is_pass());
        assert_eq!(guard.recorder().passes().len(), 1);
        guard.end();
    }
    let desc = PassDescriptor { label: String::from("P") };
    plain.begin_render_pass(&desc);
    assert_eq!(wrapped.passes().len(), plain.passes().len());
    assert_eq!(wrapped.passes()[0].kind(), plain.passes()[0].kind());
    assert_eq!(wrapped.passes()[0].label(), plain.passes()[0].label());
}

#[test]
fn encoder_records_passes_in_order() {
    let mut encoder = Encoder::new();
    let d1 = PassDescriptor { label: String::from("first") };
    let d2 = PassDescriptor { label: String::from("second") };
    let first_pass = encoder.begin_render_pass(&d1);
    let second_pass = encoder.begin_compute_pass(&d2);
    assert!(first_pass.is_pass());
    assert!(second_pass.is_pass());
    assert_eq!(first_pass.label().as_str(), "first");
    assert_eq!(second_pass.label().as_str(), "second");
    assert_eq!(encoder.passes().len(), 2);
    assert_eq!(encoder.passes()[0].label().as_str(), "first");
    assert_eq!(encoder.passes()[0].kind(), PassKind::Render);
    assert_eq!(encoder.passes()[1].label().as_str(), "second");
    assert_eq!(encoder.passes()[1].kind(), PassKind::Compute);
    assert!(!encoder.is_pass());
}

#[test]
fn open_scope_count_follows_nesting() {
    let mut profiler = GpuProfiler::new();
    let mut encoder = Encoder::new();
    let device = Device::new();
    let mut outer = Scope::start(&mut profiler, &mut encoder, &device, "a");
    let inner = outer.scope(&device, "b");
    inner.end();
    outer.end();
    assert_eq!(profiler.num_open_scopes(), 0);
    let mut again = Scope::start(&mut profiler, &mut encoder, &device, "c");
    let deeper = again.scope(&device, "d");
    deeper.end();
    again.end();
    assert_eq!(profiler.num_open_scopes(), 0);
    assert_eq!(profiler.events().len(), 8);
}

#[test]
fn labels_may_repeat_and_be_empty() {
    let mut profiler = GpuProfiler::new();
    let mut encoder = Encoder::new();
    let device = Device::new();
    let mut outer = Scope::start(&mut profiler, &mut encoder, &device, "x");
    {
        let mut middle = outer.scope(&device, "x");
        {
            let inner = middle.scope(&device, "");
            inner.end();
        }
        middle.end();
    }
    outer.end();
    let events = profiler.events();
    assert_eq!(events.len(), 6);
    assert!(is_begin(&events[0], "x"));
    assert!(is_begin(&events[1], "x"));
    assert!(is_begin(&events[2], ""));
    assert!(is_end(&events[3]));
    assert!(is_end(&events[4]));
    assert!(is_end(&events[5]));
    assert_eq!(profiler.num_open_scopes(), 0);
}
