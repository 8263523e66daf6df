use noisebench::interner::PathRegistry;
use noisebench::pipeline::{run_generation, Phase, Pipeline, ScriptError, TickAction};
use noisebench::sample::sample;
use noisebench::scalar::Scalar;
use noisebench::tree::{ConstFunc, Noise, ZeroEngine};

#[test]
fn rebuild_signals_coalesce_into_one_build() {
    let mut p = Pipeline::new();
    let action = p.on_tick(3, 0);
    assert_eq!(action, TickAction::StartBuild { generation: 1 });
    assert_eq!(p.phase, Phase::Building);
    assert_eq!(p.generation, 1);
}

#[test]
fn superseded_work_is_discarded() {
    let mut p = Pipeline::new();
    assert_eq!(p.on_tick(1, 0), TickAction::StartBuild { generation: 1 });
    // A second rebuild arrives before the first unit finishes.
    assert_eq!(p.on_tick(1, 0), TickAction::StartBuild { generation: 2 });
    // The stale unit reports in: it must stop, its buffer is refused.
    assert!(!p.on_built(1));
    assert!(!p.on_delivered(1));
    assert!(!p.is_current(1));
    // The current unit goes through.
    assert!(p.on_built(2));
    assert!(p.is_current(2));
    assert!(p.on_delivered(2));
    assert_eq!(p.phase, Phase::Ready);
}

#[test]
fn poll_observes_a_buffer_once() {
    let mut p = Pipeline::new();
    p.on_tick(1, 0);
    assert!(p.on_built(1));
    assert!(p.on_delivered(1));
    assert!(p.poll());
    assert_eq!(p.phase, Phase::Idle);
    assert!(!p.poll());
}

#[test]
fn params_changes_reproject_only_with_output_and_idle() {
    let mut p = Pipeline::new();
    // Nothing delivered yet: nothing to reproject.
    assert_eq!(p.on_tick(0, 2), TickAction::DoNothing);
    p.on_tick(1, 0);
    // Build in flight: parameter changes do not reproject.
    assert_eq!(p.on_tick(0, 1), TickAction::DoNothing);
    assert!(p.on_built(1));
    assert!(p.on_delivered(1));
    assert!(p.poll());
    // Idle with a delivered buffer: reproject.
    assert_eq!(p.on_tick(0, 1), TickAction::Reproject);
    assert_eq!(p.on_tick(0, 0), TickAction::DoNothing);
}

#[test]
fn failed_builds_degrade_to_a_zero_buffer() {
    let e = ZeroEngine {};
    for err in [ScriptError::Syntax, ScriptError::Runtime, ScriptError::ResultType] {
        let out = run_generation::<ConstFunc, ZeroEngine>(Err(err), 6, &e);
        assert_eq!(out.diameter, 6);
        assert_eq!(out.samples.len(), 36);
        for v in out.samples.iter() {
            assert_eq!(*v, Scalar::from_raw(0));
        }
    }
}

#[test]
fn successful_builds_are_sampled() {
    let e = ZeroEngine {};
    let tree = Noise::<ConstFunc>::constant(Scalar::from_int(2));
    let out = run_generation(Ok(tree.clone()), 5, &e);
    let direct = sample(&tree, 5, &e);
    assert_eq!(out.samples, direct.samples);
}

#[test]
fn script_errors_describe_themselves() {
    assert!(ScriptError::Syntax.describe().contains("parsed"));
    assert!(ScriptError::Runtime.describe().contains("execution"));
    assert!(ScriptError::ResultType.describe().contains("tree"));
}

#[test]
fn interning_is_stable() {
    let mut reg = PathRegistry::new();
    let a = reg.intern(String::from("scripts/hills.lua"));
    let b = reg.intern(String::from("scripts/ocean.lua"));
    let a2 = reg.intern(String::from("scripts/hills.lua"));
    assert_eq!(a, a2);
    assert_ne!(a, b);
    assert_eq!(reg.len(), 2);
    assert_eq!(reg.resolve(a).as_str(), "scripts/hills.lua");
    assert_eq!(reg.resolve(b).as_str(), "scripts/ocean.lua");
}
