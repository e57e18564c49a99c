//! Whole runs of the setup of a D3D12 device.
//!
//! A system is modelled by what it answers to each action. Against such a system the setup runs
//! to its end, and the end is stated here without the stages in between.

use vstd::prelude::*;

use crate::error::{InitError, OxrError};
use crate::feature_level::meets_level;
use crate::flags::{feature_names, required_feature_names};
use crate::init::{
    comes_of, device_descriptor, in_step, instance_descriptor, is_final, Action, Event,
    GraphicsInit, GraphicsRequirements, Luid, MemoryHints, Stage,
};
use crate::session::SessionCreateInfo;

verus! {

/// Whether `system` answers every action with an event of the right kind.
pub open spec fn answers_in_kind<E, D, Q, G>(
    system: spec_fn(Action<E, D, Q, G>) -> Event<E, D, Q, G>,
) -> bool {
    forall|action: Action<E, D, Q, G>|
        !is_final(action) ==> comes_of(#[trigger] system(action), action)
}

/// Where a run stands after at most `fuel` steps.
pub open spec fn run<E, D, Q, G>(
    system: spec_fn(Action<E, D, Q, G>) -> Event<E, D, Q, G>,
    at: (GraphicsInit<D, Q>, Action<E, D, Q, G>),
    fuel: nat,
) -> (GraphicsInit<D, Q>, Action<E, D, Q, G>)
    decreases fuel,
{
    if fuel == 0 || is_final(at.1) {
        at
    } else {
        run(system, at.0.next(system(at.1)), (fuel - 1) as nat)
    }
}

/// Whether `adapter` is the first of `luids` that is `luid`.
pub open spec fn is_first(luids: Seq<Luid>, luid: Luid, adapter: int) -> bool {
    &&& 0 <= adapter < luids.len()
    &&& luids[adapter] == luid
    &&& forall|before: int| 0 <= before < adapter ==> luids[before] != luid
}

/// The identifiers of the adapters that `system` enumerates, in its order.
pub open spec fn adapter_luids<E, D, Q, G>(
    system: spec_fn(Action<E, D, Q, G>) -> Event<E, D, Q, G>,
) -> Seq<Luid> {
    Seq::new(
        system(Action::EnumerateAdapters)->Adapters_0 as nat,
        |adapter: int|
            system(Action::DescribeAdapter { adapter: adapter as usize })->AdapterLuid_0,
    )
}

/// How the setup ends once its adapter is chosen.
pub open spec fn outcome_with_adapter<E, D, Q, G>(
    system: spec_fn(Action<E, D, Q, G>) -> Event<E, D, Q, G>,
    features: wgpu::Features,
    requirements: Option<GraphicsRequirements>,
    adapter: usize,
) -> Action<E, D, Q, G> {
    let limits = system(Action::AdoptInstance { adapter })->Limits_0;
    let memory_hints = MemoryHints::Performance;
    let descriptor = device_descriptor(requirements, features, limits);
    match system(Action::OpenAdapter { adapter, features, limits, memory_hints })->Opened_0 {
        Err(error) => Action::Fail { error: OxrError::WgpuError(error) },
        Ok(info) => if requirements matches Some(required) && !meets_level(
            system(Action::GetFeatureLevel { device: info.device })->FeatureLevel_0,
            required.min_feature_level,
        ) {
            Action::Fail { error: OxrError::FailedGraphicsRequirements }
        } else {
            match system(Action::CreateDevice { adapter, descriptor })->Device_0 {
                Err(error) => Action::Fail { error: OxrError::WgpuError(error) },
                Ok(graphics) => Action::Finish {
                    graphics,
                    info: if requirements is Some {
                        Some(info)
                    } else {
                        None
                    },
                },
            }
        },
    }
}

/// How the setup for an OpenXR session ends.
pub open spec fn outcome<E, D, Q, G>(
    system: spec_fn(Action<E, D, Q, G>) -> Event<E, D, Q, G>,
    features: wgpu::Features,
    system_id: u64,
    name: String,
) -> Action<E, D, Q, G> {
    let descriptor = instance_descriptor(name);
    match system(Action::GraphicsRequirements { system_id })->Requirements_0 {
        Err(code) => Action::Fail { error: OxrError::OpenXrError(code) },
        Ok(required) => match system(Action::InitInstance { descriptor })->Instance_0 {
            Err(error) => Action::Fail { error: OxrError::WgpuError(error) },
            Ok(()) => {
                let luids = adapter_luids(system);
                let luid = required.adapter_luid;
                if luids.contains(luid) {
                    let adapter = choose|adapter: int| is_first(luids, luid, adapter);
                    outcome_with_adapter(system, features, Some(required), adapter as usize)
                } else {
                    Action::Fail {
                        error: OxrError::InitError(InitError::FailedToFindD3D12Adapter),
                    }
                }
            },
        },
    }
}

/// How the setup without an OpenXR session ends.
pub open spec fn fallback_outcome<E, D, Q, G>(
    system: spec_fn(Action<E, D, Q, G>) -> Event<E, D, Q, G>,
    features: wgpu::Features,
    name: String,
) -> Action<E, D, Q, G> {
    let descriptor = instance_descriptor(name);
    match system(Action::InitInstance { descriptor })->Instance_0 {
        Err(error) => Action::Fail { error: OxrError::WgpuError(error) },
        Ok(()) => if system(Action::EnumerateAdapters)->Adapters_0 == 0 {
            Action::Fail { error: OxrError::NoAvailableBackend }
        } else {
            outcome_with_adapter(system, features, None, 0)
        },
    }
}

/// From the choice of an adapter on, the setup takes four steps at most.
proof fn run_with_adapter<E, D, Q, G>(
    system: spec_fn(Action<E, D, Q, G>) -> Event<E, D, Q, G>,
    init: GraphicsInit<D, Q>,
    requirements: Option<GraphicsRequirements>,
    adapter: usize,
    fuel: nat,
)
    requires
        answers_in_kind(system),
        fuel >= 4,
    ensures
        run(system, init.chosen(requirements, adapter), fuel).1 == outcome_with_adapter(
            system,
            init.features,
            requirements,
            adapter,
        ),
{
    let limits = system(Action::AdoptInstance { adapter })->Limits_0;
    let features = init.features;
    let memory_hints = MemoryHints::Performance;
    let descriptor = device_descriptor(requirements, features, limits);
    assert(comes_of(system(Action::AdoptInstance { adapter }), Action::AdoptInstance { adapter }));
    let open = Action::OpenAdapter { adapter, features, limits, memory_hints };
    assert(comes_of(system(open), open));
    let device = system(open)->Opened_0->Ok_0.device;
    let level = Action::GetFeatureLevel { device };
    assert(comes_of(system(level), level));
    let create = Action::CreateDevice { adapter, descriptor };
    assert(comes_of(system(create), create));
    reveal_with_fuel(run, 6);
}

/// The search goes through the adapters one by one, and stops at the first that fits.
proof fn run_search<E, D, Q, G>(
    system: spec_fn(Action<E, D, Q, G>) -> Event<E, D, Q, G>,
    init: GraphicsInit<D, Q>,
    requirements: GraphicsRequirements,
    adapter: usize,
    fuel: nat,
)
    requires
        answers_in_kind(system),
        adapter <= adapter_luids(system).len(),
        forall|before: int|
            0 <= before < adapter ==> adapter_luids(system)[before]
                != requirements.adapter_luid,
        fuel >= adapter_luids(system).len() - adapter + 4,
    ensures
        ({
            let luids = adapter_luids(system);
            let luid = requirements.adapter_luid;
            let end = run(
                system,
                init.look_at(requirements, luids.len() as usize, adapter as int),
                fuel,
            ).1;
            &&& luids.contains(luid) ==> end == outcome_with_adapter(
                system,
                init.features,
                Some(requirements),
                (choose|first: int| is_first(luids, luid, first)) as usize,
            )
            &&& !luids.contains(luid) ==> end == Action::<E, D, Q, G>::Fail {
                error: OxrError::InitError(InitError::FailedToFindD3D12Adapter),
            }
        }),
    decreases adapter_luids(system).len() - adapter,
{
    let luids = adapter_luids(system);
    let luid = requirements.adapter_luid;
    let count = luids.len() as usize;
    let at = init.look_at::<E, G>(requirements, count, adapter as int);
    if adapter == luids.len() {
        assert(!luids.contains(luid));
    } else {
        let describe = Action::<E, D, Q, G>::DescribeAdapter { adapter };
        assert(comes_of(system(describe), describe));
        assert(luids[adapter as int] == system(describe)->AdapterLuid_0);
        if luids[adapter as int] == luid {
            assert(is_first(luids, luid, adapter as int));
            let first = choose|first: int| is_first(luids, luid, first);
            assert(first == adapter);
            run_with_adapter(system, at.0, Some(requirements), adapter, (fuel - 1) as nat);
        } else {
            run_search(
                system,
                at.0,
                requirements,
                (adapter + 1) as usize,
                (fuel - 1) as nat,
            );
        }
    }
}

/// The setup for an OpenXR session ends, against any system, as the requirements, the adapters
/// and the device decide, one after the other:
///
/// an error of the runtime or of `wgpu` is returned as it came; the first adapter with the
/// required identifier is opened, and there being none is an error; a device below the required
/// feature level is an error; and otherwise the graphics are returned, and with them the objects of
/// the device that was opened.
pub proof fn setup_ends_as_stated<E, D, Q, G>(
    system: spec_fn(Action<E, D, Q, G>) -> Event<E, D, Q, G>,
    init: GraphicsInit<D, Q>,
    system_id: u64,
    fuel: nat,
)
    requires
        answers_in_kind(system),
        init.stage is Requirements,
        fuel >= adapter_luids(system).len() + 7,
    ensures
        run(
            system,
            (init, Action::<E, D, Q, G>::GraphicsRequirements { system_id }),
            fuel,
        ).1 == outcome(system, init.features, system_id, init.stage->Requirements_name),
{
    let name = init.stage->Requirements_name;
    let first = Action::<E, D, Q, G>::GraphicsRequirements { system_id };
    let second = Action::<E, D, Q, G>::InitInstance { descriptor: instance_descriptor(name) };
    let third = Action::<E, D, Q, G>::EnumerateAdapters;
    assert(comes_of(system(first), first));
    assert(comes_of(system(second), second));
    assert(comes_of(system(third), third));
    reveal_with_fuel(run, 4);
    if let Ok(requirements) = system(first)->Requirements_0 {
        let after = init.next(system(first)).0.next(system(second)).0;
        run_search(system, after, requirements, 0, (fuel - 3) as nat);
    }
}

/// The setup without an OpenXR session ends, against any system, as the instance, the first
/// adapter and the device decide, one after the other.
pub proof fn fallback_setup_ends_as_stated<E, D, Q, G>(
    system: spec_fn(Action<E, D, Q, G>) -> Event<E, D, Q, G>,
    init: GraphicsInit<D, Q>,
    name: String,
    fuel: nat,
)
    requires
        answers_in_kind(system),
        init.stage == (Stage::<D, Q>::Instance { requirements: None }),
        fuel >= 6,
    ensures
        run(
            system,
            (init, Action::<E, D, Q, G>::InitInstance { descriptor: instance_descriptor(name) }),
            fuel,
        ).1 == fallback_outcome(system, init.features, name),
{
    let first = Action::<E, D, Q, G>::InitInstance { descriptor: instance_descriptor(name) };
    let second = Action::<E, D, Q, G>::EnumerateAdapters;
    assert(comes_of(system(first), first));
    assert(comes_of(system(second), second));
    reveal_with_fuel(run, 3);
    let after = init.next(system(first)).0;
    run_with_adapter(system, after, None, 0, (fuel - 2) as nat);
}

/// A setup for an OpenXR session that finishes has opened the first adapter that the runtime asks
/// for, and the device so opened has the feature level that the runtime requires. It returns the
/// objects of that device for the session, and the graphics around it.
pub proof fn finished_setup_meets_the_requirements<E, D, Q, G>(
    system: spec_fn(Action<E, D, Q, G>) -> Event<E, D, Q, G>,
    init: GraphicsInit<D, Q>,
    system_id: u64,
    fuel: nat,
) -> (adapter: int)
    requires
        answers_in_kind(system),
        init.stage is Requirements,
        fuel >= adapter_luids(system).len() + 7,
        run(
            system,
            (init, Action::<E, D, Q, G>::GraphicsRequirements { system_id }),
            fuel,
        ).1 is Finish,
    ensures
        ({
            let end = run(
                system,
                (init, Action::<E, D, Q, G>::GraphicsRequirements { system_id }),
                fuel,
            ).1;
            let answer = system(Action::GraphicsRequirements { system_id })->Requirements_0;
            let limits = system(
                Action::AdoptInstance { adapter: adapter as usize },
            )->Limits_0;
            let opened = system(
                Action::OpenAdapter {
                    adapter: adapter as usize,
                    features: init.features,
                    limits,
                    memory_hints: MemoryHints::Performance,
                },
            )->Opened_0;
            let level = system(
                Action::GetFeatureLevel { device: opened->Ok_0.device },
            )->FeatureLevel_0;
            let descriptor = device_descriptor(Some(answer->Ok_0), init.features, limits);
            let made = system(
                Action::CreateDevice { adapter: adapter as usize, descriptor },
            )->Device_0;
            &&& answer is Ok
            &&& is_first(adapter_luids(system), answer->Ok_0.adapter_luid, adapter)
            &&& opened is Ok
            &&& meets_level(level, answer->Ok_0.min_feature_level)
            &&& made is Ok
            &&& end == Action::<E, D, Q, G>::Finish {
                graphics: made->Ok_0,
                info: Some(opened->Ok_0),
            }
        }),
{
    setup_ends_as_stated(system, init, system_id, fuel);
    let luids = adapter_luids(system);
    let answer = system(Action::GraphicsRequirements { system_id })->Requirements_0;
    let luid = answer->Ok_0.adapter_luid;
    let some = choose|some: int| 0 <= some < luids.len() && luids[some] == luid;
    first_exists(luids, luid, some);
    choose|adapter: int| is_first(luids, luid, adapter)
}

/// What `system` and `other` say of the adapters beyond the first that fits has no bearing on how
/// the setup ends.
pub proof fn later_adapters_do_not_matter<E, D, Q, G>(
    system: spec_fn(Action<E, D, Q, G>) -> Event<E, D, Q, G>,
    other: spec_fn(Action<E, D, Q, G>) -> Event<E, D, Q, G>,
    features: wgpu::Features,
    system_id: u64,
    name: String,
    first: int,
)
    requires
        is_first(
            adapter_luids(system),
            system(Action::GraphicsRequirements { system_id })->Requirements_0->Ok_0.adapter_luid,
            first,
        ),
        forall|action: Action<E, D, Q, G>|
            (action matches Action::DescribeAdapter { adapter } ==> adapter <= first) ==> #[trigger]
            system(action) == other(action),
    ensures
        outcome(system, features, system_id, name) == outcome(other, features, system_id, name),
{
    let answer = system(Action::GraphicsRequirements { system_id })->Requirements_0;
    let luid = answer->Ok_0.adapter_luid;
    let luids = adapter_luids(system);
    let others = adapter_luids(other);
    assert(system(Action::EnumerateAdapters) == other(Action::EnumerateAdapters));
    assert forall|adapter: int| 0 <= adapter <= first implies luids[adapter]
        == others[adapter] by {
        let describe = Action::<E, D, Q, G>::DescribeAdapter { adapter: adapter as usize };
        assert(system(describe) == other(describe));
    }
    assert(is_first(others, luid, first));
    assert(forall|adapter: int| is_first(luids, luid, adapter) ==> adapter == first);
    assert(forall|adapter: int| is_first(others, luid, adapter) ==> adapter == first);
    assert(luids.contains(luid) && others.contains(luid));
}

/// Whether a setup that stands at `at` searches, if it does, for the adapter that is required, and
/// has come no further than adapter `first`.
spec fn searches_up_to<E, D, Q, G>(
    at: (GraphicsInit<D, Q>, Action<E, D, Q, G>),
    required: GraphicsRequirements,
    first: int,
) -> bool {
    match at.0.stage {
        Stage::Instance { requirements: Some(requirements) } => requirements == required,
        Stage::Adapters { requirements: Some(requirements) } => requirements == required,
        Stage::AdapterLuid { requirements, adapter, .. } => {
            &&& requirements == required
            &&& adapter <= first
            &&& at.1 == Action::<E, D, Q, G>::DescribeAdapter { adapter }
        },
        _ => true,
    }
}

/// A search that has come no further than the first adapter that fits gets no further.
proof fn run_searches_up_to<E, D, Q, G>(
    system: spec_fn(Action<E, D, Q, G>) -> Event<E, D, Q, G>,
    at: (GraphicsInit<D, Q>, Action<E, D, Q, G>),
    required: GraphicsRequirements,
    first: int,
    fuel: nat,
)
    requires
        answers_in_kind(system),
        is_first(adapter_luids(system), required.adapter_luid, first),
        !(at.0.stage is Requirements),
        in_step(at),
        searches_up_to(at, required, first),
    ensures
        run(system, at, fuel).1 matches Action::DescribeAdapter { adapter } ==> adapter <= first,
    decreases fuel,
{
    if !is_final(at.1) {
        let event = system(at.1);
        assert(at.0.awaits(event));
        if fuel > 0 {
            setup_stays_in_step(at.0, event);
            if at.0.stage is AdapterLuid {
                let adapter = at.0.stage->AdapterLuid_adapter;
                assert(adapter_luids(system)[adapter as int] == event->AdapterLuid_0);
            }
            run_searches_up_to(system, at.0.next(event), required, first, (fuel - 1) as nat);
        }
    }
}

/// At no point of its run does the setup look at an adapter beyond the first that fits.
pub proof fn later_adapters_are_not_looked_at<E, D, Q, G>(
    system: spec_fn(Action<E, D, Q, G>) -> Event<E, D, Q, G>,
    init: GraphicsInit<D, Q>,
    system_id: u64,
    first: int,
    fuel: nat,
)
    requires
        answers_in_kind(system),
        init.stage is Requirements,
        is_first(
            adapter_luids(system),
            system(Action::GraphicsRequirements { system_id })->Requirements_0->Ok_0.adapter_luid,
            first,
        ),
    ensures
        run(
            system,
            (init, Action::<E, D, Q, G>::GraphicsRequirements { system_id }),
            fuel,
        ).1 matches Action::DescribeAdapter { adapter } ==> adapter <= first,
{
    let ask = Action::<E, D, Q, G>::GraphicsRequirements { system_id };
    assert(comes_of(system(ask), ask));
    if fuel > 0 {
        let required = system(ask)->Requirements_0->Ok_0;
        setup_stays_in_step(init, system(ask));
        run_searches_up_to(system, init.next(system(ask)), required, first, (fuel - 1) as nat);
    }
}

/// Where an identifier occurs, it occurs for a first time.
proof fn first_exists(luids: Seq<Luid>, luid: Luid, some: int)
    requires
        0 <= some < luids.len(),
        luids[some] == luid,
    ensures
        exists|adapter: int| is_first(luids, luid, adapter),
    decreases some,
{
    if exists|before: int| 0 <= before < some && luids[before] == luid {
        let before = choose|before: int| 0 <= before < some && luids[before] == luid;
        first_exists(luids, luid, before);
    } else {
        assert(is_first(luids, luid, some));
    }
}

/// At each step the setup waits for just the events that come of the action it decides on.
pub proof fn setup_stays_in_step<E, D, Q, G>(
    init: GraphicsInit<D, Q>,
    event: Event<E, D, Q, G>,
)
    requires
        init.awaits(event),
    ensures
        in_step(init.next(event)),
{
}

/// How many kinds of action are still to come at most, and how many adapters still to be looked at.
pub open spec fn remaining<D, Q>(init: GraphicsInit<D, Q>) -> (nat, nat) {
    match init.stage {
        Stage::Requirements { .. } => (8, 0),
        Stage::Instance { .. } => (7, 0),
        Stage::Adapters { .. } => (6, 0),
        Stage::AdapterLuid { count, adapter, .. } => (
            5,
            if adapter < count {
                (count - adapter) as nat
            } else {
                0
            },
        ),
        Stage::Limits { .. } => (4, 0),
        Stage::Opened { .. } => (3, 0),
        Stage::FeatureLevel { .. } => (2, 0),
        Stage::Device { .. } => (1, 0),
        Stage::Finished => (0, 0),
    }
}

/// Each step brings the setup nearer to its end: no stage comes twice but for the search, and that
/// looks at no adapter twice.
pub proof fn setup_makes_progress<E, D, Q, G>(
    init: GraphicsInit<D, Q>,
    event: Event<E, D, Q, G>,
)
    requires
        init.awaits(event),
    ensures
        ({
            let before = remaining(init);
            let after = remaining(init.next(event).0);
            after.0 < before.0 || after.0 == before.0 && after.1 < before.1
        }),
{
}

/// Whether a setup at this stage may be one without an OpenXR session.
pub open spec fn is_fallback<D, Q>(init: GraphicsInit<D, Q>) -> bool {
    match init.stage {
        Stage::Requirements { .. } => false,
        Stage::Instance { requirements } => requirements is None,
        Stage::Adapters { requirements } => requirements is None,
        Stage::AdapterLuid { .. } => false,
        Stage::Limits { requirements, .. } => requirements is None,
        Stage::Opened { requirements, .. } => requirements is None,
        Stage::FeatureLevel { .. } => false,
        Stage::Device { info } => info is None,
        Stage::Finished => true,
    }
}

/// A setup without an OpenXR session asks neither the runtime for requirements nor an adapter for
/// its identifier nor the device for its feature level, and returns no objects for a session.
pub proof fn fallback_asks_for_no_requirements<E, D, Q, G>(
    init: GraphicsInit<D, Q>,
    event: Event<E, D, Q, G>,
)
    requires
        is_fallback(init),
        init.awaits(event),
    ensures
        is_fallback(init.next(event).0),
        !(init.next(event).1 is GraphicsRequirements),
        !(init.next(event).1 is DescribeAdapter),
        !(init.next(event).1 is GetFeatureLevel),
        init.next(event).1 matches Action::Finish { info, .. } ==> info is None,
{
}

/// The adapter is opened, and the device described, with the required features and no others.
pub proof fn device_has_the_required_features<E, D, Q, G>(
    init: GraphicsInit<D, Q>,
    event: Event<E, D, Q, G>,
)
    requires
        feature_names(init.features) == required_feature_names(),
        init.awaits(event),
    ensures
        init.next(event).0.features == init.features,
        init.next(event).1 matches Action::OpenAdapter { features, .. } ==> feature_names(features)
            == required_feature_names(),
        init.next(event).1 matches Action::CreateDevice { descriptor, .. } ==> feature_names(
            descriptor.required_features,
        ) == required_feature_names(),
{
}

/// The adapter that is chosen is the one that is opened, and the one that is handed to `wgpu` with
/// the device. The device is described with the limits that the adapter was opened with, which are
/// those of the adapter.
pub proof fn device_goes_with_its_adapter<E, D, Q, G>(
    init: GraphicsInit<D, Q>,
    limits: wgpu::Limits,
    info: SessionCreateInfo<D, Q>,
    level: u32,
)
    requires
        init.stage is Limits,
    ensures
        ({
            let (opening, open) = init.next(Event::<E, D, Q, G>::Limits(limits));
            let (opened, after) = opening.next(Event::<E, D, Q, G>::Opened(Ok(info)));
            let (_, last) = if after is GetFeatureLevel {
                opened.next(Event::<E, D, Q, G>::FeatureLevel(level))
            } else {
                (opened, after)
            };
            &&& open is OpenAdapter
            &&& open->OpenAdapter_adapter == init.stage->Limits_adapter
            &&& open->OpenAdapter_limits == limits
            &&& last matches Action::CreateDevice { adapter, descriptor } ==> {
                &&& adapter == init.stage->Limits_adapter
                &&& descriptor.required_limits == limits
            }
            &&& last is CreateDevice || last is Fail
        }),
{
}

/// The objects of the device that was opened for a session are those whose feature level is asked
/// for, and those that are returned with the graphics, each in its place.
pub proof fn session_gets_the_objects_of_the_opened_device<E, D, Q, G>(
    init: GraphicsInit<D, Q>,
    info: SessionCreateInfo<D, Q>,
    level: u32,
    graphics: G,
)
    requires
        init.stage matches Stage::Opened { requirements: Some(requirements), .. } && meets_level(
            level,
            requirements.min_feature_level,
        ),
    ensures
        ({
            let (opened, ask) = init.next(Event::<E, D, Q, G>::Opened(Ok(info)));
            let (accepted, create) = opened.next(Event::<E, D, Q, G>::FeatureLevel(level));
            let (_, end) = accepted.next(Event::<E, D, Q, G>::Device(Ok(graphics)));
            &&& ask == Action::<E, D, Q, G>::GetFeatureLevel { device: info.device }
            &&& create is CreateDevice
            &&& end == Action::<E, D, Q, G>::Finish { graphics, info: Some(info) }
        }),
{
}

} // verus!
