//! What the setup decides at each of its stages.
//!
//! Each law takes a stage with what it holds and an event of the kind that is awaited there, and
//! says which action follows, with what in it, and what the setup keeps.

use vstd::prelude::*;

use crate::error::{InitError, OxrError, XrResult};
use crate::init::{
    comes_of, is_final, Action, Event, GraphicsInit, GraphicsRequirements, Luid, Stage,
};
use crate::session::SessionCreateInfo;

verus! {

/// At each stage the setup waits for one kind of event, whatever the event holds, and at its end
/// for none.
pub proof fn each_stage_awaits_one_kind_of_event<E, D, Q, G>(
    init: GraphicsInit<D, Q>,
    event: Event<E, D, Q, G>,
)
    ensures
        init.awaits(event) <==> {
            ||| init.stage is Requirements && event is Requirements
            ||| init.stage is Instance && event is Instance
            ||| init.stage is Adapters && event is Adapters
            ||| init.stage is AdapterLuid && event is AdapterLuid
            ||| init.stage is Limits && event is Limits
            ||| init.stage is Opened && event is Opened
            ||| init.stage is FeatureLevel && event is FeatureLevel
            ||| init.stage is Device && event is Device
        },
{
}

/// Of each action comes one kind of event, whatever the action and the event hold. Of the two
/// actions that end the setup comes none.
pub proof fn each_action_brings_one_kind_of_event<E, D, Q, G>(
    action: Action<E, D, Q, G>,
    event: Event<E, D, Q, G>,
)
    ensures
        comes_of(event, action) <==> {
            ||| action is GraphicsRequirements && event is Requirements
            ||| action is InitInstance && event is Instance
            ||| action is EnumerateAdapters && event is Adapters
            ||| action is DescribeAdapter && event is AdapterLuid
            ||| action is AdoptInstance && event is Limits
            ||| action is OpenAdapter && event is Opened
            ||| action is GetFeatureLevel && event is FeatureLevel
            ||| action is CreateDevice && event is Device
        },
        is_final(action) <==> action is Finish || action is Fail,
{
}

/// The instance is created, under the name of the application, just where the runtime has told its
/// requirements, and these are kept. An error of the runtime is returned.
pub proof fn requirements_decide<E, D, Q, G>(
    init: GraphicsInit<D, Q>,
    name: String,
    answer: Result<GraphicsRequirements, XrResult>,
)
    requires
        init.stage == (Stage::<D, Q>::Requirements { name }),
    ensures
        ({
            let (after, action) = init.next(Event::<E, D, Q, G>::Requirements(answer));
            &&& answer is Ok <==> action is InitInstance
            &&& answer is Err <==> action is Fail
            &&& action matches Action::InitInstance { descriptor } ==> descriptor.name == name
            &&& answer matches Ok(requirements) ==> after.stage == (Stage::<D, Q>::Instance {
                requirements: Some(requirements),
            })
            &&& answer matches Err(code) ==> {
                &&& action == (Action::<E, D, Q, G>::Fail { error: OxrError::OpenXrError(code) })
                &&& after.stage is Finished
            }
            &&& after.features == init.features
        }),
{
}

/// The adapters are enumerated just where the instance was created. An error is returned.
pub proof fn instance_decides<E, D, Q, G>(
    init: GraphicsInit<D, Q>,
    requirements: Option<GraphicsRequirements>,
    answer: Result<(), E>,
)
    requires
        init.stage == (Stage::<D, Q>::Instance { requirements }),
    ensures
        ({
            let (after, action) = init.next(Event::<E, D, Q, G>::Instance(answer));
            &&& answer is Ok <==> action is EnumerateAdapters
            &&& answer is Err <==> action is Fail
            &&& answer is Ok ==> after.stage == (Stage::<D, Q>::Adapters { requirements })
            &&& answer matches Err(error) ==> {
                &&& action == (Action::<E, D, Q, G>::Fail { error: OxrError::WgpuError(error) })
                &&& after.stage is Finished
            }
            &&& after.features == init.features
        }),
{
}

/// For a session the search begins with the first adapter. Without one the first adapter is taken
/// as it is. Where there is no adapter, each ends in its own error.
pub proof fn adapters_decide<E, D, Q, G>(
    init: GraphicsInit<D, Q>,
    requirements: Option<GraphicsRequirements>,
    count: usize,
)
    requires
        init.stage == (Stage::<D, Q>::Adapters { requirements }),
    ensures
        ({
            let (after, action) = init.next(Event::<E, D, Q, G>::Adapters(count));
            &&& action is Fail <==> count == 0
            &&& action is DescribeAdapter <==> count > 0 && requirements is Some
            &&& action is AdoptInstance <==> count > 0 && requirements is None
            &&& action matches Action::DescribeAdapter { adapter } ==> {
                &&& adapter == 0
                &&& after.stage == (Stage::<D, Q>::AdapterLuid {
                    requirements: requirements->0,
                    count,
                    adapter: 0,
                })
            }
            &&& action matches Action::AdoptInstance { adapter } ==> {
                &&& adapter == 0
                &&& after.stage == (Stage::<D, Q>::Limits { requirements: None, adapter: 0 })
            }
            &&& count == 0 && requirements is Some ==> action == (Action::<E, D, Q, G>::Fail {
                error: OxrError::InitError(InitError::FailedToFindD3D12Adapter),
            })
            &&& count == 0 && requirements is None ==> action == (Action::<E, D, Q, G>::Fail {
                error: OxrError::NoAvailableBackend,
            })
            &&& count == 0 ==> after.stage is Finished
            &&& after.features == init.features
        }),
{
}

/// An adapter is taken just where both parts of its identifier are those that the runtime asks
/// for. Otherwise the next one is looked at, and after the last one the search has failed.
pub proof fn identifier_decides<E, D, Q, G>(
    init: GraphicsInit<D, Q>,
    requirements: GraphicsRequirements,
    count: usize,
    adapter: usize,
    luid: Luid,
)
    requires
        init.stage == (Stage::<D, Q>::AdapterLuid { requirements, count, adapter }),
    ensures
        ({
            let (after, action) = init.next(Event::<E, D, Q, G>::AdapterLuid(luid));
            let fits = luid.low_part == requirements.adapter_luid.low_part && luid.high_part
                == requirements.adapter_luid.high_part;
            &&& action is AdoptInstance <==> fits
            &&& action is DescribeAdapter <==> !fits && adapter + 1 < count
            &&& action is Fail <==> !fits && adapter + 1 >= count
            &&& action matches Action::AdoptInstance { adapter: taken } ==> {
                &&& taken == adapter
                &&& after.stage == (Stage::<D, Q>::Limits {
                    requirements: Some(requirements),
                    adapter,
                })
            }
            &&& action matches Action::DescribeAdapter { adapter: following } ==> {
                &&& following == adapter + 1
                &&& after.stage == (Stage::<D, Q>::AdapterLuid {
                    requirements,
                    count,
                    adapter: following,
                })
            }
            &&& action matches Action::Fail { error } ==> {
                &&& error == OxrError::<E>::InitError(InitError::FailedToFindD3D12Adapter)
                &&& after.stage is Finished
            }
            &&& after.features == init.features
        }),
{
}

/// The adapter that was chosen is opened, with the features of the setup and with its own limits,
/// for performance.
pub proof fn adapter_is_opened_with_its_limits<E, D, Q, G>(
    init: GraphicsInit<D, Q>,
    requirements: Option<GraphicsRequirements>,
    adapter: usize,
    limits: wgpu::Limits,
)
    requires
        init.stage == (Stage::<D, Q>::Limits { requirements, adapter }),
    ensures
        ({
            let (after, action) = init.next(Event::<E, D, Q, G>::Limits(limits));
            &&& action is OpenAdapter
            &&& action->OpenAdapter_adapter == adapter
            &&& action->OpenAdapter_features == init.features
            &&& action->OpenAdapter_limits == limits
            &&& action->OpenAdapter_memory_hints is Performance
            &&& after.stage == (Stage::<D, Q>::Opened { requirements, adapter, limits })
            &&& after.features == init.features
        }),
{
}

/// For a session the device that was opened is asked for its feature level, and its objects are
/// kept. Without one it is handed to `wgpu` at once. An error is returned.
pub proof fn opened_device_decides<E, D, Q, G>(
    init: GraphicsInit<D, Q>,
    requirements: Option<GraphicsRequirements>,
    adapter: usize,
    limits: wgpu::Limits,
    answer: Result<SessionCreateInfo<D, Q>, E>,
)
    requires
        init.stage == (Stage::<D, Q>::Opened { requirements, adapter, limits }),
    ensures
        ({
            let (after, action) = init.next(Event::<E, D, Q, G>::Opened(answer));
            &&& action is GetFeatureLevel <==> answer is Ok && requirements is Some
            &&& action is CreateDevice <==> answer is Ok && requirements is None
            &&& action is Fail <==> answer is Err
            &&& action is GetFeatureLevel ==> {
                let info = answer->Ok_0;
                &&& action == (Action::<E, D, Q, G>::GetFeatureLevel { device: info.device })
                &&& after.stage == (Stage::<D, Q>::FeatureLevel {
                    requirements: requirements->0,
                    adapter,
                    limits,
                    info,
                })
            }
            &&& action matches Action::CreateDevice { adapter: handed, descriptor } ==> {
                &&& handed == adapter
                &&& descriptor.label@ == "bevy_oxr fallback device"@
                &&& descriptor.required_features == init.features
                &&& descriptor.required_limits == limits
                &&& after.stage == (Stage::<D, Q>::Device { info: None })
            }
            &&& answer matches Err(error) ==> {
                &&& action == (Action::<E, D, Q, G>::Fail { error: OxrError::WgpuError(error) })
                &&& after.stage is Finished
            }
            &&& after.features == init.features
        }),
{
}

/// The device of a session is handed to `wgpu` just where its feature level is no lower than the
/// required one, both read without a sign. Otherwise the setup ends in an error.
pub proof fn feature_level_decides<E, D, Q, G>(
    init: GraphicsInit<D, Q>,
    requirements: GraphicsRequirements,
    adapter: usize,
    limits: wgpu::Limits,
    info: SessionCreateInfo<D, Q>,
    level: u32,
)
    requires
        init.stage == (Stage::<D, Q>::FeatureLevel { requirements, adapter, limits, info }),
    ensures
        ({
            let (after, action) = init.next(Event::<E, D, Q, G>::FeatureLevel(level));
            let min = requirements.min_feature_level;
            let lowest: int = if min < 0 {
                min + 0x1_0000_0000
            } else {
                min as int
            };
            &&& action is CreateDevice <==> level >= lowest
            &&& action is Fail <==> level < lowest
            &&& action matches Action::CreateDevice { adapter: handed, descriptor } ==> {
                &&& handed == adapter
                &&& descriptor.label@ == "bevy_oxr device"@
                &&& descriptor.required_features == init.features
                &&& descriptor.required_limits == limits
                &&& after.stage == (Stage::<D, Q>::Device { info: Some(info) })
            }
            &&& action matches Action::Fail { error } ==> {
                &&& error == OxrError::<E>::FailedGraphicsRequirements
                &&& after.stage is Finished
            }
            &&& after.features == init.features
        }),
{
}

/// The graphics that were made around the device are returned as they are, with the objects that
/// were kept for a session. An error is returned.
pub proof fn created_device_decides<E, D, Q, G>(
    init: GraphicsInit<D, Q>,
    info: Option<SessionCreateInfo<D, Q>>,
    answer: Result<G, E>,
)
    requires
        init.stage == (Stage::<D, Q>::Device { info }),
    ensures
        ({
            let (after, action) = init.next(Event::<E, D, Q, G>::Device(answer));
            &&& answer matches Ok(graphics) ==> action == (Action::<E, D, Q, G>::Finish {
                graphics,
                info,
            })
            &&& answer matches Err(error) ==> action == (Action::<E, D, Q, G>::Fail {
                error: OxrError::WgpuError(error),
            })
            &&& after.stage is Finished
            &&& after.features == init.features
        }),
{
}

/// Every instance is described alike, whatever the application is called and the runtime requires:
/// with flags from the build configuration and the environment, and with no threshold on the
/// memory budget and no option set apart from the defaults.
pub proof fn every_instance_is_described_alike<E, D, Q, G>(
    init: GraphicsInit<D, Q>,
    event: Event<E, D, Q, G>,
)
    requires
        init.awaits(event),
    ensures
        init.next(event).1 matches Action::InitInstance { descriptor } ==> {
            &&& init.stage is Requirements
            &&& descriptor.name == init.stage->Requirements_name
            &&& descriptor.flags is BuildConfigWithEnv
            &&& descriptor.memory_budget_thresholds.for_resource_creation is None
            &&& descriptor.memory_budget_thresholds.for_device_loss is None
            &&& descriptor.backend_options is Default
        },
{
}

/// Every device is described alike but for its limits and its label, whatever the runtime requires
/// and the device can do: with the features of the setup, for performance, without a trace, and
/// with experimental features enabled. The label says whether the device is for a session.
pub proof fn every_device_is_described_alike<E, D, Q, G>(
    init: GraphicsInit<D, Q>,
    event: Event<E, D, Q, G>,
)
    requires
        init.awaits(event),
    ensures
        init.next(event).1 matches Action::CreateDevice { descriptor, .. } ==> {
            &&& descriptor.memory_hints is Performance
            &&& descriptor.trace is Off
            &&& descriptor.experimental_features
            &&& descriptor.required_features == init.features
            &&& init.stage is FeatureLevel ==> descriptor.label@ == "bevy_oxr device"@
            &&& init.stage is Opened ==> descriptor.label@ == "bevy_oxr fallback device"@
            &&& init.stage is FeatureLevel || init.stage is Opened
        },
{
}

/// What has happened before makes no difference but for what a stage holds: two setups at one
/// stage go on alike.
pub proof fn equal_stages_go_on_alike<E, D, Q, G>(
    one: GraphicsInit<D, Q>,
    other: GraphicsInit<D, Q>,
    event: Event<E, D, Q, G>,
)
    requires
        one.stage == other.stage,
        one.awaits(event),
    ensures
        one.next(event).0.stage == other.next(event).0.stage,
        !(one.next(event).1 is OpenAdapter) && !(one.next(event).1 is CreateDevice)
            ==> one.next(event).1 == other.next(event).1,
{
}

} // verus!
