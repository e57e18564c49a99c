//! The setup of a D3D12 device, step by step.
//!
//! Setting up the graphics alternates work on the system with decisions. The work is an
//! [`Action`], which the caller carries out; what came of it is an [`Event`]; and
//! [`GraphicsInit::step`] decides on the next action.
//!
//! Four types are the caller's: `E`, in which the errors of `wgpu` are handed on; `D` and `Q`, by
//! which the D3D12 device and its command queue are known to the OpenXR runtime; and `G`, the
//! graphics that are set up.

use vstd::pervasive::unreached;
use vstd::prelude::*;

use crate::backend::D3D12;
use crate::error::{InitError, OxrError, XrResult};
use crate::feature_level::{meets_feature_level, meets_level};
use crate::flags::{feature_names, required_feature_names, required_features};
use crate::session::SessionCreateInfo;

verus! {

/// The limits that an adapter supports.
#[verifier::external_type_specification]
#[verifier::external_body]
pub struct ExLimits(wgpu::Limits);

/// `Clone` of `wgpu::Limits`, a struct of numbers: the copy equals what it is made of.
#[verifier::external_body]
fn clone_limits(limits: &wgpu::Limits) -> (copy: wgpu::Limits)
    ensures
        copy == *limits,
{
    limits.clone()
}

/// What the backend is told about the application.
pub struct AppInfo {
    /// The name of the application.
    pub name: String,
}

/// The locally unique identifier of an adapter.
#[derive(Debug, Clone, Copy, PartialEq, Eq, Structural)]
pub struct Luid {
    pub low_part: u32,
    pub high_part: i32,
}

/// What the OpenXR runtime requires of the graphics.
#[derive(Debug, Clone, Copy, PartialEq, Eq, Structural)]
pub struct GraphicsRequirements {
    /// The adapter to be used.
    pub adapter_luid: Luid,
    /// The lowest feature level of the device that will do.
    pub min_feature_level: i32,
}

/// For what the memory of a device is to be managed.
#[derive(Debug, Clone, Copy, PartialEq, Eq, Structural)]
pub enum MemoryHints {
    Performance,
    MemoryUsage,
}

/// Whether the calls of a device are recorded.
#[derive(Debug, Clone, Copy, PartialEq, Eq, Structural)]
pub enum Trace {
    Off,
}

/// Where the debugging flags of an instance come from.
#[derive(Debug, Clone, Copy, PartialEq, Eq, Structural)]
pub enum InstanceFlags {
    /// From the build configuration, and from the environment where that sets them.
    BuildConfigWithEnv,
}

/// The shares of the memory budget, in percent, from which on memory is refused.
#[derive(Debug, Clone, Copy, PartialEq, Eq, Structural)]
pub struct MemoryBudgetThresholds {
    pub for_resource_creation: Option<u8>,
    pub for_device_loss: Option<u8>,
}

/// The options of the instance that are particular to a backend.
#[derive(Debug, Clone, Copy, PartialEq, Eq, Structural)]
pub enum BackendOptions {
    /// Those that `wgpu` has by default.
    Default,
}

/// How an instance is described to `wgpu_hal`.
#[derive(Debug, PartialEq, Eq)]
pub struct InstanceDescriptor {
    /// The name of the application.
    pub name: String,
    pub flags: InstanceFlags,
    pub memory_budget_thresholds: MemoryBudgetThresholds,
    pub backend_options: BackendOptions,
}

/// How a device is described to `wgpu`.
#[derive(Debug, PartialEq)]
pub struct DeviceDescriptor {
    pub label: &'static str,
    pub required_features: wgpu::Features,
    pub required_limits: wgpu::Limits,
    pub memory_hints: MemoryHints,
    pub trace: Trace,
    /// Whether features may be used that `wgpu` holds to be experimental.
    pub experimental_features: bool,
}

/// A piece of work on the system, to be done next.
#[derive(Debug, PartialEq)]
pub enum Action<E, D, Q, G> {
    /// Ask the OpenXR runtime for its graphics requirements on the given system.
    GraphicsRequirements { system_id: u64 },
    /// Create the D3D12 instance of `wgpu_hal`, under the given description.
    InitInstance { descriptor: InstanceDescriptor },
    /// Enumerate the adapters of the instance.
    EnumerateAdapters,
    /// Read the identifier of the adapter at the given place of the enumeration.
    DescribeAdapter { adapter: usize },
    /// Hand the instance to `wgpu`, and read the limits of the given adapter.
    AdoptInstance { adapter: usize },
    /// Open the given adapter.
    OpenAdapter {
        adapter: usize,
        features: wgpu::Features,
        limits: wgpu::Limits,
        memory_hints: MemoryHints,
    },
    /// Ask the given device for its feature level.
    GetFeatureLevel { device: D },
    /// Hand the given adapter and its opened device to `wgpu`, the device under the given
    /// description.
    CreateDevice { adapter: usize, descriptor: DeviceDescriptor },
    /// Return the graphics, and the objects for a session where there is a runtime for one.
    Finish { graphics: G, info: Option<SessionCreateInfo<D, Q>> },
    /// Return the error.
    Fail { error: OxrError<E> },
}

/// What came of an action.
#[derive(Debug, PartialEq)]
pub enum Event<E, D, Q, G> {
    Requirements(Result<GraphicsRequirements, XrResult>),
    Instance(Result<(), E>),
    /// How many adapters were enumerated.
    Adapters(usize),
    AdapterLuid(Luid),
    Limits(wgpu::Limits),
    /// The D3D12 objects of the device that was opened.
    Opened(Result<SessionCreateInfo<D, Q>, E>),
    FeatureLevel(u32),
    /// The graphics around the device that was handed to `wgpu`.
    Device(Result<G, E>),
}

/// Whether `action` ends the setup.
pub open spec fn is_final<E, D, Q, G>(action: Action<E, D, Q, G>) -> bool {
    action is Finish || action is Fail
}

/// Whether `event` is of the kind that comes of `action`.
pub open spec fn comes_of<E, D, Q, G>(
    event: Event<E, D, Q, G>,
    action: Action<E, D, Q, G>,
) -> bool {
    match action {
        Action::GraphicsRequirements { .. } => event is Requirements,
        Action::InitInstance { .. } => event is Instance,
        Action::EnumerateAdapters => event is Adapters,
        Action::DescribeAdapter { .. } => event is AdapterLuid,
        Action::AdoptInstance { .. } => event is Limits,
        Action::OpenAdapter { .. } => event is Opened,
        Action::GetFeatureLevel { .. } => event is FeatureLevel,
        Action::CreateDevice { .. } => event is Device,
        Action::Finish { .. } => false,
        Action::Fail { .. } => false,
    }
}

/// Whether the setup waits for just the events that come of the action beside it.
pub open spec fn in_step<E, D, Q, G>(at: (GraphicsInit<D, Q>, Action<E, D, Q, G>)) -> bool {
    forall|event: Event<E, D, Q, G>| #[trigger] at.0.awaits(event) <==> comes_of(event, at.1)
}

/// How far the setup has come: which event it waits for, and what it will need then.
///
/// `requirements` is `None` where the setup runs without an OpenXR runtime.
#[derive(Debug, PartialEq)]
pub enum Stage<D, Q> {
    Requirements { name: String },
    Instance { requirements: Option<GraphicsRequirements> },
    Adapters { requirements: Option<GraphicsRequirements> },
    AdapterLuid { requirements: GraphicsRequirements, count: usize, adapter: usize },
    Limits { requirements: Option<GraphicsRequirements>, adapter: usize },
    Opened { requirements: Option<GraphicsRequirements>, adapter: usize, limits: wgpu::Limits },
    FeatureLevel {
        requirements: GraphicsRequirements,
        adapter: usize,
        limits: wgpu::Limits,
        info: SessionCreateInfo<D, Q>,
    },
    Device { info: Option<SessionCreateInfo<D, Q>> },
    Finished,
}

/// The setup of a D3D12 device.
#[derive(Debug, PartialEq)]
pub struct GraphicsInit<D, Q> {
    /// The features that the device is opened with.
    pub features: wgpu::Features,
    pub stage: Stage<D, Q>,
}

/// The description of the instance for an application of the given name.
pub open spec fn instance_descriptor(name: String) -> InstanceDescriptor {
    InstanceDescriptor {
        name,
        flags: InstanceFlags::BuildConfigWithEnv,
        memory_budget_thresholds: MemoryBudgetThresholds {
            for_resource_creation: None,
            for_device_loss: None,
        },
        backend_options: BackendOptions::Default,
    }
}

/// The description of the instance for an application of the given name.
fn describe_instance(name: String) -> (descriptor: InstanceDescriptor)
    ensures
        descriptor == instance_descriptor(name),
        descriptor.name == name,
        descriptor.flags is BuildConfigWithEnv,
        descriptor.memory_budget_thresholds.for_resource_creation is None,
        descriptor.memory_budget_thresholds.for_device_loss is None,
        descriptor.backend_options is Default,
{
    InstanceDescriptor {
        name,
        flags: InstanceFlags::BuildConfigWithEnv,
        memory_budget_thresholds: MemoryBudgetThresholds {
            for_resource_creation: None,
            for_device_loss: None,
        },
        backend_options: BackendOptions::Default,
    }
}

/// The description of the device for an OpenXR session, or of the one for use without.
pub open spec fn device_descriptor(
    requirements: Option<GraphicsRequirements>,
    features: wgpu::Features,
    limits: wgpu::Limits,
) -> DeviceDescriptor {
    DeviceDescriptor {
        label: if requirements is Some {
            "bevy_oxr device"
        } else {
            "bevy_oxr fallback device"
        },
        required_features: features,
        required_limits: limits,
        memory_hints: MemoryHints::Performance,
        trace: Trace::Off,
        experimental_features: true,
    }
}

/// The description of the device for an OpenXR session, or of the one for use without.
fn describe_device(
    requirements: Option<GraphicsRequirements>,
    features: wgpu::Features,
    limits: wgpu::Limits,
) -> (descriptor: DeviceDescriptor)
    ensures
        descriptor == device_descriptor(requirements, features, limits),
        requirements is Some ==> descriptor.label@ == "bevy_oxr device"@,
        requirements is None ==> descriptor.label@ == "bevy_oxr fallback device"@,
        descriptor.required_features == features,
        descriptor.required_limits == limits,
        descriptor.memory_hints is Performance,
        descriptor.trace is Off,
        descriptor.experimental_features,
{
    DeviceDescriptor {
        label: match requirements {
            Some(_) => "bevy_oxr device",
            None => "bevy_oxr fallback device",
        },
        required_features: features,
        required_limits: limits,
        memory_hints: MemoryHints::Performance,
        trace: Trace::Off,
        experimental_features: true,
    }
}

impl<D, Q> GraphicsInit<D, Q> {
    /// Whether `event` is of the kind that the setup waits for.
    pub open spec fn awaits<E, G>(self, event: Event<E, D, Q, G>) -> bool {
        match self.stage {
            Stage::Requirements { .. } => event is Requirements,
            Stage::Instance { .. } => event is Instance,
            Stage::Adapters { .. } => event is Adapters,
            Stage::AdapterLuid { .. } => event is AdapterLuid,
            Stage::Limits { .. } => event is Limits,
            Stage::Opened { .. } => event is Opened,
            Stage::FeatureLevel { .. } => event is FeatureLevel,
            Stage::Device { .. } => event is Device,
            Stage::Finished => false,
        }
    }

    /// The setup at another stage.
    pub open spec fn at(self, stage: Stage<D, Q>) -> GraphicsInit<D, Q> {
        GraphicsInit { features: self.features, stage }
    }

    /// The end of the setup in `error`.
    pub open spec fn failed<E, G>(self, error: OxrError<E>) -> (
        GraphicsInit<D, Q>,
        Action<E, D, Q, G>,
    ) {
        (self.at(Stage::Finished), Action::Fail { error })
    }

    /// Going on to open the given adapter.
    pub open spec fn chosen<E, G>(
        self,
        requirements: Option<GraphicsRequirements>,
        adapter: usize,
    ) -> (GraphicsInit<D, Q>, Action<E, D, Q, G>) {
        (self.at(Stage::Limits { requirements, adapter }), Action::AdoptInstance { adapter })
    }

    /// Going on to look at the given adapter, out of `count`.
    pub open spec fn look_at<E, G>(
        self,
        requirements: GraphicsRequirements,
        count: usize,
        adapter: int,
    ) -> (GraphicsInit<D, Q>, Action<E, D, Q, G>) {
        if adapter < count {
            let adapter = adapter as usize;
            (
                self.at(Stage::AdapterLuid { requirements, count, adapter }),
                Action::DescribeAdapter { adapter },
            )
        } else {
            self.failed(OxrError::InitError(InitError::FailedToFindD3D12Adapter))
        }
    }

    /// Going on to hand the opened device to `wgpu`.
    pub open spec fn accepted<E, G>(
        self,
        requirements: Option<GraphicsRequirements>,
        adapter: usize,
        limits: wgpu::Limits,
        info: Option<SessionCreateInfo<D, Q>>,
    ) -> (GraphicsInit<D, Q>, Action<E, D, Q, G>) {
        (
            self.at(Stage::Device { info }),
            Action::CreateDevice {
                adapter,
                descriptor: device_descriptor(requirements, self.features, limits),
            },
        )
    }

    /// How the setup goes on from here when `event` comes in: its next stage and action.
    pub open spec fn next<E, G>(self, event: Event<E, D, Q, G>) -> (
        GraphicsInit<D, Q>,
        Action<E, D, Q, G>,
    )
        recommends
            self.awaits(event),
    {
        match (self.stage, event) {
            (Stage::Requirements { name }, Event::Requirements(Ok(requirements))) => (
                self.at(Stage::Instance { requirements: Some(requirements) }),
                Action::InitInstance { descriptor: instance_descriptor(name) },
            ),
            (_, Event::Requirements(Err(code))) => self.failed(OxrError::OpenXrError(code)),
            (Stage::Instance { requirements }, Event::Instance(Ok(()))) => (
                self.at(Stage::Adapters { requirements }),
                Action::EnumerateAdapters,
            ),
            (_, Event::Instance(Err(error))) => self.failed(OxrError::WgpuError(error)),
            (Stage::Adapters { requirements: Some(requirements) }, Event::Adapters(count)) =>
                self.look_at(requirements, count, 0),
            (Stage::Adapters { requirements: None }, Event::Adapters(count)) => if count > 0 {
                self.chosen(None, 0)
            } else {
                self.failed(OxrError::NoAvailableBackend)
            },
            (
                Stage::AdapterLuid { requirements, count, adapter },
                Event::AdapterLuid(luid),
            ) => if luid == requirements.adapter_luid {
                self.chosen(Some(requirements), adapter)
            } else {
                self.look_at(requirements, count, adapter + 1)
            },
            (Stage::Limits { requirements, adapter }, Event::Limits(limits)) => (
                self.at(Stage::Opened { requirements, adapter, limits }),
                Action::OpenAdapter {
                    adapter,
                    features: self.features,
                    limits,
                    memory_hints: MemoryHints::Performance,
                },
            ),
            (
                Stage::Opened { requirements: Some(requirements), adapter, limits },
                Event::Opened(Ok(info)),
            ) => (
                self.at(Stage::FeatureLevel { requirements, adapter, limits, info }),
                Action::GetFeatureLevel { device: info.device },
            ),
            (Stage::Opened { requirements: None, adapter, limits }, Event::Opened(Ok(_))) =>
                self.accepted(None, adapter, limits, None),
            (_, Event::Opened(Err(error))) => self.failed(OxrError::WgpuError(error)),
            (
                Stage::FeatureLevel { requirements, adapter, limits, info },
                Event::FeatureLevel(level),
            ) =>
                if meets_level(level, requirements.min_feature_level) {
                    self.accepted(Some(requirements), adapter, limits, Some(info))
                } else {
                    self.failed(OxrError::FailedGraphicsRequirements)
                },
            (Stage::Device { info }, Event::Device(Ok(graphics))) => (
                self.at(Stage::Finished),
                Action::Finish { graphics, info },
            ),
            (_, Event::Device(Err(error))) => self.failed(OxrError::WgpuError(error)),
            _ => arbitrary(),
        }
    }

    /// Whether `event` is of the kind that the setup waits for.
    pub fn expects<E, G>(&self, event: &Event<E, D, Q, G>) -> (expected: bool)
        ensures
            expected == self.awaits(*event),
            expected <==> {
                ||| self.stage is Requirements && event is Requirements
                ||| self.stage is Instance && event is Instance
                ||| self.stage is Adapters && event is Adapters
                ||| self.stage is AdapterLuid && event is AdapterLuid
                ||| self.stage is Limits && event is Limits
                ||| self.stage is Opened && event is Opened
                ||| self.stage is FeatureLevel && event is FeatureLevel
                ||| self.stage is Device && event is Device
            },
    {
        match (&self.stage, event) {
            (Stage::Requirements { .. }, Event::Requirements(_)) => true,
            (Stage::Instance { .. }, Event::Instance(_)) => true,
            (Stage::Adapters { .. }, Event::Adapters(_)) => true,
            (Stage::AdapterLuid { .. }, Event::AdapterLuid(_)) => true,
            (Stage::Limits { .. }, Event::Limits(_)) => true,
            (Stage::Opened { .. }, Event::Opened(_)) => true,
            (Stage::FeatureLevel { .. }, Event::FeatureLevel(_)) => true,
            (Stage::Device { .. }, Event::Device(_)) => true,
            _ => false,
        }
    }
}

impl<D: Copy, Q> GraphicsInit<D, Q> {
    /// Takes what came of the last action, and decides on the next one.
    pub fn step<E, G>(self, event: Event<E, D, Q, G>) -> (result: (
        GraphicsInit<D, Q>,
        Action<E, D, Q, G>,
    ))
        requires
            self.awaits(event),
        ensures
            result == self.next(event),
            in_step(result),
    {
        let features = self.features;
        let (stage, action) = match (self.stage, event) {
            (Stage::Requirements { name }, Event::Requirements(Ok(requirements))) => (
                Stage::Instance { requirements: Some(requirements) },
                Action::InitInstance { descriptor: describe_instance(name) },
            ),
            (_, Event::Requirements(Err(code))) => (
                Stage::Finished,
                Action::Fail { error: OxrError::OpenXrError(code) },
            ),
            (Stage::Instance { requirements }, Event::Instance(Ok(()))) => (
                Stage::Adapters { requirements },
                Action::EnumerateAdapters,
            ),
            (_, Event::Instance(Err(error))) => (
                Stage::Finished,
                Action::Fail { error: OxrError::WgpuError(error) },
            ),
            (Stage::Adapters { requirements: Some(requirements) }, Event::Adapters(count)) => if
            count > 0 {
                (
                    Stage::AdapterLuid { requirements, count, adapter: 0 },
                    Action::DescribeAdapter { adapter: 0 },
                )
            } else {
                (
                    Stage::Finished,
                    Action::Fail {
                        error: OxrError::InitError(InitError::FailedToFindD3D12Adapter),
                    },
                )
            },
            (Stage::Adapters { requirements: None }, Event::Adapters(count)) => if count > 0 {
                (
                    Stage::Limits { requirements: None, adapter: 0 },
                    Action::AdoptInstance { adapter: 0 },
                )
            } else {
                (Stage::Finished, Action::Fail { error: OxrError::NoAvailableBackend })
            },
            (
                Stage::AdapterLuid { requirements, count, adapter },
                Event::AdapterLuid(luid),
            ) => if luid.high_part == requirements.adapter_luid.high_part && luid.low_part
                == requirements.adapter_luid.low_part {
                (
                    Stage::Limits { requirements: Some(requirements), adapter },
                    Action::AdoptInstance { adapter },
                )
            } else if adapter < count && adapter + 1 < count {
                (
                    Stage::AdapterLuid { requirements, count, adapter: adapter + 1 },
                    Action::DescribeAdapter { adapter: adapter + 1 },
                )
            } else {
                (
                    Stage::Finished,
                    Action::Fail {
                        error: OxrError::InitError(InitError::FailedToFindD3D12Adapter),
                    },
                )
            },
            (Stage::Limits { requirements, adapter }, Event::Limits(limits)) => {
                let handed = clone_limits(&limits);
                (
                    Stage::Opened { requirements, adapter, limits },
                    Action::OpenAdapter {
                        adapter,
                        features,
                        limits: handed,
                        memory_hints: MemoryHints::Performance,
                    },
                )
            },
            (
                Stage::Opened { requirements: Some(requirements), adapter, limits },
                Event::Opened(Ok(info)),
            ) => {
                let device = info.device;
                (
                    Stage::FeatureLevel { requirements, adapter, limits, info },
                    Action::GetFeatureLevel { device },
                )
            },
            (Stage::Opened { requirements: None, adapter, limits }, Event::Opened(Ok(_))) => (
                Stage::Device { info: None },
                Action::CreateDevice {
                    adapter,
                    descriptor: describe_device(None, features, limits),
                },
            ),
            (_, Event::Opened(Err(error))) => (
                Stage::Finished,
                Action::Fail { error: OxrError::WgpuError(error) },
            ),
            (
                Stage::FeatureLevel { requirements, adapter, limits, info },
                Event::FeatureLevel(level),
            ) => if meets_feature_level(level, requirements.min_feature_level) {
                (
                    Stage::Device { info: Some(info) },
                    Action::CreateDevice {
                        adapter,
                        descriptor: describe_device(Some(requirements), features, limits),
                    },
                )
            } else {
                (Stage::Finished, Action::Fail { error: OxrError::FailedGraphicsRequirements })
            },
            (Stage::Device { info }, Event::Device(Ok(graphics))) => (
                Stage::Finished,
                Action::Finish { graphics, info },
            ),
            (_, Event::Device(Err(error))) => (
                Stage::Finished,
                Action::Fail { error: OxrError::WgpuError(error) },
            ),
            _ => unreached(),
        };
        (GraphicsInit { features, stage }, action)
    }
}

impl D3D12 {
    /// Begins to set up the graphics for an OpenXR session on the given system.
    pub fn init_graphics<E, D, Q, G>(app_info: &AppInfo, system_id: u64) -> (result: (
        GraphicsInit<D, Q>,
        Action<E, D, Q, G>,
    ))
        ensures
            in_step(result),
            feature_names(result.0.features) == required_feature_names(),
            feature_names(result.0.features) == set![
                "TEXTURE_ADAPTER_SPECIFIC_FORMAT_FEATURES"@,
                "MULTIVIEW"@,
                "MULTI_DRAW_INDIRECT_COUNT"@,
            ],
            result.0.stage matches Stage::Requirements { name } && name@ == app_info.name@,
            result.1 == (Action::<E, D, Q, G>::GraphicsRequirements { system_id }),
    {
        (
            GraphicsInit {
                features: required_features(),
                stage: Stage::Requirements { name: app_info.name.clone() },
            },
            Action::GraphicsRequirements { system_id },
        )
    }

    /// Begins to set up graphics for use without an OpenXR session.
    pub fn init_fallback_graphics<E, D, Q, G>(app_info: &AppInfo) -> (result: (
        GraphicsInit<D, Q>,
        Action<E, D, Q, G>,
    ))
        ensures
            in_step(result),
            feature_names(result.0.features) == required_feature_names(),
            feature_names(result.0.features) == set![
                "TEXTURE_ADAPTER_SPECIFIC_FORMAT_FEATURES"@,
                "MULTIVIEW"@,
                "MULTI_DRAW_INDIRECT_COUNT"@,
            ],
            result.0.stage == (Stage::<D, Q>::Instance { requirements: None }),
            result.1 matches Action::InitInstance { descriptor } && descriptor
                == instance_descriptor(descriptor.name) && descriptor.name@ == app_info.name@,
            result.1 matches Action::InitInstance { descriptor } && {
                &&& descriptor.flags is BuildConfigWithEnv
                &&& descriptor.memory_budget_thresholds.for_resource_creation is None
                &&& descriptor.memory_budget_thresholds.for_device_loss is None
                &&& descriptor.backend_options is Default
            },
    {
        (
            GraphicsInit {
                features: required_features(),
                stage: Stage::Instance { requirements: None },
            },
            Action::InitInstance { descriptor: describe_instance(app_info.name.clone()) },
        )
    }
}

} // verus!
