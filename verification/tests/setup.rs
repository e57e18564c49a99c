use bevy_openxr_d3d12::backend::D3D12;
use bevy_openxr_d3d12::error::{InitError, OxrError, XrResult};
use bevy_openxr_d3d12::flags::required_features;
use bevy_openxr_d3d12::init::{
    Action, AppInfo, BackendOptions, DeviceDescriptor, Event, GraphicsInit, GraphicsRequirements,
    InstanceDescriptor, InstanceFlags, Luid, MemoryBudgetThresholds, MemoryHints, Trace,
};
use bevy_openxr_d3d12::session::SessionCreateInfo;

type Error = &'static str;
type Made = Action<Error, u8, char, u64>;
type Came = Event<Error, u8, char, u64>;

const WANTED: Luid = Luid { low_part: 7, high_part: -3 };

/// A system that answers each action from its fields, and keeps a list of the actions.
struct System {
    requirements: Result<GraphicsRequirements, XrResult>,
    instance: Result<(), Error>,
    luids: Vec<Luid>,
    limits: wgpu::Limits,
    opened: Result<(u8, char), Error>,
    level: u32,
    device: Result<u64, Error>,
    seen: Vec<Made>,
}

fn luid(low_part: u32, high_part: i32) -> Luid {
    Luid { low_part, high_part }
}

fn system() -> System {
    System {
        requirements: Ok(GraphicsRequirements { adapter_luid: WANTED, min_feature_level: 0xc000 }),
        instance: Ok(()),
        luids: vec![luid(7, 3), luid(8, -3), WANTED, WANTED],
        limits: wgpu::Limits { max_bind_groups: 5, ..wgpu::Limits::default() },
        opened: Ok((3, 'q')),
        level: 0xc100,
        device: Ok(77),
        seen: vec![],
    }
}

impl System {
    fn answer(&self, action: &Made) -> Option<Came> {
        Some(match action {
            Action::GraphicsRequirements { .. } => Event::Requirements(self.requirements),
            Action::InitInstance { .. } => Event::Instance(self.instance),
            Action::EnumerateAdapters => Event::Adapters(self.luids.len()),
            Action::DescribeAdapter { adapter } => Event::AdapterLuid(self.luids[*adapter]),
            Action::AdoptInstance { .. } => Event::Limits(self.limits.clone()),
            Action::OpenAdapter { .. } => Event::Opened(
                self.opened.map(|(device, queue)| SessionCreateInfo { device, queue }),
            ),
            Action::GetFeatureLevel { .. } => Event::FeatureLevel(self.level),
            Action::CreateDevice { .. } => Event::Device(self.device),
            Action::Finish { .. } => return None,
            Action::Fail { .. } => return None,
        })
    }

    fn run(&mut self, start: (GraphicsInit<u8, char>, Made)) {
        let (mut init, mut action) = start;
        while let Some(event) = self.answer(&action) {
            assert!(init.expects(&event));
            self.seen.push(action);
            let next = init.step(event);
            init = next.0;
            action = next.1;
        }
        self.seen.push(action);
    }

    fn set_up(&mut self) {
        let app = AppInfo { name: String::from("demo") };
        self.run(D3D12::init_graphics(&app, 11));
    }

    fn set_up_fallback(&mut self) {
        let app = AppInfo { name: String::from("demo") };
        self.run(D3D12::init_fallback_graphics(&app));
    }

    fn end(&self) -> &Made {
        &self.seen[self.seen.len() - 1]
    }

    fn error(&self) -> &OxrError<Error> {
        match self.end() {
            Action::Fail { error } => error,
            _ => panic!("the setup did not fail"),
        }
    }
}

fn instance() -> InstanceDescriptor {
    let defaults = wgpu::MemoryBudgetThresholds::default();
    InstanceDescriptor {
        name: String::from("demo"),
        flags: InstanceFlags::BuildConfigWithEnv,
        memory_budget_thresholds: MemoryBudgetThresholds {
            for_resource_creation: defaults.for_resource_creation,
            for_device_loss: defaults.for_device_loss,
        },
        backend_options: BackendOptions::Default,
    }
}

fn finish_for_a_session() -> Made {
    Action::Finish { graphics: 77, info: Some(SessionCreateInfo { device: 3, queue: 'q' }) }
}

fn device(label: &'static str, limits: &wgpu::Limits) -> DeviceDescriptor {
    DeviceDescriptor {
        label,
        required_features: required_features(),
        required_limits: limits.clone(),
        memory_hints: MemoryHints::Performance,
        trace: Trace::Off,
        experimental_features: true,
    }
}

#[test]
fn a_setup_goes_through_all_its_actions() {
    let mut system = system();
    system.set_up();
    let limits = system.limits.clone();
    assert_eq!(
        system.seen,
        vec![
            Action::GraphicsRequirements { system_id: 11 },
            Action::InitInstance { descriptor: instance() },
            Action::EnumerateAdapters,
            Action::DescribeAdapter { adapter: 0 },
            Action::DescribeAdapter { adapter: 1 },
            Action::DescribeAdapter { adapter: 2 },
            Action::AdoptInstance { adapter: 2 },
            Action::OpenAdapter {
                adapter: 2,
                features: required_features(),
                limits: limits.clone(),
                memory_hints: MemoryHints::Performance,
            },
            Action::GetFeatureLevel { device: 3 },
            Action::CreateDevice { adapter: 2, descriptor: device("bevy_oxr device", &limits) },
            finish_for_a_session(),
        ]
    );
}

#[test]
fn a_fallback_setup_takes_the_first_adapter() {
    let mut system = system();
    system.set_up_fallback();
    let limits = system.limits.clone();
    assert_eq!(
        system.seen,
        vec![
            Action::InitInstance { descriptor: instance() },
            Action::EnumerateAdapters,
            Action::AdoptInstance { adapter: 0 },
            Action::OpenAdapter {
                adapter: 0,
                features: required_features(),
                limits: limits.clone(),
                memory_hints: MemoryHints::Performance,
            },
            Action::CreateDevice {
                adapter: 0,
                descriptor: device("bevy_oxr fallback device", &limits),
            },
            Action::Finish { graphics: 77, info: None },
        ]
    );
}

#[test]
fn an_error_of_the_runtime_ends_the_setup() {
    let mut system = system();
    system.requirements = Err(XrResult(-13));
    system.set_up();
    assert_eq!(*system.error(), OxrError::OpenXrError(XrResult(-13)));
    assert_eq!(system.seen.len(), 2);
}

#[test]
fn an_error_of_the_instance_ends_the_setup() {
    let mut system = system();
    system.instance = Err("no d3d12");
    system.set_up();
    assert_eq!(*system.error(), OxrError::WgpuError("no d3d12"));
    assert_eq!(system.seen.len(), 3);
    system.seen.clear();
    system.set_up_fallback();
    assert_eq!(*system.error(), OxrError::WgpuError("no d3d12"));
}

#[test]
fn no_matching_adapter_ends_the_setup() {
    let mut system = system();
    system.luids = vec![luid(7, 3), luid(8, -3)];
    system.set_up();
    assert_eq!(
        *system.error(),
        OxrError::InitError(InitError::FailedToFindD3D12Adapter)
    );
    assert!(system.seen.contains(&Action::DescribeAdapter { adapter: 1 }));
}

#[test]
fn no_adapter_at_all_ends_the_setup() {
    let mut system = system();
    system.luids = vec![];
    system.set_up();
    assert_eq!(
        *system.error(),
        OxrError::InitError(InitError::FailedToFindD3D12Adapter)
    );
    system.seen.clear();
    system.set_up_fallback();
    assert_eq!(*system.error(), OxrError::NoAvailableBackend);
}

#[test]
fn an_adapter_that_does_not_open_ends_the_setup() {
    let mut system = system();
    system.opened = Err("lost");
    system.set_up();
    assert_eq!(*system.error(), OxrError::WgpuError("lost"));
    system.seen.clear();
    system.set_up_fallback();
    assert_eq!(*system.error(), OxrError::WgpuError("lost"));
}

#[test]
fn too_low_a_feature_level_ends_the_setup() {
    let mut system = system();
    system.level = 0xb100;
    system.set_up();
    assert_eq!(*system.error(), OxrError::FailedGraphicsRequirements);
    assert!(!system.seen.iter().any(|action| matches!(action, Action::CreateDevice { .. })));
}

#[test]
fn the_required_feature_level_is_enough() {
    let mut system = system();
    system.level = 0xc000;
    system.set_up();
    assert_eq!(*system.end(), finish_for_a_session());
}

#[test]
fn a_fallback_setup_needs_no_feature_level() {
    let mut system = system();
    system.level = 0;
    system.set_up_fallback();
    assert_eq!(*system.end(), Action::Finish { graphics: 77, info: None });
    assert!(!system.seen.iter().any(|action| matches!(action, Action::GetFeatureLevel { .. })));
}

#[test]
fn a_device_that_wgpu_refuses_ends_the_setup() {
    let mut system = system();
    system.device = Err("refused");
    system.set_up();
    assert_eq!(*system.error(), OxrError::WgpuError("refused"));
    system.seen.clear();
    system.set_up_fallback();
    assert_eq!(*system.error(), OxrError::WgpuError("refused"));
}

#[test]
fn a_setup_expects_only_the_event_of_its_action() {
    let app = AppInfo { name: String::from("demo") };
    let (init, _) = D3D12::init_graphics::<Error, u8, char, u64>(&app, 1);
    assert!(init.expects(&Came::Requirements(Err(XrResult(-1)))));
    assert!(!init.expects(&Came::Instance(Ok(()))));
    let (ended, _) = init.step(Came::Requirements(Err(XrResult(-1))));
    assert!(!ended.expects(&Came::Requirements(Err(XrResult(-1)))));
    assert!(!ended.expects(&Came::Adapters(1)));
}

#[test]
fn a_setup_takes_a_bounded_number_of_steps() {
    let mut system = system();
    system.luids = vec![luid(0, 0); 40];
    system.luids.push(WANTED);
    system.set_up();
    assert_eq!(*system.end(), finish_for_a_session());
    assert_eq!(system.seen.len(), 41 + 7 + 1);
}

#[test]
fn adapters_beyond_the_chosen_one_do_not_matter() {
    let mut one = system();
    one.set_up();
    let mut other = system();
    other.luids = vec![luid(7, 3), luid(8, -3), WANTED, luid(1, 1)];
    other.set_up();
    assert_eq!(one.seen, other.seen);
    assert!(!one.seen.contains(&Action::DescribeAdapter { adapter: 3 }));
}

#[test]
fn a_session_gets_the_objects_of_the_opened_device() {
    let mut system = system();
    system.opened = Ok((9, 'z'));
    system.device = Ok(5);
    system.set_up();
    assert!(system.seen.contains(&Action::GetFeatureLevel { device: 9 }));
    assert_eq!(
        *system.end(),
        Action::Finish {
            graphics: 5,
            info: Some(SessionCreateInfo { device: 9, queue: 'z' }),
        }
    );
}
