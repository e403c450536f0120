use kaps::container::cgroups::{
    cpu_settings, memory_settings, CpuLimits, CpuSetting, MemoryLimits, MemorySetting, Resources,
};
use kaps::container::command::Command;
use kaps::container::environment::Environment;
use kaps::container::launcher::{Action, BundleSpec, Container, Event, Phase};
use kaps::container::mounts::Mounts;
use kaps::container::namespaces::{Namespace, NamespaceKind, Namespaces};
use kaps::container::spec::{new_runtime_config, ProcessConfig, ANNOTATION_CREATED};
use kaps::container::state::{ContainerState, Containers, Status};
use kaps::container::Error;
use kaps::image::config::{ContainerConfig, ImageConfig};

fn strings(v: &[&str]) -> Vec<String> {
    v.iter().map(|s| s.to_string()).collect()
}

fn process_with_args(args: &[&str]) -> ProcessConfig {
    ProcessConfig { args: Some(strings(args)), env: None, cwd: None }
}

#[test]
fn test_command_from_process() {
    let test_process = process_with_args(&["echo", "hello world"]);
    let test_command = Command::from_process(&Some(test_process));
    assert_eq!(test_command.arg0, "echo");
    assert_eq!(test_command.args[0], "hello world");
}

#[test]
fn command_defaults_to_sh() {
    let command = Command::from_process(&None);
    assert_eq!(command.arg0, "sh");
    assert!(command.args.is_empty());
    let empty = Command::from_process(&Some(process_with_args(&[])));
    assert_eq!(empty.arg0, "sh");
    assert!(empty.args.is_empty());
}

#[test]
fn test_environment_from_process() {
    let test_process = ProcessConfig {
        args: None,
        env: Some(strings(&[
            "PATH=/usr/local/sbin:/usr/local/bin:/usr/sbin:/usr/bin:/sbin:/bin",
            "TERM=xterm",
        ])),
        cwd: None,
    };
    let test_environment = Environment::from_process(&Some(test_process));

    assert_eq!(
        test_environment.vars[0],
        (
            "PATH".to_string(),
            "/usr/local/sbin:/usr/local/bin:/usr/sbin:/usr/bin:/sbin:/bin".to_string()
        )
    );
    assert_eq!(test_environment.vars[1], ("TERM".to_string(), "xterm".to_string()));
}

#[test]
fn environment_entry_without_separator_has_empty_value() {
    let process = ProcessConfig { args: None, env: Some(strings(&["LONELY", "A=b=c"])), cwd: None };
    let env = Environment::from_process(&Some(process));
    assert_eq!(env.vars[0], ("LONELY".to_string(), String::new()));
    assert_eq!(env.vars[1], ("A".to_string(), "b=c".to_string()));
    assert_eq!(env.get(), vec![("LONELY", ""), ("A", "b=c")]);
}

fn image_config_for_process() -> ImageConfig {
    ImageConfig {
        created: None,
        config: Some(ContainerConfig {
            cmd: Some(strings(&["-c", "ls"])),
            entrypoint: Some(strings(&["bash"])),
            env: Some(strings(&["PATH=/usr/local/sbin"])),
            working_dir: Some("/home".to_string()),
            labels: None,
        }),
        diff_ids: vec![],
    }
}

#[test]
fn test_process_config() {
    let image_config = image_config_for_process();

    let spec = new_runtime_config(Some(&image_config));

    assert!(spec.is_ok());

    let spec = spec.unwrap();

    assert!(spec.process.is_some());
    if let Some(process) = &spec.process {
        assert!(process.args.is_some());
        if let Some(args) = &process.args {
            assert_eq!(*args, ["bash", "-c", "ls"]);
        }
        assert!(process.env.is_some());
        if let Some(env) = &process.env {
            assert_eq!(*env, ["PATH=/usr/local/sbin"]);
        }
        assert!(process.cwd.is_some());
        assert_eq!(process.cwd.as_deref().unwrap(), "/home");
    }
    assert_eq!(spec.version.as_deref(), Some("1.0"));
}

#[test]
fn test_annotations_config() {
    let image_config = ImageConfig {
        created: Some("01-12".to_string()),
        config: Some(ContainerConfig::empty()),
        diff_ids: vec![],
    };

    let spec = new_runtime_config(Some(&image_config));

    assert!(spec.is_ok());

    let spec = spec.unwrap();

    assert!(spec.annotations.is_some());
    if let Some(annotations) = &spec.annotations {
        let created = annotations.get(ANNOTATION_CREATED);
        assert!(created.is_some());
        if let Some(created) = created {
            assert_eq!(created, &String::from("01-12"));
        }
    }
}

#[test]
fn labels_never_override_created() {
    let mut config = ContainerConfig::empty();
    config.labels = Some(vec![
        ("a".to_string(), "1".to_string()),
        (ANNOTATION_CREATED.to_string(), "label".to_string()),
        ("a".to_string(), "2".to_string()),
    ]);
    let image_config =
        ImageConfig { created: Some("2020".to_string()), config: Some(config), diff_ids: vec![] };
    let spec = new_runtime_config(Some(&image_config)).unwrap();
    let annotations = spec.annotations.unwrap();
    assert_eq!(annotations.get(ANNOTATION_CREATED), Some(&"2020".to_string()));
    assert_eq!(annotations.get("a"), Some(&"2".to_string()));
    assert_eq!(annotations.entries().len(), 2);
}

#[test]
fn default_spec_without_image_config() {
    let spec = new_runtime_config(None).unwrap();
    assert!(spec.version.is_none());
    assert!(spec.process.is_none());
    assert!(spec.annotations.is_none());
}

#[test]
fn empty_arguments_are_left_unset() {
    let mut image_config = image_config_for_process();
    if let Some(config) = &mut image_config.config {
        config.entrypoint = None;
        config.cmd = Some(vec![]);
    }
    let spec = new_runtime_config(Some(&image_config)).unwrap();
    assert!(spec.process.unwrap().args.is_none());
}

#[test]
fn namespaces_leave_out_user() {
    let kinds = Some(vec![
        NamespaceKind::Pid,
        NamespaceKind::User,
        NamespaceKind::Network,
        NamespaceKind::Mount,
    ]);
    let namespaces = Namespaces::from_kinds(&kinds);
    assert_eq!(*namespaces.get(), vec![Namespace::Pid, Namespace::Net, Namespace::Mount]);
    assert!(Namespaces::from_kinds(&None).get().is_empty());
}

#[test]
fn default_mounts_and_their_commands() {
    let mounts = Mounts::default();
    let args = mounts.apply_args();
    assert_eq!(args.len(), 3);
    assert_eq!(args[0], strings(&["-t", "devtmpfs", "dev", "/dev"]));
    assert_eq!(args[1], strings(&["-t", "proc", "proc", "/proc"]));
    assert_eq!(args[2], strings(&["-t", "sysfs", "sys", "/sys"]));
    assert_eq!(
        mounts.cleanup_paths("/bundle/rootfs"),
        strings(&["/bundle/rootfs/dev", "/bundle/rootfs/proc", "/bundle/rootfs/sys"])
    );
}

#[test]
fn cgroup_settings_skip_absent_and_zero() {
    let cpu = CpuLimits {
        shares: Some(1024),
        period: Some(0),
        quota: Some(-1),
        realtime_runtime: None,
        realtime_period: Some(5),
    };
    assert_eq!(
        cpu_settings(&cpu),
        vec![CpuSetting::Shares(1024), CpuSetting::CfsQuotaUs(-1), CpuSetting::RtPeriodUs(5)]
    );
    let memory = MemoryLimits {
        limit: Some(1 << 20),
        swappiness: Some(0),
        kernel: None,
        kernel_tcp: Some(7),
        reservation: Some(0),
        disable_oom_killer: Some(false),
    };
    assert_eq!(
        memory_settings(&memory),
        vec![
            MemorySetting::LimitInBytes(1 << 20),
            MemorySetting::KmemTcpLimitInBytes(7),
            MemorySetting::DisableOomKiller(false),
        ]
    );
}

#[test]
fn should_create_state_file() {
    let container_id = "test1";
    let mut containers = Containers::new("/tmp/kaps", vec![]);

    let state = ContainerState::new(container_id, "fake/path/to/bundle", &mut containers).unwrap();

    assert!(containers.contains(container_id));
    assert_eq!(state.dir("/tmp/kaps"), "/tmp/kaps/test1");
    assert_eq!(state.state_file("/tmp/kaps"), "/tmp/kaps/test1/state.json");
    assert_eq!(state.status(), Status::Creating);
    assert_eq!(state.pid, 0);
    assert_eq!(state.oci_version, "0.2.0");

    state.remove(&mut containers);
}

#[test]
fn should_remove_state_file() {
    let container_id = "test2";
    let mut containers = Containers::new("/tmp/kaps", vec!["other".to_string()]);

    let state = ContainerState::new(container_id, "fake/path/to/bundle", &mut containers).unwrap();

    state.remove(&mut containers);

    assert!(!containers.contains(container_id));
    assert!(containers.contains("other"));
}

#[test]
fn should_update_runtime_status() {
    let mut containers = Containers::new("/tmp/kaps", vec![]);
    let mut state = ContainerState::new("test3", "fake/path/to/bundle", &mut containers).unwrap();
    state.set_status(Status::Stopped);
    assert_eq!(state.status(), Status::Stopped);
    assert_eq!(state.status().as_str(), "stopped");
    assert_eq!(state.id, "test3");
}

#[test]
fn second_container_with_same_id_fails() {
    let mut containers = Containers::new("/var/run/kaps/containers", vec![]);
    assert!(ContainerState::new("dup", "/bundle", &mut containers).is_ok());
    let second = ContainerState::new("dup", "/bundle", &mut containers);
    assert!(matches!(second, Err(Error::ContainerExists(ref id)) if id == "dup"));
    assert!(containers.contains("dup"));
}

fn bundle_spec() -> BundleSpec {
    BundleSpec {
        root_path: None,
        process: Some(process_with_args(&["/bin/true"])),
        namespaces: Some(vec![NamespaceKind::Pid, NamespaceKind::User]),
        resources: Some(Resources {
            cpu: Some(CpuLimits {
                shares: Some(2),
                period: None,
                quota: None,
                realtime_runtime: None,
                realtime_period: None,
            }),
            memory: None,
        }),
    }
}

#[test]
fn container_from_bundle() {
    let mut containers = Containers::new("/run", vec![]);
    let container = Container::new("/b", "c1", &bundle_spec(), &mut containers).unwrap();
    assert_eq!(container.rootfs, "/b/rootfs");
    assert_eq!(container.command.arg0, "/bin/true");
    assert_eq!(*container.namespaces.get(), vec![Namespace::Pid]);
    let mut spec = bundle_spec();
    spec.root_path = Some("root".to_string());
    assert!(matches!(
        Container::new("/b", "c1", &spec, &mut containers),
        Err(Error::ContainerExists(_))
    ));
    let other = Container::new("/b", "c2", &spec, &mut containers).unwrap();
    assert_eq!(other.rootfs, "/b/root");
}

#[test]
fn run_that_exits_cleanly() {
    let mut containers = Containers::new("/run", vec![]);
    let mut container = Container::new("/b", "ok", &bundle_spec(), &mut containers).unwrap();
    let (mut run, action) = container.start_run();
    match action {
        Action::CreateCgroups { cpu, memory } => {
            assert_eq!(cpu, Some(vec![CpuSetting::Shares(2)]));
            assert!(memory.is_none());
        }
        other => panic!("unexpected {:?}", other),
    }
    assert!(matches!(container.run_step(&mut run, Event::Done), Action::Spawn));
    assert!(matches!(container.run_step(&mut run, Event::Spawned(42)), Action::RecordRunning));
    assert!(matches!(container.run_step(&mut run, Event::Done), Action::Wait));
    assert_eq!(container.state.pid, 42);
    assert_eq!(container.state.status, Status::Running);
    assert!(matches!(container.run_step(&mut run, Event::Exited(Some(0))), Action::DeleteCgroups));
    match container.run_step(&mut run, Event::Done) {
        Action::Unmount(paths) => assert_eq!(paths, strings(&["/b/rootfs/dev", "/b/rootfs/proc", "/b/rootfs/sys"])),
        other => panic!("unexpected {:?}", other),
    }
    assert!(matches!(container.run_step(&mut run, Event::Done), Action::RemoveState));
    assert!(matches!(container.run_step(&mut run, Event::Done), Action::Finish(Ok(()))));
    assert_eq!(run.phase, Phase::Finished);
}

#[test]
fn run_with_failed_spawn_cleans_up() {
    let mut containers = Containers::new("/run", vec![]);
    let mut container = Container::new("/b", "bad", &bundle_spec(), &mut containers).unwrap();
    let (mut run, _) = container.start_run();
    container.run_step(&mut run, Event::Done);
    assert!(matches!(
        container.run_step(&mut run, Event::Failed("no such file".to_string())),
        Action::DeleteCgroups
    ));
    assert!(matches!(container.run_step(&mut run, Event::Done), Action::Unmount(_)));
    assert!(matches!(
        container.run_step(&mut run, Event::Failed("not mounted".to_string())),
        Action::RemoveState
    ));
    match container.run_step(&mut run, Event::Done) {
        Action::Finish(Err(Error::ContainerSpawnCommand(m))) => assert_eq!(m, "no such file"),
        other => panic!("unexpected {:?}", other),
    }
    assert!(run.cgroups_deleted && run.mounts_cleaned && run.state_removed);
}

#[test]
fn run_with_failed_cgroups_skips_spawn() {
    let mut containers = Containers::new("/run", vec![]);
    let mut container = Container::new("/b", "cg", &bundle_spec(), &mut containers).unwrap();
    let (mut run, _) = container.start_run();
    assert!(matches!(
        container.run_step(&mut run, Event::Failed("read-only".to_string())),
        Action::DeleteCgroups
    ));
    assert!(matches!(container.run_step(&mut run, Event::Done), Action::RemoveState));
    assert!(matches!(
        container.run_step(&mut run, Event::Done),
        Action::Finish(Err(Error::Cgroup(_)))
    ));
    assert!(!run.spawn_attempted && run.cgroups_deleted);
}

#[test]
fn run_reports_exit_code_and_wait_failure() {
    let mut containers = Containers::new("/run", vec![]);
    let mut container = Container::new("/b", "exit", &bundle_spec(), &mut containers).unwrap();
    let (mut run, _) = container.start_run();
    container.run_step(&mut run, Event::Done);
    container.run_step(&mut run, Event::Spawned(7));
    container.run_step(&mut run, Event::Done);
    container.run_step(&mut run, Event::Exited(Some(3)));
    container.run_step(&mut run, Event::Done);
    container.run_step(&mut run, Event::Done);
    assert!(matches!(
        container.run_step(&mut run, Event::Done),
        Action::Finish(Err(Error::ContainerExit(3)))
    ));

    let mut waited = Container::new("/b", "wait", &bundle_spec(), &mut containers).unwrap();
    let (mut run, _) = waited.start_run();
    waited.run_step(&mut run, Event::Done);
    waited.run_step(&mut run, Event::Spawned(8));
    waited.run_step(&mut run, Event::Done);
    assert!(matches!(
        waited.run_step(&mut run, Event::Failed("interrupted".to_string())),
        Action::DeleteCgroups
    ));
    waited.run_step(&mut run, Event::Done);
    waited.run_step(&mut run, Event::Done);
    assert!(matches!(
        waited.run_step(&mut run, Event::Failed("busy".to_string())),
        Action::Finish(Err(Error::ContainerWaitCommand(_)))
    ));
}

#[test]
fn run_reports_teardown_failure() {
    let mut containers = Containers::new("/run", vec![]);
    let mut container = Container::new("/b", "td", &bundle_spec(), &mut containers).unwrap();
    let (mut run, _) = container.start_run();
    container.run_step(&mut run, Event::Done);
    container.run_step(&mut run, Event::Spawned(9));
    container.run_step(&mut run, Event::Done);
    container.run_step(&mut run, Event::Exited(Some(0)));
    container.run_step(&mut run, Event::Done);
    container.run_step(&mut run, Event::Failed("busy".to_string()));
    assert!(matches!(
        container.run_step(&mut run, Event::Done),
        Action::Finish(Err(Error::Unmount(_)))
    ));
}

#[test]
fn default_container_state() {
    let state = ContainerState::default();
    assert_eq!(state.status, Status::Creating);
    assert_eq!(state.pid, 0);
    assert_eq!(state.oci_version, "0.2.0");
    assert_eq!(Status::default(), Status::Creating);
}

#[test]
fn run_with_unrecorded_state_still_waits_and_cleans_up() {
    let mut containers = Containers::new("/run", vec![]);
    let mut container = Container::new("/b", "rec", &bundle_spec(), &mut containers).unwrap();
    let (mut run, _) = container.start_run();
    container.run_step(&mut run, Event::Done);
    container.run_step(&mut run, Event::Spawned(10));
    assert!(matches!(
        container.run_step(&mut run, Event::Failed("read-only".to_string())),
        Action::Wait
    ));
    assert!(matches!(container.run_step(&mut run, Event::Exited(Some(0))), Action::DeleteCgroups));
    container.run_step(&mut run, Event::Done);
    container.run_step(&mut run, Event::Done);
    assert!(matches!(
        container.run_step(&mut run, Event::Done),
        Action::Finish(Err(Error::WriteStateFile(_)))
    ));
}
