use docker_command::command_run::Command;
use docker_command::{
    BaseCommand, BuildOpt, CreateNetworkOpt, Launcher, NameOrId, PublishPorts, RunOpt, StopOpt,
    UserAndGroup, Volume,
};

fn program_of(cmd: &Command) -> String {
    cmd.program.to_str().unwrap().to_string()
}

fn args_of(cmd: &Command) -> Vec<String> {
    cmd.args.iter().map(|arg| arg.to_str().unwrap().to_string()).collect()
}

#[test]
fn preset_docker_is_the_bare_program() {
    let launcher = Launcher::from(BaseCommand::Docker);
    assert_eq!(program_of(launcher.base_command()), "docker");
    assert!(args_of(launcher.base_command()).is_empty());
}

#[test]
fn preset_sudo_docker_puts_docker_behind_sudo() {
    let launcher = Launcher::from(BaseCommand::SudoDocker);
    assert_eq!(program_of(launcher.base_command()), "sudo");
    assert_eq!(args_of(launcher.base_command()), vec!["docker"]);
}

#[test]
fn preset_podman_is_the_bare_program() {
    let launcher = Launcher::from(BaseCommand::Podman);
    assert_eq!(program_of(launcher.base_command()), "podman");
    assert!(args_of(launcher.base_command()).is_empty());
    assert!(!launcher.is_docker());
}

#[test]
fn preset_by_into() {
    let launcher: Launcher = BaseCommand::SudoDocker.into();
    assert_eq!(launcher.base_command().command_line_lossy(), "sudo docker");
}

#[test]
fn new_keeps_the_base_command() {
    let base = Command::with_args("nerdctl", ["--namespace", "k8s.io"]);
    let launcher = Launcher::new(base.clone());
    assert_eq!(launcher.base_command(), &base);
    assert!(!launcher.is_docker());
    assert!(!launcher.is_podman());
}

#[test]
fn is_docker_looks_at_program_and_arguments() {
    assert!(Launcher::new(Command::new("docker")).is_docker());
    assert!(Launcher::new(Command::with_args("doas", ["-u", "ann", "docker"])).is_docker());
    assert!(!Launcher::new(Command::new("/usr/bin/docker")).is_docker());
    assert!(!Launcher::new(Command::with_args("sudo", ["dockerd"])).is_docker());
    assert!(!Launcher::new(Command::new("podman")).is_docker());
}

#[test]
fn is_docker_compares_the_program_as_a_path() {
    assert!(Launcher::new(Command::new("docker/")).is_docker());
    assert!(!Launcher::new(Command::with_args("sudo", ["docker/"])).is_docker());
}

#[test]
fn is_podman_looks_at_program_and_arguments() {
    assert!(Launcher::new(Command::new("podman")).is_podman());
    assert!(Launcher::new(Command::with_args("sudo", ["podman"])).is_podman());
    assert!(!Launcher::from(BaseCommand::Docker).is_podman());
    assert!(!Launcher::from(BaseCommand::SudoDocker).is_podman());
}

#[test]
fn build_scenario_without_iidfile() {
    let cmd = Launcher::from(BaseCommand::Docker).build(BuildOpt {
        build_args: vec![
            ("barg1".into(), "bval1".into()),
            ("barg2".into(), "bval2".into()),
        ],
        context: "/myContext".into(),
        dockerfile: Some("/myContext/myDockerfile".into()),
        iidfile: None,
        no_cache: true,
        pull: true,
        quiet: true,
        tag: Some("myTag".into()),
    });
    assert_eq!(
        cmd.command_line_lossy(),
        "docker build --build-arg barg1=bval1 --build-arg barg2=bval2 --file /myContext/myDockerfile --no-cache --pull --quiet --tag myTag /myContext"
    );
}

#[test]
fn build_args_come_in_input_order_between_build_and_file() {
    let pairs = vec![
        ("zeta", "1"),
        ("alpha", "2"),
        ("zeta", "3"),
        ("mid", ""),
    ];
    let cmd = Launcher::from(BaseCommand::Docker).build(BuildOpt {
        build_args: pairs.iter().map(|(k, v)| (k.to_string(), v.to_string())).collect(),
        context: ".".into(),
        dockerfile: Some("Dockerfile.dev".into()),
        ..Default::default()
    });
    let args = args_of(&cmd);
    assert_eq!(args[0], "build");
    for (i, (key, value)) in pairs.iter().enumerate() {
        assert_eq!(args[1 + 2 * i], "--build-arg");
        assert_eq!(args[2 + 2 * i], format!("{}={}", key, value));
    }
    assert_eq!(args[1 + 2 * pairs.len()], "--file");
    assert_eq!(args[2 + 2 * pairs.len()], "Dockerfile.dev");
    assert_eq!(args.iter().filter(|arg| *arg == "--build-arg").count(), pairs.len());
    assert_eq!(args.len(), 1 + 2 * pairs.len() + 2 + 1);
}

#[test]
fn build_with_defaults_is_subcommand_and_context() {
    let cmd = Launcher::from(BaseCommand::Podman).build(BuildOpt {
        context: "ctx".into(),
        ..Default::default()
    });
    assert_eq!(program_of(&cmd), "podman");
    assert_eq!(args_of(&cmd), vec!["build", "ctx"]);
}

#[test]
fn build_default_has_an_empty_context() {
    let opt = BuildOpt::default();
    assert!(opt.build_args.is_empty());
    assert_eq!(opt.context, "");
    assert_eq!(opt.dockerfile, None);
    assert_eq!(opt.iidfile, None);
    assert!(!opt.no_cache && !opt.pull && !opt.quiet);
    assert_eq!(opt.tag, None);
    let cmd = Launcher::from(BaseCommand::Docker).build(opt);
    assert_eq!(args_of(&cmd), vec!["build", ""]);
}

#[test]
fn build_flags_follow_the_fixed_order() {
    let cmd = Launcher::from(BaseCommand::Docker).build(BuildOpt {
        tag: Some("t".into()),
        quiet: true,
        iidfile: Some("iid".into()),
        context: "c".into(),
        ..Default::default()
    });
    assert_eq!(args_of(&cmd), vec!["build", "--iidfile", "iid", "--quiet", "--tag", "t", "c"]);
}

#[test]
fn tokens_are_passed_on_without_quoting_or_splitting() {
    let cmd = Launcher::from(BaseCommand::Docker).build(BuildOpt {
        build_args: vec![("MSG".into(), "hello world; rm -rf 'x'".into())],
        context: "/my context/ünïcode".into(),
        tag: Some("a b".into()),
        ..Default::default()
    });
    assert_eq!(
        args_of(&cmd),
        vec![
            "build",
            "--build-arg",
            "MSG=hello world; rm -rf 'x'",
            "--tag",
            "a b",
            "/my context/ünïcode",
        ]
    );
}

#[test]
fn base_tokens_come_first() {
    let cmd = Launcher::from(BaseCommand::SudoDocker).stop(StopOpt {
        containers: vec!["abc".into()],
        time: None,
    });
    assert_eq!(program_of(&cmd), "sudo");
    assert_eq!(args_of(&cmd), vec!["docker", "stop", "abc"]);
}

#[test]
fn launcher_is_left_as_it_was() {
    let launcher = Launcher::from(BaseCommand::SudoDocker);
    let first = launcher.remove_network("one");
    let second = launcher.remove_network("two");
    assert_eq!(args_of(&first), vec!["docker", "network", "rm", "one"]);
    assert_eq!(args_of(&second), vec!["docker", "network", "rm", "two"]);
    assert_eq!(args_of(launcher.base_command()), vec!["docker"]);
}

#[test]
fn settings_of_the_base_command_are_carried_over() {
    let mut base = Command::new("docker");
    base.capture = true;
    base.log_command = false;
    base.set_dir("/srv");
    let launcher = Launcher::new(base.clone());
    let cmd = launcher.create_network(CreateNetworkOpt { name: "net".into() });
    let mut expected = base;
    expected.add_arg_pair("network", "create");
    expected.add_arg("net");
    assert_eq!(cmd, expected);
}

#[test]
fn create_network_default_has_an_empty_name() {
    let opt = CreateNetworkOpt::default();
    assert_eq!(opt.name, "");
    let cmd = Launcher::from(BaseCommand::Docker).create_network(opt);
    assert_eq!(args_of(&cmd), vec!["network", "create", ""]);
}

#[test]
fn run_with_defaults_is_subcommand_and_image() {
    let cmd = Launcher::from(BaseCommand::Docker).run(RunOpt {
        image: "alpine:latest".into(),
        ..Default::default()
    });
    assert_eq!(args_of(&cmd), vec!["run", "alpine:latest"]);
}

#[test]
fn run_default_has_nothing_set() {
    let opt = RunOpt::default();
    assert_eq!(opt.image, "");
    assert!(opt.env.is_empty() && opt.publish.is_empty() && opt.volumes.is_empty());
    assert!(!opt.detach && !opt.init && !opt.interactive);
    assert!(!opt.read_only && !opt.remove && !opt.tty);
    assert_eq!(opt.name, None);
    assert_eq!(opt.network, None);
    assert_eq!(opt.user, None);
    assert_eq!(opt.command, None);
    assert!(opt.args.is_empty());
}

#[test]
fn run_command_and_arguments_follow_the_image() {
    let cmd = Launcher::from(BaseCommand::Docker).run(RunOpt {
        image: "alpine:latest".into(),
        command: Some("echo".into()),
        args: vec!["hello".into(), "world".into()],
        ..Default::default()
    });
    assert_eq!(cmd.command_line_lossy(), "docker run alpine:latest echo hello world");
}

#[test]
fn run_arguments_without_a_command() {
    let cmd = Launcher::from(BaseCommand::Docker).run(RunOpt {
        image: "img".into(),
        args: vec!["--version".into()],
        remove: true,
        ..Default::default()
    });
    assert_eq!(args_of(&cmd), vec!["run", "--rm", "img", "--version"]);
}

#[test]
fn run_env_is_neither_sorted_nor_deduplicated() {
    let cmd = Launcher::from(BaseCommand::Docker).run(RunOpt {
        image: "img".into(),
        env: vec![
            ("B".into(), "2".into()),
            ("A".into(), "1".into()),
            ("B".into(), "2".into()),
        ],
        ..Default::default()
    });
    assert_eq!(
        args_of(&cmd),
        vec!["run", "--env", "B=2", "--env", "A=1", "--env", "B=2", "img"]
    );
}

#[test]
fn run_user_by_ids() {
    let cmd = Launcher::from(BaseCommand::Docker).run(RunOpt {
        image: "img".into(),
        user: Some(UserAndGroup { user: NameOrId::Id(1000), group: None }),
        ..Default::default()
    });
    assert_eq!(args_of(&cmd), vec!["run", "--user", "1000", "img"]);
}

#[test]
fn run_publish_and_volumes_keep_their_order() {
    let cmd = Launcher::from(BaseCommand::Docker).run(RunOpt {
        image: "img".into(),
        publish: vec![
            PublishPorts { container: 2.into(), host: None, ip: None },
            PublishPorts { container: 1.into(), host: None, ip: None },
        ],
        volumes: vec![
            Volume { src: "b".into(), dst: "/b".into(), ..Default::default() },
            Volume { src: "a".into(), dst: "/a".into(), read_write: true, ..Default::default() },
        ],
        ..Default::default()
    });
    assert_eq!(
        args_of(&cmd),
        vec![
            "run", "--publish", "2", "--publish", "1", "--volume", "b:/b:ro", "--volume",
            "a:/a:rw", "img",
        ]
    );
}

#[test]
fn stop_without_time() {
    let cmd = Launcher::from(BaseCommand::Docker).stop(StopOpt {
        containers: vec!["abc".into(), "def".into()],
        time: None,
    });
    assert_eq!(cmd.command_line_lossy(), "docker stop abc def");
}

#[test]
fn stop_with_time_zero_and_no_containers() {
    let cmd = Launcher::from(BaseCommand::Docker).stop(StopOpt {
        containers: Vec::new(),
        time: Some(0),
    });
    assert_eq!(args_of(&cmd), vec!["stop", "--time", "0"]);
}

#[test]
fn stop_default_is_the_subcommand_alone() {
    let opt = StopOpt::default();
    assert!(opt.containers.is_empty());
    assert_eq!(opt.time, None);
    let cmd = Launcher::from(BaseCommand::Docker).stop(opt);
    assert_eq!(args_of(&cmd), vec!["stop"]);
}

#[test]
fn equal_options_give_equal_commands() {
    let make = || RunOpt {
        tty: true,
        image: "img".into(),
        detach: true,
        name: Some("n".into()),
        ..Default::default()
    };
    let other = RunOpt {
        name: Some("n".into()),
        detach: true,
        image: "img".into(),
        tty: true,
        ..Default::default()
    };
    let launcher = Launcher::from(BaseCommand::Docker);
    assert_eq!(launcher.run(make()), launcher.run(other));
    assert_eq!(
        args_of(&launcher.run(make())),
        vec!["run", "--detach", "--name", "n", "--tty", "img"]
    );
}
