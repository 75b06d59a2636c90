//! The launcher: a base command, and one method per subcommand that
//! appends the subcommand's tokens to a copy of it.

use crate::command::{
    args_contain, command_args, command_program, new_command, new_command_with_args, program_is,
    same_path,
};
use crate::encoder::{
    encode_tokens, extends, flag_values, key_value, lemma_extends_arguments,
    lemma_flag_values_empty, lemma_flag_values_push, ArgWriter,
};
use crate::options::{
    lemma_build_args_in_order, publish_texts, remove_network_tokens, volume_texts, BuildOpt,
    BuildOptView, CreateNetworkOpt, RunOpt, StopOpt,
};
use crate::text::decimal_string;
use command_run::Command;
use vstd::prelude::*;
use vstd::utf8::encode_utf8;

verus! {

/// Preset base commands that a [`Launcher`] can be constructed from.
#[derive(Clone, Copy, Debug, Eq, PartialEq)]
pub enum BaseCommand {
    /// Docker without sudo.
    Docker,
    /// Docker with sudo.
    SudoDocker,
    /// Podman.
    Podman,
}

impl BaseCommand {
    /// The program of the preset.
    pub open spec fn program(self) -> Seq<char> {
        match self {
            BaseCommand::Docker => "docker"@,
            BaseCommand::SudoDocker => "sudo"@,
            BaseCommand::Podman => "podman"@,
        }
    }

    /// The arguments that the preset starts with.
    pub open spec fn args(self) -> Seq<Seq<char>> {
        match self {
            BaseCommand::Docker => Seq::empty(),
            BaseCommand::SudoDocker => seq!["docker"@],
            BaseCommand::Podman => Seq::empty(),
        }
    }

    /// The engine that the preset runs.
    pub open spec fn engine(self) -> Seq<char> {
        match self {
            BaseCommand::Docker => "docker"@,
            BaseCommand::SudoDocker => "docker"@,
            BaseCommand::Podman => "podman"@,
        }
    }
}

/// A command is the one that a preset stands for: the preset's program, and
/// the preset's arguments and no others.
pub open spec fn is_preset(cmd: Command, preset: BaseCommand) -> bool {
    &&& command_program(cmd) == encode_utf8(preset.program())
    &&& command_args(cmd) == encode_tokens(preset.args())
}

/// A command names a program where its own program is that program, byte
/// for byte or as paths compare, or where one of its arguments is that
/// program, byte for byte.
pub open spec fn names_program(cmd: Command, program: Seq<char>) -> bool {
    ||| command_program(cmd) == encode_utf8(program)
    ||| same_path(command_program(cmd), encode_utf8(program))
    ||| command_args(cmd).contains(encode_utf8(program))
}

/// The command of a preset names the engine that the preset runs: `docker`
/// with or without sudo, `podman` for Podman.
pub proof fn lemma_preset_names_its_engine(cmd: Command, preset: BaseCommand)
    requires
        is_preset(cmd, preset),
    ensures
        names_program(cmd, preset.engine()),
{
    if preset == BaseCommand::SudoDocker {
        assert(command_args(cmd)[0] == encode_utf8("docker"@));
    }
}

/// Base container command used for building and running containers.
///
/// This allows variations such as "docker", "sudo docker", and "podman".
#[derive(Clone, Debug, Eq, PartialEq)]
pub struct Launcher {
    base_command: Command,
}

impl View for Launcher {
    type V = Command;

    /// A launcher is known by its base command.
    closed spec fn view(&self) -> Command {
        self.base_command
    }
}

impl Launcher {
    /// Create a new `Launcher` with the specified base [`Command`]. The
    /// base command is used to create all the other commands.
    pub fn new(base_command: Command) -> (launcher: Self)
        ensures
            launcher@ == base_command,
    {
        Self { base_command }
    }

    /// Whether the base command appears to be the given `program`. This
    /// checks if base command's program or any arguments match the input
    /// `program`.
    fn is_program(&self, program: &str) -> (found: bool)
        ensures
            found == names_program(self@, program@),
    {
        program_is(&self.base_command, program) || args_contain(&self.base_command, program)
    }

    /// Whether the base command appears to be docker. This checks if the
    /// program or any of the arguments in the base command match "docker".
    pub fn is_docker(&self) -> (found: bool)
        ensures
            found == names_program(self@, "docker"@),
    {
        self.is_program("docker")
    }

    /// Whether the base command appears to be podman. This checks if the
    /// program or any of the arguments in the base command match "podman".
    pub fn is_podman(&self) -> (found: bool)
        ensures
            found == names_program(self@, "podman"@),
    {
        self.is_program("podman")
    }

    /// Get the base [`Command`].
    pub fn base_command(&self) -> (base: &Command)
        ensures
            *base == self@,
    {
        &self.base_command
    }

    /// Create a [`Command`] for building a container.
    pub fn build(&self, opt: BuildOpt) -> (cmd: Command)
        ensures
            extends(self@, cmd, opt@.tokens()),
    {
        let mut w = ArgWriter::start(&self.base_command);
        w.token("build");

        // --build-arg
        w.key_values("--build-arg", &opt.build_args);

        // --file
        w.flag_value("--file", &opt.dockerfile);

        // --iidfile
        w.flag_value("--iidfile", &opt.iidfile);

        // --no-cache
        w.flag("--no-cache", opt.no_cache);

        // --pull
        w.flag("--pull", opt.pull);

        // --quiet
        w.flag("--quiet", opt.quiet);

        // --tag
        w.flag_value("--tag", &opt.tag);

        w.token(opt.context.as_str());
        w.finish()
    }

    /// Create a [`Command`] for creating a network.
    pub fn create_network(&self, opt: CreateNetworkOpt) -> (cmd: Command)
        ensures
            extends(self@, cmd, opt@.tokens()),
    {
        let mut w = ArgWriter::start(&self.base_command);
        w.pair("network", "create");
        w.token(opt.name.as_str());
        assert(w.added() =~= opt@.tokens());
        w.finish()
    }

    /// Create a [`Command`] for removing a network.
    pub fn remove_network(&self, name: &str) -> (cmd: Command)
        ensures
            extends(self@, cmd, remove_network_tokens(name@)),
    {
        let mut w = ArgWriter::start(&self.base_command);
        w.pair("network", "rm");
        w.token(name);
        assert(w.added() =~= remove_network_tokens(name@));
        w.finish()
    }

    /// Create a [`Command`] for running a container.
    pub fn run(&self, opt: RunOpt) -> (cmd: Command)
        ensures
            extends(self@, cmd, opt@.tokens()),
    {
        let mut w = ArgWriter::start(&self.base_command);
        w.token("run");

        // --detach
        w.flag("--detach", opt.detach);

        // --env
        w.key_values("--env", &opt.env);

        // --init
        w.flag("--init", opt.init);

        // --interactive
        w.flag("--interactive", opt.interactive);

        // --name
        w.flag_value("--name", &opt.name);

        // --network
        w.flag_value("--network", &opt.network);

        // --publish
        let ghost before = w.added();
        let ghost texts = publish_texts(opt@.publish);
        proof {
            lemma_flag_values_empty("--publish"@);
        }
        let n = opt.publish.len();
        for i in 0..n
            invariant
                n == opt.publish@.len(),
                texts == publish_texts(opt@.publish),
                w.wf(),
                w.base() == self@,
                w.added() == before + flag_values("--publish"@, texts.take(i as int)),
        {
            let value = opt.publish[i].arg();
            proof {
                assert(texts.take(i + 1) =~= texts.take(i as int).push(value@));
                lemma_flag_values_push("--publish"@, texts.take(i as int), value@);
            }
            w.pair("--publish", value.as_str());
        }
        assert(texts.take(n as int) =~= texts);

        // --read-only
        w.flag("--read-only", opt.read_only);

        // --rm
        w.flag("--rm", opt.remove);

        // --tty
        w.flag("--tty", opt.tty);

        // --user
        let user = match &opt.user {
            Some(user) => Some(user.arg()),
            None => None,
        };
        w.flag_value("--user", &user);

        // --volume
        let ghost before = w.added();
        let ghost texts = volume_texts(opt@.volumes);
        proof {
            lemma_flag_values_empty("--volume"@);
        }
        let n = opt.volumes.len();
        for i in 0..n
            invariant
                n == opt.volumes@.len(),
                texts == volume_texts(opt@.volumes),
                w.wf(),
                w.base() == self@,
                w.added() == before + flag_values("--volume"@, texts.take(i as int)),
        {
            let value = opt.volumes[i].arg();
            proof {
                assert(texts.take(i + 1) =~= texts.take(i as int).push(value@));
                lemma_flag_values_push("--volume"@, texts.take(i as int), value@);
            }
            w.pair("--volume", value.as_str());
        }
        assert(texts.take(n as int) =~= texts);

        // Add image and command+args
        w.token(opt.image.as_str());
        w.optional(&opt.command);
        w.tokens(&opt.args);
        w.finish()
    }

    /// Create a [`Command`] for stopping containers.
    pub fn stop(&self, opt: StopOpt) -> (cmd: Command)
        ensures
            extends(self@, cmd, opt@.tokens()),
    {
        let mut w = ArgWriter::start(&self.base_command);
        w.token("stop");

        let time = match opt.time {
            Some(seconds) => Some(decimal_string(seconds)),
            None => None,
        };
        w.flag_value("--time", &time);

        w.tokens(&opt.containers);
        w.finish()
    }
}

/// The command of a build lists the build-time variables right after the
/// arguments of the base command and the subcommand: for each entry of the
/// list, in the order of the list, `--build-arg` and then `key=value`, and
/// after the last of them `--file` where a Dockerfile is set.
pub proof fn lemma_build_lists_build_args(base: Command, cmd: Command, opt: BuildOptView)
    requires
        extends(base, cmd, opt.tokens()),
    ensures
        ({
            let args = command_args(cmd);
            let at = command_args(base).len() as int;
            let pairs = opt.build_args;
            let n = pairs.len() as int;
            &&& args.len() >= at + 2 + 2 * n
            &&& args.subrange(0, at) == command_args(base)
            &&& args[at] == encode_utf8("build"@)
            &&& forall|i: int|
                0 <= i < n ==> #[trigger] args[at + 1 + 2 * i] == encode_utf8("--build-arg"@)
            &&& forall|i: int|
                0 <= i < n ==> #[trigger] args[at + 2 + 2 * i] == encode_utf8(
                    key_value(pairs[i].0, pairs[i].1),
                )
            &&& opt.dockerfile is Some ==> args[at + 1 + 2 * n] == encode_utf8("--file"@)
        }),
{
    let args = command_args(cmd);
    let at = command_args(base).len() as int;
    let tokens = opt.tokens();
    let n = opt.build_args.len() as int;
    lemma_build_args_in_order(opt);
    lemma_extends_arguments(base, cmd, tokens);
    assert forall|i: int| 0 <= i < n implies #[trigger] args[at + 1 + 2 * i] == encode_utf8(
        "--build-arg"@,
    ) by {
        assert(args[at + (1 + 2 * i)] == encode_utf8(tokens[1 + 2 * i]));
    }
    assert forall|i: int| 0 <= i < n implies #[trigger] args[at + 2 + 2 * i] == encode_utf8(
        key_value(opt.build_args[i].0, opt.build_args[i].1),
    ) by {
        assert(args[at + (2 + 2 * i)] == encode_utf8(tokens[2 + 2 * i]));
    }
}

impl From<BaseCommand> for Launcher {
    /// The launcher of a preset: its base command is the preset's program
    /// with the preset's arguments.
    fn from(bc: BaseCommand) -> (launcher: Launcher)
        ensures
            is_preset(launcher@, bc),
    {
        let docker = "docker";
        let podman = "podman";
        let base_command = match bc {
            BaseCommand::Docker => new_command(docker),
            BaseCommand::SudoDocker => new_command_with_args("sudo", &[docker]),
            BaseCommand::Podman => new_command(podman),
        };
        assert(command_args(base_command) =~= encode_tokens(bc.args()));
        Self { base_command }
    }
}

/// A launcher holds a command that no specification can build, so what
/// `from` returns is stated on `from` itself.
impl vstd::std_specs::convert::FromSpecImpl<BaseCommand> for Launcher {
    open spec fn obeys_from_spec() -> bool {
        false
    }

    open spec fn from_spec(bc: BaseCommand) -> Self {
        arbitrary()
    }
}

} // verus!
