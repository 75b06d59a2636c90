//! The settings of each subcommand, and the tokens that they stand for.
//!
//! Every field can be set or left at its default independently of the
//! others. The order of the tokens is fixed by the subcommand, whatever
//! order the fields were filled in, so that equal settings always give the
//! same tokens.

use crate::encoder::{
    flag, flag_value, flag_values, key_value, key_values, lemma_flag_values, optional,
};
use crate::text::{decimal, pair_texts, text_of, texts};
use crate::values::{
    PublishPorts, PublishPortsView, UserAndGroup, UserAndGroupView, Volume, VolumeView,
};
use vstd::prelude::*;

verus! {

/// Options for building a container.
#[derive(Clone, Debug, Eq, PartialEq)]
pub struct BuildOpt {
    /// Build-time variables.
    pub build_args: Vec<(String, String)>,
    /// Root directory containing files that can be pulled into the
    /// container.
    pub context: String,
    /// Dockerfile to build. This must be somewhere in the `context`
    /// directory. If not set (the default) then `<context>/Dockerfile` is
    /// used.
    pub dockerfile: Option<String>,
    /// If set, the image ID will be written to this path.
    pub iidfile: Option<String>,
    /// Do not use cache when building the image.
    pub no_cache: bool,
    /// Always attempt to pull a newer version of the image.
    pub pull: bool,
    /// Suppress the build output and print image ID on success.
    pub quiet: bool,
    /// If set, the image will be tagged with this name.
    pub tag: Option<String>,
}

/// What a [`BuildOpt`] holds, with every string as text.
pub struct BuildOptView {
    /// The build-time variables, each a key and its value, in their order.
    pub build_args: Seq<(Seq<char>, Seq<char>)>,
    /// The context directory.
    pub context: Seq<char>,
    /// The Dockerfile, if set.
    pub dockerfile: Option<Seq<char>>,
    /// The file that the image ID is written to, if set.
    pub iidfile: Option<Seq<char>>,
    /// Whether the cache is left unused.
    pub no_cache: bool,
    /// Whether a newer image is always pulled.
    pub pull: bool,
    /// Whether the build output is suppressed.
    pub quiet: bool,
    /// The tag of the image, if set.
    pub tag: Option<Seq<char>>,
}

impl View for BuildOpt {
    type V = BuildOptView;

    open spec fn view(&self) -> BuildOptView {
        BuildOptView {
            build_args: pair_texts(self.build_args@),
            context: self.context@,
            dockerfile: text_of(self.dockerfile),
            iidfile: text_of(self.iidfile),
            no_cache: self.no_cache,
            pull: self.pull,
            quiet: self.quiet,
            tag: text_of(self.tag),
        }
    }
}

impl BuildOptView {
    /// The tokens of a build: the subcommand, the build-time variables in
    /// the order of the list, the other settings in their fixed order, and
    /// the context last.
    pub open spec fn tokens(self) -> Seq<Seq<char>> {
        seq!["build"@]
            + flag_values("--build-arg"@, key_values(self.build_args))
            + flag_value("--file"@, self.dockerfile)
            + flag_value("--iidfile"@, self.iidfile)
            + flag("--no-cache"@, self.no_cache)
            + flag("--pull"@, self.pull)
            + flag("--quiet"@, self.quiet)
            + flag_value("--tag"@, self.tag)
            + seq![self.context]
    }
}

/// A build lists its build-time variables right after the subcommand: for
/// each entry of the list, in the order of the list, the flag `--build-arg`
/// and then `key=value`. Nothing else stands between the subcommand and
/// them, and what follows them begins with `--file` where a Dockerfile is
/// set.
pub proof fn lemma_build_args_in_order(opt: BuildOptView)
    ensures
        ({
            let tokens = opt.tokens();
            let pairs = opt.build_args;
            let n = pairs.len() as int;
            &&& tokens.len() >= 2 + 2 * n
            &&& tokens[0] == "build"@
            &&& tokens.subrange(1, 1 + 2 * n) == flag_values("--build-arg"@, key_values(pairs))
            &&& forall|i: int| 0 <= i < n ==> #[trigger] tokens[1 + 2 * i] == "--build-arg"@
            &&& forall|i: int|
                0 <= i < n ==> #[trigger] tokens[2 + 2 * i] == key_value(pairs[i].0, pairs[i].1)
            &&& opt.dockerfile matches Some(file) ==> {
                &&& tokens[1 + 2 * n] == "--file"@
                &&& tokens[2 + 2 * n] == file
            }
        }),
{
    let tokens = opt.tokens();
    let pairs = flag_values("--build-arg"@, key_values(opt.build_args));
    let head = seq!["build"@] + pairs;
    lemma_flag_values("--build-arg"@, key_values(opt.build_args));
    assert forall|i: int| 0 <= i < opt.build_args.len() implies #[trigger] tokens[2 + 2 * i]
        == key_value(opt.build_args[i].0, opt.build_args[i].1) by {
        assert(tokens[2 + 2 * i] == head[2 + 2 * i]);
        assert(head[2 + 2 * i] == pairs[2 * i + 1]);
    }
}

impl Default for BuildOpt {
    /// No build-time variables, an empty context, and nothing set.
    fn default() -> (opt: Self)
        ensures
            opt@ == (BuildOptView {
                build_args: Seq::empty(),
                context: Seq::empty(),
                dockerfile: None,
                iidfile: None,
                no_cache: false,
                pull: false,
                quiet: false,
                tag: None,
            }),
    {
        let opt = BuildOpt {
            build_args: Vec::new(),
            context: String::new(),
            dockerfile: None,
            iidfile: None,
            no_cache: false,
            pull: false,
            quiet: false,
            tag: None,
        };
        assert(opt@.build_args =~= Seq::empty());
        opt
    }
}

/// Options for creating a network.
#[derive(Clone, Debug, Eq, PartialEq)]
pub struct CreateNetworkOpt {
    /// Network name.
    pub name: String,
}

/// What a [`CreateNetworkOpt`] holds, with the name as text.
pub struct CreateNetworkOptView {
    /// The name of the network.
    pub name: Seq<char>,
}

impl View for CreateNetworkOpt {
    type V = CreateNetworkOptView;

    open spec fn view(&self) -> CreateNetworkOptView {
        CreateNetworkOptView { name: self.name@ }
    }
}

impl CreateNetworkOptView {
    /// The tokens of a network creation: the two words of the subcommand,
    /// then the name.
    pub open spec fn tokens(self) -> Seq<Seq<char>> {
        seq!["network"@, "create"@, self.name]
    }
}

impl Default for CreateNetworkOpt {
    /// An empty name.
    fn default() -> (opt: Self)
        ensures
            opt@ == (CreateNetworkOptView { name: Seq::empty() }),
    {
        CreateNetworkOpt { name: String::new() }
    }
}

/// The tokens of a network removal: the two words of the subcommand, then
/// the name.
pub open spec fn remove_network_tokens(name: Seq<char>) -> Seq<Seq<char>> {
    seq!["network"@, "rm"@, name]
}

/// Options for running a container.
#[derive(Clone, Debug, Eq, PartialEq)]
pub struct RunOpt {
    /// Container image to run.
    pub image: String,
    /// Set environment variables.
    pub env: Vec<(String, String)>,
    /// If true, run the container in the background and print container
    /// ID. Defaults to `false`.
    pub detach: bool,
    /// Run an init inside the container that forwards signals and reaps
    /// processes.
    pub init: bool,
    /// Keep stdin open even if not attached.
    pub interactive: bool,
    /// Optional name to give the container.
    pub name: Option<String>,
    /// Connect a container to a network.
    pub network: Option<String>,
    /// User (and optionally) group to use inside the container.
    pub user: Option<UserAndGroup>,
    /// Publish ports from the container to the host.
    pub publish: Vec<PublishPorts>,
    /// Mount the container's root filesystem as read only.
    pub read_only: bool,
    /// If true, automatically remove the container when it exits. Defaults
    /// to `false`.
    pub remove: bool,
    /// Allocate a pseudo-TTY.
    pub tty: bool,
    /// Volumes to mount in the container.
    pub volumes: Vec<Volume>,
    /// Optional command to run.
    pub command: Option<String>,
    /// Optional arguments to pass to the command.
    pub args: Vec<String>,
}

/// What a [`RunOpt`] holds, with every string as text.
pub struct RunOptView {
    /// The image to run.
    pub image: Seq<char>,
    /// The environment variables, each a key and its value, in their order.
    pub env: Seq<(Seq<char>, Seq<char>)>,
    /// Whether the container runs in the background.
    pub detach: bool,
    /// Whether an init runs inside the container.
    pub init: bool,
    /// Whether stdin is kept open.
    pub interactive: bool,
    /// The name of the container, if set.
    pub name: Option<Seq<char>>,
    /// The network of the container, if set.
    pub network: Option<Seq<char>>,
    /// The user and group inside the container, if set.
    pub user: Option<UserAndGroupView>,
    /// The published ports, in their order.
    pub publish: Seq<PublishPortsView>,
    /// Whether the root filesystem is mounted read only.
    pub read_only: bool,
    /// Whether the container is removed when it exits.
    pub remove: bool,
    /// Whether a pseudo-TTY is allocated.
    pub tty: bool,
    /// The volumes, in their order.
    pub volumes: Seq<VolumeView>,
    /// The command to run, if set.
    pub command: Option<Seq<char>>,
    /// The arguments of the command, in their order.
    pub args: Seq<Seq<char>>,
}

impl View for RunOpt {
    type V = RunOptView;

    open spec fn view(&self) -> RunOptView {
        RunOptView {
            image: self.image@,
            env: pair_texts(self.env@),
            detach: self.detach,
            init: self.init,
            interactive: self.interactive,
            name: text_of(self.name),
            network: text_of(self.network),
            user: match self.user {
                Some(user) => Some(user@),
                None => None,
            },
            publish: self.publish@.map_values(|ports: PublishPorts| ports@),
            read_only: self.read_only,
            remove: self.remove,
            tty: self.tty,
            volumes: self.volumes@.map_values(|volume: Volume| volume@),
            command: text_of(self.command),
            args: texts(self.args@),
        }
    }
}

/// The text of each published port of a list.
pub open spec fn publish_texts(publish: Seq<PublishPortsView>) -> Seq<Seq<char>> {
    publish.map_values(|ports: PublishPortsView| ports.text())
}

/// The text of each volume of a list.
pub open spec fn volume_texts(volumes: Seq<VolumeView>) -> Seq<Seq<char>> {
    volumes.map_values(|volume: VolumeView| volume.text())
}

/// The text of a user and group that may be absent.
pub open spec fn user_text(user: Option<UserAndGroupView>) -> Option<Seq<char>> {
    match user {
        Some(user) => Some(user.text()),
        None => None,
    }
}

impl RunOptView {
    /// The tokens of a run: the subcommand, the settings in their fixed
    /// order, then the image, the command if there is one, and its
    /// arguments.
    pub open spec fn tokens(self) -> Seq<Seq<char>> {
        seq!["run"@]
            + flag("--detach"@, self.detach)
            + flag_values("--env"@, key_values(self.env))
            + flag("--init"@, self.init)
            + flag("--interactive"@, self.interactive)
            + flag_value("--name"@, self.name)
            + flag_value("--network"@, self.network)
            + flag_values("--publish"@, publish_texts(self.publish))
            + flag("--read-only"@, self.read_only)
            + flag("--rm"@, self.remove)
            + flag("--tty"@, self.tty)
            + flag_value("--user"@, user_text(self.user))
            + flag_values("--volume"@, volume_texts(self.volumes))
            + seq![self.image]
            + optional(self.command)
            + self.args
    }
}

impl Default for RunOpt {
    /// An empty image, and nothing set.
    fn default() -> (opt: Self)
        ensures
            opt@ == (RunOptView {
                image: Seq::empty(),
                env: Seq::empty(),
                detach: false,
                init: false,
                interactive: false,
                name: None,
                network: None,
                user: None,
                publish: Seq::empty(),
                read_only: false,
                remove: false,
                tty: false,
                volumes: Seq::empty(),
                command: None,
                args: Seq::empty(),
            }),
    {
        let opt = RunOpt {
            image: String::new(),
            env: Vec::new(),
            detach: false,
            init: false,
            interactive: false,
            name: None,
            network: None,
            user: None,
            publish: Vec::new(),
            read_only: false,
            remove: false,
            tty: false,
            volumes: Vec::new(),
            command: None,
            args: Vec::new(),
        };
        assert(opt@.env =~= Seq::empty());
        assert(opt@.publish =~= Seq::empty());
        assert(opt@.volumes =~= Seq::empty());
        assert(opt@.args =~= Seq::empty());
        opt
    }
}

/// Options for stopping a container.
#[derive(Clone, Debug, Eq, PartialEq)]
pub struct StopOpt {
    /// Containers to stop, specified as names or IDs.
    pub containers: Vec<String>,
    /// Seconds to wait for stop before killing the container. If `None`,
    /// the engine waits for as long as it does by default.
    pub time: Option<u32>,
}

/// What a [`StopOpt`] holds, with the containers as text.
pub struct StopOptView {
    /// The containers to stop, in their order.
    pub containers: Seq<Seq<char>>,
    /// The seconds to wait, if set.
    pub time: Option<u32>,
}

impl View for StopOpt {
    type V = StopOptView;

    open spec fn view(&self) -> StopOptView {
        StopOptView { containers: texts(self.containers@), time: self.time }
    }
}

/// A number of seconds that may be absent, in decimal.
pub open spec fn seconds_text(time: Option<u32>) -> Option<Seq<char>> {
    match time {
        Some(seconds) => Some(decimal(seconds as nat)),
        None => None,
    }
}

impl StopOptView {
    /// The tokens of a stop: the subcommand, the time to wait if it is
    /// set, then every container in the order of the list.
    pub open spec fn tokens(self) -> Seq<Seq<char>> {
        seq!["stop"@] + flag_value("--time"@, seconds_text(self.time)) + self.containers
    }
}

impl Default for StopOpt {
    /// No containers and no time.
    fn default() -> (opt: Self)
        ensures
            opt@ == (StopOptView { containers: Seq::empty(), time: None }),
    {
        let opt = StopOpt { containers: Vec::new(), time: None };
        assert(opt@.containers =~= Seq::empty());
        opt
    }
}

} // verus!
