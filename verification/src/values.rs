//! Values with a text form of their own: port ranges, published ports,
//! users and groups, volumes.
//!
//! Each type has a view that holds its text as sequences of characters, and
//! the view says what the value looks like as an argument.

use crate::ids::{current_gid, current_uid};
use crate::text::{
    decimal, decimal_string, decimal_value, lemma_decimal_round_trip, text_of, texts,
};
use vstd::prelude::*;
use vstd::std_specs::convert::FromSpec;

verus! {

/// Port or range of ports, both ends included.
///
/// A range is meant to hold at least one port (see [`PortRange::wf`]), but
/// any two numbers can be formatted.
#[derive(Clone, Copy, Debug, Eq, PartialEq)]
pub struct PortRange {
    /// The first port of the range.
    pub start: u16,
    /// The last port of the range.
    pub end: u16,
}

impl PortRange {
    /// A range is well formed when it holds at least one port.
    pub open spec fn wf(&self) -> bool {
        self.start <= self.end
    }

    /// The text of a port range: the port alone where both ends are the
    /// same, else the first port, a hyphen and the last.
    pub open spec fn text(&self) -> Seq<char> {
        if self.start == self.end {
            decimal(self.start as nat)
        } else {
            decimal(self.start as nat) + "-"@ + decimal(self.end as nat)
        }
    }

    /// Formats the range as the engine reads it.
    pub fn to_string(&self) -> (s: String)
        ensures
            s@ == self.text(),
    {
        if self.start == self.end {
            decimal_string(self.start as u32)
        } else {
            let mut out = decimal_string(self.start as u32);
            out.append("-");
            out.append(decimal_string(self.end as u32).as_str());
            out
        }
    }
}

impl Default for PortRange {
    /// Port zero alone.
    fn default() -> (range: Self)
        ensures
            range == (PortRange { start: 0, end: 0 }),
    {
        PortRange { start: 0, end: 0 }
    }
}

impl From<u16> for PortRange {
    /// The range that holds `port` alone.
    fn from(port: u16) -> (range: Self) {
        PortRange { start: port, end: port }
    }
}

impl vstd::std_specs::convert::FromSpecImpl<u16> for PortRange {
    open spec fn obeys_from_spec() -> bool {
        true
    }

    open spec fn from_spec(port: u16) -> Self {
        PortRange { start: port, end: port }
    }
}

/// A range made from one port is well formed and holds that port alone. Its
/// text is the port in decimal, which reads back as the port.
pub proof fn lemma_single_port(port: u16)
    ensures
        PortRange::from_spec(port).wf(),
        PortRange::from_spec(port).start == port,
        PortRange::from_spec(port).end == port,
        PortRange::from_spec(port).text() == decimal(port as nat),
        decimal_value(PortRange::from_spec(port).text()) == port,
{
    lemma_decimal_round_trip(port as nat);
}

/// Options for publishing ports from a container to the host.
#[derive(Clone, Debug, Eq, PartialEq)]
pub struct PublishPorts {
    /// Port or port range in the container to publish.
    pub container: PortRange,
    /// Port or port range on the host.
    pub host: Option<PortRange>,
    /// Host IP. If set to `0.0.0.0` or `None`, the port will be bound to all
    /// IPs on the host.
    pub ip: Option<String>,
}

/// What a [`PublishPorts`] holds, with the IP as text.
pub struct PublishPortsView {
    /// The ports in the container.
    pub container: PortRange,
    /// The ports on the host, if set.
    pub host: Option<PortRange>,
    /// The IP on the host, if set.
    pub ip: Option<Seq<char>>,
}

impl View for PublishPorts {
    type V = PublishPortsView;

    open spec fn view(&self) -> PublishPortsView {
        PublishPortsView { container: self.container, host: self.host, ip: text_of(self.ip) }
    }
}

impl PublishPortsView {
    /// The text of published ports: `ip:host:container`, `ip::container`,
    /// `host:container` or `container`, by which of `ip` and `host` are set.
    pub open spec fn text(self) -> Seq<char> {
        match (self.ip, self.host) {
            (Some(ip), Some(host)) => ip + ":"@ + host.text() + ":"@ + self.container.text(),
            (Some(ip), None) => ip + "::"@ + self.container.text(),
            (None, Some(host)) => host.text() + ":"@ + self.container.text(),
            (None, None) => self.container.text(),
        }
    }
}

impl PublishPorts {
    /// Format as an argument.
    pub fn arg(&self) -> (s: String)
        ensures
            s@ == self@.text(),
    {
        let container = self.container.to_string();
        match &self.ip {
            Some(ip) => {
                let mut out = ip.clone();
                match &self.host {
                    Some(host) => {
                        out.append(":");
                        out.append(host.to_string().as_str());
                        out.append(":");
                    },
                    None => {
                        out.append("::");
                    },
                }
                out.append(container.as_str());
                out
            },
            None => match &self.host {
                Some(host) => {
                    let mut out = host.to_string();
                    out.append(":");
                    out.append(container.as_str());
                    out
                },
                None => container,
            },
        }
    }
}

impl Default for PublishPorts {
    /// Port zero of the container, with neither host port nor IP.
    fn default() -> (ports: Self)
        ensures
            ports@ == (PublishPortsView {
                container: PortRange { start: 0, end: 0 },
                host: None,
                ip: None,
            }),
    {
        PublishPorts { container: PortRange::default(), host: None, ip: None }
    }
}

/// Name or numeric ID for a user or group.
#[derive(Clone, Debug, Eq, PartialEq)]
pub enum NameOrId {
    /// Name of the user or group.
    Name(String),
    /// Numeric ID of the user or group.
    Id(u32),
}

/// What a [`NameOrId`] holds, with the name as text.
pub enum NameOrIdView {
    /// A name.
    Name(Seq<char>),
    /// A numeric ID.
    Id(u32),
}

impl View for NameOrId {
    type V = NameOrIdView;

    open spec fn view(&self) -> NameOrIdView {
        match self {
            NameOrId::Name(name) => NameOrIdView::Name(name@),
            NameOrId::Id(id) => NameOrIdView::Id(*id),
        }
    }
}

impl NameOrIdView {
    /// The text of a name or ID: the name as it is, or the ID in decimal.
    pub open spec fn text(self) -> Seq<char> {
        match self {
            NameOrIdView::Name(name) => name,
            NameOrIdView::Id(id) => decimal(id as nat),
        }
    }
}

impl NameOrId {
    /// Formats the name or the ID as the engine reads it.
    pub fn to_string(&self) -> (s: String)
        ensures
            s@ == self@.text(),
    {
        match self {
            NameOrId::Name(name) => name.clone(),
            NameOrId::Id(id) => decimal_string(*id),
        }
    }
}

impl From<String> for NameOrId {
    fn from(name: String) -> (r: Self) {
        NameOrId::Name(name)
    }
}

impl vstd::std_specs::convert::FromSpecImpl<String> for NameOrId {
    open spec fn obeys_from_spec() -> bool {
        true
    }

    open spec fn from_spec(name: String) -> Self {
        NameOrId::Name(name)
    }
}

impl From<u32> for NameOrId {
    fn from(id: u32) -> (r: Self) {
        NameOrId::Id(id)
    }
}

impl vstd::std_specs::convert::FromSpecImpl<u32> for NameOrId {
    open spec fn obeys_from_spec() -> bool {
        true
    }

    open spec fn from_spec(id: u32) -> Self {
        NameOrId::Id(id)
    }
}

/// User and (optionally) group.
#[derive(Clone, Debug, Eq, PartialEq)]
pub struct UserAndGroup {
    /// User or UID.
    pub user: NameOrId,
    /// Group or GID.
    pub group: Option<NameOrId>,
}

/// What a [`UserAndGroup`] holds, with names as text.
pub struct UserAndGroupView {
    /// The user.
    pub user: NameOrIdView,
    /// The group, if set.
    pub group: Option<NameOrIdView>,
}

impl View for UserAndGroup {
    type V = UserAndGroupView;

    open spec fn view(&self) -> UserAndGroupView {
        UserAndGroupView {
            user: self.user@,
            group: match self.group {
                Some(group) => Some(group@),
                None => None,
            },
        }
    }
}

impl UserAndGroupView {
    /// The text of a user and group: `<user>:<group>` where the group is
    /// set, else `<user>` alone.
    pub open spec fn text(self) -> Seq<char> {
        match self.group {
            Some(group) => self.user.text() + ":"@ + group.text(),
            None => self.user.text(),
        }
    }

    /// The user and group with the given numeric IDs.
    pub open spec fn of_ids(uid: u32, gid: u32) -> UserAndGroupView {
        UserAndGroupView { user: NameOrIdView::Id(uid), group: Some(NameOrIdView::Id(gid)) }
    }
}

impl UserAndGroup {
    /// A `UserAndGroup` with the given numeric UID and GID.
    pub fn with_ids(uid: u32, gid: u32) -> (user: Self)
        ensures
            user@ == UserAndGroupView::of_ids(uid, gid),
    {
        UserAndGroup { user: NameOrId::Id(uid), group: Some(NameOrId::Id(gid)) }
    }

    /// Get a `UserAndGroup` with the UID and GID of the running process.
    ///
    /// Which IDs those are is known only when the call is made. Whatever
    /// they are, user and group both come out as numeric IDs.
    pub fn current() -> (user: Self)
        ensures
            exists|uid: u32, gid: u32| user@ == UserAndGroupView::of_ids(uid, gid),
    {
        Self::with_ids(current_uid(), current_gid())
    }

    /// Get a `UserAndGroup` with UID and GID set to zero.
    pub fn root() -> (user: Self)
        ensures
            user@ == UserAndGroupView::of_ids(0, 0),
    {
        Self::with_ids(0, 0)
    }

    /// Format as an argument. If `group` is set, the format is
    /// `<user>:<group>`, otherwise just `<user>`.
    pub fn arg(&self) -> (s: String)
        ensures
            s@ == self@.text(),
    {
        let mut out = self.user.to_string();
        if let Some(group) = &self.group {
            out.append(":");
            out.append(group.to_string().as_str());
        }
        out
    }
}

/// Volume specification used when running a container.
#[derive(Clone, Debug, Eq, PartialEq)]
pub struct Volume {
    /// Either a path on the host (if an absolute path) or the name of a
    /// volume.
    pub src: String,
    /// Absolute path in the container where the volume will be mounted.
    pub dst: String,
    /// If true, mount the volume read-write. Defaults to `false`.
    pub read_write: bool,
    /// Additional options to set on the volume.
    pub options: Vec<String>,
}

/// What a [`Volume`] holds, with paths and options as text.
pub struct VolumeView {
    /// The path on the host, or the name of the volume.
    pub src: Seq<char>,
    /// The path in the container.
    pub dst: Seq<char>,
    /// Whether the volume can be written.
    pub read_write: bool,
    /// The additional options, in their order.
    pub options: Seq<Seq<char>>,
}

impl View for Volume {
    type V = VolumeView;

    open spec fn view(&self) -> VolumeView {
        VolumeView {
            src: self.src@,
            dst: self.dst@,
            read_write: self.read_write,
            options: texts(self.options@),
        }
    }
}

/// Every option with a comma in front of it, in the order given.
pub open spec fn options_text(options: Seq<Seq<char>>) -> Seq<char> {
    options.flat_map(|option: Seq<char>| ","@ + option)
}

/// Without options there is no text.
pub proof fn lemma_options_text_empty()
    ensures
        options_text(Seq::empty()) == Seq::<char>::empty(),
{
    let with_comma = |option: Seq<char>| ","@ + option;
    assert(Seq::<Seq<char>>::empty().map_values(with_comma) =~= Seq::<Seq<char>>::empty());
}

/// One more option adds a comma and the option at the end.
pub proof fn lemma_options_text_push(options: Seq<Seq<char>>, option: Seq<char>)
    ensures
        options_text(options.push(option)) == options_text(options) + ","@ + option,
{
    let with_comma = |option: Seq<char>| ","@ + option;
    assert(options.push(option).map_values(with_comma) =~= options.map_values(with_comma).push(
        with_comma(option),
    ));
    options.map_values(with_comma).lemma_flatten_push(with_comma(option));
}

impl VolumeView {
    /// How the volume is mounted, as it stands behind the destination:
    /// `:rw` where the volume can be written, else `:ro`.
    pub open spec fn access(self) -> Seq<char> {
        if self.read_write {
            ":rw"@
        } else {
            ":ro"@
        }
    }

    /// The text of a volume: `<src>:<dst>:<rw|ro>`, then each option after
    /// a comma.
    pub open spec fn text(self) -> Seq<char> {
        self.src + ":"@ + self.dst + self.access() + options_text(self.options)
    }
}

impl Volume {
    /// Format as an argument.
    pub fn arg(&self) -> (s: String)
        ensures
            s@ == self@.text(),
    {
        let mut out = self.src.clone();
        out.append(":");
        out.append(self.dst.as_str());
        if self.read_write {
            out.append(":rw");
        } else {
            out.append(":ro");
        }
        let ghost head = out@;
        let ghost options = texts(self.options@);
        let n = self.options.len();
        proof {
            lemma_options_text_empty();
        }
        for i in 0..n
            invariant
                n == self.options@.len(),
                options == texts(self.options@),
                out@ == head + options_text(options.take(i as int)),
        {
            let option = self.options[i].as_str();
            proof {
                assert(options.take(i + 1) =~= options.take(i as int).push(option@));
                lemma_options_text_push(options.take(i as int), option@);
            }
            out.append(",");
            out.append(option);
        }
        assert(options.take(n as int) =~= options);
        out
    }
}

impl Default for Volume {
    /// A read-only volume with empty source and destination and no
    /// options.
    fn default() -> (volume: Self)
        ensures
            volume@ == (VolumeView {
                src: Seq::empty(),
                dst: Seq::empty(),
                read_write: false,
                options: Seq::empty(),
            }),
    {
        let volume = Volume {
            src: String::new(),
            dst: String::new(),
            read_write: false,
            options: Vec::new(),
        };
        assert(volume@.options =~= Seq::empty());
        volume
    }
}

} // verus!
