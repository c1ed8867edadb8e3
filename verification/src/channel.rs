//! Choosing and describing the local channel on which a Node.js add-on
//! serves its router: a Unix socket or Windows named pipe when one can be
//! bound, else a TCP port on a loopback address.
use vstd::prelude::*;

use crate::text::{join_text, decimal, decimal_string, join_path, joined_path, push_char};

verus! {

/// The operating system family the add-on was built for.
#[derive(Clone, Copy, Debug, PartialEq, Eq, Structural)]
pub enum Platform {
    Unix,
    Windows,
    Other,
}

/// An IPv4 socket address: the address as a big-endian `u32` and a port.
#[derive(Clone, Copy, Debug, PartialEq, Eq, Structural)]
pub struct SocketAddress {
    pub ip: u32,
    pub port: u16,
}

/// The channel the add-on's server listens on.
#[derive(Clone, Debug)]
pub enum Channel {
    /// A Unix domain socket or a Windows named pipe, by path.
    IPC(String),
    /// A TCP listener.
    TCP(SocketAddress),
}

impl Channel {
    /// A copy of the channel.
    pub fn duplicate(&self) -> (res: Channel)
        ensures
            res == *self,
    {
        match self {
            Channel::IPC(path) => Channel::IPC(path.clone()),
            Channel::TCP(addr) => Channel::TCP(*addr),
        }
    }
}

/// One named property that the module's exports object receives.
#[derive(Clone, Debug)]
pub enum ExportProperty {
    Text { name: String, value: String },
    Number { name: String, value: u32 },
}

/// The first address of the loopback range used for the TCP fallback
/// (127.0.0.1).
pub const LOOPBACK_BASE: u32 = 0x7f00_0001;

/// The number of loopback addresses the fallback spreads over.
pub const LOOPBACK_SPREAD: u128 = 0xFF_FFFC;

/// The fallback TCP address picked from the nanoseconds elapsed since the
/// add-on started loading.
pub open spec fn fallback_ip_of(elapsed_nanos: nat) -> nat {
    0x7f00_0001 + elapsed_nanos % 0xFF_FFFC
}

/// Picks the loopback address for the TCP fallback.
pub fn fallback_ip(elapsed_nanos: u128) -> (ip: u32)
    ensures
        ip == fallback_ip_of(elapsed_nanos as nat),
        0x7f00_0001 <= ip <= 0x7fff_fffc,
{
    let offset: u128 = elapsed_nanos % LOOPBACK_SPREAD;
    LOOPBACK_BASE + (offset as u32)
}

/// Every fallback address lies in 127.0.0.0/8 and is neither the network
/// address 127.0.0.0 nor the broadcast address 127.255.255.255.
pub proof fn fallback_ip_is_loopback(elapsed_nanos: nat)
    ensures
        fallback_ip_of(elapsed_nanos) / 0x100_0000 == 127,
        fallback_ip_of(elapsed_nanos) != 0x7f00_0000,
        fallback_ip_of(elapsed_nanos) != 0x7fff_ffff,
        0x7f00_0001 <= fallback_ip_of(elapsed_nanos) <= 0x7fff_fffc,
{
}

/// The dotted-decimal text of an IPv4 address, as `Ipv4Addr` displays it.
pub open spec fn ipv4_text_of(ip: nat) -> Seq<char> {
    decimal(ip / 0x100_0000 % 256) + seq!['.'] + decimal(ip / 0x1_0000 % 256) + seq!['.']
        + decimal(ip / 0x100 % 256) + seq!['.'] + decimal(ip % 256)
}

/// Writes an IPv4 address in dotted-decimal form.
pub fn ipv4_text(ip: u32) -> (res: String)
    ensures
        res@ == ipv4_text_of(ip as nat),
{
    let a = decimal_string((ip / 0x100_0000 % 256) as u128);
    let b = decimal_string((ip / 0x1_0000 % 256) as u128);
    let c = decimal_string((ip / 0x100 % 256) as u128);
    let d = decimal_string((ip % 256) as u128);
    let mut res = a;
    push_char(&mut res, '.');
    res.append(b.as_str());
    push_char(&mut res, '.');
    res.append(c.as_str());
    push_char(&mut res, '.');
    res.append(d.as_str());
    res
}

/// The file name of the socket for a given seed: `pages-<seed>`.
pub open spec fn socket_name(seed: nat) -> Seq<char> {
    seq!['p', 'a', 'g', 'e', 's', '-'] + decimal(seed)
}

/// The Windows named-pipe path for a given seed: `\\.\pipe\pages-<seed>`.
pub open spec fn pipe_path(seed: nat) -> Seq<char> {
    seq!['\\', '\\', '.', '\\', 'p', 'i', 'p', 'e', '\\'] + socket_name(seed)
}

fn socket_name_string(seed: u128) -> (res: String)
    ensures
        res@ == socket_name(seed as nat),
{
    let digits = decimal_string(seed);
    let prefix = "pages-";
    proof {
        reveal_strlit("pages-");
    }
    join_text(prefix, digits.as_str())
}

fn pipe_path_string(seed: u128) -> (res: String)
    ensures
        res@ == pipe_path(seed as nat),
{
    let name = socket_name_string(seed);
    let prefix = "\\\\.\\pipe\\";
    proof {
        reveal_strlit("\\\\.\\pipe\\");
    }
    join_text(prefix, name.as_str())
}

/// The seed of the stream add-on's socket name: the milliseconds since the
/// Unix epoch, or, when the clock reads earlier than the epoch, the
/// nanoseconds elapsed since loading began.
pub open spec fn stream_seed_of(since_epoch_millis: Option<u128>, elapsed_nanos: u128) -> u128 {
    match since_epoch_millis {
        Some(ms) => ms,
        None => elapsed_nanos,
    }
}

/// Picks the seed of the stream add-on's socket name.
pub fn stream_seed(since_epoch_millis: Option<u128>, elapsed_nanos: u128) -> (seed: u128)
    ensures
        seed == stream_seed_of(since_epoch_millis, elapsed_nanos),
{
    match since_epoch_millis {
        Some(ms) => ms,
        None => elapsed_nanos,
    }
}

/// The socket path of the stream add-on: `<temp dir>/pages-<seed>` on Unix,
/// `\\.\pipe\pages-<seed>` on Windows, none elsewhere.
pub open spec fn stream_socket_path_of(platform: Platform, temp_dir: Seq<char>, seed: nat) -> Option<Seq<char>> {
    match platform {
        Platform::Unix => Some(joined_path(temp_dir, socket_name(seed))),
        Platform::Windows => Some(pipe_path(seed)),
        Platform::Other => None,
    }
}

/// Computes the stream add-on's socket path.
pub fn stream_socket_path(platform: Platform, temp_dir: &str, seed: u128) -> (res: Option<String>)
    ensures
        res.is_some() == stream_socket_path_of(platform, temp_dir@, seed as nat).is_some(),
        res matches Some(p) ==> Some(p@) == stream_socket_path_of(platform, temp_dir@, seed as nat),
{
    match platform {
        Platform::Unix => {
            let name = socket_name_string(seed);
            Some(join_path(temp_dir, name.as_str()))
        },
        Platform::Windows => Some(pipe_path_string(seed)),
        Platform::Other => None,
    }
}

/// The socket path of the TCP-capable add-on: `/tmp/pages-<millis>` on
/// Unix, `\\.\pipe\pages-<millis>` on Windows, none elsewhere.
pub open spec fn edgeone_socket_path_of(platform: Platform, since_epoch_millis: nat) -> Option<Seq<char>> {
    match platform {
        Platform::Unix => Some(seq!['/', 't', 'm', 'p', '/'] + socket_name(since_epoch_millis)),
        Platform::Windows => Some(pipe_path(since_epoch_millis)),
        Platform::Other => None,
    }
}

/// Computes the TCP-capable add-on's socket path.
pub fn edgeone_socket_path(platform: Platform, since_epoch_millis: u128) -> (res: Option<String>)
    ensures
        res.is_some() == edgeone_socket_path_of(platform, since_epoch_millis as nat).is_some(),
        res matches Some(p) ==> Some(p@) == edgeone_socket_path_of(platform, since_epoch_millis as nat),
{
    match platform {
        Platform::Unix => {
            let name = socket_name_string(since_epoch_millis);
            let prefix = "/tmp/";
            proof {
                reveal_strlit("/tmp/");
            }
            Some(join_text(prefix, name.as_str()))
        },
        Platform::Windows => Some(pipe_path_string(since_epoch_millis)),
        Platform::Other => None,
    }
}


/// Where the channel setup stands.
#[derive(Clone, Debug)]
pub enum SetupStage {
    /// Waiting for the outcome of binding the socket at `path`.
    BindingIpc { path: String },
    /// Waiting for the time elapsed since loading began.
    MeasuringElapsed,
    /// Waiting for the TCP listener bound at `requested`.
    BindingTcp { requested: SocketAddress },
    /// The channel is chosen; the server runs on it.
    Ready(Channel),
}

/// What the driver reports back after performing an action.
#[derive(Clone, Debug)]
pub enum SetupEvent {
    /// Whether binding the socket succeeded.
    IpcBound(bool),
    /// Nanoseconds elapsed since loading began.
    Elapsed(u128),
    /// The local address of the bound TCP listener.
    TcpBound(SocketAddress),
}

/// What the driver is asked to do next.
#[derive(Clone, Debug)]
pub enum SetupAction {
    /// Bind a Unix socket or named pipe at this path and serve on it if it binds.
    BindIpc(String),
    /// Read the time elapsed since loading began.
    MeasureElapsed,
    /// Bind a TCP listener at this address (port 0: any free port).
    BindTcp(SocketAddress),
    /// The channel is settled; serve on it.
    Serve(Channel),
}

/// The setup of the add-on's channel, driven by events.
#[derive(Clone, Debug)]
pub struct ChannelSetup {
    pub stage: SetupStage,
}

/// The action that a stage waits on.
pub open spec fn pending_action(stage: SetupStage) -> SetupAction {
    match stage {
        SetupStage::BindingIpc { path } => SetupAction::BindIpc(path),
        SetupStage::MeasuringElapsed => SetupAction::MeasureElapsed,
        SetupStage::BindingTcp { requested } => SetupAction::BindTcp(requested),
        SetupStage::Ready(c) => SetupAction::Serve(c),
    }
}

/// The first stage: try the socket when there is a path for it, else go
/// straight to the TCP fallback.
pub open spec fn setup_start(path: Option<String>) -> SetupStage {
    match path {
        Some(p) => SetupStage::BindingIpc { path: p },
        None => SetupStage::MeasuringElapsed,
    }
}

/// The stage that follows `stage` on `event`. An event that does not answer
/// the stage's pending action leaves the stage unchanged.
pub open spec fn setup_next(stage: SetupStage, event: SetupEvent) -> SetupStage {
    match (stage, event) {
        (SetupStage::BindingIpc { path }, SetupEvent::IpcBound(true)) => SetupStage::Ready(Channel::IPC(path)),
        (SetupStage::BindingIpc { .. }, SetupEvent::IpcBound(false)) => SetupStage::MeasuringElapsed,
        (SetupStage::MeasuringElapsed, SetupEvent::Elapsed(n)) => SetupStage::BindingTcp {
            requested: SocketAddress { ip: fallback_ip_of(n as nat) as u32, port: 0 },
        },
        (SetupStage::BindingTcp { .. }, SetupEvent::TcpBound(addr)) => SetupStage::Ready(Channel::TCP(addr)),
        (stage, _) => stage,
    }
}

impl ChannelSetup {
    /// Starts the setup with the socket path, if the platform has one.
    pub fn start(path: Option<String>) -> (res: (ChannelSetup, SetupAction))
        ensures
            res.0.stage == setup_start(path),
            res.1 == pending_action(res.0.stage),
    {
        match path {
            Some(p) => {
                let action = SetupAction::BindIpc(p.clone());
                (ChannelSetup { stage: SetupStage::BindingIpc { path: p } }, action)
            },
            None => (ChannelSetup { stage: SetupStage::MeasuringElapsed }, SetupAction::MeasureElapsed),
        }
    }

    /// Advances the setup by one reported event.
    pub fn step(self, event: SetupEvent) -> (res: (ChannelSetup, SetupAction))
        ensures
            res.0.stage == setup_next(self.stage, event),
            res.1 == pending_action(res.0.stage),
    {
        let next = match (self.stage, event) {
            (SetupStage::BindingIpc { path }, SetupEvent::IpcBound(true)) => SetupStage::Ready(Channel::IPC(path)),
            (SetupStage::BindingIpc { .. }, SetupEvent::IpcBound(false)) => SetupStage::MeasuringElapsed,
            (SetupStage::MeasuringElapsed, SetupEvent::Elapsed(n)) => SetupStage::BindingTcp {
                requested: SocketAddress { ip: fallback_ip(n), port: 0 },
            },
            (SetupStage::BindingTcp { .. }, SetupEvent::TcpBound(addr)) => SetupStage::Ready(Channel::TCP(addr)),
            (stage, _) => stage,
        };
        let action = match &next {
            SetupStage::BindingIpc { path } => SetupAction::BindIpc(path.clone()),
            SetupStage::MeasuringElapsed => SetupAction::MeasureElapsed,
            SetupStage::BindingTcp { requested } => SetupAction::BindTcp(*requested),
            SetupStage::Ready(c) => SetupAction::Serve(c.duplicate()),
        };
        (ChannelSetup { stage: next }, action)
    }
}

/// The socket channel is chosen only when binding the socket at the
/// computed path succeeded, and then it is that path.
pub proof fn ipc_chosen_only_after_bind(stage: SetupStage, event: SetupEvent, path: String)
    requires
        !(stage is Ready),
        setup_next(stage, event) == SetupStage::Ready(Channel::IPC(path)),
    ensures
        stage == (SetupStage::BindingIpc { path }),
        event == SetupEvent::IpcBound(true),
{
}

/// A TCP listener is only ever requested on port 0 of a loopback address
/// between 127.0.0.1 and 127.255.255.252, and only once the socket could
/// not be used.
pub proof fn tcp_requested_on_loopback(stage: SetupStage, event: SetupEvent)
    requires
        setup_next(stage, event) is BindingTcp,
        !(stage is BindingTcp),
    ensures
        stage is MeasuringElapsed,
        setup_next(stage, event)->requested.port == 0,
        0x7f00_0001 <= setup_next(stage, event)->requested.ip <= 0x7fff_fffc,
{
}

/// Once the channel is chosen, no event changes it.
pub proof fn ready_is_final(c: Channel, event: SetupEvent)
    ensures
        setup_next(SetupStage::Ready(c), event) == SetupStage::Ready(c),
{
}

/// The properties that `init` sets on the module's exports: the path of a
/// socket channel, or the host and port of a TCP channel.
pub open spec fn exports_match(channel: Channel, props: Seq<ExportProperty>) -> bool {
    match channel {
        Channel::IPC(path) => {
            &&& props.len() == 1
            &&& props[0] matches ExportProperty::Text { name, value }
                && name@ == seq!['p', 'a', 't', 'h'] && value@ == path@
        },
        Channel::TCP(addr) => {
            &&& props.len() == 2
            &&& props[0] matches ExportProperty::Text { name, value }
                && name@ == seq!['h', 'o', 's', 't'] && value@ == ipv4_text_of(addr.ip as nat)
            &&& props[1] matches ExportProperty::Number { name, value }
                && name@ == seq!['p', 'o', 'r', 't'] && value == addr.port as u32
        },
    }
}

/// The exports that the module initializer sets for the chosen channel.
pub fn init(channel: &Channel) -> (props: Vec<ExportProperty>)
    ensures
        exports_match(*channel, props@),
{
    let mut props: Vec<ExportProperty> = Vec::new();
    match channel {
        Channel::IPC(path) => {
            let name = "path";
            proof {
                reveal_strlit("path");
                assert(name@ =~= seq!['p', 'a', 't', 'h']);
            }
            props.push(ExportProperty::Text { name: String::from_str(name), value: path.clone() });
        },
        Channel::TCP(addr) => {
            let host = "host";
            let port = "port";
            proof {
                reveal_strlit("host");
                reveal_strlit("port");
                assert(host@ =~= seq!['h', 'o', 's', 't']);
                assert(port@ =~= seq!['p', 'o', 'r', 't']);
            }
            props.push(ExportProperty::Text { name: String::from_str(host), value: ipv4_text(addr.ip) });
            props.push(ExportProperty::Number { name: String::from_str(port), value: addr.port as u32 });
        },
    }
    props
}

/// The two properties are the same property: same name and same value.
pub open spec fn same_property(a: ExportProperty, b: ExportProperty) -> bool {
    match (a, b) {
        (ExportProperty::Text { name: n1, value: v1 }, ExportProperty::Text { name: n2, value: v2 }) =>
            n1@ == n2@ && v1@ == v2@,
        (ExportProperty::Number { name: n1, value: v1 }, ExportProperty::Number { name: n2, value: v2 }) =>
            n1@ == n2@ && v1 == v2,
        _ => false,
    }
}

/// The exports are a function of the channel: every `init` of the module
/// in a process, answered from the one channel set up there, hands
/// JavaScript the same properties (the same path, or the same host and
/// port).
pub proof fn exports_depend_on_the_channel_alone(
    channel: Channel,
    first: Seq<ExportProperty>,
    later: Seq<ExportProperty>,
)
    requires
        exports_match(channel, first),
        exports_match(channel, later),
    ensures
        first.len() == later.len(),
        forall|i: int| 0 <= i < first.len() ==> same_property(#[trigger] first[i], later[i]),
{
}

/// The stage reached from `stage` after the driver reports `events` in
/// order.
pub open spec fn setup_after(stage: SetupStage, events: Seq<SetupEvent>) -> SetupStage
    decreases events.len(),
{
    if events.len() == 0 {
        stage
    } else {
        setup_after(setup_next(stage, events[0]), events.drop_first())
    }
}

/// How far the setup has come.
pub open spec fn setup_rank(stage: SetupStage) -> nat {
    match stage {
        SetupStage::BindingIpc { .. } => 0,
        SetupStage::MeasuringElapsed => 1,
        SetupStage::BindingTcp { .. } => 2,
        SetupStage::Ready(_) => 3,
    }
}

/// Over any run of reported events the setup never returns to an earlier
/// stage, and it settles once: when it has chosen a channel, that channel
/// is kept whatever is reported later, so the server runs on one channel.
pub proof fn setup_settles_once(stage: SetupStage, events: Seq<SetupEvent>)
    ensures
        setup_rank(setup_after(stage, events)) >= setup_rank(stage),
        stage is Ready ==> setup_after(stage, events) == stage,
    decreases events.len(),
{
    if events.len() > 0 {
        setup_settles_once(setup_next(stage, events[0]), events.drop_first());
    }
}

/// The socket paths name the seed in decimal: on Windows the named pipe
/// `\\.\pipe\pages-<seed>`; on Unix the file `pages-<seed>` in the
/// temporary directory (`/tmp` for the TCP-capable add-on); no path
/// elsewhere. The TCP fallback address is 127.0.0.1 plus the elapsed
/// nanoseconds modulo 16777212.
pub proof fn socket_paths_name_the_seed(temp_dir: Seq<char>, seed: nat, elapsed_nanos: nat)
    ensures
        stream_socket_path_of(Platform::Windows, temp_dir, seed) == Some("\\\\.\\pipe\\pages-"@ + decimal(seed)),
        edgeone_socket_path_of(Platform::Windows, seed) == Some("\\\\.\\pipe\\pages-"@ + decimal(seed)),
        temp_dir.len() > 0 && temp_dir.last() != '/' ==> stream_socket_path_of(Platform::Unix, temp_dir, seed)
            == Some(temp_dir + "/pages-"@ + decimal(seed)),
        edgeone_socket_path_of(Platform::Unix, seed) == Some("/tmp/pages-"@ + decimal(seed)),
        stream_socket_path_of(Platform::Other, temp_dir, seed) is None,
        edgeone_socket_path_of(Platform::Other, seed) is None,
        fallback_ip_of(elapsed_nanos) == 2130706433 + elapsed_nanos % 16777212,
{
    reveal_strlit("\\\\.\\pipe\\pages-");
    reveal_strlit("/pages-");
    reveal_strlit("/tmp/pages-");
    assert(pipe_path(seed) =~= "\\\\.\\pipe\\pages-"@ + decimal(seed));
    assert(seq!['/', 't', 'm', 'p', '/'] + socket_name(seed) =~= "/tmp/pages-"@ + decimal(seed));
    if temp_dir.len() > 0 && temp_dir.last() != '/' {
        assert(temp_dir + seq!['/'] + socket_name(seed) =~= temp_dir + "/pages-"@ + decimal(seed));
    }
}

/// What `init` sets on the exports: `path` for a socket channel; `host`
/// (the address in dotted decimal) and `port` for a TCP channel.
pub proof fn exports_name_the_channel(channel: Channel, props: Seq<ExportProperty>)
    requires
        exports_match(channel, props),
    ensures
        channel matches Channel::IPC(p) ==> props.len() == 1 && (props[0] matches ExportProperty::Text {
            name,
            value,
        } && name@ == "path"@ && value@ == p@),
        channel matches Channel::TCP(addr) ==> props.len() == 2 && (props[0] matches ExportProperty::Text {
            name,
            value,
        } && name@ == "host"@ && value@ == decimal(addr.ip as nat / 16777216) + "."@ + decimal(
            addr.ip as nat / 65536 % 256,
        ) + "."@ + decimal(addr.ip as nat / 256 % 256) + "."@ + decimal(addr.ip as nat % 256)) && (
        props[1] matches ExportProperty::Number { name, value } && name@ == "port"@ && value == addr.port as u32),
{
    reveal_strlit("path");
    reveal_strlit("host");
    reveal_strlit("port");
    reveal_strlit(".");
    if let Channel::TCP(addr) = channel {
        let ip = addr.ip as nat;
        assert(ip / 0x100_0000 % 256 == ip / 16777216) by {
            assert(ip < 0x1_0000_0000);
        }
        assert(ipv4_text_of(ip) =~= decimal(ip / 16777216) + "."@ + decimal(ip / 65536 % 256) + "."@
            + decimal(ip / 256 % 256) + "."@ + decimal(ip % 256));
    }
}

} // verus!
