//! The forwarder's set-up: the forwarding modes that the benchmark compares,
//! how each configures its two TUN devices, which worker forwards in which
//! direction, and which async runtime runs it.
use vstd::prelude::*;

verus! {

/// The MTU of both devices.
pub const MTU: u16 = 1500;

/// The IPv4 prefix length of both devices' addresses.
pub const PREFIX_LEN: u8 = 24;

/// The number of packets a channel between two workers holds.
pub const CHANNEL_CAPACITY: usize = 2048;

/// The length of the buffer of a single device read.
pub const RECV_BUFFER_LEN: usize = 65536;

/// The room, after the virtio header, of the buffer that a batched read
/// reads a whole offload packet into.
pub const GSO_PACKET_LEN: usize = 65535;

/// The room, after any header space, of each buffer that a batched read
/// splits an offload packet into.
pub const SEGMENT_LEN: usize = 1500;

/// The capacity reserved for each packet that is copied out of a batched
/// read, so that a later offload write does not have to grow it.
pub const SEGMENT_RESERVE: usize = 65536;

/// The forwarding modes that the benchmark compares.
#[derive(PartialEq, Eq, Structural, Debug, Clone, Copy)]
pub enum Mode {
    /// Async; each direction reads a packet and writes it.
    AsyncNormal,
    /// Async; each device is read into a channel, and each channel written to the other device.
    AsyncNormalChannel,
    /// Async with offload; framed reads and writes through channels, writes batched.
    AsyncGsoFramed,
    /// Async with offload; batched reads into channels, batched writes from them.
    AsyncTsoChannel,
    /// Threads; each direction reads a packet and writes it.
    SyncNormal,
    /// Threads; each device is read into a channel, and each channel written to the other device.
    SyncNormalChannel,
    /// Threads with offload; batched reads into channels, batched writes from them.
    SyncGsoChannel,
    /// Threads with offload; two workers per direction, each reading a batch and writing it.
    SyncGsoConcurrent,
}

/// Whether a mode turns on TUN offload (GSO/GRO) on its devices.
pub open spec fn spec_uses_offload(mode: Mode) -> bool {
    match mode {
        Mode::AsyncGsoFramed | Mode::AsyncTsoChannel | Mode::SyncGsoChannel
        | Mode::SyncGsoConcurrent => true,
        _ => false,
    }
}

/// Whether a mode passes packets between its workers through channels.
pub open spec fn spec_uses_channel(mode: Mode) -> bool {
    match mode {
        Mode::AsyncNormalChannel | Mode::AsyncGsoFramed | Mode::AsyncTsoChannel
        | Mode::SyncNormalChannel | Mode::SyncGsoChannel => true,
        _ => false,
    }
}

/// Whether a mode runs on an async runtime (rather than on threads).
pub open spec fn spec_is_async(mode: Mode) -> bool {
    match mode {
        Mode::AsyncNormal | Mode::AsyncNormalChannel | Mode::AsyncGsoFramed
        | Mode::AsyncTsoChannel => true,
        _ => false,
    }
}

/// How many workers forward each direction in a mode.
pub open spec fn spec_workers_per_direction(mode: Mode) -> usize {
    match mode {
        Mode::SyncGsoConcurrent => 2,
        _ => 1,
    }
}

impl Mode {
    /// Whether this mode turns on TUN offload on its devices.
    pub fn uses_offload(&self) -> (b: bool)
        ensures
            b == spec_uses_offload(*self),
    {
        match self {
            Mode::AsyncGsoFramed | Mode::AsyncTsoChannel | Mode::SyncGsoChannel
            | Mode::SyncGsoConcurrent => true,
            _ => false,
        }
    }

    /// Whether this mode passes packets between its workers through channels.
    pub fn uses_channel(&self) -> (b: bool)
        ensures
            b == spec_uses_channel(*self),
    {
        match self {
            Mode::AsyncNormalChannel | Mode::AsyncGsoFramed | Mode::AsyncTsoChannel
            | Mode::SyncNormalChannel | Mode::SyncGsoChannel => true,
            _ => false,
        }
    }

    /// Whether this mode runs on an async runtime.
    pub fn is_async(&self) -> (b: bool)
        ensures
            b == spec_is_async(*self),
    {
        match self {
            Mode::AsyncNormal | Mode::AsyncNormalChannel | Mode::AsyncGsoFramed
            | Mode::AsyncTsoChannel => true,
            _ => false,
        }
    }

    /// How many workers forward each direction in this mode.
    pub fn workers_per_direction(&self) -> (n: usize)
        ensures
            n == spec_workers_per_direction(*self),
    {
        match self {
            Mode::SyncGsoConcurrent => 2,
            _ => 1,
        }
    }
}

/// How one TUN device is to be created.
#[derive(Debug)]
pub struct DeviceConfig {
    /// The interface name.
    pub name: String,
    /// The interface's IPv4 address, most significant octet first.
    pub ipv4: [u8; 4],
    /// The prefix length of the interface's network.
    pub prefix_len: u8,
    /// The interface's MTU.
    pub mtu: u16,
    /// Whether TUN offload is turned on.
    pub offload: bool,
}

/// The configuration of a device of a mode with the given name and address.
pub fn device_config(mode: Mode, name: String, ipv4: [u8; 4]) -> (c: DeviceConfig)
    ensures
        c.name@ == name@,
        c.ipv4@ == ipv4@,
        c.prefix_len == PREFIX_LEN,
        c.mtu == MTU,
        c.offload == spec_uses_offload(mode),
{
    DeviceConfig { name, ipv4, prefix_len: PREFIX_LEN, mtu: MTU, offload: mode.uses_offload() }
}

/// A worker's forwarding direction: packets read from device `from` are
/// written to device `to` (devices are numbered 0 and 1).
#[derive(PartialEq, Eq, Structural, Debug, Clone, Copy)]
pub struct Route {
    pub from: usize,
    pub to: usize,
}

/// The route of the `i`-th worker of a mode: the first half of the workers
/// forward from device 0 to device 1, the second half back.
pub open spec fn spec_route(mode: Mode, i: int) -> Route {
    if i < spec_workers_per_direction(mode) {
        Route { from: 0, to: 1 }
    } else {
        Route { from: 1, to: 0 }
    }
}

/// The routes of a mode's workers, in the order they are started.
pub fn worker_routes(mode: Mode) -> (routes: Vec<Route>)
    ensures
        routes@.len() == 2 * spec_workers_per_direction(mode),
        forall|i: int| 0 <= i < routes@.len() ==> #[trigger] routes@[i] == spec_route(mode, i),
        forall|i: int|
            0 <= i < routes@.len() ==> {
                &&& (#[trigger] routes@[i]).from < 2
                &&& routes@[i].to < 2
                &&& routes@[i].from != routes@[i].to
                &&& (routes@[i].from == 0 <==> i < routes@.len() / 2)
            },
{
    proof {
        assert forall|i: int| 0 <= i < 2 * spec_workers_per_direction(mode) implies {
            &&& spec_route(mode, i).from < 2
            &&& spec_route(mode, i).to < 2
            &&& spec_route(mode, i).from != spec_route(mode, i).to
            &&& (spec_route(mode, i).from == 0 <==> i < spec_workers_per_direction(mode))
        } by {
            lemma_routes_join_the_two_devices(mode, i);
        }
    }
    let n = mode.workers_per_direction();
    let mut routes: Vec<Route> = Vec::new();
    let mut k: usize = 0;
    while k < n
        invariant
            n == spec_workers_per_direction(mode),
            k <= n,
            routes@.len() == k,
            forall|i: int| 0 <= i < k ==> #[trigger] routes@[i] == spec_route(mode, i),
        decreases n - k,
    {
        routes.push(Route { from: 0, to: 1 });
        k = k + 1;
    }
    let mut k: usize = 0;
    while k < n
        invariant
            n == spec_workers_per_direction(mode),
            k <= n,
            routes@.len() == n + k,
            forall|i: int| 0 <= i < n + k ==> #[trigger] routes@[i] == spec_route(mode, i),
        decreases n - k,
    {
        routes.push(Route { from: 1, to: 0 });
        k = k + 1;
    }
    routes
}

/// Every worker of every mode forwards between the two devices (numbered 0
/// and 1), never back to the device it reads; the first half of the workers
/// read device 0, the second half device 1; and each mode has at least one
/// worker each way.
pub proof fn lemma_routes_join_the_two_devices(mode: Mode, i: int)
    requires
        0 <= i < 2 * spec_workers_per_direction(mode),
    ensures
        spec_workers_per_direction(mode) >= 1,
        spec_route(mode, i).from < 2,
        spec_route(mode, i).to < 2,
        spec_route(mode, i).from != spec_route(mode, i).to,
        spec_route(mode, i).from == 0 <==> i < spec_workers_per_direction(mode),
{
}

/// Every mode forwards both ways, with as many workers each way, and no
/// worker writes back to the device it reads.
pub proof fn lemma_routes_are_symmetric(mode: Mode, i: int)
    requires
        0 <= i < spec_workers_per_direction(mode),
    ensures
        spec_route(mode, i).from == spec_route(mode, i + spec_workers_per_direction(mode)).to,
        spec_route(mode, i).to == spec_route(mode, i + spec_workers_per_direction(mode)).from,
        spec_route(mode, i).from != spec_route(mode, i).to,
{
}

/// Which async runtime runs the framed offload mode.
#[derive(PartialEq, Eq, Structural, Debug, Clone, Copy)]
pub enum RuntimeChoice {
    /// The runtime that `#[tokio::main]` sets up (multi-threaded, default size).
    Default,
    /// A single-threaded runtime.
    CurrentThread,
    /// A multi-threaded runtime with this many workers.
    MultiThread(usize),
}

/// The runtime for the framed offload mode, from the number of worker
/// threads asked for (if any). Asking for none is refused: a runtime cannot
/// have zero workers.
pub fn runtime_choice(threads: Option<usize>) -> (c: RuntimeChoice)
    requires
        threads != Some(0usize),
    ensures
        c == (match threads {
            None => RuntimeChoice::Default,
            Some(n) => if n == 1 { RuntimeChoice::CurrentThread } else { RuntimeChoice::MultiThread(n) },
        }),
{
    match threads {
        None => RuntimeChoice::Default,
        Some(n) => if n == 1 { RuntimeChoice::CurrentThread } else { RuntimeChoice::MultiThread(n) },
    }
}

} // verus!
