//! The sandbox control service: network configuration state, sandbox
//! bootstrap dispatch, clock synchronization, ad-hoc command output
//! interpretation, and event forwarding.

use vstd::prelude::*;

use crate::errors::ShimError;
use crate::sys;

verus! {

/// A network interface descriptor to apply inside the sandbox's
/// namespace.
pub struct Interface {
    pub name: String,
    pub address: String,
}

/// Mathematical image of an `Interface`.
pub struct InterfaceV {
    pub name: Seq<char>,
    pub address: Seq<char>,
}

impl View for Interface {
    type V = InterfaceV;

    open spec fn view(&self) -> InterfaceV {
        InterfaceV { name: self.name@, address: self.address@ }
    }
}

/// A route-table entry to apply inside the sandbox's namespace.
pub struct Route {
    pub dest: String,
    pub gateway: String,
    pub device: String,
}

/// Mathematical image of a `Route`.
pub struct RouteV {
    pub dest: Seq<char>,
    pub gateway: Seq<char>,
    pub device: Seq<char>,
}

impl View for Route {
    type V = RouteV;

    open spec fn view(&self) -> RouteV {
        RouteV { dest: self.dest@, gateway: self.gateway@, device: self.device@ }
    }
}

/// The one configuration payload kind the service recognizes: a pod
/// sandbox descriptor, already decoded by the transport layer.
#[derive(Debug)]
pub struct PodConfig {
    pub hostname: String,
    pub metadata_name: String,
    pub metadata_namespace: String,
    pub metadata_uid: String,
}

/// Mathematical image of a `PodConfig`.
pub struct PodConfigV {
    pub hostname: Seq<char>,
    pub metadata_name: Seq<char>,
    pub metadata_namespace: Seq<char>,
    pub metadata_uid: Seq<char>,
}

impl View for PodConfig {
    type V = PodConfigV;

    open spec fn view(&self) -> PodConfigV {
        PodConfigV {
            hostname: self.hostname@,
            metadata_name: self.metadata_name@,
            metadata_namespace: self.metadata_namespace@,
            metadata_uid: self.metadata_uid@,
        }
    }
}

/// The type tag under which a pod sandbox configuration arrives.
pub open spec fn spec_pod_config_tag() -> Seq<char> {
    "PodSandboxConfig"@
}

/// One clock-synchronization exchange: the orchestrator's probe or
/// corrective delta, and the timestamp fields filled in on a probe.
#[derive(Clone, Copy, PartialEq, Eq, Structural, Debug)]
pub struct SyncClockPacket {
    pub delta: i64,
    pub client_send_time: i64,
    pub client_arrive_time: i64,
    pub server_send_time: i64,
}

/// What `sync_clock` decides to do with the system clock.
#[derive(Clone, Copy, PartialEq, Eq, Structural, Debug)]
pub enum ClockPlan {
    /// A zero delta is a network-delay probe: read the clock, set
    /// nothing.
    Probe,
    /// A nonzero delta: set the clock to exactly this nanosecond
    /// value.
    SetTo(i64),
}

/// A serialized, type-tagged event payload.
pub struct EventPayload {
    pub type_url: String,
    pub value: Vec<u8>,
}

/// Mathematical image of an `EventPayload`.
pub struct EventPayloadV {
    pub type_url: Seq<char>,
    pub value: Seq<u8>,
}

impl View for EventPayload {
    type V = EventPayloadV;

    open spec fn view(&self) -> EventPayloadV {
        EventPayloadV { type_url: self.type_url@, value: self.value@ }
    }
}

/// A topic-tagged event read off the sandbox's inbound channel.
pub struct EventMessage {
    pub topic: String,
    pub payload: EventPayload,
}

/// Mathematical image of an `EventMessage`.
pub struct EventMessageV {
    pub topic: Seq<char>,
    pub payload: EventPayloadV,
}

impl View for EventMessage {
    type V = EventMessageV;

    open spec fn view(&self) -> EventMessageV {
        EventMessageV { topic: self.topic@, payload: self.payload@ }
    }
}

/// The envelope in which a forwarded event reaches the orchestrator.
pub struct Envelope {
    pub timestamp_ns: i64,
    pub namespace: String,
    pub topic: String,
    pub payload: EventPayload,
}

/// Mathematical image of an `Envelope`.
pub struct EnvelopeV {
    pub timestamp_ns: i64,
    pub namespace: Seq<char>,
    pub topic: Seq<char>,
    pub payload: EventPayloadV,
}

impl View for Envelope {
    type V = EnvelopeV;

    open spec fn view(&self) -> EnvelopeV {
        EnvelopeV {
            timestamp_ns: self.timestamp_ns,
            namespace: self.namespace@,
            topic: self.topic@,
            payload: self.payload@,
        }
    }
}

/// The topic whose events are forwarded to the orchestrator: the
/// resource-pressure (out-of-memory) topic.  Events of every other
/// topic are read and dropped.
pub open spec fn spec_oom_topic() -> Seq<char> {
    "/tasks/oom"@
}

/// The resource-pressure topic as a value.
pub fn oom_topic() -> (r: String)
    ensures
        r@ == spec_oom_topic(),
{
    "/tasks/oom".to_owned()
}

/// Whether an event with this topic is forwarded.
pub fn should_forward(topic: &String) -> (r: bool)
    ensures
        r == (topic@ == spec_oom_topic()),
{
    let oom = oom_topic();
    *topic == oom
}

/// The images of a batch of received events.
pub open spec fn spec_event_views(events: Seq<EventMessage>) -> Seq<EventMessageV> {
    events.map_values(|e: EventMessage| e@)
}

/// The first event of the stream that `get_events` forwards: the
/// earliest one carrying the resource-pressure topic.
pub open spec fn spec_first_forward(evs: Seq<EventMessageV>) -> Option<EventMessageV>
    decreases evs.len(),
{
    if evs.len() == 0 {
        Option::None
    } else if evs[0].topic == spec_oom_topic() {
        Option::Some(evs[0])
    } else {
        spec_first_forward(evs.skip(1))
    }
}

proof fn lemma_first_forward_at(evs: Seq<EventMessageV>, i: int)
    requires
        0 <= i < evs.len(),
        forall|j: int| 0 <= j < i ==> evs[j].topic != spec_oom_topic(),
        evs[i].topic == spec_oom_topic(),
    ensures
        spec_first_forward(evs) == Option::Some(evs[i]),
    decreases i,
{
    if i > 0 {
        assert(forall|j: int| 0 <= j < i - 1 ==> evs.skip(1)[j] == evs[j + 1]);
        lemma_first_forward_at(evs.skip(1), i - 1);
    }
}

proof fn lemma_first_forward_none(evs: Seq<EventMessageV>)
    requires
        forall|j: int| 0 <= j < evs.len() ==> evs[j].topic != spec_oom_topic(),
    ensures
        spec_first_forward(evs) is None,
    decreases evs.len(),
{
    if evs.len() > 0 {
        lemma_first_forward_none(evs.skip(1));
    }
}

/// What the clock-synchronization exchange does for a given delta
/// and current reading `now_ns`: a zero delta probes and never
/// touches the clock; a nonzero delta sets the clock to exactly
/// `now_ns + delta`.  A target that is not a representable,
/// non-negative nanosecond count is refused.
pub fn clock_plan(delta: i64, now_ns: i64) -> (r: Result<ClockPlan, ShimError>)
    ensures
        delta == 0 ==> r == Result::<ClockPlan, ShimError>::Ok(ClockPlan::Probe),
        delta != 0 && i64::MIN <= now_ns + delta <= i64::MAX && now_ns + delta >= 0 ==> r
            == Result::<ClockPlan, ShimError>::Ok(ClockPlan::SetTo((now_ns + delta) as i64)),
        delta != 0 && !(i64::MIN <= now_ns + delta <= i64::MAX && now_ns + delta >= 0) ==> r is Err
            && r->Err_0 is InvalidArgument,
        r is Ok && delta != 0 ==> r->Ok_0 is SetTo && r->Ok_0->SetTo_0 == now_ns + delta,
    {
    if delta == 0 {
        return Ok(ClockPlan::Probe);
    }
    match now_ns.checked_add(delta) {
        Option::Some(target) => {
            if target >= 0 {
                Ok(ClockPlan::SetTo(target))
            } else {
                Err(ShimError::InvalidArgument(String::new()))
            }
        },
        Option::None => Err(ShimError::InvalidArgument(String::new())),
    }
}

/// The sandbox control service: the sandbox's namespace name and the
/// network state this shim has applied.  The netlink transport and
/// the event channel live with the embedding; their decisions live
/// here.
pub struct SandboxService {
    pub namespace: String,
    pub interfaces: Vec<Interface>,
    pub routes: Vec<Route>,
}

/// Mathematical image of a `SandboxService`.
pub struct SandboxServiceV {
    pub namespace: Seq<char>,
    pub interfaces: Seq<InterfaceV>,
    pub routes: Seq<RouteV>,
}

impl View for SandboxService {
    type V = SandboxServiceV;

    open spec fn view(&self) -> SandboxServiceV {
        SandboxServiceV {
            namespace: self.namespace@,
            interfaces: self.interfaces@.map_values(|i: Interface| i@),
            routes: self.routes@.map_values(|r: Route| r@),
        }
    }
}

impl SandboxService {
    /// A fresh service for the given namespace, with no network
    /// state applied yet.
    pub fn new(namespace: String) -> (r: SandboxService)
        ensures
            r@.namespace == namespace@,
            r@.interfaces == Seq::<InterfaceV>::empty(),
            r@.routes == Seq::<RouteV>::empty(),
    {
        let r = SandboxService { namespace, interfaces: Vec::new(), routes: Vec::new() };
        proof {
            assert(r@.interfaces =~= Seq::<InterfaceV>::empty());
            assert(r@.routes =~= Seq::<RouteV>::empty());
        }
        r
    }

    /// The liveness probe: always succeeds once the service is
    /// reachable.
    pub fn check(&self) -> (r: Result<(), ShimError>)
        ensures
            r is Ok,
    {
        Ok(())
    }

    /// Replaces the interface set applied to the sandbox's
    /// namespace.  Routes and namespace are untouched.
    pub fn update_interfaces(&mut self, interfaces: Vec<Interface>)
        ensures
            final(self)@ == (SandboxServiceV {
                interfaces: interfaces@.map_values(|i: Interface| i@),
                ..old(self)@
            }),
    {
        self.interfaces = interfaces;
    }

    /// Replaces the route table applied to the sandbox's namespace.
    /// Interfaces and namespace are untouched.
    pub fn update_routes(&mut self, routes: Vec<Route>)
        ensures
            final(self)@ == (SandboxServiceV {
                routes: routes@.map_values(|r: Route| r@),
                ..old(self)@
            }),
    {
        self.routes = routes;
    }

    /// The dispatch half of sandbox setup: accepts exactly the pod
    /// sandbox configuration kind.  An unrecognized type tag fails
    /// with `NotFound` carrying that tag, and nothing — in particular
    /// no network state — is touched; a recognized tag whose payload
    /// did not decode fails with `InvalidArgument`.  On success the
    /// embedding bootstraps the sandbox with the returned
    /// configuration and only then applies the network with
    /// `setup_sandbox_network`.
    pub fn setup_sandbox_config(&self, type_url: &String, config: Option<PodConfig>) -> (r: Result<
        PodConfig,
        ShimError,
    >)
        ensures
            type_url@ != spec_pod_config_tag() ==> r is Err && r->Err_0 is NotFound
                && r->Err_0->NotFound_0@ == type_url@,
            type_url@ == spec_pod_config_tag() && config is None ==> r is Err && r->Err_0
                is InvalidArgument,
            type_url@ == spec_pod_config_tag() && config is Some ==> r is Ok && r->Ok_0
                == config->Some_0,
    {
        let tag = "PodSandboxConfig".to_owned();
        if !(*type_url == tag) {
            return Err(ShimError::NotFound(type_url.clone()));
        }
        match config {
            Option::Some(c) => Ok(c),
            Option::None => Err(ShimError::InvalidArgument(tag)),
        }
    }

    /// The network half of sandbox setup, run only after bootstrap
    /// completed: applies the interfaces, then the routes, in that
    /// order.
    pub fn setup_sandbox_network(&mut self, interfaces: Vec<Interface>, routes: Vec<Route>)
        ensures
            final(self)@ == (SandboxServiceV {
                interfaces: interfaces@.map_values(|i: Interface| i@),
                routes: routes@.map_values(|r: Route| r@),
                ..old(self)@
            }),
    {
        self.update_interfaces(interfaces);
        self.update_routes(routes);
    }

    /// The clock-synchronization exchange.  A zero delta is a probe:
    /// the packet comes back with the two server-side readings filled
    /// in and the system clock untouched.  A nonzero delta sets the
    /// system clock to the current reading plus exactly that many
    /// nanoseconds and echoes the request.
    pub fn sync_clock(&self, pkt: &SyncClockPacket) -> (r: Result<SyncClockPacket, ShimError>)
        ensures
            r is Ok ==> r->Ok_0.delta == pkt.delta && r->Ok_0.client_send_time
                == pkt.client_send_time,
            pkt.delta != 0 && r is Ok ==> r->Ok_0 == *pkt,
            r is Err ==> r->Err_0 is OsError || r->Err_0 is InvalidArgument || r->Err_0
                is Internal,
    {
        if pkt.delta == 0 {
            let t1 = read_clock_ns()?;
            let t2 = read_clock_ns()?;
            Ok(fill_probe(*pkt, t1, t2))
        } else {
            let now = read_clock_ns()?;
            match clock_plan(pkt.delta, now)? {
                ClockPlan::SetTo(target) => {
                    set_clock_ns(target)?;
                    Ok(*pkt)
                },
                ClockPlan::Probe => Err(ShimError::Internal(String::new())),
            }
        }
    }

    /// Drains a batch of received events and forwards the first
    /// resource-pressure event, wrapped with the given timestamp and
    /// the sandbox's namespace; every earlier event is dropped.  A
    /// batch with no such event is the channel running dry: the
    /// long-poll fails with an internal error, as a permanently
    /// closed channel does.
    pub fn get_events(&self, events: &Vec<EventMessage>, timestamp_ns: i64) -> (r: Result<
        Envelope,
        ShimError,
    >)
        ensures
            r is Ok <==> spec_first_forward(spec_event_views(events@)) is Some,
            r is Ok ==> r->Ok_0@ == (EnvelopeV {
                timestamp_ns: timestamp_ns,
                namespace: self@.namespace,
                topic: spec_oom_topic(),
                payload: spec_first_forward(spec_event_views(events@))->Some_0.payload,
            }),
            r is Err ==> r->Err_0 is Internal,
    {
        let ghost evs = spec_event_views(events@);
        let n = events.len();
        let mut i: usize = 0;
        while i < n
            invariant
                i <= n,
                n == events@.len(),
                spec_event_views(events@) == evs,
                forall|j: int| 0 <= j < i ==> evs[j].topic != spec_oom_topic(),
            decreases n - i,
        {
            if should_forward(&events[i].topic) {
                proof {
                    lemma_first_forward_at(evs, i as int);
                }
                return Ok(
                    Envelope {
                        timestamp_ns,
                        namespace: self.namespace.clone(),
                        topic: events[i].topic.clone(),
                        payload: clone_payload(&events[i].payload),
                    },
                );
            }
            i = i + 1;
        }
        proof {
            lemma_first_forward_none(evs);
        }
        Err(ShimError::Internal("internal".to_owned()))
    }
}

fn clone_bytes(v: &Vec<u8>) -> (r: Vec<u8>)
    ensures
        r@ == v@,
{
    let mut out: Vec<u8> = Vec::new();
    let mut i: usize = 0;
    while i < v.len()
        invariant
            i <= v@.len(),
            out@ =~= v@.take(i as int),
        decreases v@.len() - i,
    {
        out.push(v[i]);
        i = i + 1;
    }
    proof {
        assert(v@.take(v@.len() as int) =~= v@);
    }
    out
}

fn clone_payload(p: &EventPayload) -> (r: EventPayload)
    ensures
        r@ == p@,
{
    EventPayload { type_url: p.type_url.clone(), value: clone_bytes(&p.value) }
}

/// A probe response: the request packet with the two server-side
/// readings placed into their fields, in the order they were taken,
/// and everything else echoed.
pub fn fill_probe(pkt: SyncClockPacket, t1: i64, t2: i64) -> (r: SyncClockPacket)
    ensures
        r == (SyncClockPacket { client_arrive_time: t1, server_send_time: t2, ..pkt }),
{
    SyncClockPacket { client_arrive_time: t1, server_send_time: t2, ..pkt }
}

/// One nanosecond count out of a clock reading's second and
/// sub-second parts: exactly `sec * 10^9 + nsec` where that fits the
/// count's range, refused otherwise.
pub fn combine_clock_reading(sec: i64, nsec: i64) -> (r: Result<i64, ShimError>)
    requires
        0 <= nsec < 1_000_000_000,
    ensures
        r is Ok <==> i64::MIN <= sec * 1_000_000_000 && sec * 1_000_000_000 + nsec <= i64::MAX,
        r is Ok ==> r->Ok_0 == sec * 1_000_000_000 + nsec,
        r is Err ==> r->Err_0 is Internal,
{
    let scaled = match sec.checked_mul(1_000_000_000) {
        Option::Some(s) => s,
        Option::None => {
            return Err(ShimError::Internal(String::new()));
        },
    };
    match scaled.checked_add(nsec) {
        Option::Some(total) => Ok(total),
        Option::None => Err(ShimError::Internal(String::new())),
    }
}

/// The second and sub-second parts of the nanosecond count
/// `target_ns`: the pair recombines to exactly the target, with the
/// sub-second part in the range the clock accepts.
pub fn split_clock_target(target_ns: i64) -> (r: (i64, i64))
    requires
        target_ns >= 0,
    ensures
        r.0 * 1_000_000_000 + r.1 == target_ns,
        r.0 >= 0,
        0 <= r.1 < 1_000_000_000,
{
    let sec = target_ns / 1_000_000_000;
    let nsec = target_ns % 1_000_000_000;
    proof {
        assert(sec >= 0 && 0 <= nsec < 1_000_000_000 && sec * 1_000_000_000 + nsec == target_ns)
            by (nonlinear_arith)
            requires
                target_ns >= 0,
                sec == target_ns / 1_000_000_000,
                nsec == target_ns % 1_000_000_000,
        ;
    }
    (sec, nsec)
}

/// Reads the realtime clock as one nanosecond count, surfacing a
/// failed or unrepresentable reading as an `OsError` or an
/// `Internal` error.
fn read_clock_ns() -> (r: Result<i64, ShimError>)
    ensures
        r is Err ==> r->Err_0 is OsError || r->Err_0 is Internal,
{
    let (sec, nsec) = match sys::clock_gettime_realtime() {
        Ok(t) => t,
        Err(errno) => {
            return Err(ShimError::OsError(errno));
        },
    };
    combine_clock_reading(sec, nsec)
}

/// Sets the realtime clock to the nanosecond count `target_ns`.
fn set_clock_ns(target_ns: i64) -> (r: Result<(), ShimError>)
    requires
        target_ns >= 0,
    ensures
        r is Err ==> r->Err_0 is OsError,
{
    let (sec, nsec) = split_clock_target(target_ns);
    match sys::clock_settime_realtime(sec, nsec) {
        Ok(()) => Ok(()),
        Err(errno) => Err(ShimError::OsError(errno)),
    }
}

/// Interprets the outcome of the ad-hoc command channel: on success
/// the combined standard output, decoded; on a nonzero exit an
/// internal error carrying the captured standard-error text.
pub fn interpret_cmd_output(success: bool, stdout: Vec<u8>, stderr: Vec<u8>) -> (r: Result<
    String,
    ShimError,
>)
    ensures
        r is Ok <==> success && sys::utf8_of(stdout@) is Some,
        r is Ok ==> r->Ok_0@ == sys::utf8_of(stdout@)->Some_0,
        r is Err ==> r->Err_0 is Internal,
        !success && sys::utf8_of(stderr@) is Some ==> r is Err && r->Err_0->Internal_0@
            == sys::utf8_of(stderr@)->Some_0,
{
    if success {
        match sys::decode_utf8(stdout) {
            Ok(out) => Ok(out),
            Err(()) => Err(ShimError::Internal(String::new())),
        }
    } else {
        match sys::decode_utf8(stderr) {
            Ok(err_text) => Err(ShimError::Internal(err_text)),
            Err(()) => Err(ShimError::Internal(String::new())),
        }
    }
}

} // verus!
