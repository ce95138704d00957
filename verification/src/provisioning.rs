//! The network-provisioning state machine.
//!
//! Wi-Fi, IP and SmartConfig events arrive on the event dispatcher's own
//! context, never the caller's. Each (source, id) pair maps to one action:
//! spawn the provisioning worker, move a bit of the shared event group,
//! log, or hand the received credential to the network stack between a
//! disconnect and a reconnect. Unrecognized pairs are explicitly ignored.
//!
//! [`ProvisioningModel`] folds those actions over the observable state —
//! the event-group bits, the protocol phase, and what was spawned,
//! disconnected, configured and reconnected — which is what the runtime
//! half mirrors with real kernel and network-stack calls.

use crate::event_group::{CONNECTED_BIT, ESPTOUCH_DONE_BIT, EventGroupState};
use crate::freertos_task::{Cpu, CpuAffinity, TaskBuilder, TaskPriority};
use vstd::prelude::*;

verus! {

/// Wi-Fi event id: the station interface started.
pub const WIFI_EVENT_STA_START: u32 = 2;

/// Wi-Fi event id: the station lost its connection.
pub const WIFI_EVENT_STA_DISCONNECTED: u32 = 5;

/// IP event id: the station obtained an address.
pub const IP_EVENT_STA_GOT_IP: u32 = 0;

/// SmartConfig event id: the channel scan finished.
pub const SC_EVENT_SCAN_DONE: u32 = 0;

/// SmartConfig event id: the provisioning channel was found.
pub const SC_EVENT_FOUND_CHANNEL: u32 = 1;

/// SmartConfig event id: SSID and password were received.
pub const SC_EVENT_GOT_SSID_PSWD: u32 = 2;

/// SmartConfig event id: the completion acknowledgement was sent.
pub const SC_EVENT_SEND_ACK_DONE: u32 = 3;

/// The three event sources the handler is registered with.
#[derive(Copy, Debug, Clone, PartialEq, Eq, Structural)]
pub enum EventBase {
    WifiEvent,
    IpEvent,
    ScEvent,
}

/// What the handler does for one dispatched event.
#[derive(Copy, Debug, Clone, PartialEq, Eq, Structural)]
pub enum HandlerAction {
    /// Spawn the dedicated provisioning worker task.
    SpawnWorker,
    /// Clear the connected bit of the shared event group.
    ClearConnected,
    /// Set the connected bit of the shared event group.
    SetConnected,
    /// Log that the channel scan finished.
    LogScanDone,
    /// Log that the provisioning channel was found.
    LogFoundChannel,
    /// Extract the credential from the event payload, disconnect the
    /// station, write the station configuration, reconnect.
    ApplyCredential,
    /// Set the provisioning-done bit of the shared event group.
    SetProvisioningDone,
    /// An unrecognized (source, id) pair: an explicit no-op, not an
    /// error.
    Ignore,
}

/// The phase the provisioning protocol has reached, as far as the
/// dispatched events show it.
#[derive(Copy, Debug, Clone, PartialEq, Eq, Structural)]
pub enum ProvisioningPhase {
    /// Nothing has happened yet.
    Idle,
    /// The worker is up and the protocol is scanning for its channel.
    Scanning,
    /// The channel was found; credentials are awaited.
    CredentialsAwaited,
    /// The credential arrived and was handed to the network stack.
    CredentialsReceived,
    /// The station is (re)connecting; every disconnect — including the
    /// one the credential hand-off performs — ends here, since a
    /// reconnect is always issued.
    Connecting,
    /// The station is connected and has an address.
    Connected,
    /// The provisioning protocol acknowledged completion.
    ProvisioningDone,
}

/// The action for one dispatched (source, id) pair.
pub open spec fn spec_classify(base: Option<EventBase>, event_id: u32) -> HandlerAction {
    match base {
        Some(EventBase::WifiEvent) => if event_id == WIFI_EVENT_STA_START {
            HandlerAction::SpawnWorker
        } else if event_id == WIFI_EVENT_STA_DISCONNECTED {
            HandlerAction::ClearConnected
        } else {
            HandlerAction::Ignore
        },
        Some(EventBase::IpEvent) => if event_id == IP_EVENT_STA_GOT_IP {
            HandlerAction::SetConnected
        } else {
            HandlerAction::Ignore
        },
        Some(EventBase::ScEvent) => if event_id == SC_EVENT_SCAN_DONE {
            HandlerAction::LogScanDone
        } else if event_id == SC_EVENT_FOUND_CHANNEL {
            HandlerAction::LogFoundChannel
        } else if event_id == SC_EVENT_GOT_SSID_PSWD {
            HandlerAction::ApplyCredential
        } else if event_id == SC_EVENT_SEND_ACK_DONE {
            HandlerAction::SetProvisioningDone
        } else {
            HandlerAction::Ignore
        },
        None => HandlerAction::Ignore,
    }
}

/// Classify one dispatched event. Total: every unrecognized pair is
/// `Ignore`.
pub fn classify_event(base: Option<EventBase>, event_id: u32) -> (r: HandlerAction)
    ensures
        r == spec_classify(base, event_id),
{
    match base {
        Some(EventBase::WifiEvent) => if event_id == WIFI_EVENT_STA_START {
            HandlerAction::SpawnWorker
        } else if event_id == WIFI_EVENT_STA_DISCONNECTED {
            HandlerAction::ClearConnected
        } else {
            HandlerAction::Ignore
        },
        Some(EventBase::IpEvent) => if event_id == IP_EVENT_STA_GOT_IP {
            HandlerAction::SetConnected
        } else {
            HandlerAction::Ignore
        },
        Some(EventBase::ScEvent) => if event_id == SC_EVENT_SCAN_DONE {
            HandlerAction::LogScanDone
        } else if event_id == SC_EVENT_FOUND_CHANNEL {
            HandlerAction::LogFoundChannel
        } else if event_id == SC_EVENT_GOT_SSID_PSWD {
            HandlerAction::ApplyCredential
        } else if event_id == SC_EVENT_SEND_ACK_DONE {
            HandlerAction::SetProvisioningDone
        } else {
            HandlerAction::Ignore
        },
        None => HandlerAction::Ignore,
    }
}

/// Credential extracted from a provisioning event payload: SSID bytes,
/// passphrase bytes, and an optional fixed peer address. Consumed
/// immediately to update the network-stack configuration, never
/// persisted.
#[derive(Debug, PartialEq, Eq)]
pub struct ProvisioningCredential {
    pub ssid: Vec<u8>,
    pub password: Vec<u8>,
    pub bssid: Vec<u8>,
    pub bssid_set: bool,
}

/// Ghost image of a credential.
#[verifier::ext_equal]
pub ghost struct CredentialView {
    pub ssid: Seq<u8>,
    pub password: Seq<u8>,
    pub bssid: Seq<u8>,
    pub bssid_set: bool,
}

impl View for ProvisioningCredential {
    type V = CredentialView;

    open spec fn view(&self) -> CredentialView {
        CredentialView {
            ssid: self.ssid@,
            password: self.password@,
            bssid: self.bssid@,
            bssid_set: self.bssid_set,
        }
    }
}

/// What is written into the network stack's station configuration: the
/// credential's bytes, with the peer address kept only when it is fixed.
#[derive(Debug, PartialEq, Eq)]
pub struct StationConfig {
    pub ssid: Vec<u8>,
    pub password: Vec<u8>,
    pub bssid: Option<Vec<u8>>,
}

/// Ghost image of a station configuration.
#[verifier::ext_equal]
pub ghost struct StationConfigView {
    pub ssid: Seq<u8>,
    pub password: Seq<u8>,
    pub bssid: Option<Seq<u8>>,
}

impl View for StationConfig {
    type V = StationConfigView;

    open spec fn view(&self) -> StationConfigView {
        StationConfigView {
            ssid: self.ssid@,
            password: self.password@,
            bssid: match self.bssid {
                Some(b) => Some(b@),
                None => None,
            },
        }
    }
}

/// The station configuration a credential yields.
pub open spec fn spec_config_of(c: CredentialView) -> StationConfigView {
    StationConfigView {
        ssid: c.ssid,
        password: c.password,
        bssid: if c.bssid_set {
            Some(c.bssid)
        } else {
            None
        },
    }
}

fn clone_bytes(src: &Vec<u8>) -> (r: Vec<u8>)
    ensures
        r@ == src@,
{
    let mut out: Vec<u8> = Vec::new();
    let mut i: usize = 0;
    while i < src.len()
        invariant
            i <= src@.len(),
            out@ == src@.subrange(0, i as int),
        decreases src@.len() - i,
    {
        out.push(src[i]);
        assert(out@ =~= src@.subrange(0, i + 1));
        i = i + 1;
    }
    assert(out@ =~= src@);
    out
}

/// Turn a received credential into the station configuration handed to
/// the network stack: SSID and passphrase copied as they came, the peer
/// address kept exactly when the payload marks it fixed.
pub fn credential_to_config(credential: &ProvisioningCredential) -> (r: StationConfig)
    ensures
        r@ == spec_config_of(credential@),
{
    StationConfig {
        ssid: clone_bytes(&credential.ssid),
        password: clone_bytes(&credential.password),
        bssid: if credential.bssid_set {
            Some(clone_bytes(&credential.bssid))
        } else {
            None
        },
    }
}

/// The builder for the dedicated provisioning worker task: its own stack,
/// pinned to the primary core, elevated priority.
pub fn worker_task_config() -> (r: TaskBuilder<'static>)
    ensures
        r.spec_name() == "smartconfig_example_task"@,
        r.spec_stack_size() == 4096,
        r.spec_priority() == 3,
        r.spec_affinity() == CpuAffinity::Cpu(Cpu::Pro),
{
    TaskBuilder::new().name("smartconfig_example_task").stack_size(4096).core_affinity(
        CpuAffinity::Cpu(Cpu::Pro),
    ).priority(TaskPriority(3))
}

/// Mask the provisioning worker waits on: connected, or provisioning
/// done.
pub const WORKER_WAIT_MASK: u32 = CONNECTED_BIT | ESPTOUCH_DONE_BIT;

/// What one wake of the worker observes in the bits the wait returned:
/// whether the station connected (worth a log line), and whether
/// provisioning finished (stop the provisioning service and let the
/// worker's loop — and so the task — end). The worker may wake with only
/// a subset of the awaited bits set and loops until done.
pub fn worker_step(wake_bits: u32) -> (r: (bool, bool))
    ensures
        r.0 == (wake_bits & CONNECTED_BIT != 0),
        r.1 == (wake_bits & ESPTOUCH_DONE_BIT != 0),
{
    (wake_bits & CONNECTED_BIT != 0, wake_bits & ESPTOUCH_DONE_BIT != 0)
}

/// The observable state the provisioning machine drives: the shared
/// event-group bits, the protocol phase, and everything it asked of its
/// collaborators — worker spawns, station disconnects, configurations
/// written, reconnects.
pub struct ProvisioningModel {
    pub group: EventGroupState,
    pub phase: ProvisioningPhase,
    pub workers_spawned: u32,
    pub disconnects: u32,
    pub connects: u32,
    pub configs_applied: Vec<StationConfig>,
}

/// Ghost image of the machine's state.
#[verifier::ext_equal]
pub ghost struct ProvisioningView {
    pub bits: u32,
    pub phase: ProvisioningPhase,
    pub workers_spawned: nat,
    pub disconnects: nat,
    pub connects: nat,
    pub configs_applied: Seq<StationConfigView>,
}

impl View for ProvisioningModel {
    type V = ProvisioningView;

    open spec fn view(&self) -> ProvisioningView {
        ProvisioningView {
            bits: self.group.spec_bits(),
            phase: self.phase,
            workers_spawned: self.workers_spawned as nat,
            disconnects: self.disconnects as nat,
            connects: self.connects as nat,
            configs_applied: self.configs_applied@.map_values(|c: StationConfig| c@),
        }
    }
}

/// The ghost image of an optional borrowed credential payload.
pub open spec fn spec_credential_view(credential: Option<&ProvisioningCredential>) -> Option<
    CredentialView,
> {
    match credential {
        Some(c) => Some(c@),
        None => None,
    }
}

/// One step of the machine: what dispatching an event with the given
/// source, id and payload does to the observable state.
///
/// A recognized credential event disconnects the station, appends the
/// credential's configuration, and reconnects — one write between one
/// disconnect/reconnect pair. A station start always spawns one more
/// worker, whatever phase the machine is in: rounds are not deduplicated.
/// A credential event whose payload is missing changes nothing.
pub open spec fn spec_dispatch(
    v: ProvisioningView,
    base: Option<EventBase>,
    event_id: u32,
    credential: Option<CredentialView>,
) -> ProvisioningView {
    match spec_classify(base, event_id) {
        HandlerAction::SpawnWorker => ProvisioningView {
            phase: ProvisioningPhase::Scanning,
            workers_spawned: v.workers_spawned + 1,
            ..v
        },
        HandlerAction::ClearConnected => ProvisioningView {
            bits: v.bits & !CONNECTED_BIT,
            phase: ProvisioningPhase::Connecting,
            ..v
        },
        HandlerAction::SetConnected => ProvisioningView {
            bits: v.bits | CONNECTED_BIT,
            phase: ProvisioningPhase::Connected,
            ..v
        },
        HandlerAction::LogScanDone => v,
        HandlerAction::LogFoundChannel => ProvisioningView {
            phase: ProvisioningPhase::CredentialsAwaited,
            ..v
        },
        HandlerAction::ApplyCredential => match credential {
            Some(c) => ProvisioningView {
                phase: ProvisioningPhase::CredentialsReceived,
                disconnects: v.disconnects + 1,
                connects: v.connects + 1,
                configs_applied: v.configs_applied.push(spec_config_of(c)),
                ..v
            },
            None => v,
        },
        HandlerAction::SetProvisioningDone => ProvisioningView {
            bits: v.bits | ESPTOUCH_DONE_BIT,
            phase: ProvisioningPhase::ProvisioningDone,
            ..v
        },
        HandlerAction::Ignore => v,
    }
}

impl ProvisioningModel {
    /// The machine before the dispatcher delivers anything: bits clear,
    /// idle, nothing spawned or written.
    pub fn new() -> (r: Self)
        ensures
            r@.bits == 0,
            r@.phase == ProvisioningPhase::Idle,
            r@.workers_spawned == 0,
            r@.disconnects == 0,
            r@.connects == 0,
            r@.configs_applied == Seq::<StationConfigView>::empty(),
    {
        let r = ProvisioningModel {
            group: EventGroupState::new(),
            phase: ProvisioningPhase::Idle,
            workers_spawned: 0,
            disconnects: 0,
            connects: 0,
            configs_applied: Vec::new(),
        };
        proof {
            assert(r@.configs_applied =~= Seq::<StationConfigView>::empty());
        }
        r
    }

    /// Feed one dispatched event to the machine, as the handler does on
    /// the dispatcher's own context.
    pub fn dispatch(
        &mut self,
        base: Option<EventBase>,
        event_id: u32,
        credential: Option<&ProvisioningCredential>,
    )
        requires
            old(self).workers_spawned < u32::MAX,
            old(self).disconnects < u32::MAX,
            old(self).connects < u32::MAX,
        ensures
            final(self)@ == spec_dispatch(
                old(self)@,
                base,
                event_id,
                spec_credential_view(credential),
            ),
    {
        let action = classify_event(base, event_id);
        match action {
            HandlerAction::SpawnWorker => {
                self.phase = ProvisioningPhase::Scanning;
                self.workers_spawned = self.workers_spawned + 1;
            },
            HandlerAction::ClearConnected => {
                self.group.clear_bits(CONNECTED_BIT);
                self.phase = ProvisioningPhase::Connecting;
            },
            HandlerAction::SetConnected => {
                self.group.set_bits(CONNECTED_BIT);
                self.phase = ProvisioningPhase::Connected;
            },
            HandlerAction::LogScanDone => {},
            HandlerAction::LogFoundChannel => {
                self.phase = ProvisioningPhase::CredentialsAwaited;
            },
            HandlerAction::ApplyCredential => {
                match credential {
                    Some(c) => {
                        let config = credential_to_config(c);
                        self.disconnects = self.disconnects + 1;
                        self.configs_applied.push(config);
                        self.connects = self.connects + 1;
                        self.phase = ProvisioningPhase::CredentialsReceived;
                    },
                    None => {},
                }
            },
            HandlerAction::SetProvisioningDone => {
                self.group.set_bits(ESPTOUCH_DONE_BIT);
                self.phase = ProvisioningPhase::ProvisioningDone;
            },
            HandlerAction::Ignore => {},
        }
        proof {
            assert(self@ =~= spec_dispatch(
                old(self)@,
                base,
                event_id,
                spec_credential_view(credential),
            ));
        }
    }
}

/// No deduplication across provisioning rounds: each station-start event
/// spawns one fresh worker, whatever state the machine is in, so two
/// rounds from the same state spawn exactly two workers.
pub proof fn lemma_sta_start_always_spawns(v: ProvisioningView)
    ensures
        spec_dispatch(
            v,
            Some(EventBase::WifiEvent),
            WIFI_EVENT_STA_START,
            None,
        ).workers_spawned == v.workers_spawned + 1,
        spec_dispatch(
            spec_dispatch(v, Some(EventBase::WifiEvent), WIFI_EVENT_STA_START, None),
            Some(EventBase::WifiEvent),
            WIFI_EVENT_STA_START,
            None,
        ).workers_spawned == v.workers_spawned + 2,
{
}

/// Every event that is not a station start leaves the worker count
/// alone: only a station start ever spawns.
pub proof fn lemma_only_sta_start_spawns(
    v: ProvisioningView,
    base: Option<EventBase>,
    event_id: u32,
    credential: Option<CredentialView>,
)
    requires
        !(base == Some(EventBase::WifiEvent) && event_id == WIFI_EVENT_STA_START),
    ensures
        spec_dispatch(v, base, event_id, credential).workers_spawned == v.workers_spawned,
{
}

} // verus!
