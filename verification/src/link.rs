//! The link state machine: discover, filter by name, pair if needed,
//! connect, resolve attributes, subscribe.
//!
//! The machine is the decision core of the pipeline. The host performs the
//! transport work (scanning, pairing, connecting, enumerating attributes,
//! subscribing) and feeds each outcome back as a `LinkEvent`; `step` answers
//! with the next state and the one action the host should perform. Failure
//! semantics: a pairing failure is tolerated (the connect attempt still
//! follows, since peripherals may be connectable without an explicit
//! pairing step), a connect failure or an attribute miss ends the pipeline
//! for that peripheral with no retry, and `Disconnected` is terminal and
//! idempotent.

use vstd::prelude::*;

use crate::decoder::NotificationEvent;
use crate::decoder::decode;
use crate::decoder::notification_of;
use crate::resolver::find_characteristic;
use crate::resolver::find_service;
use crate::resolver::spec_first_match;

verus! {

/// `m` occurs in `s` starting at position `k`.
pub open spec fn spec_contains_at(s: Seq<char>, m: Seq<char>, k: int) -> bool {
    0 <= k && k + m.len() <= s.len() && s.subrange(k, k + m.len()) == m
}

/// `m` occurs somewhere in `s`.
pub open spec fn spec_contains(s: Seq<char>, m: Seq<char>) -> bool {
    exists|k: int| spec_contains_at(s, m, k)
}

/// Whether `marker` occurs as a substring of `name`: the advertisement
/// filter that retains candidate peripherals.
pub fn contains_marker(name: &str, marker: &str) -> (r: bool)
    ensures
        r == spec_contains(name@, marker@),
{
    let n = name.unicode_len();
    let m = marker.unicode_len();
    if m > n {
        return false;
    }
    if m == 0 {
        proof {
            assert(name@.subrange(0, 0) =~= marker@);
            assert(spec_contains_at(name@, marker@, 0));
        }
        return true;
    }
    let mut k: usize = 0;
    while k <= n - m
        invariant
            n == name@.len(),
            m == marker@.len(),
            1 <= m <= n,
            k <= n - m + 1,
            forall|t: int| 0 <= t < k ==> !spec_contains_at(name@, marker@, t),
        decreases n - m - k + 1,
    {
        let mut j: usize = 0;
        let mut eq = true;
        while j < m && eq
            invariant
                n == name@.len(),
                m == marker@.len(),
                k + m <= n,
                j <= m,
                eq ==> forall|t: int| 0 <= t < j ==> name@[k + t] == marker@[t],
                !eq ==> name@.subrange(k as int, k + m) != marker@,
            decreases m - j, (if eq { 1int } else { 0int }),
        {
            if name.get_char(k + j) != marker.get_char(j) {
                proof {
                    assert(name@.subrange(k as int, k + m)[j as int] == name@[k + j]);
                }
                eq = false;
            } else {
                j = j + 1;
            }
        }
        if eq {
            proof {
                assert(name@.subrange(k as int, k + m) =~= marker@);
                assert(spec_contains_at(name@, marker@, k as int));
            }
            return true;
        }
        k = k + 1;
    }
    false
}

/// Which peripheral and attributes one pipeline drives at: the name marker
/// that retains an advertisement, and the short UUIDs of the target service
/// and characteristic inside it.
pub struct LinkConfig {
    pub name_marker: String,
    pub service_uuid: u16,
    pub characteristic_uuid: u16,
}

/// Configuration for the "bell" game controller: vendor service 0x8850,
/// notification characteristic 0x885a.
pub fn bell_config() -> (c: LinkConfig)
    ensures
        c.name_marker@ == "bell"@,
        c.service_uuid == 0x8850,
        c.characteristic_uuid == 0x885a,
{
    LinkConfig {
        name_marker: String::from_str("bell"),
        service_uuid: 0x8850,
        characteristic_uuid: 0x885a,
    }
}

/// Configuration for the thermometer accessory: health-thermometer service
/// 0x1809, intermediate-temperature characteristic 0x2a1e.
pub fn mmc_config() -> (c: LinkConfig)
    ensures
        c.name_marker@ == "MMC"@,
        c.service_uuid == 0x1809,
        c.characteristic_uuid == 0x2a1e,
{
    LinkConfig {
        name_marker: String::from_str("MMC"),
        service_uuid: 0x1809,
        characteristic_uuid: 0x2a1e,
    }
}

/// The fixed 2-byte enable command written to the vendor command
/// characteristic.
pub fn enable_command() -> (v: Vec<u8>)
    ensures
        v@ == seq![0x01u8, 0x00u8],
{
    let mut v: Vec<u8> = Vec::new();
    v.push(0x01);
    v.push(0x00);
    proof {
        assert(v@ =~= seq![0x01u8, 0x00u8]);
    }
    v
}

/// Where one peripheral's pipeline stands. Attribute handles are owned by
/// the transport; the machine addresses them by their position in the
/// enumeration the transport reported.
#[derive(Clone, Debug, PartialEq)]
pub enum LinkState {
    Idle,
    Scanning,
    Discovered,
    Pairing,
    Connecting,
    /// Connected; `resolved_service` holds the target service's position
    /// once the service enumeration has been searched.
    Connected { resolved_service: Option<usize> },
    ServicesResolved { service: usize, characteristic: usize },
    Subscribed { service: usize, characteristic: usize },
    Disconnected,
}

/// One outcome the transport reports back to the machine.
#[derive(Debug, PartialEq)]
pub enum LinkEvent {
    /// The caller asks for a scan.
    ScanRequested,
    /// An advertisement with this local name was seen while scanning.
    AdvertisementSeen { name: String },
    /// Whether the discovered peripheral is already paired.
    PairStatus { paired: bool },
    /// The pairing attempt finished.
    PairResult { ok: bool },
    /// The connect attempt finished.
    ConnectResult { ok: bool },
    /// The peripheral's services, as full UUID strings in enumeration
    /// order (queried after the post-connect settling delay).
    ServicesEnumerated { uuids: Vec<String> },
    /// The resolved service's characteristics, as full UUID strings in
    /// enumeration order.
    CharacteristicsEnumerated { uuids: Vec<String> },
    /// The subscribe call finished.
    SubscribeResult { ok: bool },
    /// One notification payload arrived on the subscribed characteristic.
    Notification { payload: Vec<u8> },
    /// The transport lost the connection.
    ConnectionLost,
    /// The caller asks for teardown.
    DisconnectRequested,
}

/// Why a pipeline ended.
#[derive(Clone, Copy, Debug, PartialEq, Eq, Structural)]
pub enum LinkOutcome {
    ConnectFailure,
    AttributeNotFound,
    SubscribeFailure,
    TransportDisconnected,
}

/// The one piece of transport work the host should perform next.
#[derive(Debug, PartialEq)]
pub enum LinkAction {
    /// Nothing to do; keep feeding events.
    Wait,
    /// Start scanning with the caller's timeout budget.
    StartScan,
    /// Ask the transport whether the candidate is paired.
    QueryPaired,
    /// Attempt to pair.
    Pair,
    /// Attempt to connect, with the fixed timeout.
    Connect,
    /// Wait the post-connect settling delay, then enumerate services.
    EnumerateServices,
    /// Enumerate the characteristics of the service at this position.
    EnumerateCharacteristics { service: usize },
    /// Subscribe to the characteristic at this position.
    Subscribe { service: usize, characteristic: usize },
    /// Hand the decoded notification to the caller.
    Emit { event: NotificationEvent },
    /// Report why the pipeline ended.
    Report { outcome: LinkOutcome },
    /// Release the connection and its handles.
    Disconnect,
}

/// The transition relation of the machine, one case per state and event.
/// Events that a state does not expect are ignored where they are
/// harmless; loss of the connection and a disconnect request reach
/// `Disconnected` from every state, and `Disconnected` is terminal.
pub open spec fn spec_step(config: LinkConfig, state: LinkState, event: LinkEvent) -> (
    LinkState,
    LinkAction,
) {
    match event {
        LinkEvent::DisconnectRequested => if state is Disconnected {
            (LinkState::Disconnected, LinkAction::Wait)
        } else {
            (LinkState::Disconnected, LinkAction::Disconnect)
        },
        LinkEvent::ConnectionLost => if state is Disconnected {
            (LinkState::Disconnected, LinkAction::Wait)
        } else {
            (
                LinkState::Disconnected,
                LinkAction::Report { outcome: LinkOutcome::TransportDisconnected },
            )
        },
        LinkEvent::ScanRequested => match state {
            LinkState::Idle => (LinkState::Scanning, LinkAction::StartScan),
            s => (s, LinkAction::Wait),
        },
        LinkEvent::AdvertisementSeen { name } => match state {
            LinkState::Scanning => if spec_contains(name@, config.name_marker@) {
                (LinkState::Discovered, LinkAction::QueryPaired)
            } else {
                (LinkState::Scanning, LinkAction::Wait)
            },
            s => (s, LinkAction::Wait),
        },
        LinkEvent::PairStatus { paired } => match state {
            LinkState::Discovered => if paired {
                (LinkState::Connecting, LinkAction::Connect)
            } else {
                (LinkState::Pairing, LinkAction::Pair)
            },
            s => (s, LinkAction::Wait),
        },
        LinkEvent::PairResult { ok } => match state {
            // A pairing failure is tolerated: the connect attempt follows
            // either way.
            LinkState::Pairing => (LinkState::Connecting, LinkAction::Connect),
            s => (s, LinkAction::Wait),
        },
        LinkEvent::ConnectResult { ok } => match state {
            LinkState::Connecting => if ok {
                (
                    LinkState::Connected { resolved_service: None },
                    LinkAction::EnumerateServices,
                )
            } else {
                (
                    LinkState::Disconnected,
                    LinkAction::Report { outcome: LinkOutcome::ConnectFailure },
                )
            },
            s => (s, LinkAction::Wait),
        },
        LinkEvent::ServicesEnumerated { uuids } => match state {
            LinkState::Connected { resolved_service: None } => match spec_first_match(
                uuids@,
                config.service_uuid,
            ) {
                Some(i) => (
                    LinkState::Connected { resolved_service: Some(i as usize) },
                    LinkAction::EnumerateCharacteristics { service: i as usize },
                ),
                None => (
                    LinkState::Disconnected,
                    LinkAction::Report { outcome: LinkOutcome::AttributeNotFound },
                ),
            },
            s => (s, LinkAction::Wait),
        },
        LinkEvent::CharacteristicsEnumerated { uuids } => match state {
            LinkState::Connected { resolved_service: Some(service) } => match spec_first_match(
                uuids@,
                config.characteristic_uuid,
            ) {
                Some(j) => (
                    LinkState::ServicesResolved { service, characteristic: j as usize },
                    LinkAction::Subscribe { service, characteristic: j as usize },
                ),
                None => (
                    LinkState::Disconnected,
                    LinkAction::Report { outcome: LinkOutcome::AttributeNotFound },
                ),
            },
            s => (s, LinkAction::Wait),
        },
        LinkEvent::SubscribeResult { ok } => match state {
            LinkState::ServicesResolved { service, characteristic } => if ok {
                (LinkState::Subscribed { service, characteristic }, LinkAction::Wait)
            } else {
                (
                    LinkState::Disconnected,
                    LinkAction::Report { outcome: LinkOutcome::SubscribeFailure },
                )
            },
            s => (s, LinkAction::Wait),
        },
        LinkEvent::Notification { payload } => match state {
            LinkState::Subscribed { service, characteristic } => (
                LinkState::Subscribed { service, characteristic },
                LinkAction::Emit { event: notification_of(payload) },
            ),
            s => (s, LinkAction::Wait),
        },
    }
}

/// Advance the machine by one transport event.
pub fn step(config: &LinkConfig, state: LinkState, event: LinkEvent) -> (r: (
    LinkState,
    LinkAction,
))
    ensures
        r == spec_step(*config, state, event),
{
    match event {
        LinkEvent::DisconnectRequested => match state {
            LinkState::Disconnected => (LinkState::Disconnected, LinkAction::Wait),
            _ => (LinkState::Disconnected, LinkAction::Disconnect),
        },
        LinkEvent::ConnectionLost => match state {
            LinkState::Disconnected => (LinkState::Disconnected, LinkAction::Wait),
            _ => (
                LinkState::Disconnected,
                LinkAction::Report { outcome: LinkOutcome::TransportDisconnected },
            ),
        },
        LinkEvent::ScanRequested => match state {
            LinkState::Idle => (LinkState::Scanning, LinkAction::StartScan),
            s => (s, LinkAction::Wait),
        },
        LinkEvent::AdvertisementSeen { name } => match state {
            LinkState::Scanning => {
                if contains_marker(name.as_str(), config.name_marker.as_str()) {
                    (LinkState::Discovered, LinkAction::QueryPaired)
                } else {
                    (LinkState::Scanning, LinkAction::Wait)
                }
            },
            s => (s, LinkAction::Wait),
        },
        LinkEvent::PairStatus { paired } => match state {
            LinkState::Discovered => {
                if paired {
                    (LinkState::Connecting, LinkAction::Connect)
                } else {
                    (LinkState::Pairing, LinkAction::Pair)
                }
            },
            s => (s, LinkAction::Wait),
        },
        LinkEvent::PairResult { ok: _ } => match state {
            LinkState::Pairing => (LinkState::Connecting, LinkAction::Connect),
            s => (s, LinkAction::Wait),
        },
        LinkEvent::ConnectResult { ok } => match state {
            LinkState::Connecting => {
                if ok {
                    (
                        LinkState::Connected { resolved_service: None },
                        LinkAction::EnumerateServices,
                    )
                } else {
                    (
                        LinkState::Disconnected,
                        LinkAction::Report { outcome: LinkOutcome::ConnectFailure },
                    )
                }
            },
            s => (s, LinkAction::Wait),
        },
        LinkEvent::ServicesEnumerated { uuids } => match state {
            LinkState::Connected { resolved_service: None } => {
                match find_service(&uuids, config.service_uuid) {
                    Some(i) => (
                        LinkState::Connected { resolved_service: Some(i) },
                        LinkAction::EnumerateCharacteristics { service: i },
                    ),
                    None => (
                        LinkState::Disconnected,
                        LinkAction::Report { outcome: LinkOutcome::AttributeNotFound },
                    ),
                }
            },
            s => (s, LinkAction::Wait),
        },
        LinkEvent::CharacteristicsEnumerated { uuids } => match state {
            LinkState::Connected { resolved_service: Some(service) } => {
                match find_characteristic(&uuids, config.characteristic_uuid) {
                    Some(j) => (
                        LinkState::ServicesResolved { service, characteristic: j },
                        LinkAction::Subscribe { service, characteristic: j },
                    ),
                    None => (
                        LinkState::Disconnected,
                        LinkAction::Report { outcome: LinkOutcome::AttributeNotFound },
                    ),
                }
            },
            s => (s, LinkAction::Wait),
        },
        LinkEvent::SubscribeResult { ok } => match state {
            LinkState::ServicesResolved { service, characteristic } => {
                if ok {
                    (LinkState::Subscribed { service, characteristic }, LinkAction::Wait)
                } else {
                    (
                        LinkState::Disconnected,
                        LinkAction::Report { outcome: LinkOutcome::SubscribeFailure },
                    )
                }
            },
            s => (s, LinkAction::Wait),
        },
        LinkEvent::Notification { payload } => match state {
            LinkState::Subscribed { service, characteristic } => (
                LinkState::Subscribed { service, characteristic },
                LinkAction::Emit { event: decode(payload) },
            ),
            s => (s, LinkAction::Wait),
        },
    }
}

/// `Disconnected` is terminal: no event leaves it, and a repeated
/// disconnect request is a no-op.
pub proof fn lemma_disconnected_terminal(config: LinkConfig, event: LinkEvent)
    ensures
        spec_step(config, LinkState::Disconnected, event).0 == LinkState::Disconnected,
{
}

/// A pairing failure does not abort the pipeline: from `Pairing`, the
/// connect attempt follows whatever the pairing result was.
pub proof fn lemma_pair_failure_continues(config: LinkConfig, ok: bool)
    ensures
        spec_step(config, LinkState::Pairing, (LinkEvent::PairResult { ok })) == (
            LinkState::Connecting,
            LinkAction::Connect,
        ),
{
}

/// Loss of the connection reaches `Disconnected` from every state.
pub proof fn lemma_connection_lost_disconnects(config: LinkConfig, state: LinkState)
    ensures
        spec_step(config, state, LinkEvent::ConnectionLost).0 == LinkState::Disconnected,
{
}

/// Once subscribed, the machine is passive: every notification payload is
/// handed to the decoder and the decoded event emitted, with the
/// subscription kept as it was.
pub proof fn lemma_subscribed_emits_decoded(
    config: LinkConfig,
    service: usize,
    characteristic: usize,
    payload: Vec<u8>,
)
    ensures
        spec_step(
            config,
            (LinkState::Subscribed { service, characteristic }),
            (LinkEvent::Notification { payload }),
        ) == (
            (LinkState::Subscribed { service, characteristic }),
            (LinkAction::Emit { event: notification_of(payload) }),
        ),
{
}

/// A connect failure is terminal for the peripheral: no retry, the
/// pipeline ends disconnected with the failure reported.
pub proof fn lemma_connect_failure_terminal(config: LinkConfig)
    ensures
        spec_step(config, LinkState::Connecting, (LinkEvent::ConnectResult { ok: false })) == (
            LinkState::Disconnected,
            (LinkAction::Report { outcome: LinkOutcome::ConnectFailure }),
        ),
{
}

} // verus!
