//! The notification decoder: a total, pure function from payload bytes to
//! one typed event.
//!
//! Dispatch is by payload length: 10 bytes decode to a pad snapshot, 3
//! bytes to a home-button chord, 6 bytes to a calibrated thermal sample,
//! and every other length to `Unrecognized` carrying the raw bytes for
//! observability. `Unrecognized` is a valid outcome, not an error: the
//! decoder never fails.

use vstd::prelude::*;

use crate::joystick::JoystickEvent;
use crate::joystick::JoystickKeyEvent;
use crate::joystick::decode_home;
use crate::joystick::decode_joystick;
use crate::joystick::spec_home_pressed;
use crate::joystick::spec_joystick;
use crate::thermal::ThermalSample;
use crate::thermal::calibrate;
use crate::thermal::spec_calibrate;

verus! {

/// One decoded notification.
#[derive(Clone, Debug, PartialEq)]
pub enum NotificationEvent {
    Joystick(JoystickKeyEvent),
    Home(bool),
    Thermal(ThermalSample),
    Unrecognized(Vec<u8>),
}

/// The mathematical shape of a decoded notification: as
/// `NotificationEvent`, with the unrecognized payload as a byte sequence.
pub enum EventView {
    Joystick(JoystickKeyEvent),
    Home(bool),
    Thermal(ThermalSample),
    Unrecognized(Seq<u8>),
}

impl View for NotificationEvent {
    type V = EventView;

    open spec fn view(&self) -> EventView {
        match self {
            NotificationEvent::Joystick(k) => EventView::Joystick(*k),
            NotificationEvent::Home(b) => EventView::Home(*b),
            NotificationEvent::Thermal(t) => EventView::Thermal(*t),
            NotificationEvent::Unrecognized(raw) => EventView::Unrecognized(raw@),
        }
    }
}

/// What any byte buffer decodes to, keyed by its length alone.
pub open spec fn spec_decode(p: Seq<u8>) -> EventView {
    if p.len() == 10 {
        EventView::Joystick(spec_joystick(p))
    } else if p.len() == 3 {
        EventView::Home(spec_home_pressed(p))
    } else if p.len() == 6 {
        EventView::Thermal(spec_calibrate(p))
    } else {
        EventView::Unrecognized(p)
    }
}

/// `spec_decode`, stated over the owned buffer so that `decode`'s result is
/// pinned as a value: the unrecognized variant keeps the very buffer it was
/// handed.
pub open spec fn notification_of(payload: Vec<u8>) -> NotificationEvent {
    if payload@.len() == 10 {
        NotificationEvent::Joystick(spec_joystick(payload@))
    } else if payload@.len() == 3 {
        NotificationEvent::Home(spec_home_pressed(payload@))
    } else if payload@.len() == 6 {
        NotificationEvent::Thermal(spec_calibrate(payload@))
    } else {
        NotificationEvent::Unrecognized(payload)
    }
}

/// Decode one notification payload. Total: every buffer yields exactly one
/// event, and the event is a function of the bytes alone.
pub fn decode(payload: Vec<u8>) -> (r: NotificationEvent)
    ensures
        r == notification_of(payload),
        r@ == spec_decode(payload@),
{
    let n = payload.len();
    if n == 10 {
        NotificationEvent::Joystick(decode_joystick(payload.as_slice()))
    } else if n == 3 {
        NotificationEvent::Home(decode_home(payload.as_slice()))
    } else if n == 6 {
        NotificationEvent::Thermal(calibrate(payload.as_slice()))
    } else {
        NotificationEvent::Unrecognized(payload)
    }
}

/// Decoding is deterministic and carries no hidden state: the decoded
/// event depends on the input bytes and on nothing else, so identical
/// buffers always decode identically.
pub proof fn lemma_decode_pure(a: Seq<u8>, b: Seq<u8>)
    ensures
        a == b ==> spec_decode(a) == spec_decode(b),
{
}

/// Decoding is total and returns exactly one variant per buffer: lengths
/// 10, 3 and 6 map to the documented variants and every other length to
/// `Unrecognized` with the buffer intact.
pub proof fn lemma_decode_total(p: Seq<u8>)
    ensures
        p.len() == 10 ==> spec_decode(p) is Joystick,
        p.len() == 3 ==> spec_decode(p) is Home,
        p.len() == 6 ==> spec_decode(p) is Thermal,
        p.len() != 10 && p.len() != 3 && p.len() != 6 ==> spec_decode(p) == EventView::Unrecognized(
            p,
        ),
{
}

/// Decode the payload of one value notification from the controller, as
/// the event stream hands it out: a key snapshot for 10 bytes, a home
/// chord for 3, and nothing for any other length.
pub fn decode_value_event(object_path: String, value: &[u8]) -> (r: Option<JoystickEvent>)
    ensures
        value@.len() == 10 ==> r == Some(
            JoystickEvent::Key(object_path, spec_joystick(value@)),
        ),
        value@.len() == 3 ==> r == Some(
            JoystickEvent::Home(object_path, spec_home_pressed(value@)),
        ),
        value@.len() != 10 && value@.len() != 3 ==> r is None,
{
    let n = value.len();
    if n == 10 {
        Some(JoystickEvent::Key(object_path, decode_joystick(value)))
    } else if n == 3 {
        Some(JoystickEvent::Home(object_path, decode_home(value)))
    } else {
        None
    }
}

} // verus!
