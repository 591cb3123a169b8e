//! Decoding of the controller's 10-byte key snapshot and 3-byte home chord.
//!
//! Each notification is a complete snapshot of the pad, never a delta. The
//! four directional flags are exact-equality tests against sentinel byte
//! values (the hardware emits directions exclusively; diagonals are not
//! decoded), while every other button is a bitwise-AND test and may combine
//! freely. The two analog triggers carry a raw magnitude byte plus a
//! "fully pressed" flag bit, and the rotary dials are raw byte pairs.

use vstd::prelude::*;

verus! {

/// Snapshot of the pad decoded from one 10-byte notification.
#[derive(Clone, Copy, Debug, PartialEq)]
pub struct JoystickKeyEvent {
    pub up: bool,
    pub down: bool,
    pub left: bool,
    pub right: bool,
    pub i: bool,
    pub ii: bool,
    pub a: bool,
    pub b: bool,
    pub c: bool,
    pub d: bool,
    pub l1: bool,
    pub l2: (u8, bool),
    pub r1: bool,
    pub r2: (u8, bool),
    pub rl: (u8, u8),
    pub rr: (u8, u8),
}

/// A decoded controller notification, tagged with the device path it came
/// from.
#[derive(Clone, Debug, PartialEq)]
pub enum JoystickEvent {
    Key(String, JoystickKeyEvent),
    Home(String, bool),
}

/// The snapshot encoded by a 10-byte payload: directions by exact equality
/// of byte 8, buttons by their mask bits in bytes 6 and 7, trigger
/// magnitudes in bytes 4 and 5, dials in bytes 0 to 3.
pub open spec fn spec_joystick(p: Seq<u8>) -> JoystickKeyEvent
    recommends
        p.len() == 10,
{
    JoystickKeyEvent {
        up: p[8] == 1u8,
        down: p[8] == 5u8,
        left: p[8] == 7u8,
        right: p[8] == 3u8,
        i: p[7] & 0x04 != 0,
        ii: p[7] & 0x08 != 0,
        a: p[6] & 0x01 != 0,
        b: p[6] & 0x02 != 0,
        c: p[6] & 0x08 != 0,
        d: p[6] & 0x10 != 0,
        l1: p[6] & 0x40 != 0,
        l2: (p[4], p[7] & 0x01 != 0),
        r1: p[6] & 0x80 != 0,
        r2: (p[5], p[7] & 0x02 != 0),
        rl: (p[0], p[1]),
        rr: (p[2], p[3]),
    }
}

/// A 3-byte payload signals the home button held exactly when it equals the
/// sentinel pattern `[8, 0, 0]`.
pub open spec fn spec_home_pressed(p: Seq<u8>) -> bool {
    p == seq![8u8, 0u8, 0u8]
}

/// Decode a 10-byte notification into the pad snapshot it encodes.
pub fn decode_joystick(payload: &[u8]) -> (r: JoystickKeyEvent)
    requires
        payload@.len() == 10,
    ensures
        r == spec_joystick(payload@),
{
    JoystickKeyEvent {
        up: payload[8] == 1,
        down: payload[8] == 5,
        left: payload[8] == 7,
        right: payload[8] == 3,
        i: payload[7] & 0x04 != 0,
        ii: payload[7] & 0x08 != 0,
        a: payload[6] & 0x01 != 0,
        b: payload[6] & 0x02 != 0,
        c: payload[6] & 0x08 != 0,
        d: payload[6] & 0x10 != 0,
        l1: payload[6] & 0x40 != 0,
        l2: (payload[4], payload[7] & 0x01 != 0),
        r1: payload[6] & 0x80 != 0,
        r2: (payload[5], payload[7] & 0x02 != 0),
        rl: (payload[0], payload[1]),
        rr: (payload[2], payload[3]),
    }
}

/// Decode a 3-byte notification: true exactly on the home sentinel.
pub fn decode_home(payload: &[u8]) -> (r: bool)
    requires
        payload@.len() == 3,
    ensures
        r == spec_home_pressed(payload@),
{
    let pressed = payload[0] == 8 && payload[1] == 0 && payload[2] == 0;
    proof {
        if pressed {
            assert(payload@ =~= seq![8u8, 0u8, 0u8]);
        } else {
            assert(payload@ != seq![8u8, 0u8, 0u8]);
        }
    }
    pressed
}

} // verus!
