//! The decoder: dispatch by length, the documented scenarios, and purity.

use bell_ble::decoder::{decode, decode_value_event, NotificationEvent};
use bell_ble::joystick::JoystickEvent;
use bell_ble::thermal::parse_mmc_data;

#[test]
fn length_10_decodes_to_joystick() {
    let e = decode(vec![0; 10]);
    assert!(matches!(e, NotificationEvent::Joystick(_)));
}

#[test]
fn length_3_decodes_to_home() {
    let e = decode(vec![0; 3]);
    assert!(matches!(e, NotificationEvent::Home(_)));
}

#[test]
fn length_6_decodes_to_thermal() {
    let e = decode(vec![0; 6]);
    assert!(matches!(e, NotificationEvent::Thermal(_)));
}

#[test]
fn other_lengths_decode_to_unrecognized_with_bytes_intact() {
    for n in [0usize, 1, 2, 4, 5, 7, 8, 9, 11, 20, 100] {
        let payload: Vec<u8> = (0..n).map(|i| i as u8).collect();
        match decode(payload.clone()) {
            NotificationEvent::Unrecognized(raw) => assert_eq!(raw, payload),
            other => panic!("length {} decoded to {:?}", n, other),
        }
    }
}

#[test]
fn joystick_up_i_a_scenario() {
    let e = decode(vec![0, 0, 0, 0, 0, 0, 0x01, 0x04, 0x01, 0]);
    let k = match e {
        NotificationEvent::Joystick(k) => k,
        other => panic!("expected a joystick event, got {:?}", other),
    };
    assert!(k.up);
    assert!(!k.down);
    assert!(!k.left);
    assert!(!k.right);
    assert!(k.i);
    assert!(!k.ii);
    assert!(k.a);
    assert!(!k.b);
    assert!(!k.c);
    assert!(!k.d);
    assert!(!k.l1);
    assert!(!k.r1);
    assert_eq!(k.l2, (0, false));
    assert_eq!(k.r2, (0, false));
    assert_eq!(k.rl, (0, 0));
    assert_eq!(k.rr, (0, 0));
}

#[test]
fn joystick_directions_are_exact_matches() {
    let mut p = vec![0u8; 10];
    p[8] = 5;
    match decode(p) {
        NotificationEvent::Joystick(k) => {
            assert!(k.down && !k.up && !k.left && !k.right);
        }
        other => panic!("expected a joystick event, got {:?}", other),
    }
    // A diagonal sentinel matches no direction.
    let mut p = vec![0u8; 10];
    p[8] = 8;
    match decode(p) {
        NotificationEvent::Joystick(k) => {
            assert!(!k.up && !k.down && !k.left && !k.right);
        }
        other => panic!("expected a joystick event, got {:?}", other),
    }
}

#[test]
fn joystick_buttons_combine() {
    let mut p = vec![0u8; 10];
    p[6] = 0x01 | 0x02 | 0x40 | 0x80;
    p[7] = 0x04 | 0x08 | 0x01 | 0x02;
    p[4] = 0x7f;
    p[5] = 0xff;
    p[0] = 1;
    p[1] = 2;
    p[2] = 3;
    p[3] = 4;
    match decode(p) {
        NotificationEvent::Joystick(k) => {
            assert!(k.a && k.b && !k.c && !k.d && k.l1 && k.r1 && k.i && k.ii);
            assert_eq!(k.l2, (0x7f, true));
            assert_eq!(k.r2, (0xff, true));
            assert_eq!(k.rl, (1, 2));
            assert_eq!(k.rr, (3, 4));
        }
        other => panic!("expected a joystick event, got {:?}", other),
    }
}

#[test]
fn home_sentinel_scenario() {
    assert_eq!(decode(vec![8, 0, 0]), NotificationEvent::Home(true));
    assert_eq!(decode(vec![8, 0, 1]), NotificationEvent::Home(false));
    assert_eq!(decode(vec![0, 0, 0]), NotificationEvent::Home(false));
}

#[test]
fn thermal_sentinel_scenario() {
    // t0 = 100 (1.00 degrees), secondary absent.
    let e = decode(vec![0, 0x64, 0x00, 0xf2, 0x7f, 0]);
    let s = match e {
        NotificationEvent::Thermal(s) => s,
        other => panic!("expected a thermal event, got {:?}", other),
    };
    assert_eq!(s.raw, 100);
    assert_eq!(s.secondary, 0);
    assert_eq!(s.offset_corrected, 200);
    assert_eq!(s.smoothed, 100);
    assert_eq!(s.raw as f32 / 100.0, 1.00);
    assert_eq!(s.secondary as f32 / 100.0, 0.00);
    assert_eq!(s.smoothed as f32 / 100.0, 1.00);
}

#[test]
fn thermal_real_secondary_scenario() {
    // t0 = 300, t1 = 100: diff = 200 stays at the strict fold boundary,
    // the offset clamps, and the smoothed reading is t0 + 200.
    let e = decode(vec![0, 0x2c, 0x01, 0x64, 0x00, 0]);
    let s = match e {
        NotificationEvent::Thermal(s) => s,
        other => panic!("expected a thermal event, got {:?}", other),
    };
    assert_eq!(s.raw, 300);
    assert_eq!(s.secondary, 100);
    assert_eq!(s.offset_corrected, 602);
    assert_eq!(s.smoothed, 500);
    assert_eq!(s.raw as f32 / 100.0, 3.00);
    assert_eq!(s.secondary as f32 / 100.0, 1.00);
    assert_eq!(s.smoothed as f32 / 100.0, 5.00);
    assert_eq!(s.offset_corrected as f32 / 200.0, 3.01);
}

#[test]
fn thermal_fold_above_boundary() {
    // t0 = 400, t1 = 99: diff = 301 folds to 201 and then to 101 (the
    // fold repeats while the value exceeds 200), which stays at or above
    // the +50 threshold: smoothed = 400 + 101.
    let e = decode(vec![0, 0x90, 0x01, 0x63, 0x00, 0]);
    match e {
        NotificationEvent::Thermal(s) => {
            assert_eq!(s.raw, 400);
            assert_eq!(s.secondary, 99);
            assert_eq!(s.smoothed, 501);
            // offset clamps at one hundredth: 2*400 + 2.
            assert_eq!(s.offset_corrected, 802);
        }
        other => panic!("expected a thermal event, got {:?}", other),
    }
}

#[test]
fn thermal_fold_below_100_gets_50() {
    // t0 = 150, t1 = 60: diff = 90 < 100, so the fold leaves it and the
    // +50 adjustment applies: smoothed = 150 + 140.
    let e = decode(vec![0, 0x96, 0x00, 0x3c, 0x00, 0]);
    match e {
        NotificationEvent::Thermal(s) => {
            assert_eq!(s.raw, 150);
            assert_eq!(s.secondary, 60);
            assert_eq!(s.smoothed, 290);
        }
        other => panic!("expected a thermal event, got {:?}", other),
    }
}

#[test]
fn thermal_negative_diff_keeps_raw() {
    // t0 = 100, t1 = 300: no positive difference, smoothed stays at t0 and
    // the (negative) half-difference is not clamped.
    let e = decode(vec![0, 0x64, 0x00, 0x2c, 0x01, 0]);
    match e {
        NotificationEvent::Thermal(s) => {
            assert_eq!(s.raw, 100);
            assert_eq!(s.secondary, 300);
            assert_eq!(s.smoothed, 100);
            // 2*100 + (100 - 300).
            assert_eq!(s.offset_corrected, 0);
        }
        other => panic!("expected a thermal event, got {:?}", other),
    }
}

#[test]
fn parse_mmc_data_requires_six_bytes() {
    assert!(parse_mmc_data(&[0, 0x64, 0x00, 0xf2, 0x7f, 0]).is_some());
    assert!(parse_mmc_data(&[]).is_none());
    assert!(parse_mmc_data(&[0; 5]).is_none());
    assert!(parse_mmc_data(&[0; 7]).is_none());
}

#[test]
fn decode_is_pure() {
    let payload = vec![0, 0, 0, 0, 0, 0, 0x01, 0x04, 0x01, 0];
    let a = decode(payload.clone());
    let b = decode(payload.clone());
    assert_eq!(a, b);
    let c = decode(vec![8, 0, 0]);
    let d = decode(vec![8, 0, 0]);
    assert_eq!(c, d);
}

#[test]
fn value_event_carries_the_path() {
    let e = decode_value_event(String::from("/org/bluez/hci0/dev_1"), &[8, 0, 0]);
    assert_eq!(
        e,
        Some(JoystickEvent::Home(String::from("/org/bluez/hci0/dev_1"), true))
    );
    let e = decode_value_event(String::from("p"), &[0, 0, 0, 0, 0, 0, 0, 0, 0x01, 0]);
    match e {
        Some(JoystickEvent::Key(path, k)) => {
            assert_eq!(path, "p");
            assert!(k.up);
        }
        other => panic!("expected a key event, got {:?}", other),
    }
    // A thermal-length payload is not a controller event.
    assert_eq!(decode_value_event(String::from("p"), &[0; 6]), None);
}
