use bulb_manager::address::{Addr, Ip};
use bulb_manager::bulb::{BulbInfo, Color};
use bulb_manager::errors::BulbError;
use bulb_manager::manager::Manager;
use bulb_manager::messages::{Hsbk, Message};

fn test_addr() -> Addr {
    Addr { ip: Ip::V4([10, 0, 0, 2]), port: 56700 }
}

fn color(h: u16) -> Hsbk {
    Hsbk { hue: h, saturation: 100, brightness: 200, kelvin: 3500 }
}

fn fresh_bulb() -> BulbInfo {
    BulbInfo::new(0x72757374, 0xAA, test_addr(), 0)
}

fn multizone_bulb() -> BulbInfo {
    let mut b = fresh_bulb();
    b.apply_version(1, 38, Some(true), 0);
    assert!(matches!(b.color, Color::Multi(_)));
    b
}

#[test]
fn label_location_firmware_updates() {
    let mut b = fresh_bulb();
    Manager::handle_message(Message::StateLabel { label: "desk".to_string() }, &mut b, 5).unwrap();
    assert_eq!(b.name.as_ref(), Some(&"desk".to_string()));
    Manager::handle_message(Message::StateLocation { label: "den".to_string() }, &mut b, 6).unwrap();
    assert_eq!(b.location.as_ref(), Some(&"den".to_string()));
    Manager::handle_message(
        Message::StateHostFirmware { version_major: 3, version_minor: 70 },
        &mut b,
        7,
    )
    .unwrap();
    assert_eq!(b.host_firmware.as_ref(), Some(&(3, 70)));
    Manager::handle_message(
        Message::StateWifiFirmware { version_major: 2, version_minor: 10 },
        &mut b,
        8,
    )
    .unwrap();
    assert_eq!(b.wifi_firmware.as_ref(), Some(&(2, 10)));
    Manager::handle_message(Message::StatePower { level: 65535 }, &mut b, 9).unwrap();
    assert_eq!(b.power_level.as_ref(), Some(&65535));
}

#[test]
fn service_reply_changes_nothing_and_reports_mismatch() {
    let mut b = fresh_bulb();
    let ok = Manager::handle_message(
        Message::StateService { port: 56700, service_is_udp: true },
        &mut b,
        5,
    );
    assert_eq!(ok, Ok(()));
    let bad = Manager::handle_message(
        Message::StateService { port: 1234, service_is_udp: true },
        &mut b,
        5,
    );
    assert_eq!(bad, Err(BulbError::ServiceMismatch));
    assert!(b.name.as_ref().is_none());
    assert!(matches!(b.color, Color::Unknown));
}

#[test]
fn version_reply_known_multizone_becomes_multizone() {
    // a capability lookup naming the product multizone commits the record
    let mut b = fresh_bulb();
    b.apply_version(1, 55, Some(true), 5);
    assert_eq!(b.model.as_ref(), Some(&(1, 55)));
    assert!(matches!(b.color, Color::Multi(_)));
}

#[test]
fn version_reply_through_product_table() {
    // vendor 1, product 38 is multizone in the product table; 1, 1 is not
    let mut strip = fresh_bulb();
    Manager::handle_message(Message::StateVersion { vendor: 1, product: 38 }, &mut strip, 5)
        .unwrap();
    assert!(matches!(strip.color, Color::Multi(_)));

    let mut bulb = fresh_bulb();
    Manager::handle_message(Message::StateVersion { vendor: 1, product: 1 }, &mut bulb, 5)
        .unwrap();
    assert!(matches!(bulb.color, Color::Single(_)));

    let mut unknown = fresh_bulb();
    Manager::handle_message(
        Message::StateVersion { vendor: 999, product: 999 },
        &mut unknown,
        5,
    )
    .unwrap();
    assert!(matches!(unknown.color, Color::Unknown));
}

#[test]
fn color_state_transitions_at_most_once() {
    let mut b = multizone_bulb();
    // a later capability reply naming a single-zone product changes nothing
    Manager::handle_message(Message::StateVersion { vendor: 1, product: 1 }, &mut b, 5).unwrap();
    assert!(matches!(b.color, Color::Multi(_)));
    assert_eq!(b.model.as_ref(), Some(&(1, 1)));
    // color-bearing messages keep being read as multizone: a single-light
    // state reply does not touch the zone state
    Manager::handle_message(
        Message::LightState { color: color(1), power: 9, label: "x".to_string() },
        &mut b,
        6,
    )
    .unwrap();
    assert!(matches!(b.color, Color::Multi(_)));
}

#[test]
fn single_zone_report_allocates_and_writes() {
    let mut b = multizone_bulb();
    Manager::handle_message(
        Message::StateZone { count: 16, index: 3, color: color(42) },
        &mut b,
        5,
    )
    .unwrap();
    match &b.color {
        Color::Multi(d) => {
            let v = d.data.as_ref().unwrap();
            assert_eq!(v.len(), 16);
            assert_eq!(v[3], Some(color(42)));
            assert_eq!(v[0], None);
        }
        _ => panic!("expected multizone"),
    }
}

#[test]
fn single_zone_report_out_of_range_rejected() {
    let mut b = multizone_bulb();
    let r = Manager::handle_message(
        Message::StateZone { count: 4, index: 4, color: color(1) },
        &mut b,
        5,
    );
    assert_eq!(r, Err(BulbError::ZoneIndexOutOfRange));
    match &b.color {
        Color::Multi(d) => assert!(d.data.is_none()),
        _ => panic!("expected multizone"),
    }
}

#[test]
fn zone_batch_writes_eight_entries() {
    let mut b = multizone_bulb();
    let colors = [
        color(0),
        color(1),
        color(2),
        color(3),
        color(4),
        color(5),
        color(6),
        color(7),
    ];
    Manager::handle_message(
        Message::StateMultiZone { count: 16, index: 8, colors },
        &mut b,
        5,
    )
    .unwrap();
    match &b.color {
        Color::Multi(d) => {
            let v = d.data.as_ref().unwrap();
            assert_eq!(v.len(), 16);
            for k in 0..8 {
                assert_eq!(v[8 + k], Some(color(k as u16)));
            }
            assert_eq!(v[7], None);
        }
        _ => panic!("expected multizone"),
    }
}

#[test]
fn overlong_zone_batch_rejected_and_prior_data_intact() {
    let mut b = multizone_bulb();
    Manager::handle_message(
        Message::StateZone { count: 16, index: 3, color: color(42) },
        &mut b,
        5,
    )
    .unwrap();
    let colors = [color(9); 8];
    // 9 + 7 exceeds the 16 reported zones: rejected whole
    let r = Manager::handle_message(
        Message::StateMultiZone { count: 16, index: 9, colors },
        &mut b,
        6,
    );
    assert_eq!(r, Err(BulbError::ZoneIndexOutOfRange));
    match &b.color {
        Color::Multi(d) => {
            let v = d.data.as_ref().unwrap();
            assert_eq!(v[3], Some(color(42)));
            for k in 9..16 {
                assert_eq!(v[k], None);
            }
        }
        _ => panic!("expected multizone"),
    }
}

#[test]
fn zone_batch_beyond_its_own_total_rejected_even_if_array_is_longer() {
    let mut b = multizone_bulb();
    // a first report sizes the array at sixteen zones
    Manager::handle_message(
        Message::StateZone { count: 16, index: 3, color: color(42) },
        &mut b,
        5,
    )
    .unwrap();
    // this batch fits the held array, but runs past the ten zones it
    // itself reports: rejected whole
    let colors = [color(9); 8];
    let r = Manager::handle_message(
        Message::StateMultiZone { count: 10, index: 4, colors },
        &mut b,
        6,
    );
    assert_eq!(r, Err(BulbError::ZoneIndexOutOfRange));
    match &b.color {
        Color::Multi(d) => {
            let v = d.data.as_ref().unwrap();
            assert_eq!(v.len(), 16);
            assert_eq!(v[3], Some(color(42)));
            assert_eq!(v[4], None);
        }
        _ => panic!("expected multizone"),
    }
}

#[test]
fn zone_reports_ignored_while_capability_unknown() {
    let mut b = fresh_bulb();
    let colors = [color(9); 8];
    let r1 = Manager::handle_message(
        Message::StateZone { count: 8, index: 0, color: color(1) },
        &mut b,
        5,
    );
    let r2 = Manager::handle_message(Message::StateMultiZone { count: 8, index: 0, colors }, &mut b, 5);
    assert_eq!(r1, Ok(()));
    assert_eq!(r2, Ok(()));
    assert!(matches!(b.color, Color::Unknown));
}

#[test]
fn light_state_updates_single_zone_color_power_and_name() {
    let mut b = fresh_bulb();
    b.apply_version(1, 1, Some(false), 0);
    Manager::handle_message(
        Message::LightState { color: color(77), power: 300, label: "lamp".to_string() },
        &mut b,
        5,
    )
    .unwrap();
    match &b.color {
        Color::Single(d) => assert_eq!(d.data, Some(color(77))),
        _ => panic!("expected single zone"),
    }
    assert_eq!(b.power_level.as_ref(), Some(&300));
    assert_eq!(b.name.as_ref(), Some(&"lamp".to_string()));
}

#[test]
fn light_state_changes_nothing_while_not_single_zone() {
    let mut b = fresh_bulb();
    Manager::handle_message(
        Message::LightState { color: color(77), power: 300, label: "lamp".to_string() },
        &mut b,
        5,
    )
    .unwrap();
    assert!(matches!(b.color, Color::Unknown));
    assert!(b.power_level.as_ref().is_none());
    assert!(b.name.as_ref().is_none());

    let mut strip = multizone_bulb();
    Manager::handle_message(
        Message::LightState { color: color(77), power: 300, label: "lamp".to_string() },
        &mut strip,
        5,
    )
    .unwrap();
    assert!(strip.power_level.as_ref().is_none());
    assert!(strip.name.as_ref().is_none());
}

#[test]
fn extended_zone_report_overwrites_snapshot() {
    let mut b = multizone_bulb();
    let mut colors = vec![color(0); 82];
    colors[2] = color(5);
    Manager::handle_message(
        Message::StateExtendedColorZones {
            zones_count: 16,
            zone_index: 0,
            colors_count: 16,
            colors,
        },
        &mut b,
        5,
    )
    .unwrap();
    assert_eq!(b.get_length(), Ok(16));
    let got = b.get_colors().unwrap();
    assert_eq!(got.len(), 82);
    assert_eq!(got[2], color(5));
}

#[test]
fn acknowledgment_advances_sequence_with_wrap() {
    let mut b = fresh_bulb();
    Manager::handle_message(Message::Acknowledgement { seq: 254 }, &mut b, 5).unwrap();
    assert_eq!(b.options.sequence, 255);
    Manager::handle_message(Message::Acknowledgement { seq: 255 }, &mut b, 6).unwrap();
    assert_eq!(b.options.sequence, 1);
    Manager::handle_message(Message::Acknowledgement { seq: 0 }, &mut b, 7).unwrap();
    assert_eq!(b.options.sequence, 1);
}

#[test]
fn unknown_messages_are_ignored() {
    let mut b = fresh_bulb();
    Manager::handle_message(Message::Other, &mut b, 5).unwrap();
    Manager::handle_message(Message::GetService, &mut b, 5).unwrap();
    assert!(b.name.as_ref().is_none());
    assert_eq!(b.options.sequence, 0);
}
