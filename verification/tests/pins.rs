use k66_hal::port::{alt_function_allowed, Port, PortControlRegs, PortName};
use k66_hal::registry::Registry;
use k66_hal::ConfigError;

#[test]
fn same_pin_index_claimed_twice_fails() {
    let mut reg = Registry::new();
    let port = Port::take(&mut reg, PortName::C).unwrap();
    let pin = port.take_pin(&mut reg, 5);
    assert!(pin.is_some());
    assert!(port.take_pin(&mut reg, 5).is_none());
}

#[test]
fn distinct_pin_indices_claim_independently() {
    let mut reg = Registry::new();
    let port = Port::take(&mut reg, PortName::C).unwrap();
    let mut pins = Vec::new();
    for num in 0..32u8 {
        let pin = port.take_pin(&mut reg, num);
        assert!(pin.is_some());
        pins.push(pin.unwrap());
    }
    for num in 0..32u8 {
        assert!(port.take_pin(&mut reg, num).is_none());
    }
}

#[test]
fn released_pin_can_be_claimed_again() {
    let mut reg = Registry::new();
    let port = Port::take(&mut reg, PortName::D).unwrap();
    let pin = port.take_pin(&mut reg, 7).unwrap();
    pin.release(&mut reg);
    assert!(port.take_pin(&mut reg, 7).is_some());
}

#[test]
fn same_index_on_distinct_ports_is_distinct() {
    let mut reg = Registry::new();
    let port_a = Port::take(&mut reg, PortName::A).unwrap();
    let port_b = Port::take(&mut reg, PortName::B).unwrap();
    assert!(port_a.take_pin(&mut reg, 3).is_some());
    assert!(port_b.take_pin(&mut reg, 3).is_some());
}

#[test]
fn pin_gpio_mux_field_is_written() {
    let mut reg = Registry::new();
    let port = Port::take(&mut reg, PortName::C).unwrap();
    let mut ctrl = PortControlRegs::new(PortName::C);
    let pin = port.take_pin(&mut reg, 5).unwrap();
    let _input = pin.into_gpio(&mut ctrl);
    assert_eq!(ctrl.pcr[5], 1 << 8);
    assert_eq!(ctrl.pcr[4], 0);
    assert_eq!(ctrl.pcr[6], 0);
}

#[test]
fn alt_function_routes_validated_pin() {
    let mut reg = Registry::new();
    let port = Port::take(&mut reg, PortName::B).unwrap();
    let mut ctrl = PortControlRegs::new(PortName::B);
    let pin = port.take_pin(&mut reg, 16).unwrap();
    let alt = pin.into_alt(&mut ctrl, 3);
    assert!(alt.is_ok());
    assert_eq!(ctrl.pcr[16], 3 << 8);
}

#[test]
fn alt_function_rejects_unvalidated_routing() {
    let mut reg = Registry::new();
    let port = Port::take(&mut reg, PortName::C).unwrap();
    let mut ctrl = PortControlRegs::new(PortName::C);
    let pin = port.take_pin(&mut reg, 5).unwrap();
    let alt = pin.into_alt(&mut ctrl, 3);
    assert_eq!(alt.err(), Some(ConfigError::UnsupportedAltFunction));
    assert_eq!(ctrl.pcr[5], 0);
}

#[test]
fn alt_function_table_contents() {
    assert!(alt_function_allowed(PortName::B, 16, 3));
    assert!(alt_function_allowed(PortName::B, 17, 3));
    assert!(alt_function_allowed(PortName::C, 3, 3));
    assert!(alt_function_allowed(PortName::C, 4, 3));
    assert!(alt_function_allowed(PortName::D, 2, 3));
    assert!(alt_function_allowed(PortName::D, 3, 3));
    assert!(!alt_function_allowed(PortName::B, 16, 2));
    assert!(!alt_function_allowed(PortName::A, 16, 3));
    assert!(!alt_function_allowed(PortName::C, 5, 3));
}
