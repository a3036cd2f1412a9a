use k66_hal::port::{Port, PortControlRegs, PortGpioRegs, PortName};
use k66_hal::registry::Registry;

/// The test stands in for the board wiring: the level driven on output pin 5
/// is copied onto the input register bit of pin 6, as a loop-back wire
/// between the two pins would do.
fn wire_5_to_6(gpio: &mut PortGpioRegs) {
    if gpio.pdor & (1 << 5) != 0 {
        gpio.pdir |= 1 << 6;
    } else {
        gpio.pdir &= !(1 << 6);
    }
}

#[test]
fn looped_back_pins_round_trip() {
    let mut reg = Registry::new();
    let port = Port::take(&mut reg, PortName::C).unwrap();
    let mut ctrl = PortControlRegs::new(PortName::C);
    let mut gpio = PortGpioRegs::new(PortName::C);

    let mut out_pin = port
        .take_pin(&mut reg, 5)
        .unwrap()
        .into_gpio(&mut ctrl)
        .into_output(&mut gpio);
    let in_pin = port.take_pin(&mut reg, 6).unwrap().into_gpio(&mut ctrl);

    out_pin.high(&mut gpio);
    wire_5_to_6(&mut gpio);
    assert!(in_pin.read(&gpio));

    out_pin.low(&mut gpio);
    wire_5_to_6(&mut gpio);
    assert!(!in_pin.read(&gpio));
}

#[test]
fn toggle_flips_observed_bit_exactly_once_per_call() {
    let mut reg = Registry::new();
    let port = Port::take(&mut reg, PortName::C).unwrap();
    let mut ctrl = PortControlRegs::new(PortName::C);
    let mut gpio = PortGpioRegs::new(PortName::C);

    let mut out_pin = port
        .take_pin(&mut reg, 5)
        .unwrap()
        .into_gpio(&mut ctrl)
        .into_output(&mut gpio);
    let in_pin = port.take_pin(&mut reg, 6).unwrap().into_gpio(&mut ctrl);

    wire_5_to_6(&mut gpio);
    let mut observed = in_pin.read(&gpio);
    assert!(!observed);
    for _ in 0..5 {
        out_pin.toggle(&mut gpio);
        wire_5_to_6(&mut gpio);
        let now = in_pin.read(&gpio);
        assert_eq!(now, !observed);
        observed = now;
    }
}

#[test]
fn high_and_low_touch_only_their_own_pin() {
    let mut reg = Registry::new();
    let port = Port::take(&mut reg, PortName::C).unwrap();
    let mut ctrl = PortControlRegs::new(PortName::C);
    let mut gpio = PortGpioRegs::new(PortName::C);

    let mut pin5 = port
        .take_pin(&mut reg, 5)
        .unwrap()
        .into_gpio(&mut ctrl)
        .into_output(&mut gpio);
    let mut pin7 = port
        .take_pin(&mut reg, 7)
        .unwrap()
        .into_gpio(&mut ctrl)
        .into_output(&mut gpio);

    pin5.high(&mut gpio);
    pin7.high(&mut gpio);
    assert_eq!(gpio.pdor, (1 << 5) | (1 << 7));
    pin5.low(&mut gpio);
    assert_eq!(gpio.pdor, 1 << 7);
    pin7.toggle(&mut gpio);
    assert_eq!(gpio.pdor, 0);
}

#[test]
fn direction_bits_accumulate_per_pin() {
    let mut reg = Registry::new();
    let port = Port::take(&mut reg, PortName::E).unwrap();
    let mut ctrl = PortControlRegs::new(PortName::E);
    let mut gpio = PortGpioRegs::new(PortName::E);

    let _out0 = port
        .take_pin(&mut reg, 0)
        .unwrap()
        .into_gpio(&mut ctrl)
        .into_output(&mut gpio);
    assert_eq!(gpio.pddr, 1);
    let _out9 = port
        .take_pin(&mut reg, 9)
        .unwrap()
        .into_gpio(&mut ctrl)
        .into_output(&mut gpio);
    assert_eq!(gpio.pddr, 1 | (1 << 9));
}

#[test]
fn input_reads_its_own_bit_of_the_input_register() {
    let mut reg = Registry::new();
    let port = Port::take(&mut reg, PortName::A).unwrap();
    let mut ctrl = PortControlRegs::new(PortName::A);
    let mut gpio = PortGpioRegs::new(PortName::A);

    let in3 = port.take_pin(&mut reg, 3).unwrap().into_gpio(&mut ctrl);
    gpio.pdir = !(1 << 3);
    assert!(!in3.read(&gpio));
    gpio.pdir = 1 << 3;
    assert!(in3.read(&gpio));
}
