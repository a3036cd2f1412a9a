use k66_hal::mcg::{Mcg, McgRegs};
use k66_hal::osc::{Osc, OscRegs};
use k66_hal::port::{Port, PortControlRegs, PortGpioRegs, PortName};
use k66_hal::registry::Registry;
use k66_hal::sim::{Sim, SimRegs};

#[test]
fn startup_sequence_drives_pin_five_only() {
    let mut reg = Registry::new();
    let mut sim_regs = SimRegs::new();
    let mut ctrl = PortControlRegs::new(PortName::C);
    let mut gpio = PortGpioRegs::new(PortName::C);

    // claim the peripheral-gate block and open the port's clock gate
    let mut sim = Sim::take(&mut reg).unwrap();
    sim.enable_portc_clock_gate(&mut sim_regs);
    assert_eq!(sim_regs.scgc5, 1 << 11);

    // claim the port, claim pin 5, move it to GPIO output, drive it high
    let port = Port::take(&mut reg, PortName::C).unwrap();
    let mut pin = port
        .take_pin(&mut reg, 5)
        .unwrap()
        .into_gpio(&mut ctrl)
        .into_output(&mut gpio);
    pin.high(&mut gpio);

    // the direction and output bits of pin 5 are set and no other pin's
    // bits were altered
    assert_eq!(gpio.pddr, 1 << 5);
    assert_eq!(gpio.pdor, 1 << 5);
    assert_eq!(ctrl.pcr[5], 1 << 8);
    for i in 0..32 {
        if i != 5 {
            assert_eq!(ctrl.pcr[i], 0);
        }
    }
}

#[test]
fn whole_boot_path_runs_to_the_locked_clock() {
    let mut reg = Registry::new();
    let mut osc_regs = OscRegs::new();
    let mut sim_regs = SimRegs::new();
    let mut mcg_regs = McgRegs::new(4);

    let mut osc = Osc::take(&mut reg).unwrap();
    assert!(osc.enable(&mut osc_regs, 10).is_ok());

    let mut sim = Sim::take(&mut reg).unwrap();
    sim.enable_portc_clock_gate(&mut sim_regs);
    assert!(sim.set_clock_dividers(&mut sim_regs, 1, 2, 3).is_ok());

    let mcg = Mcg::take(&mut reg).unwrap();
    let fbe = mcg.into_fbe(&mut mcg_regs, 16_000_000).unwrap();
    let pbe = fbe.into_pbe(&mut mcg_regs, 2, 24).unwrap();
    let _pee = pbe.into_pee(&mut mcg_regs);

    assert_eq!(osc_regs.cr, 0x8A);
    assert_eq!(sim_regs.scgc5, 1 << 11);
    assert_eq!(mcg_regs.s, 0x6E);
}

#[test]
fn port_release_frees_the_port_after_its_pins() {
    let mut reg = Registry::new();
    let port = Port::take(&mut reg, PortName::B).unwrap();
    let pin = port.take_pin(&mut reg, 1).unwrap();
    pin.release(&mut reg);
    port.release(&mut reg);
    assert!(Port::take(&mut reg, PortName::B).is_some());
}
