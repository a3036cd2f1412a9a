use k66_hal::mcg::{Mcg, McgRegs};
use k66_hal::osc::Osc;
use k66_hal::port::{Port, PortName};
use k66_hal::registry::Registry;
use k66_hal::sim::Sim;

#[test]
fn sim_second_claim_denied_until_release() {
    let mut reg = Registry::new();
    let sim = Sim::take(&mut reg);
    assert!(sim.is_some());
    assert!(Sim::take(&mut reg).is_none());
    sim.unwrap().release(&mut reg);
    assert!(Sim::take(&mut reg).is_some());
}

#[test]
fn mcg_second_claim_denied_until_release() {
    let mut reg = Registry::new();
    let mcg = Mcg::take(&mut reg);
    assert!(mcg.is_some());
    assert!(Mcg::take(&mut reg).is_none());
    mcg.unwrap().release(&mut reg);
    assert!(Mcg::take(&mut reg).is_some());
}

#[test]
fn osc_second_claim_denied_until_release() {
    let mut reg = Registry::new();
    let osc = Osc::take(&mut reg);
    assert!(osc.is_some());
    assert!(Osc::take(&mut reg).is_none());
    osc.unwrap().release(&mut reg);
    assert!(Osc::take(&mut reg).is_some());
}

#[test]
fn port_second_claim_denied_until_release() {
    let mut reg = Registry::new();
    let port = Port::take(&mut reg, PortName::C);
    assert!(port.is_some());
    assert!(Port::take(&mut reg, PortName::C).is_none());
    port.unwrap().release(&mut reg);
    assert!(Port::take(&mut reg, PortName::C).is_some());
}

#[test]
fn distinct_blocks_claim_independently() {
    let mut reg = Registry::new();
    let sim = Sim::take(&mut reg);
    let mcg = Mcg::take(&mut reg);
    let osc = Osc::take(&mut reg);
    let port_a = Port::take(&mut reg, PortName::A);
    let port_b = Port::take(&mut reg, PortName::B);
    assert!(sim.is_some());
    assert!(mcg.is_some());
    assert!(osc.is_some());
    assert!(port_a.is_some());
    assert!(port_b.is_some());
}

#[test]
fn releasing_one_block_leaves_others_claimed() {
    let mut reg = Registry::new();
    let sim = Sim::take(&mut reg).unwrap();
    let _osc = Osc::take(&mut reg).unwrap();
    sim.release(&mut reg);
    assert!(Osc::take(&mut reg).is_none());
    assert!(Sim::take(&mut reg).is_some());
}

#[test]
fn released_clock_generator_restarts_at_reset_stage() {
    let mut reg = Registry::new();
    let mut regs = McgRegs::new(2);
    let mcg = Mcg::take(&mut reg).unwrap();
    let fbe = mcg.into_fbe(&mut regs, 16_000_000).unwrap();
    fbe.release(&mut reg);
    assert!(Mcg::take(&mut reg).is_some());
}
