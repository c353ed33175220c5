//! Register-level behavior of the mode catalog, across every mode and every
//! (port, pin) pair.

use efm32pg1b_hal::mode::{apply_mode, DynamicMode};
use efm32pg1b_hal::port::PortId;
use efm32pg1b_hal::regs::RegisterBank;

/// Every mode with its documented mode-select code, initial data-out value
/// (`None` where entering the mode keeps the last commanded level) and
/// over-voltage tolerance setting.
fn mode_table() -> Vec<(DynamicMode, u8, Option<bool>, bool)> {
    vec![
        (DynamicMode::Disabled, 0, Some(false), true),
        (DynamicMode::DisabledPu, 0, Some(true), true),
        (DynamicMode::Analog, 0, Some(false), false),
        (DynamicMode::InFloat, 1, Some(false), true),
        (DynamicMode::InFilt, 1, Some(true), true),
        (DynamicMode::InPu, 2, Some(true), true),
        (DynamicMode::InPuFilt, 3, Some(true), true),
        (DynamicMode::InPd, 2, Some(false), true),
        (DynamicMode::InPdFilt, 3, Some(false), true),
        (DynamicMode::OutPp, 4, None, true),
        (DynamicMode::OutOs, 6, None, true),
        (DynamicMode::OutOsPd, 7, None, true),
        (DynamicMode::OutOd, 8, None, true),
        (DynamicMode::OutOdFilt, 9, None, true),
        (DynamicMode::OutOdPu, 10, None, true),
        (DynamicMode::OutOdPuFilt, 11, None, true),
        (DynamicMode::OutPpAlt, 5, None, true),
        (DynamicMode::OutOdAlt, 12, None, true),
        (DynamicMode::OutOdFiltAlt, 13, None, true),
        (DynamicMode::OutOdPuAlt, 14, None, true),
        (DynamicMode::OutOdPuFiltAlt, 15, None, true),
    ]
}

fn all_ports() -> [PortId; 5] {
    [PortId::A, PortId::B, PortId::C, PortId::D, PortId::F]
}

#[test]
fn every_mode_reads_back_its_code_on_every_pin() {
    for (mode, code, dout_init, ovt) in mode_table() {
        for port in all_ports() {
            for pin in 0u8..16 {
                let mut bank = RegisterBank::new();
                apply_mode(&mut bank, port, pin, mode);
                assert_eq!(bank.port(port).mode_code(pin), code, "{:?} pin {}", mode, pin);
                if let Some(v) = dout_init {
                    assert_eq!(bank.port(port).dout_bit(pin), v, "{:?} pin {}", mode, pin);
                }
                assert_eq!(bank.port(port).ovt(pin), ovt, "{:?} pin {}", mode, pin);
            }
        }
    }
}

#[test]
fn output_modes_keep_the_commanded_level() {
    // An output mode leaves the data-out bit as the last command set it.
    for (mode, _, dout_init, _) in mode_table() {
        if dout_init.is_none() {
            for level in [false, true] {
                let mut bank = RegisterBank::new();
                let mut regs = *bank.port(PortId::C);
                regs.set_dout_bit(3, level);
                bank.set_port(PortId::C, regs);
                apply_mode(&mut bank, PortId::C, 3, mode);
                assert_eq!(bank.port(PortId::C).dout_bit(3), level, "{:?}", mode);
            }
        }
    }
}

#[test]
fn applying_a_mode_twice_equals_applying_it_once() {
    for (mode, _, _, _) in mode_table() {
        for port in all_ports() {
            for pin in 0u8..16 {
                let mut once = RegisterBank::new();
                apply_mode(&mut once, port, pin, mode);
                let mut twice = once;
                apply_mode(&mut twice, port, pin, mode);
                assert_eq!(once, twice, "{:?} port {:?} pin {}", mode, port, pin);
            }
        }
    }
}

#[test]
fn a_mode_change_leaves_other_pins_alone() {
    let mut bank = RegisterBank::new();
    apply_mode(&mut bank, PortId::D, 9, DynamicMode::InPu);
    let before = *bank.port(PortId::D);
    apply_mode(&mut bank, PortId::D, 10, DynamicMode::OutPp);
    let after = *bank.port(PortId::D);
    assert_eq!(after.mode_code(9), before.mode_code(9));
    assert_eq!(after.dout_bit(9), before.dout_bit(9));
    assert_eq!(after.ovt(9), before.ovt(9));
    // And ports other than the written one are untouched entirely.
    assert_eq!(*bank.port(PortId::A), *RegisterBank::new().port(PortId::A));
}
