//! Port-wide configuration and the debug pin guard.

use efm32pg1b_hal::debug::{debug_pins_enabled, DebugPinsEnabled};
use efm32pg1b_hal::gpio::{Gpio, GpioError};
use efm32pg1b_hal::port::{
    DataInCtrl, DriveSlewRate, DriveStrength, PortDataInDisable, PortFDataInDisable, PortId,
};

#[test]
fn slew_rate_accepts_exactly_the_three_bit_range() {
    let mut gpio = Gpio::new();
    for v in 0u8..=7 {
        let setting = DriveSlewRate::from_raw(v).unwrap();
        assert_eq!(setting.raw(), v);
        gpio.port_d.set_slew_rate(&mut gpio.regs, setting);
        assert_eq!(gpio.port_d.slew_rate(&gpio.regs), setting);
        assert_eq!(gpio.port_d.slew_rate(&gpio.regs).raw(), v);
    }
    for v in [8u8, 9, 100, 255] {
        let before = gpio.port_d.slew_rate(&gpio.regs);
        assert_eq!(DriveSlewRate::from_raw(v), Err(GpioError::InvalidSlewRate(v)));
        // The failed conversion never reaches the register.
        assert_eq!(gpio.port_d.slew_rate(&gpio.regs), before);
    }
}

#[test]
fn slew_rate_resets_to_its_documented_value() {
    let gpio = Gpio::new();
    assert_eq!(gpio.port_a.slew_rate(&gpio.regs), DriveSlewRate::SlewRate5);
    assert_eq!(gpio.port_f.slew_rate_alt(&gpio.regs), DriveSlewRate::SlewRate5);
}

#[test]
fn alternate_slew_rate_is_independent() {
    let mut gpio = Gpio::new();
    gpio.port_b.set_slew_rate(&mut gpio.regs, DriveSlewRate::SlewRate1);
    gpio.port_b.set_slew_rate_alt(&mut gpio.regs, DriveSlewRate::SlewRate6);
    assert_eq!(gpio.port_b.slew_rate(&gpio.regs), DriveSlewRate::SlewRate1);
    assert_eq!(gpio.port_b.slew_rate_alt(&gpio.regs), DriveSlewRate::SlewRate6);
}

#[test]
fn drive_strength_follows_the_setters() {
    let mut gpio = Gpio::new();
    assert_eq!(gpio.port_c.drive_strength(&gpio.regs), DriveStrength::Strong);
    assert_eq!(gpio.port_c.drive_strength_alt(&gpio.regs), DriveStrength::Strong);
    gpio.port_c.set_drive_strength(&mut gpio.regs, DriveStrength::Weak);
    assert_eq!(gpio.port_c.drive_strength(&gpio.regs), DriveStrength::Weak);
    assert_eq!(gpio.port_c.drive_strength_alt(&gpio.regs), DriveStrength::Strong);
    gpio.port_c.set_drive_strength_alt(&mut gpio.regs, DriveStrength::Weak);
    assert_eq!(gpio.port_c.drive_strength_alt(&gpio.regs), DriveStrength::Weak);
}

#[test]
fn port_ids_convert_both_ways() {
    assert_eq!(PortId::from_index(0), Ok(PortId::A));
    assert_eq!(PortId::from_index(4), Ok(PortId::F));
    assert_eq!(PortId::from_index(5), Err(GpioError::InvalidPortId(5)));
    assert_eq!(PortId::from_index(255), Err(GpioError::InvalidPortId(255)));
    assert_eq!(PortId::from_label('C'), Ok(PortId::C));
    assert_eq!(PortId::from_label('E'), Err(GpioError::InvalidPortIdLabel('E')));
    for id in [PortId::A, PortId::B, PortId::C, PortId::D, PortId::F] {
        assert_eq!(PortId::from_index(id.index()), Ok(id));
        assert_eq!(PortId::from_label(id.label()), Ok(id));
    }
}

#[test]
fn debug_guard_blocks_readback_disable_while_routed() {
    let mut gpio = Gpio::new();
    // After reset the debug functions are routed to their pins.
    assert!(debug_pins_enabled(&gpio.regs));
    let r = gpio.port_f.set_din_dis(&mut gpio.regs, DataInCtrl::Disabled);
    assert_eq!(r, Err(GpioError::DebugPinsEnabled));
    assert_eq!(gpio.port_f.din_dis(&gpio.regs), false);

    // Enabling readback is never blocked.
    assert_eq!(gpio.port_f.set_din_dis(&mut gpio.regs, DataInCtrl::Enabled), Ok(()));

    // Once the routing enables clear, disabling readback goes through.
    let pins = gpio.debug_pins.into_gpio_pins(&mut gpio.regs).unwrap();
    assert!(!debug_pins_enabled(&gpio.regs));
    assert_eq!(gpio.port_f.set_din_dis(&mut gpio.regs, DataInCtrl::Disabled), Ok(()));
    assert_eq!(gpio.port_f.din_dis(&gpio.regs), true);

    // The four pins came out in the disabled mode.
    assert_eq!(gpio.regs.port(PortId::F).mode_code(0), 0);
    assert_eq!(gpio.regs.port(PortId::F).mode_code(3), 0);
    let _ = pins;
}

#[test]
fn an_attached_debugger_keeps_the_debug_pins() {
    let mut gpio = Gpio::new();
    gpio.regs.set_debugger_attached(true);
    let r = gpio.debug_pins.into_gpio_pins(&mut gpio.regs);
    assert!(matches!(r, Err(GpioError::DebugPinsEnabled)));
    // The routing enables re-asserted, so the guard still holds.
    assert!(debug_pins_enabled(&gpio.regs));
    assert_eq!(
        gpio.port_f.set_din_dis(&mut gpio.regs, DataInCtrl::Disabled),
        Err(GpioError::DebugPinsEnabled)
    );
}

#[test]
fn debug_pins_can_return_to_their_debug_function() {
    let mut gpio = Gpio::new();
    let pins = gpio.debug_pins.into_gpio_pins(&mut gpio.regs).unwrap();
    assert!(!debug_pins_enabled(&gpio.regs));
    gpio.port_f.set_din_dis(&mut gpio.regs, DataInCtrl::Disabled).unwrap();

    let _debug = DebugPinsEnabled::from_pins(&mut gpio.regs, pins.pf0, pins.pf1, pins.pf2, pins.pf3);
    assert!(debug_pins_enabled(&gpio.regs));
    // Re-routing re-enables the port's readback for the debug probe.
    assert_eq!(gpio.port_f.din_dis(&gpio.regs), false);
}

#[test]
fn data_in_disable_flags_are_per_port() {
    let mut gpio = Gpio::new();
    gpio.port_a.set_din_dis(&mut gpio.regs, DataInCtrl::Disabled);
    assert_eq!(gpio.port_a.din_dis(&gpio.regs), true);
    assert_eq!(gpio.port_b.din_dis(&gpio.regs), false);
    assert_eq!(gpio.port_a.din_dis_alt(&gpio.regs), false);
    gpio.port_a.set_din_dis(&mut gpio.regs, DataInCtrl::Enabled);
    assert_eq!(gpio.port_a.din_dis(&gpio.regs), false);
}
