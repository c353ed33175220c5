//! Behavior of the three pin representations against the register image.

use efm32pg1b_hal::dynamic::DynamicPin;
use efm32pg1b_hal::gpio::{Gpio, GpioError};
use efm32pg1b_hal::mode::DynamicMode;
use efm32pg1b_hal::pin::{InFloat, InPu, OutOd, OutPp, OutPpAlt, PinInfo};
use efm32pg1b_hal::port::{DataInCtrl, PortDataInDisable, PortId};

#[test]
fn takes_state() {
    assert!(true)
}

#[test]
fn it_fails_with_err() {
    // A readback op on a freshly disabled pin is refused with a typed error.
    let mut gpio = Gpio::new();
    let pin: DynamicPin = gpio.pa0.into_dynamic_pin();
    let r: Result<bool, &'static str> = match pin.is_high(&gpio.regs) {
        Ok(level) => Ok(level),
        Err(_) => Err("It failed because ..."),
    };
    assert!(r.is_err());
}

#[test]
fn erased_pin_keeps_port_and_pin() {
    let gpio = Gpio::new();
    let erased = gpio.pb11.into_erased_pin();
    assert_eq!(erased.port(), PortId::B);
    assert_eq!(erased.pin(), 11);
    let erased = gpio.pd15.into_erased_pin();
    assert_eq!(erased.port(), PortId::D);
    assert_eq!(erased.pin(), 15);
}

#[test]
fn dynamic_pin_keeps_the_static_mode() {
    let mut gpio = Gpio::new();
    let dynamic = gpio.pa0.into_dynamic_pin();
    assert_eq!(dynamic.mode(), DynamicMode::Disabled);
    let input = gpio.pa1.into_mode::<InPu>(&mut gpio.regs);
    let dynamic = input.into_dynamic_pin();
    assert_eq!(dynamic.mode(), DynamicMode::InPu);
    assert_eq!(dynamic.mode().name(), "InPu");
    assert_eq!(dynamic.port(), PortId::A);
    assert_eq!(dynamic.pin(), 1);
}

#[test]
fn erased_pins_of_one_mode_aggregate() {
    let mut gpio = Gpio::new();
    let pins = [
        gpio.pb11.into_erased_pin().into_mode::<InPu>(&mut gpio.regs),
        gpio.pb12.into_erased_pin().into_mode::<InPu>(&mut gpio.regs),
        gpio.pc10.into_erased_pin().into_mode::<InPu>(&mut gpio.regs),
        gpio.pd9.into_erased_pin().into_mode::<InPu>(&mut gpio.regs),
    ];
    for pin in &pins {
        assert_eq!(pin.is_high(&gpio.regs), Ok(false));
    }
    gpio.regs.set_input_levels(PortId::B, 1 << 12);
    assert_eq!(pins[0].is_high(&gpio.regs), Ok(false));
    assert_eq!(pins[1].is_high(&gpio.regs), Ok(true));
    assert_eq!(pins[1].is_low(&gpio.regs), Ok(false));
}

#[test]
fn push_pull_output_reads_back_its_commanded_state() {
    let mut gpio = Gpio::new();
    let mut led = gpio.pa0.into_mode::<OutPp>(&mut gpio.regs);
    led.set_high(&mut gpio.regs).unwrap();
    assert_eq!(led.is_set_high(&gpio.regs), Ok(true));
    assert_eq!(led.is_set_low(&gpio.regs), Ok(false));
    led.set_low(&mut gpio.regs).unwrap();
    assert_eq!(led.is_set_high(&gpio.regs), Ok(false));
    assert_eq!(led.is_set_low(&gpio.regs), Ok(true));
}

#[test]
fn floating_input_with_readback_disabled_is_gated() {
    let mut gpio = Gpio::new();
    let button = gpio.pa1.into_mode::<InFloat>(&mut gpio.regs);
    gpio.port_a.set_din_dis(&mut gpio.regs, DataInCtrl::Disabled);
    assert_eq!(button.is_high(&gpio.regs), Err(GpioError::DataInDisabled));
}

#[test]
fn readback_gating_covers_every_pin_of_the_port_and_clears() {
    let mut gpio = Gpio::new();
    let b12 = gpio.pb12.into_mode::<InFloat>(&mut gpio.regs);
    let b13 = gpio.pb13.into_mode::<InPu>(&mut gpio.regs);
    let mut b14 = gpio.pb14.into_mode::<OutPp>(&mut gpio.regs);
    let b15 = gpio.pb15.into_dynamic_pin().into_mode::<InFloat>(&mut gpio.regs);
    b14.set_high(&mut gpio.regs).unwrap();

    gpio.port_b.set_din_dis(&mut gpio.regs, DataInCtrl::Disabled);
    assert_eq!(b12.is_high(&gpio.regs), Err(GpioError::DataInDisabled));
    assert_eq!(b13.is_low(&gpio.regs), Err(GpioError::DataInDisabled));
    assert_eq!(b14.is_set_high(&gpio.regs), Err(GpioError::DataInDisabled));
    assert_eq!(b15.is_high(&gpio.regs), Err(GpioError::DataInDisabled));
    assert_eq!(b15.is_low(&gpio.regs), Err(GpioError::DataInDisabled));

    // Clearing the flag restores normal reads, with no stale values.
    gpio.port_b.set_din_dis(&mut gpio.regs, DataInCtrl::Enabled);
    assert_eq!(b12.is_high(&gpio.regs), Ok(false));
    assert_eq!(b14.is_set_high(&gpio.regs), Ok(true));
    assert_eq!(b15.is_high(&gpio.regs), Ok(false));
}

#[test]
fn alternate_outputs_are_gated_by_the_alternate_flag() {
    let mut gpio = Gpio::new();
    let mut led = gpio.pc6.into_mode::<OutPpAlt>(&mut gpio.regs);
    led.set_high(&mut gpio.regs).unwrap();

    // The primary flag does not gate the alternate family.
    gpio.port_c.set_din_dis(&mut gpio.regs, DataInCtrl::Disabled);
    assert_eq!(led.is_set_high(&gpio.regs), Ok(true));

    gpio.port_c.set_din_dis_alt(&mut gpio.regs, DataInCtrl::Disabled);
    assert_eq!(led.is_set_high(&gpio.regs), Err(GpioError::DataInDisabled));

    let dynamic = gpio.pc7.into_dynamic_pin().into_mode::<OutPpAlt>(&mut gpio.regs);
    assert_eq!(dynamic.is_set_high(&gpio.regs), Err(GpioError::DataInDisabled));
}

#[test]
fn reads_fail_while_the_clock_gate_is_closed() {
    let mut gpio = Gpio::new();
    let pin = gpio.pa2.into_mode::<InFloat>(&mut gpio.regs);
    gpio.regs.clock_enabled = false;
    assert_eq!(pin.is_high(&gpio.regs), Err(GpioError::GpioDisabled));
    let dynamic = gpio.pa3.into_dynamic_pin().into_mode::<InFloat>(&mut gpio.regs);
    assert_eq!(dynamic.is_high(&gpio.regs), Err(GpioError::GpioDisabled));
    let mut out = gpio.pa4.into_dynamic_pin().into_mode::<OutPp>(&mut gpio.regs);
    assert_eq!(out.set_high(&mut gpio.regs), Err(GpioError::GpioDisabled));
    assert_eq!(out.is_set_high(&gpio.regs), Err(GpioError::GpioDisabled));
}

#[test]
fn dynamic_pin_refuses_illegal_modes() {
    let mut gpio = Gpio::new();
    let mut disabled = gpio.pd10.into_dynamic_pin();
    assert_eq!(disabled.is_high(&gpio.regs), Err(GpioError::InvalidMode(DynamicMode::Disabled)));
    assert_eq!(disabled.set_high(&mut gpio.regs), Err(GpioError::InvalidMode(DynamicMode::Disabled)));

    let mut input = disabled.into_mode::<InFloat>(&mut gpio.regs);
    assert_eq!(input.set_low(&mut gpio.regs), Err(GpioError::InvalidMode(DynamicMode::InFloat)));
    assert_eq!(input.is_set_high(&gpio.regs), Err(GpioError::InvalidMode(DynamicMode::InFloat)));
    assert_eq!(input.is_high(&gpio.regs), Ok(false));

    let mut out = input.into_mode::<OutOd>(&mut gpio.regs);
    assert_eq!(out.set_high(&mut gpio.regs), Ok(()));
    assert_eq!(out.is_set_high(&gpio.regs), Ok(true));
    // An output mode still supports reading the pin level.
    assert_eq!(out.is_high(&gpio.regs), Ok(false));
}

#[test]
fn input_levels_come_from_the_sampled_register() {
    let mut gpio = Gpio::new();
    let pin = gpio.pd11.into_mode::<InFloat>(&mut gpio.regs);
    assert_eq!(pin.is_high(&gpio.regs), Ok(false));
    assert_eq!(pin.is_low(&gpio.regs), Ok(true));
    gpio.regs.set_input_levels(PortId::D, 1 << 11);
    assert_eq!(pin.is_high(&gpio.regs), Ok(true));
    assert_eq!(pin.is_low(&gpio.regs), Ok(false));
}

#[test]
fn with_mode_restores_the_original_mode() {
    let mut gpio = Gpio::new();
    let mut pin = gpio.pa5;  // disabled mode, code 0
    let (bank, seen) = pin.with_mode::<InPu, _, _>(gpio.regs, |p, b| {
        // Inside the closure the pin is an input with pull-up.
        let level = p.is_high(&b);
        (b, level)
    });
    gpio.regs = bank;
    assert_eq!(seen, Ok(false));
    // Afterwards the registers hold the disabled mode again, with the
    // disabled mode's data-out value, not the pull-up's.
    assert_eq!(gpio.regs.port(PortId::A).mode_code(5), 0);
    assert_eq!(gpio.regs.port(PortId::A).dout_bit(5), false);
}

#[test]
fn dynamic_with_mode_restores_the_handles_mode() {
    let mut gpio = Gpio::new();
    let mut pin = gpio.pc8.into_dynamic_pin().into_mode::<OutPp>(&mut gpio.regs);
    pin.set_high(&mut gpio.regs).unwrap();
    let (bank, seen) = pin.with_mode::<InFloat, _, _>(gpio.regs, |p, b| {
        let level = p.is_high(&b);
        (b, level)
    });
    gpio.regs = bank;
    assert_eq!(seen, Ok(false));
    // The handle still believes, and the registers again hold, push-pull.
    assert_eq!(pin.mode(), DynamicMode::OutPp);
    assert_eq!(gpio.regs.port(PortId::C).mode_code(8), 4);
}
