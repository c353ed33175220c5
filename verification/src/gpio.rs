//! The GPIO peripheral as a whole: its error type and the top-level handle
//! that owns the register image, the port configuration objects and the
//! default set of pins.

use vstd::prelude::*;

use crate::debug::DebugPinsEnabled;
use crate::mode::DynamicMode;
use crate::pin::{Disabled, Pin};
use crate::port::{Port, PortId};
use crate::regs::{bank_reset, RegisterBank};

verus! {

/// Errors of the GPIO driver.
#[derive(Clone, Copy, Debug, PartialEq, Eq, Structural)]
pub enum GpioError {
    /// The GPIO peripheral's clock gate is not enabled; register reads are
    /// meaningless before it is.
    GpioDisabled,
    /// A pin level could not be read because input readback is disabled for
    /// the entire port.
    DataInDisabled,
    /// The current mode of a dynamic pin does not support the requested
    /// operation.
    InvalidMode(DynamicMode),
    /// The given raw value does not fit the three-bit slew rate field.
    InvalidSlewRate(u8),
    /// The debug pins are still routed to their debug function.
    DebugPinsEnabled,
    /// The given raw index does not name a port.
    InvalidPortId(u8),
    /// The given letter does not name a port.
    InvalidPortIdLabel(char),
}

/// The register state the driver establishes at bring-up: everything reset,
/// the debug functions routed to their pins, and the peripheral clock
/// enabled.
pub open spec fn gpio_initial_state() -> RegisterBank {
    RegisterBank { clock_enabled: true, ..bank_reset(false) }
}

/// The GPIO peripheral: its register image, the five port configuration
/// objects, and all pins of the largest package, each in its reset mode.
///
/// The debug pins `F0` to `F3` appear only behind [`DebugPinsEnabled`],
/// which guards their conversion to ordinary GPIO use.
pub struct Gpio {
    /// Software image of the register block; every pin and port operation
    /// reads and writes it.
    pub regs: RegisterBank,
    /// Port `A` configuration.
    pub port_a: Port<0>,
    /// Port `B` configuration.
    pub port_b: Port<1>,
    /// Port `C` configuration.
    pub port_c: Port<2>,
    /// Port `D` configuration.
    pub port_d: Port<3>,
    /// Port `F` configuration.
    pub port_f: Port<4>,
    /// Port `A` pin 0.
    pub pa0: Pin<0, 0, Disabled>,
    /// Port `A` pin 1.
    pub pa1: Pin<0, 1, Disabled>,
    /// Port `A` pin 2.
    pub pa2: Pin<0, 2, Disabled>,
    /// Port `A` pin 3.
    pub pa3: Pin<0, 3, Disabled>,
    /// Port `A` pin 4.
    pub pa4: Pin<0, 4, Disabled>,
    /// Port `A` pin 5.
    pub pa5: Pin<0, 5, Disabled>,
    /// Port `B` pin 11.
    pub pb11: Pin<1, 11, Disabled>,
    /// Port `B` pin 12.
    pub pb12: Pin<1, 12, Disabled>,
    /// Port `B` pin 13.
    pub pb13: Pin<1, 13, Disabled>,
    /// Port `B` pin 14.
    pub pb14: Pin<1, 14, Disabled>,
    /// Port `B` pin 15.
    pub pb15: Pin<1, 15, Disabled>,
    /// Port `C` pin 6.
    pub pc6: Pin<2, 6, Disabled>,
    /// Port `C` pin 7.
    pub pc7: Pin<2, 7, Disabled>,
    /// Port `C` pin 8.
    pub pc8: Pin<2, 8, Disabled>,
    /// Port `C` pin 9.
    pub pc9: Pin<2, 9, Disabled>,
    /// Port `C` pin 10.
    pub pc10: Pin<2, 10, Disabled>,
    /// Port `C` pin 11.
    pub pc11: Pin<2, 11, Disabled>,
    /// Port `D` pin 9.
    pub pd9: Pin<3, 9, Disabled>,
    /// Port `D` pin 10.
    pub pd10: Pin<3, 10, Disabled>,
    /// Port `D` pin 11.
    pub pd11: Pin<3, 11, Disabled>,
    /// Port `D` pin 12.
    pub pd12: Pin<3, 12, Disabled>,
    /// Port `D` pin 13.
    pub pd13: Pin<3, 13, Disabled>,
    /// Port `D` pin 14.
    pub pd14: Pin<3, 14, Disabled>,
    /// Port `D` pin 15.
    pub pd15: Pin<3, 15, Disabled>,
    /// Port `F` pin 4.
    pub pf4: Pin<4, 4, Disabled>,
    /// Port `F` pin 5.
    pub pf5: Pin<4, 5, Disabled>,
    /// Port `F` pin 6.
    pub pf6: Pin<4, 6, Disabled>,
    /// Port `F` pin 7.
    pub pf7: Pin<4, 7, Disabled>,
    /// Port `F` debug pins 0 to 3, still routed to their debug function.
    pub debug_pins: DebugPinsEnabled,
}

impl Gpio {
    /// Bring up the GPIO peripheral: gate its clock off, reset every
    /// register the driver owns, then enable the clock. All pins start in
    /// the disabled mode, except the four debug pins, which start routed to
    /// their debug function.
    pub fn new() -> (g: Gpio)
        ensures
            g.regs == gpio_initial_state(),
    {
        let mut g = Gpio {
            regs: RegisterBank::new(),
            port_a: Port::new(),
            port_b: Port::new(),
            port_c: Port::new(),
            port_d: Port::new(),
            port_f: Port::new(),
            pa0: Pin::new(),
            pa1: Pin::new(),
            pa2: Pin::new(),
            pa3: Pin::new(),
            pa4: Pin::new(),
            pa5: Pin::new(),
            pb11: Pin::new(),
            pb12: Pin::new(),
            pb13: Pin::new(),
            pb14: Pin::new(),
            pb15: Pin::new(),
            pc6: Pin::new(),
            pc7: Pin::new(),
            pc8: Pin::new(),
            pc9: Pin::new(),
            pc10: Pin::new(),
            pc11: Pin::new(),
            pd9: Pin::new(),
            pd10: Pin::new(),
            pd11: Pin::new(),
            pd12: Pin::new(),
            pd13: Pin::new(),
            pd14: Pin::new(),
            pd15: Pin::new(),
            pf4: Pin::new(),
            pf5: Pin::new(),
            pf6: Pin::new(),
            pf7: Pin::new(),
            debug_pins: DebugPinsEnabled::new(),
        };
        g.disable_clock();
        g.reset();
        g.enable_clock();
        g
    }

    /// Reset every register the driver owns to its reset state; the clock
    /// gate and the environment are untouched.
    fn reset(&mut self)
        ensures
            final(self).regs == (RegisterBank {
                clock_enabled: old(self).regs.clock_enabled,
                debugger_attached: old(self).regs.debugger_attached,
                ..bank_reset(false)
            }),
    {
        self.port_a.reset(&mut self.regs);
        self.port_b.reset(&mut self.regs);
        self.port_c.reset(&mut self.regs);
        self.port_d.reset(&mut self.regs);
        self.port_f.reset(&mut self.regs);
        self.regs.swclktck_pen = true;
        self.regs.swdiotms_pen = true;
        self.regs.tdo_pen = true;
        self.regs.tdi_pen = true;
        self.regs.swv_pen = false;
    }

    /// Open the GPIO peripheral's clock gate.
    fn enable_clock(&mut self)
        ensures
            final(self).regs == (RegisterBank { clock_enabled: true, ..old(self).regs }),
    {
        self.regs.clock_enabled = true;
    }

    /// Close the GPIO peripheral's clock gate.
    fn disable_clock(&mut self)
        ensures
            final(self).regs == (RegisterBank { clock_enabled: false, ..old(self).regs }),
    {
        self.regs.clock_enabled = false;
    }
}

/// What reading a pin's input level returns: the sampled data-in bit, unless
/// the peripheral clock is off or the port's primary readback flag gates the
/// read.
pub open spec fn spec_read_din(b: RegisterBank, id: PortId, pin: u8) -> Result<bool, GpioError> {
    if !b.clock_enabled {
        Err(GpioError::GpioDisabled)
    } else if b.port_spec(id).din_dis {
        Err(GpioError::DataInDisabled)
    } else {
        Ok(b.port_spec(id).din_spec(pin))
    }
}

/// What reading back a pin's last commanded output state returns: the
/// data-out bit, unless the peripheral clock is off or the readback flag of
/// the pin's output family (alternate where `alt` holds, primary otherwise)
/// gates the read.
pub open spec fn spec_read_dout_back(b: RegisterBank, id: PortId, pin: u8, alt: bool) -> Result<
    bool,
    GpioError,
> {
    if !b.clock_enabled {
        Err(GpioError::GpioDisabled)
    } else if (if alt {
        b.port_spec(id).din_dis_alt
    } else {
        b.port_spec(id).din_dis
    }) {
        Err(GpioError::DataInDisabled)
    } else {
        Ok(b.port_spec(id).dout_spec(pin))
    }
}

/// While a port's primary readback flag is set, every read gated by it
/// returns [`GpioError::DataInDisabled`], never a stale level, for every pin
/// of the port; once the flag is clear and the clock runs, reads return the
/// registers' levels.
pub proof fn lemma_din_dis_gates_reads(b: RegisterBank, id: PortId, pin: u8)
    ensures
        b.clock_enabled && b.port_spec(id).din_dis ==> spec_read_din(b, id, pin) == Err::<
            bool,
            GpioError,
        >(GpioError::DataInDisabled),
        b.clock_enabled && b.port_spec(id).din_dis ==> spec_read_dout_back(b, id, pin, false)
            == Err::<bool, GpioError>(GpioError::DataInDisabled),
        b.clock_enabled && !b.port_spec(id).din_dis ==> spec_read_din(b, id, pin) == Ok::<
            bool,
            GpioError,
        >(b.port_spec(id).din_spec(pin)),
        b.clock_enabled && !b.port_spec(id).din_dis ==> spec_read_dout_back(b, id, pin, false)
            == Ok::<bool, GpioError>(b.port_spec(id).dout_spec(pin)),
{
}

} // verus!
