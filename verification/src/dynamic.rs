//! Pins whose port, pin number and mode are all runtime data.
//!
//! A [`DynamicPin`] exists for code paths that must select or change pin
//! behavior based on runtime configuration. Every operation first checks the
//! current mode against a legality predicate and returns
//! [`GpioError::InvalidMode`] instead of being compile-time unreachable.

use vstd::prelude::*;

use crate::erased::lemma_pack_unpack;
use crate::gpio::GpioError;
use crate::mode::{
    apply_mode, is_input_mode, is_output_alt_mode, is_output_mode, is_readable_mode,
    is_writable_mode, spec_apply_mode, DynamicMode,
};
use crate::pin::{MultiMode, PinInfo};
use crate::port::{spec_port_id, PortId};
use crate::regs::RegisterBank;

verus! {

/// What reading a dynamic pin's input level returns: the sampled data-in
/// bit, unless the mode is not readable, the peripheral clock is off, or the
/// readback flag of the mode's function group (alternate for alternate
/// outputs, primary for inputs and primary outputs) gates the read.
pub open spec fn spec_dyn_read_din(b: RegisterBank, id: PortId, pin: u8, m: DynamicMode) -> Result<
    bool,
    GpioError,
> {
    if !is_readable_mode(m) {
        Err(GpioError::InvalidMode(m))
    } else if !b.clock_enabled {
        Err(GpioError::GpioDisabled)
    } else if ((is_input_mode(m) || is_output_mode(m)) && b.port_spec(id).din_dis) || (
    is_output_alt_mode(m) && b.port_spec(id).din_dis_alt) {
        Err(GpioError::DataInDisabled)
    } else {
        Ok(b.port_spec(id).din_spec(pin))
    }
}

/// What driving a dynamic pin returns: success exactly when the mode is
/// writable and the peripheral clock runs.
pub open spec fn spec_dyn_write(b: RegisterBank, m: DynamicMode) -> Result<(), GpioError> {
    if !is_writable_mode(m) {
        Err(GpioError::InvalidMode(m))
    } else if !b.clock_enabled {
        Err(GpioError::GpioDisabled)
    } else {
        Ok(())
    }
}

/// What reading back a dynamic pin's last commanded output state returns:
/// the data-out bit, unless the peripheral clock is off, the mode is not
/// writable, or the readback flag of the mode's output family gates the
/// read.
pub open spec fn spec_dyn_read_dout_back(
    b: RegisterBank,
    id: PortId,
    pin: u8,
    m: DynamicMode,
) -> Result<bool, GpioError> {
    if !b.clock_enabled {
        Err(GpioError::GpioDisabled)
    } else if !is_writable_mode(m) {
        Err(GpioError::InvalidMode(m))
    } else if (is_output_mode(m) && b.port_spec(id).din_dis) || (is_output_alt_mode(m)
        && b.port_spec(id).din_dis_alt) {
        Err(GpioError::DataInDisabled)
    } else {
        Ok(b.port_spec(id).dout_spec(pin))
    }
}

/// A pin whose port, pin number and current mode are all runtime values.
pub struct DynamicPin {
    /// Most significant nibble is the port index, least significant nibble
    /// the pin number.
    port_pin: u8,
    /// The pin's current mode.
    mode: DynamicMode,
}

impl DynamicPin {
    #[verifier::type_invariant]
    spec fn wf(self) -> bool {
        (self.port_pin >> 4) < 5 && (self.port_pin & 0xF) < 16
    }

    /// The pin's current mode, as this handle believes it.
    pub closed spec fn mode_spec(&self) -> DynamicMode {
        self.mode
    }

    pub(crate) fn new(port: PortId, pin: u8, mode: DynamicMode) -> (d: Self)
        requires
            pin < 16,
        ensures
            d.port_spec() == port,
            d.pin_spec() == pin,
            d.mode_spec() == mode,
    {
        let idx = port.index();
        let packed: u8 = (idx << 4) | pin;
        proof {
            lemma_pack_unpack(idx, pin);
        }
        Self { port_pin: packed, mode }
    }

    /// The pin's current mode.
    pub fn mode(&self) -> (m: DynamicMode)
        ensures
            m == self.mode_spec(),
    {
        self.mode
    }

    /// Transition this pin into another mode: update the handle's mode field
    /// and apply the new mode's register settings.
    pub fn into_mode<MODE: MultiMode>(self, bank: &mut RegisterBank) -> (d: Self)
        ensures
            *final(bank) == spec_apply_mode(
                *old(bank),
                self.port_spec(),
                self.pin_spec(),
                MODE::mode_spec(),
            ),
            d.port_spec() == self.port_spec(),
            d.pin_spec() == self.pin_spec(),
            d.mode_spec() == MODE::mode_spec(),
    {
        proof {
            use_type_invariant(&self);
        }
        let id = self.port();
        let pin = self.pin();
        apply_mode(bank, id, pin, MODE::dynamic_mode());
        Self { port_pin: self.port_pin, mode: MODE::dynamic_mode() }
    }

    /// Temporarily set this pin to another mode while running the given
    /// closure, then restore the pin's own mode: the closure receives a
    /// handle of the temporary mode on the same physical pin and the
    /// register image with that mode applied, and whatever image it returns
    /// gets this handle's mode written back for the pin.
    pub fn with_mode<TMODE: MultiMode, R, F: FnOnce(DynamicPin, RegisterBank) -> (
        RegisterBank,
        R,
    )>(&mut self, bank: RegisterBank, f: F) -> (out: (RegisterBank, R))
        requires
            forall|p: DynamicPin|
                p.port_spec() == old(self).port_spec() && p.pin_spec() == old(self).pin_spec()
                    && p.mode_spec() == TMODE::mode_spec() ==> #[trigger] call_requires(
                    f,
                    (
                        p,
                        spec_apply_mode(
                            bank,
                            old(self).port_spec(),
                            old(self).pin_spec(),
                            TMODE::mode_spec(),
                        ),
                    ),
                ),
        ensures
            *final(self) == *old(self),
            exists|p: DynamicPin, mid: (RegisterBank, R)|
                {
                    &&& p.port_spec() == old(self).port_spec()
                    &&& p.pin_spec() == old(self).pin_spec()
                    &&& p.mode_spec() == TMODE::mode_spec()
                    &&& #[trigger] call_ensures(
                        f,
                        (
                            p,
                            spec_apply_mode(
                                bank,
                                old(self).port_spec(),
                                old(self).pin_spec(),
                                TMODE::mode_spec(),
                            ),
                        ),
                        mid,
                    )
                    &&& out.0 == spec_apply_mode(
                        mid.0,
                        old(self).port_spec(),
                        old(self).pin_spec(),
                        old(self).mode_spec(),
                    )
                    &&& out.1 == mid.1
                },
    {
        proof {
            use_type_invariant(&*self);
        }
        let id = self.port();
        let pin = self.pin();
        let mut b = bank;
        apply_mode(&mut b, id, pin, TMODE::dynamic_mode());
        let temp_pin = DynamicPin { port_pin: self.port_pin, mode: TMODE::dynamic_mode() };
        let (mid, ret) = f(temp_pin, b);
        let mut b_after = mid;
        apply_mode(&mut b_after, id, pin, self.mode);
        (b_after, ret)
    }

    /// Whether the pin level reads high. Fails with
    /// [`GpioError::InvalidMode`] in the disabled and analog modes, while
    /// the peripheral clock is off, and with [`GpioError::DataInDisabled`]
    /// while the readback flag of the mode's function group is set, rather
    /// than returning a stale level.
    pub fn is_high(&self, bank: &RegisterBank) -> (r: Result<bool, GpioError>)
        ensures
            r == spec_dyn_read_din(*bank, self.port_spec(), self.pin_spec(), self.mode_spec()),
    {
        proof {
            use_type_invariant(self);
        }
        if !self.mode.readable() {
            Err(GpioError::InvalidMode(self.mode))
        } else if !bank.clock_enabled() {
            Err(GpioError::GpioDisabled)
        } else if ((self.mode.readable_input() || self.mode.readable_out()) && bank.port(
            self.port(),
        ).din_dis) || (self.mode.readable_out_alt() && bank.port(self.port()).din_dis_alt) {
            Err(GpioError::DataInDisabled)
        } else {
            Ok(bank.port(self.port()).din_bit(self.pin()))
        }
    }

    /// Whether the pin level reads low; the exact complement of
    /// [`DynamicPin::is_high`], under the same gating.
    pub fn is_low(&self, bank: &RegisterBank) -> (r: Result<bool, GpioError>)
        ensures
            r == (match spec_dyn_read_din(
                *bank,
                self.port_spec(),
                self.pin_spec(),
                self.mode_spec(),
            ) {
                Ok(level) => Ok::<bool, GpioError>(!level),
                Err(e) => Err(e),
            }),
    {
        match self.is_high(bank) {
            Ok(level) => Ok(!level),
            Err(e) => Err(e),
        }
    }

    /// Drive the pin low: clear its data-out bit. Fails with
    /// [`GpioError::InvalidMode`] unless the mode is an output mode, and
    /// while the peripheral clock is off; the register is then left
    /// untouched.
    pub fn set_low(&mut self, bank: &mut RegisterBank) -> (r: Result<(), GpioError>)
        ensures
            r == spec_dyn_write(*old(bank), old(self).mode_spec()),
            *final(bank) == (if r is Ok {
                old(bank).with_port(
                    old(self).port_spec(),
                    old(bank).port_spec(old(self).port_spec()).with_dout(
                        old(self).pin_spec(),
                        false,
                    ),
                )
            } else {
                *old(bank)
            }),
            *final(self) == *old(self),
    {
        proof {
            use_type_invariant(&*self);
        }
        if !self.mode.writable() {
            Err(GpioError::InvalidMode(self.mode))
        } else if !bank.clock_enabled() {
            Err(GpioError::GpioDisabled)
        } else {
            let id = self.port();
            let mut r = *bank.port(id);
            r.set_dout_bit(self.pin(), false);
            bank.set_port(id, r);
            Ok(())
        }
    }

    /// Drive the pin high: set its data-out bit. Fails with
    /// [`GpioError::InvalidMode`] unless the mode is an output mode, and
    /// while the peripheral clock is off; the register is then left
    /// untouched.
    pub fn set_high(&mut self, bank: &mut RegisterBank) -> (r: Result<(), GpioError>)
        ensures
            r == spec_dyn_write(*old(bank), old(self).mode_spec()),
            *final(bank) == (if r is Ok {
                old(bank).with_port(
                    old(self).port_spec(),
                    old(bank).port_spec(old(self).port_spec()).with_dout(old(self).pin_spec(), true),
                )
            } else {
                *old(bank)
            }),
            *final(self) == *old(self),
    {
        proof {
            use_type_invariant(&*self);
        }
        if !self.mode.writable() {
            Err(GpioError::InvalidMode(self.mode))
        } else if !bank.clock_enabled() {
            Err(GpioError::GpioDisabled)
        } else {
            let id = self.port();
            let mut r = *bank.port(id);
            r.set_dout_bit(self.pin(), true);
            bank.set_port(id, r);
            Ok(())
        }
    }

    /// Whether the last commanded output state is high: the data-out bit,
    /// not the input register. Fails while the peripheral clock is off, with
    /// [`GpioError::InvalidMode`] unless the mode is an output mode, and
    /// with [`GpioError::DataInDisabled`] while the readback flag of the
    /// mode's output family is set.
    pub fn is_set_high(&self, bank: &RegisterBank) -> (r: Result<bool, GpioError>)
        ensures
            r == spec_dyn_read_dout_back(*bank, self.port_spec(), self.pin_spec(), self.mode_spec()),
    {
        proof {
            use_type_invariant(self);
        }
        if !bank.clock_enabled() {
            Err(GpioError::GpioDisabled)
        } else if !self.mode.writable() {
            Err(GpioError::InvalidMode(self.mode))
        } else if (self.mode.readable_out() && bank.port(self.port()).din_dis) || (
        self.mode.readable_out_alt() && bank.port(self.port()).din_dis_alt) {
            Err(GpioError::DataInDisabled)
        } else {
            Ok(bank.port(self.port()).dout_bit(self.pin()))
        }
    }

    /// Whether the last commanded output state is low; the exact complement
    /// of [`DynamicPin::is_set_high`], under the same gating.
    pub fn is_set_low(&self, bank: &RegisterBank) -> (r: Result<bool, GpioError>)
        ensures
            r == (match spec_dyn_read_dout_back(
                *bank,
                self.port_spec(),
                self.pin_spec(),
                self.mode_spec(),
            ) {
                Ok(level) => Ok::<bool, GpioError>(!level),
                Err(e) => Err(e),
            }),
    {
        match self.is_set_high(bank) {
            Ok(level) => Ok(!level),
            Err(e) => Err(e),
        }
    }
}

impl PinInfo for DynamicPin {
    closed spec fn port_spec(&self) -> PortId {
        spec_port_id(self.port_pin >> 4)
    }

    closed spec fn pin_spec(&self) -> u8 {
        self.port_pin & 0xF
    }

    fn port(&self) -> PortId {
        proof {
            use_type_invariant(self);
        }
        PortId::of_index(self.port_pin >> 4)
    }

    fn pin(&self) -> u8 {
        self.port_pin & 0xF
    }
}

/// While a port's primary readback flag is set and the clock runs, every
/// read of a dynamic pin in a primary-family readable mode, and every
/// readback of one in a primary output mode, returns
/// [`GpioError::DataInDisabled`], never a stale level; clearing the flag
/// restores the registers' levels.
pub proof fn lemma_dyn_din_dis_gates_reads(b: RegisterBank, id: PortId, pin: u8, m: DynamicMode)
    requires
        b.clock_enabled,
        is_input_mode(m) || is_output_mode(m),
    ensures
        b.port_spec(id).din_dis ==> spec_dyn_read_din(b, id, pin, m) == Err::<bool, GpioError>(
            GpioError::DataInDisabled,
        ),
        b.port_spec(id).din_dis && is_output_mode(m) ==> spec_dyn_read_dout_back(b, id, pin, m)
            == Err::<bool, GpioError>(GpioError::DataInDisabled),
        !b.port_spec(id).din_dis ==> spec_dyn_read_din(b, id, pin, m) == Ok::<bool, GpioError>(
            b.port_spec(id).din_spec(pin),
        ),
        !b.port_spec(id).din_dis && is_output_mode(m) ==> spec_dyn_read_dout_back(b, id, pin, m)
            == Ok::<bool, GpioError>(b.port_spec(id).dout_spec(pin)),
{
}

} // verus!
