//! Pins whose mode is fixed at compile time but whose port and pin identity
//! is runtime data.
//!
//! An [`ErasedPin`] obeys the same mode discipline as a typed
//! [`Pin`](crate::pin::Pin), but packs the port index and pin number into
//! one byte, so pins of the same mode on different physical locations can be
//! collected into one homogeneous container.

use vstd::prelude::*;

use crate::gpio::{spec_read_din, spec_read_dout_back, GpioError};
use crate::mode::{apply_mode, spec_apply_mode, DynamicMode};
use crate::pin::{InputMode, MultiMode, Out, OutAlt, OutputMode, PinInfo};
use crate::port::{spec_port_id, PortId};
use crate::regs::RegisterBank;
use core::marker::PhantomData;

verus! {

/// Packing a port index and a pin number into one byte loses nothing: the
/// high nibble gives the index back and the low nibble the pin number.
pub proof fn lemma_pack_unpack(p: u8, n: u8)
    by (bit_vector)
    requires
        p < 5,
        n < 16,
    ensures
        ((p << 4) | n) >> 4 == p,
        ((p << 4) | n) & 0xF == n,
{
}

/// A pin with a compile-time mode and a runtime (port, pin) identity.
#[verifier::reject_recursive_types(MODE)]
pub struct ErasedPin<MODE> {
    /// Most significant nibble is the port index, least significant nibble
    /// the pin number.
    port_pin: u8,
    _mode: PhantomData<MODE>,
}

impl<MODE> ErasedPin<MODE> {
    #[verifier::type_invariant]
    spec fn wf(self) -> bool {
        (self.port_pin >> 4) < 5 && (self.port_pin & 0xF) < 16
    }

    pub(crate) fn new(port: PortId, pin: u8) -> (e: Self)
        requires
            pin < 16,
        ensures
            e.port_spec() == port,
            e.pin_spec() == pin,
    {
        let idx = port.index();
        let packed: u8 = (idx << 4) | pin;
        proof {
            lemma_pack_unpack(idx, pin);
        }
        Self { port_pin: packed, _mode: PhantomData }
    }
}

impl<MODE> PinInfo for ErasedPin<MODE> {
    closed spec fn port_spec(&self) -> PortId {
        spec_port_id(self.port_pin >> 4)
    }

    closed spec fn pin_spec(&self) -> u8 {
        self.port_pin & 0xF
    }

    fn port(&self) -> PortId {
        proof {
            use_type_invariant(self);
        }
        PortId::of_index(self.port_pin >> 4)
    }

    fn pin(&self) -> u8 {
        self.port_pin & 0xF
    }
}

impl<MODE: MultiMode> ErasedPin<MODE> {
    /// Transition this pin into another mode, consuming the handle and
    /// applying the new mode's register settings. The physical identity is
    /// carried over unchanged.
    pub fn into_mode<NMODE: MultiMode>(self, bank: &mut RegisterBank) -> (e: ErasedPin<NMODE>)
        ensures
            *final(bank) == spec_apply_mode(
                *old(bank),
                self.port_spec(),
                self.pin_spec(),
                NMODE::mode_spec(),
            ),
            e.port_spec() == self.port_spec(),
            e.pin_spec() == self.pin_spec(),
    {
        proof {
            use_type_invariant(&self);
        }
        let id = self.port();
        let pin = self.pin();
        apply_mode(bank, id, pin, NMODE::dynamic_mode());
        ErasedPin { port_pin: self.port_pin, _mode: PhantomData }
    }

    /// Temporarily set this pin to another mode while running the given
    /// closure, then restore the pin's own mode: the closure receives a
    /// handle of the temporary mode on the same physical pin and the
    /// register image with that mode applied, and whatever image it returns
    /// gets the original mode written back for this pin.
    pub fn with_mode<TMODE: MultiMode, R, F: FnOnce(ErasedPin<TMODE>, RegisterBank) -> (
        RegisterBank,
        R,
    )>(&mut self, bank: RegisterBank, f: F) -> (out: (RegisterBank, R))
        requires
            forall|p: ErasedPin<TMODE>|
                p.port_spec() == old(self).port_spec() && p.pin_spec() == old(self).pin_spec()
                    ==> #[trigger] call_requires(
                    f,
                    (
                        p,
                        spec_apply_mode(
                            bank,
                            old(self).port_spec(),
                            old(self).pin_spec(),
                            TMODE::mode_spec(),
                        ),
                    ),
                ),
        ensures
            *final(self) == *old(self),
            exists|p: ErasedPin<TMODE>, mid: (RegisterBank, R)|
                {
                    &&& p.port_spec() == old(self).port_spec()
                    &&& p.pin_spec() == old(self).pin_spec()
                    &&& #[trigger] call_ensures(
                        f,
                        (
                            p,
                            spec_apply_mode(
                                bank,
                                old(self).port_spec(),
                                old(self).pin_spec(),
                                TMODE::mode_spec(),
                            ),
                        ),
                        mid,
                    )
                    &&& out.0 == spec_apply_mode(
                        mid.0,
                        old(self).port_spec(),
                        old(self).pin_spec(),
                        MODE::mode_spec(),
                    )
                    &&& out.1 == mid.1
                },
    {
        proof {
            use_type_invariant(&*self);
        }
        let id = self.port();
        let pin = self.pin();
        let mut b = bank;
        apply_mode(&mut b, id, pin, TMODE::dynamic_mode());
        let temp_pin: ErasedPin<TMODE> = ErasedPin { port_pin: self.port_pin, _mode: PhantomData };
        let (mid, ret) = f(temp_pin, b);
        let mut b_after = mid;
        apply_mode(&mut b_after, id, pin, MODE::dynamic_mode());
        (b_after, ret)
    }
}

impl<MODE: InputMode> ErasedPin<MODE> {
    /// Whether the pin level reads high. Fails while the peripheral clock is
    /// off, and fails with [`GpioError::DataInDisabled`] while the port's
    /// primary readback flag is set, rather than returning a stale level.
    pub fn is_high(&self, bank: &RegisterBank) -> (r: Result<bool, GpioError>)
        ensures
            r == spec_read_din(*bank, self.port_spec(), self.pin_spec()),
    {
        proof {
            use_type_invariant(self);
        }
        if !bank.clock_enabled() {
            Err(GpioError::GpioDisabled)
        } else if bank.port(self.port()).din_dis {
            Err(GpioError::DataInDisabled)
        } else {
            Ok(bank.port(self.port()).din_bit(self.pin()))
        }
    }

    /// Whether the pin level reads low; the exact complement of
    /// [`ErasedPin::is_high`], under the same gating.
    pub fn is_low(&self, bank: &RegisterBank) -> (r: Result<bool, GpioError>)
        ensures
            r == (match spec_read_din(*bank, self.port_spec(), self.pin_spec()) {
                Ok(level) => Ok::<bool, GpioError>(!level),
                Err(e) => Err(e),
            }),
    {
        match self.is_high(bank) {
            Ok(level) => Ok(!level),
            Err(e) => Err(e),
        }
    }
}

impl<MODE: OutputMode> ErasedPin<MODE> {
    /// Drive the pin low: clear its data-out bit. Infallible once the
    /// peripheral clock is enabled.
    pub fn set_low(&mut self, bank: &mut RegisterBank) -> (r: Result<(), GpioError>)
        ensures
            *final(bank) == old(bank).with_port(
                old(self).port_spec(),
                old(bank).port_spec(old(self).port_spec()).with_dout(old(self).pin_spec(), false),
            ),
            r == Ok::<(), GpioError>(()),
            *final(self) == *old(self),
    {
        proof {
            use_type_invariant(&*self);
        }
        let id = self.port();
        let mut r = *bank.port(id);
        r.set_dout_bit(self.pin(), false);
        bank.set_port(id, r);
        Ok(())
    }

    /// Drive the pin high: set its data-out bit. Infallible once the
    /// peripheral clock is enabled.
    pub fn set_high(&mut self, bank: &mut RegisterBank) -> (r: Result<(), GpioError>)
        ensures
            *final(bank) == old(bank).with_port(
                old(self).port_spec(),
                old(bank).port_spec(old(self).port_spec()).with_dout(old(self).pin_spec(), true),
            ),
            r == Ok::<(), GpioError>(()),
            *final(self) == *old(self),
    {
        proof {
            use_type_invariant(&*self);
        }
        let id = self.port();
        let mut r = *bank.port(id);
        r.set_dout_bit(self.pin(), true);
        bank.set_port(id, r);
        Ok(())
    }
}

impl<SMODE> ErasedPin<Out<SMODE>> where Out<SMODE>: OutputMode {
    /// Whether the last commanded output state is high. Fails while the
    /// peripheral clock is off, and fails with
    /// [`GpioError::DataInDisabled`] while the port's primary readback flag
    /// is set.
    pub fn is_set_high(&self, bank: &RegisterBank) -> (r: Result<bool, GpioError>)
        ensures
            r == spec_read_dout_back(*bank, self.port_spec(), self.pin_spec(), false),
    {
        proof {
            use_type_invariant(self);
        }
        if !bank.clock_enabled() {
            Err(GpioError::GpioDisabled)
        } else if bank.port(self.port()).din_dis {
            Err(GpioError::DataInDisabled)
        } else {
            Ok(bank.port(self.port()).dout_bit(self.pin()))
        }
    }

    /// Whether the last commanded output state is low; the exact complement
    /// of [`ErasedPin::is_set_high`], under the same gating.
    pub fn is_set_low(&self, bank: &RegisterBank) -> (r: Result<bool, GpioError>)
        ensures
            r == (match spec_read_dout_back(*bank, self.port_spec(), self.pin_spec(), false) {
                Ok(level) => Ok::<bool, GpioError>(!level),
                Err(e) => Err(e),
            }),
    {
        match self.is_set_high(bank) {
            Ok(level) => Ok(!level),
            Err(e) => Err(e),
        }
    }
}

impl<SMODE> ErasedPin<OutAlt<SMODE>> where OutAlt<SMODE>: OutputMode {
    /// Whether the last commanded output state is high. Fails while the
    /// peripheral clock is off, and fails with
    /// [`GpioError::DataInDisabled`] while the port's alternate readback
    /// flag is set.
    pub fn is_set_high(&self, bank: &RegisterBank) -> (r: Result<bool, GpioError>)
        ensures
            r == spec_read_dout_back(*bank, self.port_spec(), self.pin_spec(), true),
    {
        proof {
            use_type_invariant(self);
        }
        if !bank.clock_enabled() {
            Err(GpioError::GpioDisabled)
        } else if bank.port(self.port()).din_dis_alt {
            Err(GpioError::DataInDisabled)
        } else {
            Ok(bank.port(self.port()).dout_bit(self.pin()))
        }
    }

    /// Whether the last commanded output state is low; the exact complement
    /// of [`ErasedPin::is_set_high`], under the same gating.
    pub fn is_set_low(&self, bank: &RegisterBank) -> (r: Result<bool, GpioError>)
        ensures
            r == (match spec_read_dout_back(*bank, self.port_spec(), self.pin_spec(), true) {
                Ok(level) => Ok::<bool, GpioError>(!level),
                Err(e) => Err(e),
            }),
    {
        match self.is_set_high(bank) {
            Ok(level) => Ok(!level),
            Err(e) => Err(e),
        }
    }
}

} // verus!
