//! Pins whose port, pin number and mode are all fixed at compile time.
//!
//! A [`Pin`] value is zero-sized: the port index `P`, the pin number `N` and
//! the mode are all carried by the type. Mode transitions consume the old
//! handle and produce one of the new mode, and only the operations legal for
//! the current mode exist on the handle.

use vstd::prelude::*;

use crate::dynamic::DynamicPin;
use crate::erased::ErasedPin;
use crate::gpio::{spec_read_din, spec_read_dout_back, GpioError};
use crate::mode::{apply_mode, spec_apply_mode, DynamicMode};
use crate::port::{spec_port_id, PortId};
use crate::regs::RegisterBank;
use core::marker::PhantomData;

verus! {

/// Disabled mode (type state).
#[derive(Clone, Copy, Debug)]
pub struct Disabled;

/// Disabled with pull-up mode (type state).
#[derive(Clone, Copy, Debug)]
pub struct DisabledPu;

/// Analog mode (type state), for use with the ADC/DAC peripherals.
#[derive(Clone, Copy, Debug)]
pub struct Analog;

/// Input floating mode (type state).
#[derive(Clone, Copy, Debug)]
pub struct InFloat;

/// Input with filter mode (type state).
#[derive(Clone, Copy, Debug)]
pub struct InFilt;

/// Input with pull-up mode (type state).
#[derive(Clone, Copy, Debug)]
pub struct InPu;

/// Input with pull-up and filter mode (type state).
#[derive(Clone, Copy, Debug)]
pub struct InPuFilt;

/// Input with pull-down mode (type state).
#[derive(Clone, Copy, Debug)]
pub struct InPd;

/// Input with pull-down and filter mode (type state).
#[derive(Clone, Copy, Debug)]
pub struct InPdFilt;

/// Output open source mode (type state).
#[derive(Clone, Copy, Debug)]
pub struct OutOs;

/// Output open source, pull-down mode (type state).
#[derive(Clone, Copy, Debug)]
pub struct OutOsPd;

/// The mode of an output pin which uses the primary configuration (type
/// state); the sub-mode selects the drive structure.
#[derive(Debug)]
#[verifier::reject_recursive_types(SMODE)]
pub struct Out<SMODE> {
    _smode: PhantomData<SMODE>,
}

/// The mode of an output pin which uses the alternate configuration (type
/// state); the sub-mode selects the drive structure.
#[derive(Debug)]
#[verifier::reject_recursive_types(SMODE)]
pub struct OutAlt<SMODE> {
    _smode: PhantomData<SMODE>,
}

/// Push-pull sub-mode for [`Out`] and [`OutAlt`].
#[derive(Clone, Copy, Debug)]
pub struct PushPull;

/// Open drain sub-mode for [`Out`] and [`OutAlt`].
#[derive(Clone, Copy, Debug)]
pub struct OpenDrain;

/// Open drain with filter sub-mode for [`Out`] and [`OutAlt`].
#[derive(Clone, Copy, Debug)]
pub struct OpenDrainFilter;

/// Open drain with pull-up sub-mode for [`Out`] and [`OutAlt`].
#[derive(Clone, Copy, Debug)]
pub struct OpenDrainPullUp;

/// Open drain with pull-up and filter sub-mode for [`Out`] and [`OutAlt`].
#[derive(Clone, Copy, Debug)]
pub struct OpenDrainPullUpFilter;

/// Output push-pull mode (type state).
pub type OutPp = Out<PushPull>;

/// Output open drain mode (type state).
pub type OutOd = Out<OpenDrain>;

/// Output open drain with filter mode (type state).
pub type OutOdFilt = Out<OpenDrainFilter>;

/// Output open drain pull-up mode (type state).
pub type OutOdPu = Out<OpenDrainPullUp>;

/// Output open drain pull-up with filter mode (type state).
pub type OutOdPuFilt = Out<OpenDrainPullUpFilter>;

/// Alternate output push-pull mode (type state).
pub type OutPpAlt = OutAlt<PushPull>;

/// Alternate output open drain mode (type state).
pub type OutOdAlt = OutAlt<OpenDrain>;

/// Alternate output open drain with filter mode (type state).
pub type OutOdFiltAlt = OutAlt<OpenDrainFilter>;

/// Alternate output open drain pull-up mode (type state).
pub type OutOdPuAlt = OutAlt<OpenDrainPullUp>;

/// Alternate output open drain pull-up with filter mode (type state).
pub type OutOdPuFiltAlt = OutAlt<OpenDrainPullUpFilter>;

/// A mode a pin can transition into: the type state names one member of the
/// closed mode set.
pub trait MultiMode {
    /// The mode this type state stands for.
    spec fn mode_spec() -> DynamicMode;

    /// The runtime value of the mode this type state stands for.
    fn dynamic_mode() -> (m: DynamicMode)
        ensures
            m == Self::mode_spec(),
    ;
}

/// Marker for type states whose pins can be read as inputs.
pub trait InputMode: MultiMode {

}

/// Marker for type states whose pins can be driven as outputs.
pub trait OutputMode: MultiMode {

}

impl MultiMode for Disabled {
    open spec fn mode_spec() -> DynamicMode {
        DynamicMode::Disabled
    }

    fn dynamic_mode() -> DynamicMode {
        DynamicMode::Disabled
    }
}

impl MultiMode for DisabledPu {
    open spec fn mode_spec() -> DynamicMode {
        DynamicMode::DisabledPu
    }

    fn dynamic_mode() -> DynamicMode {
        DynamicMode::DisabledPu
    }
}

impl MultiMode for Analog {
    open spec fn mode_spec() -> DynamicMode {
        DynamicMode::Analog
    }

    fn dynamic_mode() -> DynamicMode {
        DynamicMode::Analog
    }
}

impl MultiMode for InFloat {
    open spec fn mode_spec() -> DynamicMode {
        DynamicMode::InFloat
    }

    fn dynamic_mode() -> DynamicMode {
        DynamicMode::InFloat
    }
}

impl MultiMode for InFilt {
    open spec fn mode_spec() -> DynamicMode {
        DynamicMode::InFilt
    }

    fn dynamic_mode() -> DynamicMode {
        DynamicMode::InFilt
    }
}

impl MultiMode for InPu {
    open spec fn mode_spec() -> DynamicMode {
        DynamicMode::InPu
    }

    fn dynamic_mode() -> DynamicMode {
        DynamicMode::InPu
    }
}

impl MultiMode for InPuFilt {
    open spec fn mode_spec() -> DynamicMode {
        DynamicMode::InPuFilt
    }

    fn dynamic_mode() -> DynamicMode {
        DynamicMode::InPuFilt
    }
}

impl MultiMode for InPd {
    open spec fn mode_spec() -> DynamicMode {
        DynamicMode::InPd
    }

    fn dynamic_mode() -> DynamicMode {
        DynamicMode::InPd
    }
}

impl MultiMode for InPdFilt {
    open spec fn mode_spec() -> DynamicMode {
        DynamicMode::InPdFilt
    }

    fn dynamic_mode() -> DynamicMode {
        DynamicMode::InPdFilt
    }
}

impl MultiMode for OutOs {
    open spec fn mode_spec() -> DynamicMode {
        DynamicMode::OutOs
    }

    fn dynamic_mode() -> DynamicMode {
        DynamicMode::OutOs
    }
}

impl MultiMode for OutOsPd {
    open spec fn mode_spec() -> DynamicMode {
        DynamicMode::OutOsPd
    }

    fn dynamic_mode() -> DynamicMode {
        DynamicMode::OutOsPd
    }
}

impl MultiMode for Out<PushPull> {
    open spec fn mode_spec() -> DynamicMode {
        DynamicMode::OutPp
    }

    fn dynamic_mode() -> DynamicMode {
        DynamicMode::OutPp
    }
}

impl MultiMode for Out<OpenDrain> {
    open spec fn mode_spec() -> DynamicMode {
        DynamicMode::OutOd
    }

    fn dynamic_mode() -> DynamicMode {
        DynamicMode::OutOd
    }
}

impl MultiMode for Out<OpenDrainFilter> {
    open spec fn mode_spec() -> DynamicMode {
        DynamicMode::OutOdFilt
    }

    fn dynamic_mode() -> DynamicMode {
        DynamicMode::OutOdFilt
    }
}

impl MultiMode for Out<OpenDrainPullUp> {
    open spec fn mode_spec() -> DynamicMode {
        DynamicMode::OutOdPu
    }

    fn dynamic_mode() -> DynamicMode {
        DynamicMode::OutOdPu
    }
}

impl MultiMode for Out<OpenDrainPullUpFilter> {
    open spec fn mode_spec() -> DynamicMode {
        DynamicMode::OutOdPuFilt
    }

    fn dynamic_mode() -> DynamicMode {
        DynamicMode::OutOdPuFilt
    }
}

impl MultiMode for OutAlt<PushPull> {
    open spec fn mode_spec() -> DynamicMode {
        DynamicMode::OutPpAlt
    }

    fn dynamic_mode() -> DynamicMode {
        DynamicMode::OutPpAlt
    }
}

impl MultiMode for OutAlt<OpenDrain> {
    open spec fn mode_spec() -> DynamicMode {
        DynamicMode::OutOdAlt
    }

    fn dynamic_mode() -> DynamicMode {
        DynamicMode::OutOdAlt
    }
}

impl MultiMode for OutAlt<OpenDrainFilter> {
    open spec fn mode_spec() -> DynamicMode {
        DynamicMode::OutOdFiltAlt
    }

    fn dynamic_mode() -> DynamicMode {
        DynamicMode::OutOdFiltAlt
    }
}

impl MultiMode for OutAlt<OpenDrainPullUp> {
    open spec fn mode_spec() -> DynamicMode {
        DynamicMode::OutOdPuAlt
    }

    fn dynamic_mode() -> DynamicMode {
        DynamicMode::OutOdPuAlt
    }
}

impl MultiMode for OutAlt<OpenDrainPullUpFilter> {
    open spec fn mode_spec() -> DynamicMode {
        DynamicMode::OutOdPuFiltAlt
    }

    fn dynamic_mode() -> DynamicMode {
        DynamicMode::OutOdPuFiltAlt
    }
}

impl InputMode for InFloat {

}

impl InputMode for InFilt {

}

impl InputMode for InPu {

}

impl InputMode for InPuFilt {

}

impl InputMode for InPd {

}

impl InputMode for InPdFilt {

}

impl OutputMode for OutOs {

}

impl OutputMode for OutOsPd {

}

impl OutputMode for Out<PushPull> {

}

impl OutputMode for Out<OpenDrain> {

}

impl OutputMode for Out<OpenDrainFilter> {

}

impl OutputMode for Out<OpenDrainPullUp> {

}

impl OutputMode for Out<OpenDrainPullUpFilter> {

}

impl OutputMode for OutAlt<PushPull> {

}

impl OutputMode for OutAlt<OpenDrain> {

}

impl OutputMode for OutAlt<OpenDrainFilter> {

}

impl OutputMode for OutAlt<OpenDrainPullUp> {

}

impl OutputMode for OutAlt<OpenDrainPullUpFilter> {

}

/// Port and pin identity of any pin representation.
pub trait PinInfo {
    /// The identifier of the port which contains this pin.
    spec fn port_spec(&self) -> PortId;

    /// The number of this pin within its port.
    spec fn pin_spec(&self) -> u8;

    /// Identifier of the port which contains this pin.
    fn port(&self) -> (id: PortId)
        ensures
            id == self.port_spec(),
    ;

    /// Number of this pin within its port.
    fn pin(&self) -> (n: u8)
        ensures
            n == self.pin_spec(),
    ;
}

/// Generic pin type.
///
/// - `P` is the port index, `0` for port `A` through `4` for port `F`.
/// - `N` is the pin number within the port, `0` to `15`.
/// - `MODE` is one of the mode type states.
#[verifier::reject_recursive_types(MODE)]
pub struct Pin<const P: u8, const N: u8, MODE> {
    _mode: PhantomData<MODE>,
}

impl<const P: u8, const N: u8, MODE> Pin<P, N, MODE> {
    /// Whether the type parameters name a pin that exists: five ports of
    /// sixteen pins each.
    pub open spec fn valid() -> bool {
        P < 5 && N < 16
    }

    pub(crate) fn new() -> Self {
        Self { _mode: PhantomData }
    }
}

impl<const P: u8, const N: u8, MODE> PinInfo for Pin<P, N, MODE> {
    open spec fn port_spec(&self) -> PortId {
        spec_port_id(P)
    }

    open spec fn pin_spec(&self) -> u8 {
        N
    }

    fn port(&self) -> PortId {
        if P == 0 {
            PortId::A
        } else if P == 1 {
            PortId::B
        } else if P == 2 {
            PortId::C
        } else if P == 3 {
            PortId::D
        } else {
            PortId::F
        }
    }

    fn pin(&self) -> u8 {
        N
    }
}

impl<const P: u8, const N: u8, MODE: MultiMode> Pin<P, N, MODE> {
    /// Transition this pin into another mode, consuming the handle and
    /// applying the new mode's register settings.
    pub fn into_mode<NMODE: MultiMode>(self, bank: &mut RegisterBank) -> (p: Pin<P, N, NMODE>)
        requires
            Self::valid(),
        ensures
            *final(bank) == spec_apply_mode(*old(bank), spec_port_id(P), N, NMODE::mode_spec()),
    {
        let id = self.port();
        apply_mode(bank, id, N, NMODE::dynamic_mode());
        Pin { _mode: PhantomData }
    }

    /// Temporarily set this pin to another mode while running the given
    /// closure, then restore the pin's own mode: the closure receives a
    /// handle of the temporary mode and the register image with that mode
    /// applied, and whatever image it returns gets the original mode written
    /// back for this pin. This lets a pin be read in another electrical
    /// configuration without a permanent mode change.
    pub fn with_mode<TMODE: MultiMode, R, F: FnOnce(Pin<P, N, TMODE>, RegisterBank) -> (
        RegisterBank,
        R,
    )>(&mut self, bank: RegisterBank, f: F) -> (out: (RegisterBank, R))
        requires
            Self::valid(),
            forall|p: Pin<P, N, TMODE>|
                #[trigger] call_requires(
                    f,
                    (p, spec_apply_mode(bank, spec_port_id(P), N, TMODE::mode_spec())),
                ),
        ensures
            exists|p: Pin<P, N, TMODE>, mid: (RegisterBank, R)|
                {
                    &&& #[trigger] call_ensures(
                        f,
                        (p, spec_apply_mode(bank, spec_port_id(P), N, TMODE::mode_spec())),
                        mid,
                    )
                    &&& out.0 == spec_apply_mode(mid.0, spec_port_id(P), N, MODE::mode_spec())
                    &&& out.1 == mid.1
                },
    {
        let id = self.port();
        let mut b = bank;
        apply_mode(&mut b, id, N, TMODE::dynamic_mode());
        let temp_pin: Pin<P, N, TMODE> = Pin { _mode: PhantomData };
        let (mid, ret) = f(temp_pin, b);
        let mut b_after = mid;
        apply_mode(&mut b_after, id, N, MODE::dynamic_mode());
        (b_after, ret)
    }

    /// Convert this pin into an erased pin, which carries the port and pin
    /// identity as runtime data instead of type states.
    pub fn into_erased_pin(self) -> (e: ErasedPin<MODE>)
        requires
            Self::valid(),
        ensures
            e.port_spec() == spec_port_id(P),
            e.pin_spec() == N,
    {
        let id = self.port();
        ErasedPin::new(id, N)
    }

    /// Convert this pin into a dynamic pin, which carries port, pin and mode
    /// as runtime data.
    pub fn into_dynamic_pin(self) -> (d: DynamicPin)
        requires
            Self::valid(),
        ensures
            d.port_spec() == spec_port_id(P),
            d.pin_spec() == N,
            d.mode_spec() == MODE::mode_spec(),
    {
        let id = self.port();
        DynamicPin::new(id, N, MODE::dynamic_mode())
    }
}

impl<const P: u8, const N: u8, MODE: InputMode> Pin<P, N, MODE> {
    /// Whether the pin level reads high. Fails while the peripheral clock is
    /// off, and fails with [`GpioError::DataInDisabled`] while the port's
    /// primary readback flag is set, rather than returning a stale level.
    pub fn is_high(&self, bank: &RegisterBank) -> (r: Result<bool, GpioError>)
        requires
            Self::valid(),
        ensures
            r == spec_read_din(*bank, spec_port_id(P), N),
    {
        if !bank.clock_enabled() {
            Err(GpioError::GpioDisabled)
        } else if bank.port(self.port()).din_dis {
            Err(GpioError::DataInDisabled)
        } else {
            Ok(bank.port(self.port()).din_bit(N))
        }
    }

    /// Whether the pin level reads low; the exact complement of
    /// [`Pin::is_high`], under the same gating.
    pub fn is_low(&self, bank: &RegisterBank) -> (r: Result<bool, GpioError>)
        requires
            Self::valid(),
        ensures
            r == (match spec_read_din(*bank, spec_port_id(P), N) {
                Ok(level) => Ok::<bool, GpioError>(!level),
                Err(e) => Err(e),
            }),
    {
        match self.is_high(bank) {
            Ok(level) => Ok(!level),
            Err(e) => Err(e),
        }
    }
}

impl<const P: u8, const N: u8, MODE: OutputMode> Pin<P, N, MODE> {
    /// Drive the pin low: clear its data-out bit. Infallible once the
    /// peripheral clock is enabled.
    pub fn set_low(&mut self, bank: &mut RegisterBank) -> (r: Result<(), GpioError>)
        requires
            Self::valid(),
        ensures
            *final(bank) == old(bank).with_port(
                spec_port_id(P),
                old(bank).port_spec(spec_port_id(P)).with_dout(N, false),
            ),
            r == Ok::<(), GpioError>(()),
    {
        let id = self.port();
        let mut r = *bank.port(id);
        r.set_dout_bit(N, false);
        bank.set_port(id, r);
        Ok(())
    }

    /// Drive the pin high: set its data-out bit. Infallible once the
    /// peripheral clock is enabled.
    pub fn set_high(&mut self, bank: &mut RegisterBank) -> (r: Result<(), GpioError>)
        requires
            Self::valid(),
        ensures
            *final(bank) == old(bank).with_port(
                spec_port_id(P),
                old(bank).port_spec(spec_port_id(P)).with_dout(N, true),
            ),
            r == Ok::<(), GpioError>(()),
    {
        let id = self.port();
        let mut r = *bank.port(id);
        r.set_dout_bit(N, true);
        bank.set_port(id, r);
        Ok(())
    }
}

impl<const P: u8, const N: u8, SMODE> Pin<P, N, Out<SMODE>> where Out<SMODE>: OutputMode {
    /// Whether the last commanded output state is high. Fails while the
    /// peripheral clock is off, and fails with
    /// [`GpioError::DataInDisabled`] while the port's primary readback flag
    /// is set.
    pub fn is_set_high(&self, bank: &RegisterBank) -> (r: Result<bool, GpioError>)
        requires
            Self::valid(),
        ensures
            r == spec_read_dout_back(*bank, spec_port_id(P), N, false),
    {
        if !bank.clock_enabled() {
            Err(GpioError::GpioDisabled)
        } else if bank.port(self.port()).din_dis {
            Err(GpioError::DataInDisabled)
        } else {
            Ok(bank.port(self.port()).dout_bit(N))
        }
    }

    /// Whether the last commanded output state is low; the exact complement
    /// of [`Pin::is_set_high`], under the same gating.
    pub fn is_set_low(&self, bank: &RegisterBank) -> (r: Result<bool, GpioError>)
        requires
            Self::valid(),
        ensures
            r == (match spec_read_dout_back(*bank, spec_port_id(P), N, false) {
                Ok(level) => Ok::<bool, GpioError>(!level),
                Err(e) => Err(e),
            }),
    {
        match self.is_set_high(bank) {
            Ok(level) => Ok(!level),
            Err(e) => Err(e),
        }
    }
}

impl<const P: u8, const N: u8, SMODE> Pin<P, N, OutAlt<SMODE>> where OutAlt<SMODE>: OutputMode {
    /// Whether the last commanded output state is high. Fails while the
    /// peripheral clock is off, and fails with
    /// [`GpioError::DataInDisabled`] while the port's alternate readback
    /// flag is set.
    pub fn is_set_high(&self, bank: &RegisterBank) -> (r: Result<bool, GpioError>)
        requires
            Self::valid(),
        ensures
            r == spec_read_dout_back(*bank, spec_port_id(P), N, true),
    {
        if !bank.clock_enabled() {
            Err(GpioError::GpioDisabled)
        } else if bank.port(self.port()).din_dis_alt {
            Err(GpioError::DataInDisabled)
        } else {
            Ok(bank.port(self.port()).dout_bit(N))
        }
    }

    /// Whether the last commanded output state is low; the exact complement
    /// of [`Pin::is_set_high`], under the same gating.
    pub fn is_set_low(&self, bank: &RegisterBank) -> (r: Result<bool, GpioError>)
        requires
            Self::valid(),
        ensures
            r == (match spec_read_dout_back(*bank, spec_port_id(P), N, true) {
                Ok(level) => Ok::<bool, GpioError>(!level),
                Err(e) => Err(e),
            }),
    {
        match self.is_set_high(bank) {
            Ok(level) => Ok(!level),
            Err(e) => Err(e),
        }
    }
}

} // verus!
