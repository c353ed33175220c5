//! The debug pins and their protection.
//!
//! Pins `F0` to `F3` carry the external debugger's clock, data and test
//! lines. After reset they are routed to that debug function, and they must
//! not be silently repurposed as GPIO while the routing is active: the only
//! way to ordinary pin handles for them is [`DebugPinsEnabled::into_gpio_pins`],
//! which first clears the routing enables and fails if they refuse to clear
//! (an attached debugger re-asserts them).

use vstd::prelude::*;

use crate::gpio::GpioError;
use crate::mode::{apply_mode, spec_apply_mode, DynamicMode};
use crate::pin::{Disabled, Pin};
use crate::port::PortId;
use crate::regs::RegisterBank;

verus! {

/// Debug pin mode (type state): the pin is routed to its debug function.
#[derive(Clone, Copy, Debug)]
pub struct DbgPin;

/// Whether any debug function is still routed to its pin.
pub fn debug_pins_enabled(bank: &RegisterBank) -> (b: bool)
    ensures
        b == bank.debug_routes_spec(),
{
    bank.debug_routes()
}

/// The register image after re-asserting the debug routing: the routing
/// register takes its reset value (the four pin enables set, the viewer
/// output clear), and port `F`'s primary readback is re-enabled so the
/// debug probe can read its lines. Re-entering debug mode is never blocked.
pub open spec fn spec_reassert_debug_routes(b: RegisterBank) -> RegisterBank {
    RegisterBank {
        swclktck_pen: true,
        swdiotms_pen: true,
        tdo_pen: true,
        tdi_pen: true,
        swv_pen: false,
        ..crate::port::spec_with_din_dis(b, PortId::F, false)
    }
}

/// The register image after an attempt to clear the debug routing enables:
/// while a debugger is attached the write has no effect; otherwise all five
/// enables clear.
pub open spec fn spec_clear_debug_routes(b: RegisterBank) -> RegisterBank {
    if b.debugger_attached {
        b
    } else {
        RegisterBank {
            swclktck_pen: false,
            swdiotms_pen: false,
            tdo_pen: false,
            tdi_pen: false,
            swv_pen: false,
            ..b
        }
    }
}

/// The register image after the four debug pins enter the disabled GPIO
/// mode.
pub open spec fn spec_debug_pins_disabled(b: RegisterBank) -> RegisterBank {
    spec_apply_mode(
        spec_apply_mode(
            spec_apply_mode(
                spec_apply_mode(b, PortId::F, 0, DynamicMode::Disabled),
                PortId::F,
                1,
                DynamicMode::Disabled,
            ),
            PortId::F,
            2,
            DynamicMode::Disabled,
        ),
        PortId::F,
        3,
        DynamicMode::Disabled,
    )
}

/// The four debug (SWD/JTAG) pins while they are routed to their debug
/// function. This is their state after reset.
pub struct DebugPinsEnabled {
    _clk: Pin<4, 0, DbgPin>,
    _io: Pin<4, 1, DbgPin>,
    _tdi: Pin<4, 2, DbgPin>,
    _tdo: Pin<4, 3, DbgPin>,
}

/// The four pins of the debug interface as ordinary GPIO pins, in disabled
/// mode.
pub struct DebugPinsDisabled {
    /// Serial-wire / JTAG clock pin.
    pub pf0: Pin<4, 0, Disabled>,
    /// Serial-wire / JTAG data pin.
    pub pf1: Pin<4, 1, Disabled>,
    /// JTAG test data in pin.
    pub pf2: Pin<4, 2, Disabled>,
    /// JTAG test data out pin.
    pub pf3: Pin<4, 3, Disabled>,
}

impl DebugPinsEnabled {
    pub(crate) fn new() -> Self {
        Self { _clk: Pin::new(), _io: Pin::new(), _tdi: Pin::new(), _tdo: Pin::new() }
    }

    /// Route the debug functions back to their pins, consuming the four
    /// disabled-mode handles. Clears port `F`'s primary data-in disable so
    /// the debug probe can read its lines, and writes the routing register's
    /// reset value. Re-entering debug mode is never blocked.
    pub fn from_pins(
        bank: &mut RegisterBank,
        clk: Pin<4, 0, Disabled>,
        io: Pin<4, 1, Disabled>,
        tdi: Pin<4, 2, Disabled>,
        tdo: Pin<4, 3, Disabled>,
    ) -> (d: Self)
        ensures
            *final(bank) == spec_reassert_debug_routes(*old(bank)),
    {
        let id = PortId::F;
        let mut r = *bank.port(id);
        r.din_dis = false;
        bank.set_port(id, r);
        bank.swclktck_pen = true;
        bank.swdiotms_pen = true;
        bank.tdo_pen = true;
        bank.tdi_pen = true;
        bank.swv_pen = false;
        Self::new()
    }

    /// Try to convert the debug pins into ordinary GPIO pins: clear the
    /// routing enables and hand out the four pins in disabled mode. Fails
    /// with [`GpioError::DebugPinsEnabled`] if the routing enables refuse to
    /// clear, as they do while an external debugger is attached and
    /// re-asserting them; the pins are then lost to debug use.
    pub fn into_gpio_pins(self, bank: &mut RegisterBank) -> (r: Result<
        DebugPinsDisabled,
        GpioError,
    >)
        ensures
            r is Ok <==> !spec_clear_debug_routes(*old(bank)).debug_routes_spec(),
            r is Ok ==> *final(bank) == spec_debug_pins_disabled(
                spec_clear_debug_routes(*old(bank)),
            ),
            r is Err ==> *final(bank) == spec_clear_debug_routes(*old(bank)) && r == Err::<
                DebugPinsDisabled,
                GpioError,
            >(GpioError::DebugPinsEnabled),
    {
        // Try to clear the routing enables; an attached debugger holds them.
        if !bank.debugger_attached {
            bank.swclktck_pen = false;
            bank.swdiotms_pen = false;
            bank.tdo_pen = false;
            bank.tdi_pen = false;
            bank.swv_pen = false;
        }
        // If the write had no effect, the pins stay with the debugger.
        if bank.debug_routes() {
            Err(GpioError::DebugPinsEnabled)
        } else {
            apply_mode(bank, PortId::F, 0, DynamicMode::Disabled);
            apply_mode(bank, PortId::F, 1, DynamicMode::Disabled);
            apply_mode(bank, PortId::F, 2, DynamicMode::Disabled);
            apply_mode(bank, PortId::F, 3, DynamicMode::Disabled);
            Ok(
                DebugPinsDisabled {
                    pf0: Pin::new(),
                    pf1: Pin::new(),
                    pf2: Pin::new(),
                    pf3: Pin::new(),
                },
            )
        }
    }
}

} // verus!
