//! Software image of the GPIO register block.
//!
//! [`RegisterBank`] mirrors, bit for bit, the registers the driver touches:
//! per port the two mode-select registers (`MODEL`/`MODEH`, four bits per
//! pin), the data-out, data-in and over-voltage-tolerance-disable registers
//! (one bit per pin), and the port control fields; plus the debug routing
//! enables and the peripheral clock gate. Every driver operation is
//! specified against this image; a thin transport outside the crate copies
//! it to and from the memory-mapped block.

use vstd::prelude::*;

use crate::port::{DriveSlewRate, DriveStrength, PortId};

verus! {

/// The four-bit mode-select field of pin `i` within a packed half-register.
pub open spec fn mode_nibble(reg: u32, i: u32) -> u32
    recommends
        i < 8,
{
    (reg >> ((4 * i) as u32)) & 0xF
}

/// A packed half-register with the mode-select field of pin `i` replaced by
/// `code`.
pub open spec fn with_mode_nibble(reg: u32, i: u32, code: u32) -> u32
    recommends
        i < 8,
        code < 16,
{
    (reg & !(0xFu32 << ((4 * i) as u32))) | (code << ((4 * i) as u32))
}

/// Bit `i` of a per-pin register.
pub open spec fn bit16(x: u16, i: u16) -> bool
    recommends
        i < 16,
{
    (x >> i) & 1 == 1
}

/// A per-pin register with bit `i` replaced by `b`.
pub open spec fn with_bit16(x: u16, i: u16, b: bool) -> u16
    recommends
        i < 16,
{
    if b {
        x | (1u16 << i)
    } else {
        x & !(1u16 << i)
    }
}

/// Writing a mode-select field changes exactly that field, to exactly the
/// written code; every field reads back below sixteen.
pub proof fn lemma_mode_nibble(reg: u32, i: u32, j: u32, code: u32)
    by (bit_vector)
    requires
        i < 8,
        j < 8,
        code < 16,
    ensures
        mode_nibble(with_mode_nibble(reg, i, code), i) == code,
        i != j ==> mode_nibble(with_mode_nibble(reg, i, code), j) == mode_nibble(reg, j),
        mode_nibble(reg, i) < 16,
{
}

/// Writing the same mode-select field twice leaves the register as one
/// write does.
pub proof fn lemma_mode_nibble_idempotent(reg: u32, i: u32, code: u32)
    by (bit_vector)
    requires
        i < 8,
        code < 16,
    ensures
        with_mode_nibble(with_mode_nibble(reg, i, code), i, code) == with_mode_nibble(
            reg,
            i,
            code,
        ),
{
}

/// Writing one bit of a per-pin register changes exactly that bit, to
/// exactly the written value.
pub proof fn lemma_bit16(x: u16, i: u16, j: u16, b: bool)
    by (bit_vector)
    requires
        i < 16,
        j < 16,
    ensures
        bit16(with_bit16(x, i, b), i) == b,
        i != j ==> bit16(with_bit16(x, i, b), j) == bit16(x, j),
{
}

/// Writing the same bit twice leaves the register as one write does.
pub proof fn lemma_bit16_idempotent(x: u16, i: u16, b: bool)
    by (bit_vector)
    ensures
        with_bit16(with_bit16(x, i, b), i, b) == with_bit16(x, i, b),
{
}

/// Image of one port's register block.
#[derive(Clone, Copy, Debug, PartialEq, Eq, Structural)]
pub struct PortRegs {
    /// `MODEL`: mode-select fields for pins 0 to 7, four bits per pin.
    pub model: u32,
    /// `MODEH`: mode-select fields for pins 8 to 15, four bits per pin.
    pub modeh: u32,
    /// `DOUT`: data-out or pull-select bit per pin, depending on the mode.
    pub dout: u16,
    /// `DIN`: sampled data-in bit per pin; read-only to the driver.
    pub din: u16,
    /// `OVTDIS`: over-voltage-tolerance disable bit per pin; a clear bit
    /// means tolerance is enabled.
    pub ovtdis: u16,
    /// `CTRL.DRIVESTRENGTH`: drive strength of the primary output path.
    pub drive_strength: DriveStrength,
    /// `CTRL.DRIVESTRENGTHALT`: drive strength of the alternate output path.
    pub drive_strength_alt: DriveStrength,
    /// `CTRL.SLEWRATE`: slew rate of the primary output path.
    pub slew_rate: DriveSlewRate,
    /// `CTRL.SLEWRATEALT`: slew rate of the alternate output path.
    pub slew_rate_alt: DriveSlewRate,
    /// `CTRL.DINDIS`: set when input readback is disabled for the primary
    /// function group.
    pub din_dis: bool,
    /// `CTRL.DINDISALT`: set when input readback is disabled for the
    /// alternate function group.
    pub din_dis_alt: bool,
}

/// The reset state of one port's registers.
pub open spec fn port_regs_reset() -> PortRegs {
    PortRegs {
        model: 0,
        modeh: 0,
        dout: 0,
        din: 0,
        ovtdis: 0,
        drive_strength: DriveStrength::Strong,
        drive_strength_alt: DriveStrength::Strong,
        slew_rate: DriveSlewRate::SlewRate5,
        slew_rate_alt: DriveSlewRate::SlewRate5,
        din_dis: false,
        din_dis_alt: false,
    }
}

impl PortRegs {
    /// The mode-select field of a pin, as the image holds it.
    pub open spec fn mode_code_spec(self, pin: u8) -> u32 {
        if pin < 8 {
            mode_nibble(self.model, pin as u32)
        } else {
            mode_nibble(self.modeh, (pin - 8) as u32)
        }
    }

    /// The image with the mode-select field of a pin replaced.
    pub open spec fn with_mode_code(self, pin: u8, code: u32) -> PortRegs {
        if pin < 8 {
            PortRegs { model: with_mode_nibble(self.model, pin as u32, code), ..self }
        } else {
            PortRegs { modeh: with_mode_nibble(self.modeh, (pin - 8) as u32, code), ..self }
        }
    }

    /// The data-out bit of a pin.
    pub open spec fn dout_spec(self, pin: u8) -> bool {
        bit16(self.dout, pin as u16)
    }

    /// The image with the data-out bit of a pin replaced.
    pub open spec fn with_dout(self, pin: u8, b: bool) -> PortRegs {
        PortRegs { dout: with_bit16(self.dout, pin as u16, b), ..self }
    }

    /// The sampled data-in bit of a pin.
    pub open spec fn din_spec(self, pin: u8) -> bool {
        bit16(self.din, pin as u16)
    }

    /// Whether over-voltage tolerance is enabled for a pin: the register
    /// holds a raised flag for each pin whose tolerance is disabled.
    pub open spec fn ovt_spec(self, pin: u8) -> bool {
        !bit16(self.ovtdis, pin as u16)
    }

    /// The image with the over-voltage tolerance of a pin replaced.
    pub open spec fn with_ovt(self, pin: u8, enabled: bool) -> PortRegs {
        PortRegs { ovtdis: with_bit16(self.ovtdis, pin as u16, !enabled), ..self }
    }

    /// Fresh image of one port in its reset state.
    pub fn new() -> (r: PortRegs)
        ensures
            r == port_regs_reset(),
    {
        PortRegs {
            model: 0,
            modeh: 0,
            dout: 0,
            din: 0,
            ovtdis: 0,
            drive_strength: DriveStrength::Strong,
            drive_strength_alt: DriveStrength::Strong,
            slew_rate: DriveSlewRate::SlewRate5,
            slew_rate_alt: DriveSlewRate::SlewRate5,
            din_dis: false,
            din_dis_alt: false,
        }
    }

    /// Read the raw mode-select field of a pin.
    pub fn mode_code(&self, pin: u8) -> (code: u8)
        requires
            pin < 16,
        ensures
            code == self.mode_code_spec(pin),
            code < 16,
    {
        let (reg, i): (u32, u32) = if pin < 8 {
            (self.model, pin as u32)
        } else {
            (self.modeh, (pin - 8) as u32)
        };
        let code = (reg >> (4 * i)) & 0xF;
        proof {
            lemma_mode_nibble(reg, i, i, 0);
        }
        code as u8
    }

    /// Write the mode-select field of a pin.
    pub fn set_mode_code(&mut self, pin: u8, code: u8)
        requires
            pin < 16,
            code < 16,
        ensures
            *final(self) == old(self).with_mode_code(pin, code as u32),
    {
        if pin < 8 {
            let i: u32 = pin as u32;
            self.model = (self.model & !(0xFu32 << (4 * i))) | ((code as u32) << (4 * i));
        } else {
            let i: u32 = (pin - 8) as u32;
            self.modeh = (self.modeh & !(0xFu32 << (4 * i))) | ((code as u32) << (4 * i));
        }
    }

    /// Read the data-out bit of a pin.
    pub fn dout_bit(&self, pin: u8) -> (b: bool)
        requires
            pin < 16,
        ensures
            b == self.dout_spec(pin),
    {
        (self.dout >> (pin as u16)) & 1 == 1
    }

    /// Write the data-out bit of a pin.
    pub fn set_dout_bit(&mut self, pin: u8, b: bool)
        requires
            pin < 16,
        ensures
            *final(self) == old(self).with_dout(pin, b),
    {
        if b {
            self.dout = self.dout | (1u16 << (pin as u16));
        } else {
            self.dout = self.dout & !(1u16 << (pin as u16));
        }
    }

    /// Read the sampled data-in bit of a pin.
    pub fn din_bit(&self, pin: u8) -> (b: bool)
        requires
            pin < 16,
        ensures
            b == self.din_spec(pin),
    {
        (self.din >> (pin as u16)) & 1 == 1
    }

    /// Whether over-voltage tolerance is enabled for a pin. Tolerance is
    /// enabled by default for all pins.
    pub fn ovt(&self, pin: u8) -> (b: bool)
        requires
            pin < 16,
        ensures
            b == self.ovt_spec(pin),
    {
        !((self.ovtdis >> (pin as u16)) & 1 == 1)
    }

    /// Set the over-voltage tolerance of a pin.
    pub fn set_ovt(&mut self, pin: u8, enabled: bool)
        requires
            pin < 16,
        ensures
            *final(self) == old(self).with_ovt(pin, enabled),
    {
        if enabled {
            self.ovtdis = self.ovtdis & !(1u16 << (pin as u16));
        } else {
            self.ovtdis = self.ovtdis | (1u16 << (pin as u16));
        }
    }
}

/// Software image of the whole GPIO register block: the five port blocks,
/// the debug routing enables, and the one clock-gate bit the driver reads.
#[derive(Clone, Copy, Debug, PartialEq, Eq, Structural)]
pub struct RegisterBank {
    /// Register block of port `A`.
    pub port_a: PortRegs,
    /// Register block of port `B`.
    pub port_b: PortRegs,
    /// Register block of port `C`.
    pub port_c: PortRegs,
    /// Register block of port `D`.
    pub port_d: PortRegs,
    /// Register block of port `F`.
    pub port_f: PortRegs,
    /// `ROUTEPEN.SWCLKTCKPEN`: serial-wire clock / JTAG test clock routed to
    /// its fixed pin.
    pub swclktck_pen: bool,
    /// `ROUTEPEN.SWDIOTMSPEN`: serial-wire data / JTAG test mode select
    /// routed to its fixed pin.
    pub swdiotms_pen: bool,
    /// `ROUTEPEN.TDOPEN`: JTAG test data out routed to its fixed pin.
    pub tdo_pen: bool,
    /// `ROUTEPEN.TDIPEN`: JTAG test data in routed to its fixed pin.
    pub tdi_pen: bool,
    /// `ROUTEPEN.SWVPEN`: serial-wire viewer output routed to its fixed pin.
    pub swv_pen: bool,
    /// The GPIO bit of the bus clock enable register: no port register
    /// access is meaningful while it is clear.
    pub clock_enabled: bool,
    /// Whether an external debugger is attached and holding the routing
    /// enables: while it is, writes to the routing enables have no effect.
    /// This models the environment, not a register.
    pub debugger_attached: bool,
}

/// The reset state of the register block: all ports reset, the debug
/// functions routed to their pins (the reset value of the routing register
/// keeps the four pin enables set and the viewer output clear), and the
/// clock gate closed.
pub open spec fn bank_reset(debugger_attached: bool) -> RegisterBank {
    RegisterBank {
        port_a: port_regs_reset(),
        port_b: port_regs_reset(),
        port_c: port_regs_reset(),
        port_d: port_regs_reset(),
        port_f: port_regs_reset(),
        swclktck_pen: true,
        swdiotms_pen: true,
        tdo_pen: true,
        tdi_pen: true,
        swv_pen: false,
        clock_enabled: false,
        debugger_attached,
    }
}

impl RegisterBank {
    /// The register block of one port.
    pub open spec fn port_spec(self, id: PortId) -> PortRegs {
        match id {
            PortId::A => self.port_a,
            PortId::B => self.port_b,
            PortId::C => self.port_c,
            PortId::D => self.port_d,
            PortId::F => self.port_f,
        }
    }

    /// The image with one port's register block replaced.
    pub open spec fn with_port(self, id: PortId, r: PortRegs) -> RegisterBank {
        match id {
            PortId::A => RegisterBank { port_a: r, ..self },
            PortId::B => RegisterBank { port_b: r, ..self },
            PortId::C => RegisterBank { port_c: r, ..self },
            PortId::D => RegisterBank { port_d: r, ..self },
            PortId::F => RegisterBank { port_f: r, ..self },
        }
    }

    /// Whether any debug function is still routed to its pin.
    pub open spec fn debug_routes_spec(self) -> bool {
        self.swclktck_pen || self.swdiotms_pen || self.tdo_pen || self.tdi_pen || self.swv_pen
    }

    /// Fresh image of the register block in its reset state, with no
    /// debugger attached.
    pub fn new() -> (b: RegisterBank)
        ensures
            b == bank_reset(false),
    {
        RegisterBank {
            port_a: PortRegs::new(),
            port_b: PortRegs::new(),
            port_c: PortRegs::new(),
            port_d: PortRegs::new(),
            port_f: PortRegs::new(),
            swclktck_pen: true,
            swdiotms_pen: true,
            tdo_pen: true,
            tdi_pen: true,
            swv_pen: false,
            clock_enabled: false,
            debugger_attached: false,
        }
    }

    /// Read one port's register block.
    pub fn port(&self, id: PortId) -> (r: &PortRegs)
        ensures
            *r == self.port_spec(id),
    {
        match id {
            PortId::A => &self.port_a,
            PortId::B => &self.port_b,
            PortId::C => &self.port_c,
            PortId::D => &self.port_d,
            PortId::F => &self.port_f,
        }
    }

    /// Replace one port's register block.
    pub fn set_port(&mut self, id: PortId, r: PortRegs)
        ensures
            *final(self) == old(self).with_port(id, r),
    {
        match id {
            PortId::A => {
                self.port_a = r;
            },
            PortId::B => {
                self.port_b = r;
            },
            PortId::C => {
                self.port_c = r;
            },
            PortId::D => {
                self.port_d = r;
            },
            PortId::F => {
                self.port_f = r;
            },
        }
    }

    /// Whether the GPIO peripheral's clock gate is open.
    pub fn clock_enabled(&self) -> (b: bool)
        ensures
            b == self.clock_enabled,
    {
        self.clock_enabled
    }

    /// Whether any debug function is still routed to its pin.
    pub fn debug_routes(&self) -> (b: bool)
        ensures
            b == self.debug_routes_spec(),
    {
        self.swclktck_pen || self.swdiotms_pen || self.tdo_pen || self.tdi_pen || self.swv_pen
    }

    /// Record the sampled data-in register of one port, as the transport
    /// that mirrors the hardware block observed it.
    pub fn set_input_levels(&mut self, id: PortId, levels: u16)
        ensures
            *final(self) == old(self).with_port(
                id,
                (PortRegs { din: levels, ..old(self).port_spec(id) }),
            ),
    {
        let mut r = *self.port(id);
        r.din = levels;
        self.set_port(id, r);
    }

    /// Record whether an external debugger is attached and re-asserting the
    /// debug routing enables.
    pub fn set_debugger_attached(&mut self, attached: bool)
        ensures
            *final(self) == (RegisterBank { debugger_attached: attached, ..*old(self) }),
    {
        self.debugger_attached = attached;
    }
}

} // verus!
