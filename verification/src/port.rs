//! Port identifiers and port-wide configuration.
//!
//! A port is one 16-pin bank of the GPIO peripheral, identified by a letter.
//! [`Port`] exposes the port-wide control fields: drive strength and slew
//! rate for the primary and alternate output paths, and the two data-in
//! disable flags that gate input readback.

use vstd::prelude::*;

use crate::gpio::GpioError;
use crate::regs::{port_regs_reset, PortRegs, RegisterBank};

verus! {

/// Type safe representation of a port identifier.
///
/// The hardware defines a closed set of five ports; each identifies one
/// physical 16-pin port and its register block.
#[derive(Clone, Copy, Debug, PartialEq, Eq, Structural)]
pub enum PortId {
    A,
    B,
    C,
    D,
    F,
}

/// The index a port identifier packs to, `0` for `A` through `4` for `F`.
pub open spec fn port_index_spec(id: PortId) -> u8 {
    match id {
        PortId::A => 0,
        PortId::B => 1,
        PortId::C => 2,
        PortId::D => 3,
        PortId::F => 4,
    }
}

/// The port identifier a raw index below five unpacks to.
pub open spec fn spec_port_id(p: u8) -> PortId {
    if p == 0 {
        PortId::A
    } else if p == 1 {
        PortId::B
    } else if p == 2 {
        PortId::C
    } else if p == 3 {
        PortId::D
    } else {
        PortId::F
    }
}

/// How a raw index converts to a port identifier: indices above four are
/// rejected.
pub open spec fn spec_port_id_from_index(v: u8) -> Result<PortId, GpioError> {
    if v < 5 {
        Ok(spec_port_id(v))
    } else {
        Err(GpioError::InvalidPortId(v))
    }
}

/// How a letter converts to a port identifier: only the five port letters
/// are accepted.
pub open spec fn spec_port_id_from_label(c: char) -> Result<PortId, GpioError> {
    if c == 'A' {
        Ok(PortId::A)
    } else if c == 'B' {
        Ok(PortId::B)
    } else if c == 'C' {
        Ok(PortId::C)
    } else if c == 'D' {
        Ok(PortId::D)
    } else if c == 'F' {
        Ok(PortId::F)
    } else {
        Err(GpioError::InvalidPortIdLabel(c))
    }
}

impl PortId {
    /// Index of this port within the register block, `0` for `A` through
    /// `4` for `F`.
    pub fn index(self) -> (v: u8)
        ensures
            v == port_index_spec(self),
            v < 5,
    {
        match self {
            PortId::A => 0,
            PortId::B => 1,
            PortId::C => 2,
            PortId::D => 3,
            PortId::F => 4,
        }
    }

    /// The port identifier of a register-block index known to be in range.
    pub fn of_index(idx: u8) -> (id: PortId)
        requires
            idx < 5,
        ensures
            id == spec_port_id(idx),
    {
        if idx == 0 {
            PortId::A
        } else if idx == 1 {
            PortId::B
        } else if idx == 2 {
            PortId::C
        } else if idx == 3 {
            PortId::D
        } else {
            PortId::F
        }
    }

    /// Convert a raw index to a port identifier; indices above four are
    /// rejected with [`GpioError::InvalidPortId`].
    pub fn from_index(v: u8) -> (r: Result<PortId, GpioError>)
        ensures
            r == spec_port_id_from_index(v),
    {
        match v {
            0 => Ok(PortId::A),
            1 => Ok(PortId::B),
            2 => Ok(PortId::C),
            3 => Ok(PortId::D),
            4 => Ok(PortId::F),
            _ => Err(GpioError::InvalidPortId(v)),
        }
    }

    /// Convert a port letter to a port identifier; letters outside the five
    /// ports are rejected with [`GpioError::InvalidPortIdLabel`].
    pub fn from_label(c: char) -> (r: Result<PortId, GpioError>)
        ensures
            r == spec_port_id_from_label(c),
    {
        match c {
            'A' => Ok(PortId::A),
            'B' => Ok(PortId::B),
            'C' => Ok(PortId::C),
            'D' => Ok(PortId::D),
            'F' => Ok(PortId::F),
            _ => Err(GpioError::InvalidPortIdLabel(c)),
        }
    }

    /// The letter naming this port.
    pub fn label(self) -> (c: char)
        ensures
            spec_port_id_from_label(c) == Ok::<PortId, GpioError>(self),
    {
        match self {
            PortId::A => 'A',
            PortId::B => 'B',
            PortId::C => 'C',
            PortId::D => 'D',
            PortId::F => 'F',
        }
    }
}

/// Data-in control variants for the `DINDIS` (and `ALT`) fields of the port
/// control register.
#[derive(Clone, Copy, Debug, PartialEq, Eq, Structural)]
pub enum DataInCtrl {
    /// Input readback is not disabled.
    Enabled,
    /// Input readback is disabled.
    Disabled,
}

impl DataInCtrl {
    /// The value of the register flag realizing this setting: the hardware
    /// raises the flag to disable readback.
    pub fn flag(self) -> (b: bool)
        ensures
            b == (self is Disabled),
    {
        match self {
            DataInCtrl::Enabled => false,
            DataInCtrl::Disabled => true,
        }
    }
}

/// Drive current variants for the `DRIVESTRENGTH` (and `ALT`) fields of the
/// port control register.
#[derive(Clone, Copy, Debug, PartialEq, Eq, Structural)]
pub enum DriveStrength {
    /// 10 mA drive current.
    Strong,
    /// 1 mA drive current.
    Weak,
}

/// Slew rate limit for port pins. Higher values represent faster slew rates.
#[derive(Clone, Copy, Debug, PartialEq, Eq, Structural)]
pub enum DriveSlewRate {
    SlewRate0,
    SlewRate1,
    SlewRate2,
    SlewRate3,
    SlewRate4,
    SlewRate5,
    SlewRate6,
    SlewRate7,
}

/// The raw three-bit value a slew rate setting writes to the register.
pub open spec fn slew_raw_spec(s: DriveSlewRate) -> u8 {
    match s {
        DriveSlewRate::SlewRate0 => 0,
        DriveSlewRate::SlewRate1 => 1,
        DriveSlewRate::SlewRate2 => 2,
        DriveSlewRate::SlewRate3 => 3,
        DriveSlewRate::SlewRate4 => 4,
        DriveSlewRate::SlewRate5 => 5,
        DriveSlewRate::SlewRate6 => 6,
        DriveSlewRate::SlewRate7 => 7,
    }
}

/// How a raw value converts to a slew rate setting: the three-bit range
/// `0..=7` is accepted, anything above is rejected.
pub open spec fn spec_slew_from_raw(v: u8) -> Result<DriveSlewRate, GpioError> {
    if v == 0 {
        Ok(DriveSlewRate::SlewRate0)
    } else if v == 1 {
        Ok(DriveSlewRate::SlewRate1)
    } else if v == 2 {
        Ok(DriveSlewRate::SlewRate2)
    } else if v == 3 {
        Ok(DriveSlewRate::SlewRate3)
    } else if v == 4 {
        Ok(DriveSlewRate::SlewRate4)
    } else if v == 5 {
        Ok(DriveSlewRate::SlewRate5)
    } else if v == 6 {
        Ok(DriveSlewRate::SlewRate6)
    } else if v == 7 {
        Ok(DriveSlewRate::SlewRate7)
    } else {
        Err(GpioError::InvalidSlewRate(v))
    }
}

impl DriveSlewRate {
    /// The raw three-bit register value of this setting.
    pub fn raw(self) -> (v: u8)
        ensures
            v == slew_raw_spec(self),
            v < 8,
    {
        match self {
            DriveSlewRate::SlewRate0 => 0,
            DriveSlewRate::SlewRate1 => 1,
            DriveSlewRate::SlewRate2 => 2,
            DriveSlewRate::SlewRate3 => 3,
            DriveSlewRate::SlewRate4 => 4,
            DriveSlewRate::SlewRate5 => 5,
            DriveSlewRate::SlewRate6 => 6,
            DriveSlewRate::SlewRate7 => 7,
        }
    }

    /// Convert a raw value to a slew rate setting; values above seven are
    /// rejected with [`GpioError::InvalidSlewRate`].
    pub fn from_raw(v: u8) -> (r: Result<DriveSlewRate, GpioError>)
        ensures
            r == spec_slew_from_raw(v),
    {
        match v {
            0 => Ok(DriveSlewRate::SlewRate0),
            1 => Ok(DriveSlewRate::SlewRate1),
            2 => Ok(DriveSlewRate::SlewRate2),
            3 => Ok(DriveSlewRate::SlewRate3),
            4 => Ok(DriveSlewRate::SlewRate4),
            5 => Ok(DriveSlewRate::SlewRate5),
            6 => Ok(DriveSlewRate::SlewRate6),
            7 => Ok(DriveSlewRate::SlewRate7),
            x => Err(GpioError::InvalidSlewRate(x)),
        }
    }
}

/// Generic port configuration object.
///
/// - `P` is the port index, `0` for port `A` through `4` for port `F`.
///
/// A `Port` holds no state of its own beyond its identity; all state lives
/// in the register image it is handed.
#[derive(Debug)]
pub struct Port<const P: u8> {}

impl<const P: u8> Port<P> {
    /// Whether the type parameter names a port that exists.
    pub open spec fn valid() -> bool {
        P < 5
    }

    pub(crate) fn new() -> Self {
        Self {  }
    }

    /// Reset this port's registers to their reset state.
    pub(crate) fn reset(&mut self, bank: &mut RegisterBank)
        requires
            Self::valid(),
        ensures
            *final(bank) == old(bank).with_port(spec_port_id(P), port_regs_reset()),
    {
        let id = self.id();
        bank.set_port(id, PortRegs::new());
    }

    /// The identifier of this port.
    pub fn id(&self) -> (id: PortId)
        requires
            Self::valid(),
        ensures
            id == spec_port_id(P),
    {
        PortId::of_index(P)
    }

    /// The drive strength setting of this port's primary output path.
    pub fn drive_strength(&self, bank: &RegisterBank) -> (d: DriveStrength)
        requires
            Self::valid(),
        ensures
            d == bank.port_spec(spec_port_id(P)).drive_strength,
    {
        bank.port(self.id()).drive_strength
    }

    /// The drive strength setting of this port's alternate output path.
    pub fn drive_strength_alt(&self, bank: &RegisterBank) -> (d: DriveStrength)
        requires
            Self::valid(),
        ensures
            d == bank.port_spec(spec_port_id(P)).drive_strength_alt,
    {
        bank.port(self.id()).drive_strength_alt
    }

    /// Set the drive strength of this port's primary output path; nothing
    /// else changes.
    pub fn set_drive_strength(&mut self, bank: &mut RegisterBank, drive_strength: DriveStrength)
        requires
            Self::valid(),
        ensures
            *final(bank) == old(bank).with_port(
                spec_port_id(P),
                (PortRegs { drive_strength, ..old(bank).port_spec(spec_port_id(P)) }),
            ),
    {
        let id = self.id();
        let mut r = *bank.port(id);
        r.drive_strength = drive_strength;
        bank.set_port(id, r);
    }

    /// Set the drive strength of this port's alternate output path; nothing
    /// else changes.
    pub fn set_drive_strength_alt(
        &mut self,
        bank: &mut RegisterBank,
        drive_strength: DriveStrength,
    )
        requires
            Self::valid(),
        ensures
            *final(bank) == old(bank).with_port(
                spec_port_id(P),
                (PortRegs {
                    drive_strength_alt: drive_strength,
                    ..old(bank).port_spec(spec_port_id(P))
                }),
            ),
    {
        let id = self.id();
        let mut r = *bank.port(id);
        r.drive_strength_alt = drive_strength;
        bank.set_port(id, r);
    }

    /// The slew rate setting of this port's primary output path. Higher
    /// values represent faster slew rates.
    pub fn slew_rate(&self, bank: &RegisterBank) -> (s: DriveSlewRate)
        requires
            Self::valid(),
        ensures
            s == bank.port_spec(spec_port_id(P)).slew_rate,
    {
        bank.port(self.id()).slew_rate
    }

    /// The slew rate setting of this port's alternate output path. Higher
    /// values represent faster slew rates.
    pub fn slew_rate_alt(&self, bank: &RegisterBank) -> (s: DriveSlewRate)
        requires
            Self::valid(),
        ensures
            s == bank.port_spec(spec_port_id(P)).slew_rate_alt,
    {
        bank.port(self.id()).slew_rate_alt
    }

    /// Set the slew rate of this port's primary output path; nothing else
    /// changes.
    pub fn set_slew_rate(&mut self, bank: &mut RegisterBank, slew_rate: DriveSlewRate)
        requires
            Self::valid(),
        ensures
            *final(bank) == old(bank).with_port(
                spec_port_id(P),
                (PortRegs { slew_rate, ..old(bank).port_spec(spec_port_id(P)) }),
            ),
    {
        let id = self.id();
        let mut r = *bank.port(id);
        r.slew_rate = slew_rate;
        bank.set_port(id, r);
    }

    /// Set the slew rate of this port's alternate output path; nothing else
    /// changes.
    pub fn set_slew_rate_alt(&mut self, bank: &mut RegisterBank, slew_rate: DriveSlewRate)
        requires
            Self::valid(),
        ensures
            *final(bank) == old(bank).with_port(
                spec_port_id(P),
                (PortRegs { slew_rate_alt: slew_rate, ..old(bank).port_spec(spec_port_id(P)) }),
            ),
    {
        let id = self.id();
        let mut r = *bank.port(id);
        r.slew_rate_alt = slew_rate;
        bank.set_port(id, r);
    }

    /// Whether input readback is disabled for this port's primary function
    /// group.
    pub fn din_dis(&self, bank: &RegisterBank) -> (b: bool)
        requires
            Self::valid(),
        ensures
            b == bank.port_spec(spec_port_id(P)).din_dis,
    {
        bank.port(self.id()).din_dis
    }

    /// Whether input readback is disabled for this port's alternate function
    /// group.
    pub fn din_dis_alt(&self, bank: &RegisterBank) -> (b: bool)
        requires
            Self::valid(),
        ensures
            b == bank.port_spec(spec_port_id(P)).din_dis_alt,
    {
        bank.port(self.id()).din_dis_alt
    }

    /// Set the data-in disable flag of this port's alternate function group;
    /// nothing else changes.
    pub fn set_din_dis_alt(&mut self, bank: &mut RegisterBank, din_dis: DataInCtrl)
        requires
            Self::valid(),
        ensures
            *final(bank) == old(bank).with_port(
                spec_port_id(P),
                (PortRegs {
                    din_dis_alt: din_dis is Disabled,
                    ..old(bank).port_spec(spec_port_id(P))
                }),
            ),
    {
        let id = self.id();
        let mut r = *bank.port(id);
        r.din_dis_alt = din_dis.flag();
        bank.set_port(id, r);
    }
}

/// The register image with one port's primary data-in disable flag
/// replaced; nothing else changes.
pub open spec fn spec_with_din_dis(b: RegisterBank, id: PortId, flag: bool) -> RegisterBank {
    b.with_port(id, PortRegs { din_dis: flag, ..b.port_spec(id) })
}

/// Primary data-in disable for the ports that hold no debug pins.
///
/// Only implemented for ports `A`, `B`, `C` and `D`; port `F` goes through
/// the guarded [`PortFDataInDisable`].
pub trait PortDataInDisable {
    /// The port this implementation controls.
    spec fn din_port() -> PortId;

    /// Set the data-in disable flag of this port's primary function group;
    /// nothing else changes.
    fn set_din_dis(&mut self, bank: &mut RegisterBank, din_dis: DataInCtrl)
        ensures
            *final(bank) == spec_with_din_dis(*old(bank), Self::din_port(), din_dis is Disabled),
    ;
}

/// What setting port `F`'s primary data-in disable flag does: enabling
/// readback always succeeds; disabling it is refused with
/// [`GpioError::DebugPinsEnabled`], the register untouched, while any debug
/// function is still routed to its pin, since the debug probe depends on
/// that port's readback.
pub open spec fn spec_guarded_set_din_dis(b: RegisterBank, din_dis: DataInCtrl) -> (
    RegisterBank,
    Result<(), GpioError>,
) {
    match din_dis {
        DataInCtrl::Enabled => (spec_with_din_dis(b, PortId::F, false), Ok(())),
        DataInCtrl::Disabled => if b.debug_routes_spec() {
            (b, Err(GpioError::DebugPinsEnabled))
        } else {
            (spec_with_din_dis(b, PortId::F, true), Ok(()))
        },
    }
}

/// Primary data-in disable for the port that holds the debug pins.
///
/// Only implemented for port `F`.
pub trait PortFDataInDisable {
    /// Set the data-in disable flag of port `F`'s primary function group.
    /// Disabling readback fails with [`GpioError::DebugPinsEnabled`], the
    /// register untouched, while any debug function is still routed to its
    /// pin.
    fn set_din_dis(&mut self, bank: &mut RegisterBank, din_dis: DataInCtrl) -> (r: Result<
        (),
        GpioError,
    >)
        ensures
            (*final(bank), r) == spec_guarded_set_din_dis(*old(bank), din_dis),
    ;
}

impl PortDataInDisable for Port<0> {
    open spec fn din_port() -> PortId {
        PortId::A
    }

    fn set_din_dis(&mut self, bank: &mut RegisterBank, din_dis: DataInCtrl) {
        let id = self.id();
        let mut r = *bank.port(id);
        r.din_dis = din_dis.flag();
        bank.set_port(id, r);
    }
}

impl PortDataInDisable for Port<1> {
    open spec fn din_port() -> PortId {
        PortId::B
    }

    fn set_din_dis(&mut self, bank: &mut RegisterBank, din_dis: DataInCtrl) {
        let id = self.id();
        let mut r = *bank.port(id);
        r.din_dis = din_dis.flag();
        bank.set_port(id, r);
    }
}

impl PortDataInDisable for Port<2> {
    open spec fn din_port() -> PortId {
        PortId::C
    }

    fn set_din_dis(&mut self, bank: &mut RegisterBank, din_dis: DataInCtrl) {
        let id = self.id();
        let mut r = *bank.port(id);
        r.din_dis = din_dis.flag();
        bank.set_port(id, r);
    }
}

impl PortDataInDisable for Port<3> {
    open spec fn din_port() -> PortId {
        PortId::D
    }

    fn set_din_dis(&mut self, bank: &mut RegisterBank, din_dis: DataInCtrl) {
        let id = self.id();
        let mut r = *bank.port(id);
        r.din_dis = din_dis.flag();
        bank.set_port(id, r);
    }
}

impl PortFDataInDisable for Port<4> {
    fn set_din_dis(&mut self, bank: &mut RegisterBank, din_dis: DataInCtrl) -> Result<
        (),
        GpioError,
    > {
        match din_dis {
            DataInCtrl::Enabled => {
                let id = self.id();
                let mut r = *bank.port(id);
                r.din_dis = false;
                bank.set_port(id, r);
                Ok(())
            },
            DataInCtrl::Disabled => {
                if bank.debug_routes() {
                    // Disabling readback would blind the attached debug
                    // probe, whose pins live on this port.
                    Err(GpioError::DebugPinsEnabled)
                } else {
                    let id = self.id();
                    let mut r = *bank.port(id);
                    r.din_dis = true;
                    bank.set_port(id, r);
                    Ok(())
                }
            },
        }
    }
}

/// Raw slew rate values convert exactly when they fit in the three-bit
/// field: every value below eight converts to the setting that reads back
/// as that value, and every value from eight up fails with
/// [`GpioError::InvalidSlewRate`] carrying the offending value.
pub proof fn lemma_slew_rate_conversion()
    ensures
        forall|v: u8|
            v < 8 ==> (#[trigger] spec_slew_from_raw(v) matches Ok(s) && slew_raw_spec(s) == v),
        forall|v: u8| v >= 8 ==> #[trigger] spec_slew_from_raw(v) == Err::<
            DriveSlewRate,
            GpioError,
        >(GpioError::InvalidSlewRate(v)),
{
}

} // verus!
