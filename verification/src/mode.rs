//! Pin modes and the mode catalog.
//!
//! Each pin mode has an immutable, hardware-defined realization: a four-bit
//! mode-select code, for some modes an initial data-out value (which doubles
//! as the pull select on inputs and disabled pins), and an over-voltage
//! tolerance setting. [`apply_mode`] writes that realization into the
//! register image; it is the single code path by which any pin
//! representation changes a pin's mode.

use vstd::prelude::*;

use crate::port::PortId;
use crate::regs::{
    lemma_bit16, lemma_bit16_idempotent, lemma_mode_nibble, lemma_mode_nibble_idempotent, PortRegs,
    RegisterBank,
};

verus! {

/// The closed set of pin modes, as runtime values.
#[derive(Clone, Copy, Debug, PartialEq, Eq, Structural)]
pub enum DynamicMode {
    /// Disabled.
    Disabled,
    /// Disabled with pull-up.
    DisabledPu,
    /// Analog pin, for use with the ADC/DAC peripherals.
    Analog,
    /// Input floating.
    InFloat,
    /// Input with filter.
    InFilt,
    /// Input with pull-up.
    InPu,
    /// Input with pull-up and filter.
    InPuFilt,
    /// Input with pull-down.
    InPd,
    /// Input with pull-down and filter.
    InPdFilt,
    /// Output push-pull.
    OutPp,
    /// Output open source.
    OutOs,
    /// Output open source, pull-down.
    OutOsPd,
    /// Output open drain.
    OutOd,
    /// Output open drain with filter.
    OutOdFilt,
    /// Output open drain pull-up.
    OutOdPu,
    /// Output open drain pull-up with filter.
    OutOdPuFilt,
    /// Alternate output push-pull.
    OutPpAlt,
    /// Alternate output open drain.
    OutOdAlt,
    /// Alternate output open drain with filter.
    OutOdFiltAlt,
    /// Alternate output open drain pull-up.
    OutOdPuAlt,
    /// Alternate output open drain pull-up with filter.
    OutOdPuFiltAlt,
}

/// The documented four-bit mode-select code of each mode.
pub open spec fn mode_code_of(m: DynamicMode) -> u32 {
    match m {
        DynamicMode::Disabled => 0,
        DynamicMode::DisabledPu => 0,
        DynamicMode::Analog => 0,
        DynamicMode::InFloat => 1,
        DynamicMode::InFilt => 1,
        DynamicMode::InPu => 2,
        DynamicMode::InPuFilt => 3,
        DynamicMode::InPd => 2,
        DynamicMode::InPdFilt => 3,
        DynamicMode::OutPp => 4,
        DynamicMode::OutOs => 6,
        DynamicMode::OutOsPd => 7,
        DynamicMode::OutOd => 8,
        DynamicMode::OutOdFilt => 9,
        DynamicMode::OutOdPu => 10,
        DynamicMode::OutOdPuFilt => 11,
        DynamicMode::OutPpAlt => 5,
        DynamicMode::OutOdAlt => 12,
        DynamicMode::OutOdFiltAlt => 13,
        DynamicMode::OutOdPuAlt => 14,
        DynamicMode::OutOdPuFiltAlt => 15,
    }
}

/// The documented initial data-out value of each mode. On disabled pins and
/// inputs the data-out bit selects the pull and filter, so entering the mode
/// writes it; output modes leave the last commanded level in place.
pub open spec fn mode_dout_of(m: DynamicMode) -> Option<bool> {
    match m {
        DynamicMode::Disabled => Some(false),
        DynamicMode::DisabledPu => Some(true),
        DynamicMode::Analog => Some(false),
        DynamicMode::InFloat => Some(false),
        DynamicMode::InFilt => Some(true),
        DynamicMode::InPu => Some(true),
        DynamicMode::InPuFilt => Some(true),
        DynamicMode::InPd => Some(false),
        DynamicMode::InPdFilt => Some(false),
        _ => None,
    }
}

/// The documented over-voltage tolerance setting of each mode: tolerance
/// stays enabled in every mode except analog.
pub open spec fn mode_ovt_of(m: DynamicMode) -> bool {
    !(m is Analog)
}

/// Whether a mode belongs to the input family.
pub open spec fn is_input_mode(m: DynamicMode) -> bool {
    m is InFloat || m is InFilt || m is InPu || m is InPuFilt || m is InPd || m is InPdFilt
}

/// Whether a mode belongs to the primary output family.
pub open spec fn is_output_mode(m: DynamicMode) -> bool {
    m is OutPp || m is OutOs || m is OutOsPd || m is OutOd || m is OutOdFilt || m is OutOdPu
        || m is OutOdPuFilt
}

/// Whether a mode belongs to the alternate output family.
pub open spec fn is_output_alt_mode(m: DynamicMode) -> bool {
    m is OutPpAlt || m is OutOdAlt || m is OutOdFiltAlt || m is OutOdPuAlt || m is OutOdPuFiltAlt
}

/// Whether a mode supports reading the pin level: every mode but the
/// disabled and analog ones.
pub open spec fn is_readable_mode(m: DynamicMode) -> bool {
    !(m is Disabled || m is DisabledPu || m is Analog)
}

/// Whether a mode supports driving the pin: any output mode.
pub open spec fn is_writable_mode(m: DynamicMode) -> bool {
    is_output_mode(m) || is_output_alt_mode(m)
}

impl DynamicMode {
    /// The documented four-bit mode-select code of this mode.
    pub fn code(self) -> (c: u8)
        ensures
            c == mode_code_of(self),
            c < 16,
    {
        match self {
            DynamicMode::Disabled => 0,
            DynamicMode::DisabledPu => 0,
            DynamicMode::Analog => 0,
            DynamicMode::InFloat => 1,
            DynamicMode::InFilt => 1,
            DynamicMode::InPu => 2,
            DynamicMode::InPuFilt => 3,
            DynamicMode::InPd => 2,
            DynamicMode::InPdFilt => 3,
            DynamicMode::OutPp => 4,
            DynamicMode::OutOs => 6,
            DynamicMode::OutOsPd => 7,
            DynamicMode::OutOd => 8,
            DynamicMode::OutOdFilt => 9,
            DynamicMode::OutOdPu => 10,
            DynamicMode::OutOdPuFilt => 11,
            DynamicMode::OutPpAlt => 5,
            DynamicMode::OutOdAlt => 12,
            DynamicMode::OutOdFiltAlt => 13,
            DynamicMode::OutOdPuAlt => 14,
            DynamicMode::OutOdPuFiltAlt => 15,
        }
    }

    /// The documented initial data-out value of this mode, if entering the
    /// mode writes one.
    pub fn dout_init(self) -> (d: Option<bool>)
        ensures
            d == mode_dout_of(self),
    {
        match self {
            DynamicMode::Disabled => Some(false),
            DynamicMode::DisabledPu => Some(true),
            DynamicMode::Analog => Some(false),
            DynamicMode::InFloat => Some(false),
            DynamicMode::InFilt => Some(true),
            DynamicMode::InPu => Some(true),
            DynamicMode::InPuFilt => Some(true),
            DynamicMode::InPd => Some(false),
            DynamicMode::InPdFilt => Some(false),
            _ => None,
        }
    }

    /// The documented over-voltage tolerance setting of this mode.
    pub fn ovt_enabled(self) -> (b: bool)
        ensures
            b == mode_ovt_of(self),
    {
        !matches!(self, DynamicMode::Analog)
    }

    /// Whether this mode supports reading the pin level.
    pub fn readable(self) -> (b: bool)
        ensures
            b == is_readable_mode(self),
    {
        !matches!(self, DynamicMode::Disabled | DynamicMode::DisabledPu | DynamicMode::Analog)
    }

    /// Whether this mode belongs to the input family.
    pub fn readable_input(self) -> (b: bool)
        ensures
            b == is_input_mode(self),
    {
        matches!(
            self,
            DynamicMode::InFloat | DynamicMode::InFilt | DynamicMode::InPu | DynamicMode::InPuFilt
                | DynamicMode::InPd | DynamicMode::InPdFilt
        )
    }

    /// Whether this mode belongs to the primary output family.
    pub fn readable_out(self) -> (b: bool)
        ensures
            b == is_output_mode(self),
    {
        matches!(
            self,
            DynamicMode::OutPp | DynamicMode::OutOs | DynamicMode::OutOsPd | DynamicMode::OutOd
                | DynamicMode::OutOdFilt | DynamicMode::OutOdPu | DynamicMode::OutOdPuFilt
        )
    }

    /// Whether this mode belongs to the alternate output family.
    pub fn readable_out_alt(self) -> (b: bool)
        ensures
            b == is_output_alt_mode(self),
    {
        matches!(
            self,
            DynamicMode::OutPpAlt | DynamicMode::OutOdAlt | DynamicMode::OutOdFiltAlt
                | DynamicMode::OutOdPuAlt | DynamicMode::OutOdPuFiltAlt
        )
    }

    /// Whether this mode supports driving the pin.
    pub fn writable(self) -> (b: bool)
        ensures
            b == is_writable_mode(self),
    {
        !matches!(
            self,
            DynamicMode::Disabled | DynamicMode::DisabledPu | DynamicMode::Analog
                | DynamicMode::InFloat | DynamicMode::InFilt | DynamicMode::InPu
                | DynamicMode::InPuFilt | DynamicMode::InPd | DynamicMode::InPdFilt
        )
    }

    /// The name of this mode.
    pub fn name(self) -> (s: &'static str) {
        match self {
            DynamicMode::Disabled => "Disabled",
            DynamicMode::DisabledPu => "DisabledPu",
            DynamicMode::Analog => "Analog",
            DynamicMode::InFloat => "InFloat",
            DynamicMode::InFilt => "InFilt",
            DynamicMode::InPu => "InPu",
            DynamicMode::InPuFilt => "InPuFilt",
            DynamicMode::InPd => "InPd",
            DynamicMode::InPdFilt => "InPdFilt",
            DynamicMode::OutPp => "OutPp",
            DynamicMode::OutOs => "OutOs",
            DynamicMode::OutOsPd => "OutOsPd",
            DynamicMode::OutOd => "OutOd",
            DynamicMode::OutOdFilt => "OutOdFilt",
            DynamicMode::OutOdPu => "OutOdPu",
            DynamicMode::OutOdPuFilt => "OutOdPuFilt",
            DynamicMode::OutPpAlt => "OutPpAlt",
            DynamicMode::OutOdAlt => "OutOdAlt",
            DynamicMode::OutOdFiltAlt => "OutOdFiltAlt",
            DynamicMode::OutOdPuAlt => "OutOdPuAlt",
            DynamicMode::OutOdPuFiltAlt => "OutOdPuFiltAlt",
        }
    }
}

/// One port's registers after writing, for one pin, a data-out value (where
/// one is given), an over-voltage tolerance setting, and a mode-select code.
pub open spec fn spec_write_pin_fields(
    r: PortRegs,
    pin: u8,
    code: u32,
    dout: Option<bool>,
    ovt: bool,
) -> PortRegs {
    (match dout {
        Some(b) => r.with_dout(pin, b),
        None => r,
    }).with_ovt(pin, ovt).with_mode_code(pin, code)
}

/// One port's registers after a pin enters a mode: the data-out and
/// over-voltage bits take the values the mode requires, then the mode-select
/// field takes the mode's code, so the pin never observably holds a
/// mode-select code whose companion bits belong to another mode.
pub open spec fn spec_apply_mode_port(r: PortRegs, pin: u8, m: DynamicMode) -> PortRegs {
    spec_write_pin_fields(r, pin, mode_code_of(m), mode_dout_of(m), mode_ovt_of(m))
}

/// Writing the same per-pin field values twice leaves the port registers
/// exactly as one write does.
proof fn lemma_write_pin_fields_idempotent(
    q: PortRegs,
    pin: u8,
    code: u32,
    dout: Option<bool>,
    ovt: bool,
)
    requires
        pin < 16,
        code < 16,
    ensures
        spec_write_pin_fields(spec_write_pin_fields(q, pin, code, dout, ovt), pin, code, dout, ovt)
            == spec_write_pin_fields(q, pin, code, dout, ovt),
{
    let i: u32 = if pin < 8 {
        pin as u32
    } else {
        (pin - 8) as u32
    };
    match dout {
        Some(v) => {
            lemma_bit16_idempotent(q.dout, pin as u16, v);
        },
        None => {},
    }
    lemma_bit16_idempotent(q.ovtdis, pin as u16, !ovt);
    if pin < 8 {
        lemma_mode_nibble_idempotent(q.model, i, code);
    } else {
        lemma_mode_nibble_idempotent(q.modeh, i, code);
    }
}

/// The register image after a pin enters a mode: only the pin's port block
/// changes, as [`spec_apply_mode_port`] says.
pub open spec fn spec_apply_mode(b: RegisterBank, id: PortId, pin: u8, m: DynamicMode) -> RegisterBank {
    b.with_port(id, spec_apply_mode_port(b.port_spec(id), pin, m))
}

/// Apply the register settings that realize a mode for one pin: first the
/// data-out and over-voltage-tolerance bits the mode requires, then the
/// mode-select field.
pub fn apply_mode(bank: &mut RegisterBank, id: PortId, pin: u8, m: DynamicMode)
    requires
        pin < 16,
    ensures
        *final(bank) == spec_apply_mode(*old(bank), id, pin, m),
{
    let mut r = *bank.port(id);
    match m.dout_init() {
        Some(b) => r.set_dout_bit(pin, b),
        None => (),
    }
    r.set_ovt(pin, m.ovt_enabled());
    r.set_mode_code(pin, m.code());
    bank.set_port(id, r);
}

/// Entering a mode realizes exactly its documented register settings: the
/// mode-select field reads back the mode's code, the data-out bit reads back
/// the mode's initial value where the mode writes one and is otherwise kept,
/// over-voltage tolerance reads back the mode's setting, and no bit of any
/// other pin changes.
pub proof fn lemma_apply_mode_readback(b: RegisterBank, id: PortId, pin: u8, m: DynamicMode)
    requires
        pin < 16,
    ensures
        spec_apply_mode(b, id, pin, m).port_spec(id).mode_code_spec(pin) == mode_code_of(m),
        spec_apply_mode(b, id, pin, m).port_spec(id).dout_spec(pin) == (match mode_dout_of(m) {
            Some(v) => v,
            None => b.port_spec(id).dout_spec(pin),
        }),
        spec_apply_mode(b, id, pin, m).port_spec(id).ovt_spec(pin) == mode_ovt_of(m),
        forall|other: u8|
            other < 16 && other != pin ==> #[trigger] spec_apply_mode(
                b,
                id,
                pin,
                m,
            ).port_spec(id).mode_code_spec(other) == b.port_spec(id).mode_code_spec(other)
                && spec_apply_mode(b, id, pin, m).port_spec(id).dout_spec(other) == b.port_spec(
                id,
            ).dout_spec(other) && spec_apply_mode(b, id, pin, m).port_spec(id).ovt_spec(other)
                == b.port_spec(id).ovt_spec(other),
        forall|o: PortId| o != id ==> #[trigger] spec_apply_mode(b, id, pin, m).port_spec(o)
            == b.port_spec(o),
{
    let q = b.port_spec(id);
    let q1 = match mode_dout_of(m) {
        Some(v) => q.with_dout(pin, v),
        None => q,
    };
    let q2 = q1.with_ovt(pin, mode_ovt_of(m));
    let code = mode_code_of(m);
    assert(code < 16);
    lemma_bit16(q.dout, pin as u16, pin as u16, true);
    lemma_bit16(q.dout, pin as u16, pin as u16, false);
    lemma_bit16(q1.ovtdis, pin as u16, pin as u16, !mode_ovt_of(m));
    if pin < 8 {
        lemma_mode_nibble(q2.model, pin as u32, pin as u32, code);
    } else {
        lemma_mode_nibble(q2.modeh, (pin - 8) as u32, (pin - 8) as u32, code);
    }
    assert forall|other: u8| other < 16 && other != pin implies #[trigger] spec_apply_mode(
        b,
        id,
        pin,
        m,
    ).port_spec(id).mode_code_spec(other) == b.port_spec(id).mode_code_spec(other)
        && spec_apply_mode(b, id, pin, m).port_spec(id).dout_spec(other) == b.port_spec(
        id,
    ).dout_spec(other) && spec_apply_mode(b, id, pin, m).port_spec(id).ovt_spec(other)
        == b.port_spec(id).ovt_spec(other) by {
        lemma_bit16(q.dout, pin as u16, other as u16, true);
        lemma_bit16(q.dout, pin as u16, other as u16, false);
        lemma_bit16(q1.ovtdis, pin as u16, other as u16, !mode_ovt_of(m));
        if pin < 8 && other < 8 {
            lemma_mode_nibble(q2.model, pin as u32, other as u32, code);
        } else if pin >= 8 && other >= 8 {
            lemma_mode_nibble(q2.modeh, (pin - 8) as u32, (other - 8) as u32, code);
        }
    }
}

/// Entering the same mode twice leaves the registers exactly as entering it
/// once does.
pub proof fn lemma_apply_mode_idempotent(b: RegisterBank, id: PortId, pin: u8, m: DynamicMode)
    requires
        pin < 16,
    ensures
        spec_apply_mode(spec_apply_mode(b, id, pin, m), id, pin, m) == spec_apply_mode(
            b,
            id,
            pin,
            m,
        ),
{
    let q = b.port_spec(id);
    let p1 = spec_apply_mode_port(q, pin, m);
    let b1 = spec_apply_mode(b, id, pin, m);
    assert(b1.port_spec(id) == p1);
    assert(mode_code_of(m) < 16);
    lemma_write_pin_fields_idempotent(q, pin, mode_code_of(m), mode_dout_of(m), mode_ovt_of(m));
    assert(spec_apply_mode_port(p1, pin, m) == p1);
    assert(b1.with_port(id, p1) == b1);
}

} // verus!
