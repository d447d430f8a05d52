use vstd::prelude::*;

use crate::rules::FlightRules;

verus! {

/// Indicator color shown for a flight-rules category, one LED color per
/// category.
#[derive(Clone, Copy, Debug, PartialEq, Eq, Structural)]
pub enum ColorCode {
    Purple,
    Red,
    Blue,
    Green,
}

/// Color for each category: LowIfr purple, Ifr red, MarginalVfr blue,
/// Vfr green.
pub open spec fn color_of_rules(fr: FlightRules) -> ColorCode {
    match fr {
        FlightRules::LowIfr => ColorCode::Purple,
        FlightRules::Ifr => ColorCode::Red,
        FlightRules::MarginalVfr => ColorCode::Blue,
        FlightRules::Vfr => ColorCode::Green,
    }
}

/// ASCII `p`.
pub const PURPLE_BYTE: u8 = 112;

/// ASCII `r`.
pub const RED_BYTE: u8 = 114;

/// ASCII `b`.
pub const BLUE_BYTE: u8 = 98;

/// ASCII `g`.
pub const GREEN_BYTE: u8 = 103;

/// The single ASCII byte that names a color on the wire.
pub open spec fn color_byte_spec(c: ColorCode) -> u8 {
    match c {
        ColorCode::Purple => PURPLE_BYTE,
        ColorCode::Red => RED_BYTE,
        ColorCode::Blue => BLUE_BYTE,
        ColorCode::Green => GREEN_BYTE,
    }
}

impl ColorCode {
    /// Wire byte for this color.
    pub fn byte(&self) -> (r: u8)
        ensures
            r == color_byte_spec(*self),
    {
        match self {
            ColorCode::Purple => PURPLE_BYTE,
            ColorCode::Red => RED_BYTE,
            ColorCode::Blue => BLUE_BYTE,
            ColorCode::Green => GREEN_BYTE,
        }
    }
}

impl From<FlightRules> for ColorCode {
    /// Color mapper: total over `FlightRules`.
    fn from(fr: FlightRules) -> (r: ColorCode) {
        match fr {
            FlightRules::LowIfr => ColorCode::Purple,
            FlightRules::Ifr => ColorCode::Red,
            FlightRules::MarginalVfr => ColorCode::Blue,
            FlightRules::Vfr => ColorCode::Green,
        }
    }
}

impl vstd::std_specs::convert::FromSpecImpl<FlightRules> for ColorCode {
    open spec fn obeys_from_spec() -> bool {
        true
    }

    open spec fn from_spec(fr: FlightRules) -> ColorCode {
        color_of_rules(fr)
    }
}

/// The color mapping is total: every category's wire byte is one of the
/// four bytes `p`, `r`, `b`, `g`.
pub proof fn lemma_color_total(fr: FlightRules)
    ensures
        ({
            let b = color_byte_spec(color_of_rules(fr));
            b == PURPLE_BYTE || b == RED_BYTE || b == BLUE_BYTE || b == GREEN_BYTE
        }),
{
}

/// The category-to-byte mapping is injective: two categories with the same
/// wire byte are the same category.
pub proof fn lemma_color_injective(a: FlightRules, b: FlightRules)
    requires
        color_byte_spec(color_of_rules(a)) == color_byte_spec(color_of_rules(b)),
    ensures
        a == b,
{
}

/// The category-to-byte mapping is onto the four bytes `p`, `r`, `b`, `g`:
/// with injectivity, a bijection onto that set.
pub proof fn lemma_color_onto(b: u8)
    requires
        b == PURPLE_BYTE || b == RED_BYTE || b == BLUE_BYTE || b == GREEN_BYTE,
    ensures
        exists|fr: FlightRules| color_byte_spec(color_of_rules(fr)) == b,
{
    if b == PURPLE_BYTE {
        assert(color_byte_spec(color_of_rules(FlightRules::LowIfr)) == b);
    } else if b == RED_BYTE {
        assert(color_byte_spec(color_of_rules(FlightRules::Ifr)) == b);
    } else if b == BLUE_BYTE {
        assert(color_byte_spec(color_of_rules(FlightRules::MarginalVfr)) == b);
    } else {
        assert(color_byte_spec(color_of_rules(FlightRules::Vfr)) == b);
    }
}

} // verus!
