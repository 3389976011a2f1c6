//! The units of what travels on the bus.

use vstd::prelude::*;

use crate::bus::{celsius_to_milli_c, ValveState};
use crate::single::value::{
    is_about, is_scaled, law_constants_have_their_values, law_fields_are_scaled,
};
use crate::single::{Single, THOUSAND_BITS};

verus! {

/// A temperature travels in thousandths of a degree, and stops at both ends of the range.
pub proof fn law_temperatures_travel_in_thousandths(celsius: Single, milli: i32)
    requires
        call_ensures(celsius_to_milli_c, (celsius,), milli),
    ensures
        is_scaled(milli as int, celsius, 1000, 1, -0x8000_0000, 0x7fff_ffff),
{
    law_constants_have_their_values();
    vstd::arithmetic::power2::lemma_pow2_pos(149);
    assert(is_about(Single { bits: THOUSAND_BITS }, 1000, 1));
    law_fields_are_scaled(
        celsius,
        Single { bits: THOUSAND_BITS },
        1000,
        1,
        -0x8000_0000,
        0x7fff_ffff,
    );
}

/// A valve is open by thousandths, from none to all of them. A percent is ten.
pub proof fn law_valves_are_open_by_thousandths(
    n: u16,
    percent: ValveState,
    promille: ValveState,
    open: ValveState,
    closed: ValveState,
)
    requires
        call_ensures(ValveState::from_percent_open, (n,), percent),
        call_ensures(ValveState::from_promille_clamped, (n,), promille),
        call_ensures(ValveState::fully_open, (), open),
        call_ensures(ValveState::fully_closed, (), closed),
    ensures
        n <= 100 ==> percent@ == 10 * n,
        n > 100 ==> percent@ == 1000,
        n <= 1000 ==> promille@ == n,
        n > 1000 ==> promille@ == 1000,
        open@ == 1000,
        closed@ == 0,
{
}

} // verus!
