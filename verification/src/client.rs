//! The client facade's decision logic: the synthetic state each commanded
//! value implies, and the echo batch a `set_values` call posts to the
//! event task after the gateway acknowledges it.

use crate::dev::DeviceState;
use crate::req::{ItemSetValue, SetValue};
use vstd::prelude::*;

verus! {

/// The state a commanded value implies: on for switches turned on and for
/// any positive level, off for switches turned off and for level zero.
pub open spec fn state_of_set_value(v: SetValue) -> DeviceState {
    match v {
        SetValue::On(_) => DeviceState::On,
        SetValue::Off(_) => DeviceState::Off,
        SetValue::Dimm(b) => if b == 0 {
            DeviceState::Off
        } else {
            DeviceState::On
        },
        SetValue::Blinds(b) => if b == 0 {
            DeviceState::Off
        } else {
            DeviceState::On
        },
    }
}

impl DeviceState {
    /// See [`state_of_set_value`].
    pub fn from_set_value(v: SetValue) -> (r: DeviceState)
        ensures
            r == state_of_set_value(v),
    {
        match v {
            SetValue::On(_) => DeviceState::On,
            SetValue::Off(_) => DeviceState::Off,
            SetValue::Dimm(b) => if b == 0 {
                DeviceState::Off
            } else {
                DeviceState::On
            },
            SetValue::Blinds(b) => if b == 0 {
                DeviceState::Off
            } else {
                DeviceState::On
            },
        }
    }
}

/// The synthetic `(number, state)` pairs a `set_values` batch implies, in
/// order.
pub open spec fn synthetic_states_spec(values: Seq<ItemSetValue>) -> Seq<(u32, DeviceState)> {
    Seq::new(values.len(), |i: int| (values[i].number, state_of_set_value(values[i].value)))
}

/// Compute the echo batch for a `set_values` call: after the gateway
/// acknowledges the command, these pairs go to the event task so that
/// subscribers see the commanded transitions at once.
pub fn synthetic_states(values: &Vec<ItemSetValue>) -> (r: Vec<(u32, DeviceState)>)
    ensures
        r@ == synthetic_states_spec(values@),
{
    let mut r: Vec<(u32, DeviceState)> = Vec::new();
    let mut i: usize = 0;
    while i < values.len()
        invariant
            i <= values@.len(),
            r@ == synthetic_states_spec(values@).take(i as int),
        decreases values@.len() - i,
    {
        let v = &values[i];
        r.push((v.number, DeviceState::from_set_value(v.value)));
        proof {
            assert(r@ =~= synthetic_states_spec(values@).take(i + 1));
        }
        i = i + 1;
    }
    proof {
        assert(synthetic_states_spec(values@).take(values@.len() as int) =~= synthetic_states_spec(
            values@,
        ));
    }
    r
}

} // verus!
