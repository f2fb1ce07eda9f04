//! Typed device model: device kinds, brightness, states and values, and the
//! partial order on values.

use crate::text::{str_eq, is_digit, digits_val, pow10, lemma_digits_val_bound};
use crate::update::ItemUpdateValue;
use std::cmp::Ordering;
use vstd::prelude::*;

verus! {

/// The kind of a device derived from the gateway's project.
#[derive(Clone, Copy, Debug, PartialEq, Eq, Hash, Structural)]
pub enum DeviceKind {
    Binary,
    Dimmer,
    Blinds,
}

/// Raised when a string is not a decimal brightness in `0..=100`.
#[derive(Clone, Copy, Debug, PartialEq, Eq, Structural)]
pub struct ParseDeviceBrightnessError;

/// Raised when a string is none of the recognized device-state words.
#[derive(Clone, Copy, Debug, PartialEq, Eq, Structural)]
pub struct ParseDeviceStateError;

/// A dimmer brightness, always in `0..=100`.
#[derive(Clone, Copy, Debug, PartialEq, Eq, Hash, Structural)]
pub struct DeviceBrightness(u8);

impl DeviceBrightness {
    /// The brightness as a plain integer.
    pub closed spec fn value(self) -> u8 {
        self.0
    }

    pub fn new(value: u8) -> (r: Option<DeviceBrightness>)
        ensures
            match r {
                Some(b) => value <= 100 && b.value() == value,
                None => value > 100,
            },
    {
        if value <= 100 {
            Some(DeviceBrightness(value))
        } else {
            None
        }
    }

    pub fn get(self) -> (r: u8)
        ensures
            r == self.value(),
    {
        self.0
    }

    /// The least brightness, `0`.
    pub fn min_value() -> (r: DeviceBrightness)
        ensures
            r.value() == 0,
    {
        DeviceBrightness(0)
    }

    /// The greatest brightness, `100`.
    pub fn max_value() -> (r: DeviceBrightness)
        ensures
            r.value() == 100,
    {
        DeviceBrightness(100)
    }
}

/// What a brightness string denotes: one to three decimal digits whose value
/// is at most `100`; everything else is rejected.
pub open spec fn brightness_of(s: Seq<char>) -> Option<u8> {
    if 1 <= s.len() && s.len() <= 3 && (forall|i: int| 0 <= i < s.len() ==> is_digit(
        #[trigger] s[i],
    )) && digits_val(s) <= 100 {
        Some(digits_val(s) as u8)
    } else {
        None
    }
}

impl DeviceBrightness {
    /// Parse a decimal brightness string.
    pub fn from_str(s: &str) -> (r: Result<DeviceBrightness, ParseDeviceBrightnessError>)
        ensures
            match r {
                Ok(b) => brightness_of(s@) == Some(b.value()),
                Err(_) => brightness_of(s@) is None,
            },
    {
        let n = s.unicode_len();
        if n == 0 || n > 3 {
            return Err(ParseDeviceBrightnessError);
        }
        let mut v: u32 = 0;
        let mut i: usize = 0;
        while i < n
            invariant
                0 <= i <= n,
                n == s@.len(),
                1 <= n <= 3,
                forall|j: int| 0 <= j < i ==> is_digit(#[trigger] s@[j]),
                v == digits_val(s@.subrange(0, i as int)),
                v < 1000,
            decreases n - i,
        {
            let c = s.get_char(i);
            let cu = c as u32;
            if cu < 48 || cu > 57 {
                return Err(ParseDeviceBrightnessError);
            }
            proof {
                assert(s@.subrange(0, i + 1).drop_last() =~= s@.subrange(0, i as int));
                lemma_digits_val_bound(s@.subrange(0, i as int));
                assert(pow10(0) == 1);
                assert(pow10(1) == 10);
                assert(pow10(2) == 100);
            }
            v = v * 10 + (cu - 48);
            i = i + 1;
        }
        proof {
            assert(s@.subrange(0, n as int) =~= s@);
        }
        if v <= 100 {
            Ok(DeviceBrightness(v as u8))
        } else {
            Err(ParseDeviceBrightnessError)
        }
    }
}

/// A device's on/off state as reported or commanded.
#[derive(Clone, Copy, Debug, PartialEq, Eq, Hash, Structural)]
pub enum DeviceState {
    Off,
    On,
    Unknown,
}

/// What a state string denotes: `"ON"`, `"OFF"`, `"UNKNOWN"` or
/// `"UNDEFINED"`; everything else is rejected.
pub open spec fn state_of(s: Seq<char>) -> Option<DeviceState> {
    if s == "ON"@ {
        Some(DeviceState::On)
    } else if s == "OFF"@ {
        Some(DeviceState::Off)
    } else if s == "UNKNOWN"@ || s == "UNDEFINED"@ {
        Some(DeviceState::Unknown)
    } else {
        None
    }
}

impl DeviceState {
    /// Parse a device-state word.
    pub fn from_str(s: &str) -> (r: Result<DeviceState, ParseDeviceStateError>)
        ensures
            match r {
                Ok(st) => state_of(s@) == Some(st),
                Err(_) => state_of(s@) is None,
            },
    {
        if str_eq(s, "ON") {
            Ok(DeviceState::On)
        } else if str_eq(s, "OFF") {
            Ok(DeviceState::Off)
        } else if str_eq(s, "UNKNOWN") {
            Ok(DeviceState::Unknown)
        } else if str_eq(s, "UNDEFINED") {
            Ok(DeviceState::Unknown)
        } else {
            Err(ParseDeviceStateError)
        }
    }
}

/// A group command state for whole-bus scenes.
#[derive(Clone, Copy, Debug, PartialEq, Eq, Hash, Structural)]
pub enum DeviceGroupState {
    AllOff,
    AllOn,
}

/// A device's observed value.
#[derive(Clone, Copy, Debug, PartialEq, Eq, Hash, Structural)]
pub enum DeviceValue {
    Undefined,
    Off,
    On(DeviceBrightness),
    AllOff,
    AllOn,
}

impl DeviceValue {
    /// The brightness carried by an on-value, if any, as a plain integer.
    pub open spec fn brightness_spec(self) -> Option<u8> {
        match self {
            DeviceValue::On(v) => Some(v.value()),
            DeviceValue::AllOn => Some(100u8),
            _ => None,
        }
    }

    pub fn is_on(&self) -> (r: bool)
        ensures
            r == (self is On || self is AllOn),
    {
        match self {
            DeviceValue::On(_) => true,
            DeviceValue::AllOn => true,
            _ => false,
        }
    }

    pub fn brightness(&self) -> (r: Option<DeviceBrightness>)
        ensures
            match r {
                Some(b) => self.brightness_spec() == Some(b.value()),
                None => self.brightness_spec() is None,
            },
    {
        match self {
            DeviceValue::On(v) => Some(*v),
            DeviceValue::AllOn => Some(DeviceBrightness::max_value()),
            _ => None,
        }
    }

    /// The value a bare state denotes: an on-state means full brightness.
    pub fn from_state(state: DeviceState) -> (r: DeviceValue)
        ensures
            match state {
                DeviceState::Off => r == DeviceValue::Off,
                DeviceState::On => r is On && r->On_0.value() == 100,
                DeviceState::Unknown => r == DeviceValue::Undefined,
            },
    {
        match state {
            DeviceState::Off => DeviceValue::Off,
            DeviceState::On => DeviceValue::On(DeviceBrightness::max_value()),
            DeviceState::Unknown => DeviceValue::Undefined,
        }
    }

    /// The value a state and a brightness denote together.
    pub fn from_state_brightness(state: DeviceState, brightness: DeviceBrightness) -> (r:
        DeviceValue)
        ensures
            match state {
                DeviceState::Off => r == DeviceValue::Off,
                DeviceState::On => r == DeviceValue::On(brightness),
                DeviceState::Unknown => r == DeviceValue::Undefined,
            },
    {
        match state {
            DeviceState::Off => DeviceValue::Off,
            DeviceState::On => DeviceValue::On(brightness),
            DeviceState::Unknown => DeviceValue::Undefined,
        }
    }
}

impl DeviceValue {
    /// The value one gateway update entry reports: the state word selects
    /// the variant, and an on-state carries the parsed brightness; an
    /// entry that fits no variant is handed back.
    pub fn from_update(u: ItemUpdateValue) -> (r: Result<DeviceValue, ItemUpdateValue>)
        ensures
            match r {
                Ok(v) => {
                    ||| (u.state@ == "UNDEFINED"@ && v == DeviceValue::Undefined)
                    ||| (u.state@ == "OFF"@ && v == DeviceValue::Off)
                    ||| (u.state@ == "ON"@ && v is On && brightness_of(u.value@) == Some(
                        v->On_0.value(),
                    ))
                    ||| (u.state@ == "ALL_OFF"@ && v == DeviceValue::AllOff)
                    ||| (u.state@ == "ALL_ON"@ && v == DeviceValue::AllOn)
                },
                Err(e) => {
                    &&& e == u
                    &&& u.state@ != "UNDEFINED"@
                    &&& u.state@ != "OFF"@
                    &&& u.state@ != "ALL_OFF"@
                    &&& u.state@ != "ALL_ON"@
                    &&& (u.state@ == "ON"@ ==> brightness_of(u.value@) is None)
                },
            },
    {
        if str_eq(u.state.as_str(), "UNDEFINED") {
            Ok(DeviceValue::Undefined)
        } else if str_eq(u.state.as_str(), "OFF") {
            Ok(DeviceValue::Off)
        } else if str_eq(u.state.as_str(), "ON") {
            proof {
                reveal_strlit("ON");
                reveal_strlit("ALL_OFF");
                reveal_strlit("ALL_ON");
                assert("ON"@.len() == 2);
                assert("ALL_OFF"@.len() == 7);
                assert("ALL_ON"@.len() == 6);
            }
            match DeviceBrightness::from_str(u.value.as_str()) {
                Ok(b) => Ok(DeviceValue::On(b)),
                Err(_) => Err(u),
            }
        } else if str_eq(u.state.as_str(), "ALL_OFF") {
            Ok(DeviceValue::AllOff)
        } else if str_eq(u.state.as_str(), "ALL_ON") {
            Ok(DeviceValue::AllOn)
        } else {
            Err(u)
        }
    }
}

/// The partial order on device values: `Off` below every `On`, on-values
/// ordered by brightness, `AllOff` below `AllOn`; `Undefined` compares only
/// to itself, and the single-device values do not compare to the group ones.
pub open spec fn value_cmp(a: DeviceValue, b: DeviceValue) -> Option<Ordering> {
    match (a, b) {
        (DeviceValue::Undefined, DeviceValue::Undefined) => Some(Ordering::Equal),
        (DeviceValue::Undefined, _) => None,
        (_, DeviceValue::Undefined) => None,
        (DeviceValue::Off, DeviceValue::Off) => Some(Ordering::Equal),
        (DeviceValue::Off, DeviceValue::On(_)) => Some(Ordering::Less),
        (DeviceValue::Off, _) => None,
        (DeviceValue::On(_), DeviceValue::Off) => Some(Ordering::Greater),
        (DeviceValue::On(x), DeviceValue::On(y)) => Some(
            if x.value() < y.value() {
                Ordering::Less
            } else if x.value() == y.value() {
                Ordering::Equal
            } else {
                Ordering::Greater
            },
        ),
        (DeviceValue::On(_), _) => None,
        (DeviceValue::AllOff, DeviceValue::AllOff) => Some(Ordering::Equal),
        (DeviceValue::AllOff, DeviceValue::AllOn) => Some(Ordering::Less),
        (DeviceValue::AllOff, _) => None,
        (DeviceValue::AllOn, DeviceValue::AllOn) => Some(Ordering::Equal),
        (DeviceValue::AllOn, DeviceValue::AllOff) => Some(Ordering::Greater),
        (DeviceValue::AllOn, _) => None,
    }
}

impl vstd::std_specs::cmp::PartialOrdSpecImpl for DeviceValue {
    open spec fn obeys_partial_cmp_spec() -> bool {
        true
    }

    open spec fn partial_cmp_spec(&self, other: &DeviceValue) -> Option<Ordering> {
        value_cmp(*self, *other)
    }
}

impl PartialOrd for DeviceValue {
    fn partial_cmp(&self, other: &DeviceValue) -> (r: Option<Ordering>) {
        match (self, other) {
            (DeviceValue::Undefined, DeviceValue::Undefined) => Some(Ordering::Equal),
            (DeviceValue::Undefined, _) => None,
            (_, DeviceValue::Undefined) => None,
            (DeviceValue::Off, DeviceValue::Off) => Some(Ordering::Equal),
            (DeviceValue::Off, DeviceValue::On(_)) => Some(Ordering::Less),
            (DeviceValue::Off, _) => None,
            (DeviceValue::On(_), DeviceValue::Off) => Some(Ordering::Greater),
            (DeviceValue::On(x), DeviceValue::On(y)) => Some(
                if x.get() < y.get() {
                    Ordering::Less
                } else if x.get() == y.get() {
                    Ordering::Equal
                } else {
                    Ordering::Greater
                },
            ),
            (DeviceValue::On(_), _) => None,
            (DeviceValue::AllOff, DeviceValue::AllOff) => Some(Ordering::Equal),
            (DeviceValue::AllOff, DeviceValue::AllOn) => Some(Ordering::Less),
            (DeviceValue::AllOff, _) => None,
            (DeviceValue::AllOn, DeviceValue::AllOn) => Some(Ordering::Equal),
            (DeviceValue::AllOn, DeviceValue::AllOff) => Some(Ordering::Greater),
            (DeviceValue::AllOn, _) => None,
        }
    }
}

/// The law of the partial order on device values: `Off` is strictly below
/// every on-value, on-values are ordered exactly by brightness, `AllOff` is
/// strictly below `AllOn`, `Undefined` compares only to itself, and no
/// single-device value compares to a group value.
pub proof fn lemma_device_value_partial_order(a: DeviceValue, b: DeviceValue)
    ensures
        value_cmp(DeviceValue::Off, b) == Some(Ordering::Less) <==> b is On,
        (a is On && b is On) ==> (value_cmp(a, b) == Some(Ordering::Less) <==> a->On_0.value()
            < b->On_0.value()),
        (a is On && b is On) ==> (value_cmp(a, b) == Some(Ordering::Equal) <==> a->On_0.value()
            == b->On_0.value()),
        value_cmp(DeviceValue::AllOff, DeviceValue::AllOn) == Some(Ordering::Less),
        value_cmp(a, a) == Some(Ordering::Equal),
        (a is Undefined && !(b is Undefined)) ==> value_cmp(a, b) is None,
        (!(a is Undefined) && b is Undefined) ==> value_cmp(a, b) is None,
        ((a is Off || a is On) && (b is AllOff || b is AllOn)) ==> value_cmp(a, b) is None,
        ((a is AllOff || a is AllOn) && (b is Off || b is On)) ==> value_cmp(a, b) is None,
        value_cmp(a, b) == Some(Ordering::Less) <==> value_cmp(b, a) == Some(Ordering::Greater),
{
}

} // verus!
