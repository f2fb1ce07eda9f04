//! One entry of an `ITEM_UPDATE` push, and its parse from a JSON value.

use crate::json::{obj_get, obj_get_spec, JsonVal};
use crate::text::{dec_u32_of, parse_dec_u32};
use vstd::prelude::*;

verus! {

/// One `{NUMBER, VALUE, STATE, SETPOINT}` entry of an update batch. The
/// number may arrive as a JSON number or as a decimal string; the other
/// fields are strings the client interprets later.
#[derive(Debug, Clone, PartialEq, Eq)]
pub struct ItemUpdateValue {
    pub number: u32,
    pub value: String,
    pub state: String,
    pub setpoint: String,
}

/// The abstract content of an update entry.
pub struct ItemUpdateValueView {
    pub number: u32,
    pub value: Seq<char>,
    pub state: Seq<char>,
    pub setpoint: Seq<char>,
}

impl View for ItemUpdateValue {
    type V = ItemUpdateValueView;

    open spec fn view(&self) -> ItemUpdateValueView {
        ItemUpdateValueView {
            number: self.number,
            value: self.value@,
            state: self.state@,
            setpoint: self.setpoint@,
        }
    }
}

/// An update's item number: a JSON number that fits a `u32`, or a decimal
/// string.
pub open spec fn item_number_of(v: JsonVal) -> Option<u32> {
    match v {
        JsonVal::UInt(u) => if u <= 0xffff_ffff {
            Some(u as u32)
        } else {
            None
        },
        JsonVal::Str(s) => dec_u32_of(s@),
        _ => None,
    }
}

/// What an update entry denotes: all four fields present and of the right
/// shape, or nothing.
pub open spec fn update_value_of(v: JsonVal) -> Option<ItemUpdateValueView> {
    match v {
        JsonVal::Obj(fs) => {
            let num = match obj_get_spec(fs@, "NUMBER"@) {
                Some(x) => item_number_of(x),
                None => None,
            };
            let val = match obj_get_spec(fs@, "VALUE"@) {
                Some(x) => x.str_of(),
                None => None,
            };
            let st = match obj_get_spec(fs@, "STATE"@) {
                Some(x) => x.str_of(),
                None => None,
            };
            let sp = match obj_get_spec(fs@, "SETPOINT"@) {
                Some(x) => x.str_of(),
                None => None,
            };
            match (num, val, st, sp) {
                (Some(n), Some(a), Some(b), Some(c)) => Some(
                    ItemUpdateValueView { number: n, value: a, state: b, setpoint: c },
                ),
                _ => None,
            }
        },
        _ => None,
    }
}

/// Read an update's item number.
pub fn parse_item_number(v: &JsonVal) -> (r: Option<u32>)
    ensures
        r == item_number_of(*v),
{
    match v {
        JsonVal::UInt(u) => if *u <= 0xffff_ffff {
            Some(*u as u32)
        } else {
            None
        },
        JsonVal::Str(s) => parse_dec_u32(s.as_str()),
        _ => None,
    }
}

/// Parse one update entry.
pub fn parse_update_value(v: &JsonVal) -> (r: Option<ItemUpdateValue>)
    ensures
        match r {
            Some(u) => update_value_of(*v) == Some(u@),
            None => update_value_of(*v) is None,
        },
{
    match v {
        JsonVal::Obj(fs) => {
            let num = match obj_get(fs, "NUMBER") {
                Some(x) => parse_item_number(x),
                None => None,
            };
            let val = match obj_get(fs, "VALUE") {
                Some(x) => x.as_string(),
                None => None,
            };
            let st = match obj_get(fs, "STATE") {
                Some(x) => x.as_string(),
                None => None,
            };
            let sp = match obj_get(fs, "SETPOINT") {
                Some(x) => x.as_string(),
                None => None,
            };
            match (num, val, st, sp) {
                (Some(n), Some(a), Some(b), Some(c)) => Some(
                    ItemUpdateValue { number: n, value: a, state: b, setpoint: c },
                ),
                _ => None,
            }
        },
        _ => None,
    }
}

} // verus!
