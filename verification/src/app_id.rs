//! The number of an application on Steam.

use crate::steam_id::decimal::decimal_text;
use crate::steam_id::decimal::push_decimal;
use vstd::prelude::*;

verus! {

/// The number that Steam knows an application by.
#[derive(Clone, Copy, Debug, Eq, PartialEq, Structural)]
pub struct AppId(pub u32);

impl AppId {
    /// The number in base ten, without leading zeros.
    pub fn to_string(&self) -> (text: String)
        ensures
            text@ == decimal_text(self.0 as nat),
    {
        let mut text = String::new();
        push_decimal(&mut text, self.0 as u64);
        text
    }
}

} // verus!
