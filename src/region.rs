//! Sales regions.

use vstd::prelude::*;
use crate::text::text;

verus! {

/// A sales region. The free-shipping threshold is in whole currency units.
#[derive(Debug)]
pub struct Region {
    pub id: String,
    pub name: String,
    pub code: String,
    pub flag: String,
    pub currency: String,
    pub free_shipping_threshold: i32,
}

impl Clone for Region {
    fn clone(&self) -> (r: Self)
        ensures
            r == *self,
    {
        Region {
            id: self.id.clone(),
            name: self.name.clone(),
            code: self.code.clone(),
            flag: self.flag.clone(),
            currency: self.currency.clone(),
            free_shipping_threshold: self.free_shipping_threshold,
        }
    }
}

impl Region {
    /// The built-in region used when none could be loaded.
    pub open spec fn is_global(self) -> bool {
        &&& self.id@ == "global"@
        &&& self.name@ == "Global"@
        &&& self.code@ == "Global"@
        &&& self.flag@ == "\u{1F30E}"@
        &&& self.currency@ == "USD"@
        &&& self.free_shipping_threshold == 40
    }
}

impl Default for Region {
    fn default() -> (r: Self)
        ensures
            r.is_global(),
    {
        Region {
            id: text("global"),
            name: text("Global"),
            code: text("Global"),
            flag: text("\u{1F30E}"),
            currency: text("USD"),
            free_shipping_threshold: 40,
        }
    }
}

} // verus!
