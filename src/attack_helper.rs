use vstd::prelude::*;
use vstd::string::StringExecFns;
use crate::text::{decimal, decimal_text};

verus! {

/// The text that describes a damage range: "No damage" when both ends are zero,
/// "min-max damage" when there is an upper end, "min damage" otherwise.
pub open spec fn damage_text(dmg_min: usize, dmg_max: usize) -> Seq<char> {
    if dmg_min == 0 && dmg_max == 0 {
        "No damage"@
    } else if dmg_max > 0 {
        decimal(dmg_min as nat) + "-"@ + decimal(dmg_max as nat) + " damage"@
    } else {
        decimal(dmg_min as nat) + " damage"@
    }
}

pub fn build_damage_text(dmg_min: usize, dmg_max: usize) -> (r: String)
    ensures
        r@ == damage_text(dmg_min, dmg_max),
{
    if dmg_min == 0 && dmg_max == 0 {
        "No damage".to_owned()
    } else if dmg_max > 0 {
        let mut text = decimal_text(dmg_min);
        text.append("-");
        text.append(decimal_text(dmg_max).as_str());
        text.append(" damage");
        text
    } else {
        let mut text = decimal_text(dmg_min);
        text.append(" damage");
        text
    }
}

} // verus!
