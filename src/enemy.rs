use vstd::prelude::*;

verus! {

/// An opponent as the catalog describes it.
#[derive(Debug)]
pub struct Enemy {
    pub id: u16,
    pub name: String,
    pub template: String,
    pub hp: u16,
    pub hp_max: u16,
    pub strg: u16,
    pub agil: u16,
    pub def: u16,
}

impl Clone for Enemy {
    fn clone(&self) -> (r: Self)
        ensures
            r == *self,
    {
        Enemy {
            id: self.id,
            name: self.name.clone(),
            template: self.template.clone(),
            hp: self.hp,
            hp_max: self.hp_max,
            strg: self.strg,
            agil: self.agil,
            def: self.def,
        }
    }
}

impl Enemy {
    /// A melee fighter with the given id and name and every value at zero.
    pub fn new(id: u16, name: &str) -> (r: Enemy)
        ensures
            r.id == id,
            r.name@ == name@,
            r.template@ == "basic_melee_fighter"@,
            r.hp == 0,
            r.hp_max == 0,
            r.strg == 0,
            r.agil == 0,
            r.def == 0,
    {
        Enemy {
            id,
            name: name.to_owned(),
            template: "basic_melee_fighter".to_owned(),
            hp: 0,
            hp_max: 0,
            strg: 0,
            agil: 0,
            def: 0,
        }
    }
}

} // verus!
