use vstd::prelude::*;

verus! {

/// A spell as the D&D 5e API describes it.
#[derive(Default, Debug, Clone, PartialEq)]
pub struct DndApiReply {
    pub index: String,
    pub name: String,
    pub desc: Vec<String>,
    pub higher_level: Vec<String>,
    pub range: String,
    pub components: Vec<String>,
    pub material: String,
    pub ritual: bool,
    pub duration: String,
    pub concentration: bool,
    pub casting_time: String,
    pub level: i64,
    pub attack_type: String,
    pub damage: Damage,
    pub school: School,
    pub classes: Vec<Class>,
    pub subclasses: Vec<Subclass>,
    pub url: String,
}

#[derive(Default, Debug, Clone, PartialEq)]
pub struct Damage {
    pub damage_type: DamageType,
    pub damage_at_slot_level: DamageAtSlotLevel,
}

#[derive(Default, Debug, Clone, PartialEq)]
pub struct DamageType {
    pub index: String,
    pub name: String,
    pub url: String,
}

/// The damage dice of a spell cast with a slot of each level from 2 to 9.
#[derive(Default, Debug, Clone, PartialEq)]
pub struct DamageAtSlotLevel {
    pub n2: String,
    pub n3: String,
    pub n4: String,
    pub n5: String,
    pub n6: String,
    pub n7: String,
    pub n8: String,
    pub n9: String,
}

#[derive(Default, Debug, Clone, PartialEq)]
pub struct School {
    pub index: String,
    pub name: String,
    pub url: String,
}

#[derive(Default, Debug, Clone, PartialEq)]
pub struct Class {
    pub index: String,
    pub name: String,
    pub url: String,
}

#[derive(Default, Debug, Clone, PartialEq)]
pub struct Subclass {
    pub index: String,
    pub name: String,
    pub url: String,
}

} // verus!
