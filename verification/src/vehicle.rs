use vstd::prelude::*;

verus! {

/// A train type: its name, its length and its limits of acceleration,
/// braking and velocity, in the model's integer units.
#[derive(Clone, Debug, PartialEq, Eq)]
pub struct Vehicle {
    pub name: String,
    pub length: i64,
    pub max_acc: i64,
    pub max_brk: i64,
    pub max_vel: i64,
}

pub open spec fn is_default_vehicle(v: Vehicle) -> bool {
    &&& v.name@ == "Default train"@
    &&& v.length == 100
    &&& v.max_acc == 1
    &&& v.max_brk == 1
    &&& v.max_vel == 50
}

/// The vehicle that a new model starts with.
pub fn default_vehicle() -> (v: Vehicle)
    ensures
        is_default_vehicle(v),
{
    Vehicle {
        name: "Default train".to_string(),
        length: 100,
        max_acc: 1,
        max_brk: 1,
        max_vel: 50,
    }
}

} // verus!
