//! The search for machines by address.

use vstd::prelude::*;

verus! {

/// A machine that a scan has found.
#[derive(Debug)]
pub struct Machine {
    pub name: String,
    pub ip: String,
}

/// The machines that a scan finds. No address is tried yet: the result is
/// two machines without an address, `Machine1` and `Machine2`.
pub fn scan() -> (machines: Vec<Machine>)
    ensures
        machines.len() == 2,
        machines[0].name@ == "Machine1"@,
        machines[1].name@ == "Machine2"@,
        machines[0].ip@ == Seq::<char>::empty(),
        machines[1].ip@ == Seq::<char>::empty(),
{
    let mut machines: Vec<Machine> = Vec::new();
    machines.push(Machine { name: "Machine1".to_owned(), ip: String::new() });
    machines.push(Machine { name: "Machine2".to_owned(), ip: String::new() });
    machines
}

} // verus!
