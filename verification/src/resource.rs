use vstd::prelude::*;

verus! {

/// The mathematical form of a resource identifier: the character sequences
/// of the ship and chat names.
pub struct ResourceModel {
    pub ship: Seq<char>,
    pub name: Seq<char>,
}

/// Identifies one joinable conversation resource: a ship (peer identity)
/// paired with the name of a chat it hosts.  Compared by value.
#[derive(Clone, Debug)]
pub struct ShipChat {
    pub ship_name: String,
    pub chat_name: String,
}

impl View for ShipChat {
    type V = ResourceModel;

    open spec fn view(&self) -> ResourceModel {
        ResourceModel { ship: self.ship_name@, name: self.chat_name@ }
    }
}

impl ShipChat {
    /// A copy that names the same resource.
    pub fn duplicate(&self) -> (r: ShipChat)
        ensures
            r@ == self@,
    {
        ShipChat { ship_name: self.ship_name.clone(), chat_name: self.chat_name.clone() }
    }
}

} // verus!
