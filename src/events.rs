use vstd::prelude::*;

verus! {

/// A target point on screen, each coordinate held as the bit pattern of a
/// single-precision float. Routing carries it without reading it.
#[derive(Debug, Clone, Copy, PartialEq, Eq)]
pub struct Coordinates {
    pub x_bits: u32,
    pub y_bits: u32,
}

/// A behavioral instruction addressed to one live operator by its id.
#[derive(Debug, Clone, PartialEq, Eq)]
#[non_exhaustive]
pub enum Event {
    Retreat { op_id: String },
    SetSkin { op_id: String, skin: String },
    SetAnimation { op_id: String, ani: String },
    MoveTo { op_id: String, pos: Coordinates },
    Sleep { op_id: String },
    Sit { op_id: String },
    CustomEvent { op_id: String, payload: String },
}

impl Event {
    /// The id of the operator that the event is addressed to.
    pub open spec fn target(&self) -> Seq<char> {
        match self {
            Event::Retreat { op_id } => op_id@,
            Event::SetSkin { op_id, .. } => op_id@,
            Event::SetAnimation { op_id, .. } => op_id@,
            Event::MoveTo { op_id, .. } => op_id@,
            Event::Sleep { op_id } => op_id@,
            Event::Sit { op_id } => op_id@,
            Event::CustomEvent { op_id, .. } => op_id@,
        }
    }

    pub fn operator_id(&self) -> (r: &str)
        ensures
            r@ == self.target(),
    {
        match self {
            Event::Retreat { op_id } => op_id.as_str(),
            Event::SetSkin { op_id, .. } => op_id.as_str(),
            Event::SetAnimation { op_id, .. } => op_id.as_str(),
            Event::MoveTo { op_id, .. } => op_id.as_str(),
            Event::Sleep { op_id } => op_id.as_str(),
            Event::Sit { op_id } => op_id.as_str(),
            Event::CustomEvent { op_id, .. } => op_id.as_str(),
        }
    }
}

} // verus!
