use vstd::prelude::*;

verus! {

/// A head movement: one cell towards lower or higher positions.
#[derive(Debug, Clone, Copy, PartialEq, Eq, Structural)]
pub enum Direction {
    Left,
    Right,
}

impl Direction {
    /// The direction that undoes this one.
    pub fn opposite(self) -> (r: Direction)
        ensures
            r == self.spec_opposite(),
    {
        match self {
            Direction::Left => Direction::Right,
            Direction::Right => Direction::Left,
        }
    }

    pub open spec fn spec_opposite(self) -> Direction {
        match self {
            Direction::Left => Direction::Right,
            Direction::Right => Direction::Left,
        }
    }
}

/// Abstract form of a transition: symbols and state names as character
/// sequences.
pub ghost struct TransitionModel {
    pub read: Seq<char>,
    pub to_state: Seq<char>,
    pub write: Seq<char>,
    pub action: Direction,
}

/// One rule of the table: in its state, reading `read`, write `write`, move
/// by `action` and go to `to_state`.
#[derive(Debug, Clone)]
pub struct Transition {
    pub read: String,
    pub to_state: String,
    pub write: String,
    pub action: Direction,
}

impl View for Transition {
    type V = TransitionModel;

    open spec fn view(&self) -> TransitionModel {
        TransitionModel {
            read: self.read@,
            to_state: self.to_state@,
            write: self.write@,
            action: self.action,
        }
    }
}

/// The character sequences of a list of names.
pub open spec fn names(v: Seq<String>) -> Seq<Seq<char>> {
    v.map_values(|s: String| s@)
}

/// The rules of one state, in declaration order.
pub open spec fn rules(v: Seq<Transition>) -> Seq<TransitionModel> {
    v.map_values(|t: Transition| t@)
}

/// Abstract form of a machine description.
pub ghost struct MachineModel {
    pub name: Seq<char>,
    pub alphabet: Seq<Seq<char>>,
    pub blank: Seq<char>,
    pub states: Seq<Seq<char>>,
    pub initial: Seq<char>,
    pub finals: Seq<Seq<char>>,
    pub transitions: Seq<(Seq<char>, Seq<TransitionModel>)>,
}

/// A machine description: alphabet, blank, states, initial and final states
/// and, for each listed state, its rules in declaration order.
#[derive(Debug, Clone)]
pub struct Machine {
    pub name: String,
    pub alphabet: Vec<String>,
    pub blank: String,
    pub states: Vec<String>,
    pub initial: String,
    pub finals: Vec<String>,
    pub transitions: Vec<(String, Vec<Transition>)>,
}

impl View for Machine {
    type V = MachineModel;

    open spec fn view(&self) -> MachineModel {
        MachineModel {
            name: self.name@,
            alphabet: names(self.alphabet@),
            blank: self.blank@,
            states: names(self.states@),
            initial: self.initial@,
            finals: names(self.finals@),
            transitions: self.transitions@.map_values(
                |e: (String, Vec<Transition>)| (e.0@, rules(e.1@)),
            ),
        }
    }
}

} // verus!
