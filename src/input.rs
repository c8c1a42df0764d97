use vstd::prelude::*;
use std::collections::HashMap;
use std::hash::Hash;

verus! {

/// A keyboard key. The modifiers come as general keys (`Ctrl`) and as the
/// sided keys that some systems report (`LeftCtrl`, `RightCtrl`).
#[derive(PartialEq, Eq, Structural, Clone, Copy, Debug, Hash)]
pub enum Key {
    Ctrl,
    LeftCtrl,
    RightCtrl,
    Alt,
    LeftAlt,
    RightAlt,
    Shift,
    LeftShift,
    RightShift,
    /// Any other key, by its code.
    Code(u32),
}

/// The modifiers held with an input.
#[derive(PartialEq, Eq, Structural, Clone, Copy, Debug, Hash)]
pub struct Mods {
    pub ctrl: bool,
    pub alt: bool,
    pub shift: bool,
}

/// The direction in which an axis input moves its axis.
#[derive(PartialEq, Eq, Structural, Clone, Copy, Debug, Hash)]
pub enum AxisScale {
    Positive,
    Negative,
}

/// What drives an axis.
#[derive(PartialEq, Eq, Structural, Clone, Copy, Debug, Hash)]
pub enum AxisId {
    Key(Key),
    MouseX,
    MouseY,
    Wheel,
}

/// An input bound to an axis.
#[derive(PartialEq, Eq, Structural, Clone, Copy, Debug, Hash)]
pub struct Axis {
    pub id: AxisId,
    pub scale: AxisScale,
    pub mods: Mods,
}

/// An input bound to an action.
#[derive(PartialEq, Eq, Structural, Clone, Copy, Debug, Hash)]
pub struct Action {
    pub key: Key,
    pub mods: Mods,
}

/// The general key for a sided modifier key; any other key is kept.
pub open spec fn general_key(k: Key) -> Key {
    match k {
        Key::LeftCtrl | Key::RightCtrl => Key::Ctrl,
        Key::LeftAlt | Key::RightAlt => Key::Alt,
        Key::LeftShift | Key::RightShift => Key::Shift,
        _ => k,
    }
}

/// The left and right keys of a general modifier key.
pub open spec fn sided_keys(k: Key) -> Option<(Key, Key)> {
    match k {
        Key::Ctrl => Some((Key::LeftCtrl, Key::RightCtrl)),
        Key::Alt => Some((Key::LeftAlt, Key::RightAlt)),
        Key::Shift => Some((Key::LeftShift, Key::RightShift)),
        _ => None,
    }
}

impl Key {
    /// The general key for `self`.
    pub fn normalized(&self) -> (r: Key)
        ensures
            r == general_key(*self),
    {
        match self {
            Key::LeftCtrl | Key::RightCtrl => Key::Ctrl,
            Key::LeftAlt | Key::RightAlt => Key::Alt,
            Key::LeftShift | Key::RightShift => Key::Shift,
            _ => *self,
        }
    }

    /// The left and right keys of a general modifier, or `None`.
    pub fn split_general_mod(&self) -> (r: Option<(Key, Key)>)
        ensures
            r == sided_keys(*self),
    {
        match self {
            Key::Ctrl => Some((Key::LeftCtrl, Key::RightCtrl)),
            Key::Alt => Some((Key::LeftAlt, Key::RightAlt)),
            Key::Shift => Some((Key::LeftShift, Key::RightShift)),
            _ => None,
        }
    }
}

impl Axis {
    pub fn new(id: AxisId, scale: AxisScale, mods: Mods) -> (r: Axis)
        ensures
            r == (Axis { id, scale, mods }),
    {
        Axis { id, scale, mods }
    }

    pub fn axis_id(&self) -> (r: AxisId)
        ensures
            r == self.id,
    {
        self.id
    }

    pub fn scale(&self) -> (r: AxisScale)
        ensures
            r == self.scale,
    {
        self.scale
    }

    pub fn mods(&self) -> (r: Mods)
        ensures
            r == self.mods,
    {
        self.mods
    }
}

impl Action {
    pub fn new(key: Key, mods: Mods) -> (r: Action)
        ensures
            r == (Action { key, mods }),
    {
        Action { key, mods }
    }

    pub fn key(&self) -> (r: Key)
        ensures
            r == self.key,
    {
        self.key
    }

    pub fn mods(&self) -> (r: Mods)
        ensures
            r == self.mods,
    {
        self.mods
    }
}

/// An input of the input map: an axis or an action.
#[derive(PartialEq, Eq, Structural, Clone, Copy, Debug, Hash)]
pub enum Input {
    Axis(Axis),
    Action(Action),
}

/// `i` with a key axis or an action key replaced by its general key.
pub open spec fn normalized_input(i: Input) -> Input {
    match i {
        Input::Axis(a) => match a.id {
            AxisId::Key(k) => Input::Axis(Axis { id: AxisId::Key(general_key(k)), ..a }),
            _ => i,
        },
        Input::Action(a) => Input::Action(Action { key: general_key(a.key), ..a }),
    }
}

/// `i` with a general modifier key replaced by its left key and by its
/// right key, other fields kept; `None` where `i` has no such key.
pub open spec fn split_input(i: Input) -> Option<(Input, Input)> {
    match i {
        Input::Axis(a) => match a.id {
            AxisId::Key(k) => match sided_keys(k) {
                Some((l, r)) => Some(
                    (
                        Input::Axis(Axis { id: AxisId::Key(l), ..a }),
                        Input::Axis(Axis { id: AxisId::Key(r), ..a }),
                    ),
                ),
                None => None,
            },
            _ => None,
        },
        Input::Action(a) => match sided_keys(a.key) {
            Some((l, r)) => Some(
                (Input::Action(Action { key: l, ..a }), Input::Action(Action { key: r, ..a })),
            ),
            None => None,
        },
    }
}

impl Input {
    /// Transforms system-specific keys to general keys.
    pub fn normalized(&self) -> (r: Input)
        ensures
            r == normalized_input(*self),
    {
        match self {
            Input::Axis(axis) => match axis.axis_id() {
                AxisId::Key(key) => Input::Axis(
                    Axis::new(AxisId::Key(key.normalized()), axis.scale(), axis.mods()),
                ),
                _ => *self,
            },
            Input::Action(action) => Input::Action(Action::new(action.key().normalized(), action.mods())),
        }
    }

    /// Splits `Ctrl`, `Alt` or `Shift` to left and right.
    pub fn split_general_mod(&self) -> (r: Option<(Input, Input)>)
        ensures
            r == split_input(*self),
    {
        match self {
            Input::Axis(axis) => match axis.axis_id() {
                AxisId::Key(key) => match key.split_general_mod() {
                    Some((left, right)) => Some(
                        (
                            Input::Axis(Axis::new(AxisId::Key(left), axis.scale(), axis.mods())),
                            Input::Axis(Axis::new(AxisId::Key(right), axis.scale(), axis.mods())),
                        ),
                    ),
                    None => None,
                },
                _ => None,
            },
            Input::Action(action) => match action.key().split_general_mod() {
                Some((left, right)) => Some(
                    (
                        Input::Action(Action::new(left, action.mods())),
                        Input::Action(Action::new(right, action.mods())),
                    ),
                ),
                None => None,
            },
        }
    }
}

/// Both inputs that a general modifier splits into normalize back to the
/// input that was split.
pub proof fn lemma_split_parts_normalize_back(i: Input)
    ensures
        split_input(i) matches Some((l, r)) ==> normalized_input(l) == i && normalized_input(r) == i,
{
}

/// The inputs bound to one entry of an input map: all axes or all actions.
#[derive(PartialEq, Eq, Clone, Debug)]
pub enum InputVariants {
    Axis(Vec<Axis>),
    Action(Vec<Action>),
}

/// What an input of the map holds: an axis with its direction, or an action.
#[derive(PartialEq, Eq, Structural, Clone, Copy, Debug)]
pub enum InputKind {
    Axis(AxisScale),
    Action,
}

impl InputVariants {
    /// The bound inputs, in order, each as an `Input`.
    pub fn into_inputs(self) -> (r: Vec<Input>)
        ensures
            match self {
                InputVariants::Axis(v) => r@ == v@.map_values(|a: Axis| Input::Axis(a)),
                InputVariants::Action(v) => r@ == v@.map_values(|a: Action| Input::Action(a)),
            },
    {
        let mut r: Vec<Input> = Vec::new();
        match &self {
            InputVariants::Axis(v) => {
                let mut i: usize = 0;
                while i < v.len()
                    invariant
                        0 <= i <= v@.len(),
                        r@ == v@.take(i as int).map_values(|a: Axis| Input::Axis(a)),
                    decreases v@.len() - i,
                {
                    r.push(Input::Axis(v[i]));
                    i = i + 1;
                    assert(r@ =~= v@.take(i as int).map_values(|a: Axis| Input::Axis(a)));
                }
                assert(v@.take(v@.len() as int) =~= v@);
            },
            InputVariants::Action(v) => {
                let mut i: usize = 0;
                while i < v.len()
                    invariant
                        0 <= i <= v@.len(),
                        r@ == v@.take(i as int).map_values(|a: Action| Input::Action(a)),
                    decreases v@.len() - i,
                {
                    r.push(Input::Action(v[i]));
                    i = i + 1;
                    assert(r@ =~= v@.take(i as int).map_values(|a: Action| Input::Action(a)));
                }
                assert(v@.take(v@.len() as int) =~= v@);
            },
        }
        r
    }
}

/// The inputs bound to each input id.
pub struct InputMap<Id: Hash + Eq> {
    input_map: HashMap<Id, InputVariants>,
}

impl<Id: Hash + Eq> InputMap<Id> {
    pub fn new(input_map: HashMap<Id, InputVariants>) -> (r: Self)
        ensures
            r.map() == input_map,
    {
        InputMap { input_map }
    }

    pub closed spec fn map(&self) -> HashMap<Id, InputVariants> {
        self.input_map
    }

    pub fn hash_map(&self) -> (r: &HashMap<Id, InputVariants>)
        ensures
            *r == self.map(),
    {
        &self.input_map
    }
}

} // verus!
