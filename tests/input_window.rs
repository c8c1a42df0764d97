use shader_ffi::input::{Action, Axis, AxisId, AxisScale, Input, InputMap, InputVariants, Key, Mods};
use shader_ffi::window::{WindowPosition, WindowSize};
use std::collections::HashMap;

const NO_MODS: Mods = Mods { ctrl: false, alt: false, shift: false };

#[test]
fn split_general_modifier_action() {
    let i = Input::Action(Action::new(Key::Ctrl, NO_MODS));
    let (l, r) = i.split_general_mod().unwrap();
    assert_eq!(l, Input::Action(Action::new(Key::LeftCtrl, NO_MODS)));
    assert_eq!(r, Input::Action(Action::new(Key::RightCtrl, NO_MODS)));
    assert_eq!(l.normalized(), i);
    assert_eq!(r.normalized(), i);
}

#[test]
fn split_general_modifier_axis() {
    let mods = Mods { ctrl: true, alt: false, shift: false };
    let i = Input::Axis(Axis::new(AxisId::Key(Key::Shift), AxisScale::Negative, mods));
    let (l, r) = i.split_general_mod().unwrap();
    assert_eq!(l, Input::Axis(Axis::new(AxisId::Key(Key::LeftShift), AxisScale::Negative, mods)));
    assert_eq!(r, Input::Axis(Axis::new(AxisId::Key(Key::RightShift), AxisScale::Negative, mods)));
}

#[test]
fn other_inputs_do_not_split() {
    assert!(Input::Action(Action::new(Key::Code(65), NO_MODS)).split_general_mod().is_none());
    assert!(Input::Action(Action::new(Key::LeftAlt, NO_MODS)).split_general_mod().is_none());
    let mouse = Input::Axis(Axis::new(AxisId::MouseX, AxisScale::Positive, NO_MODS));
    assert!(mouse.split_general_mod().is_none());
    assert_eq!(mouse.normalized(), mouse);
}

#[test]
fn normalized_maps_sided_keys() {
    let i = Input::Action(Action::new(Key::RightAlt, NO_MODS));
    assert_eq!(i.normalized(), Input::Action(Action::new(Key::Alt, NO_MODS)));
    let k = Input::Action(Action::new(Key::Code(7), NO_MODS));
    assert_eq!(k.normalized(), k);
}

#[test]
fn variants_into_inputs() {
    let v = InputVariants::Action(vec![Action::new(Key::Code(1), NO_MODS), Action::new(Key::Alt, NO_MODS)]);
    let inputs = v.into_inputs();
    assert_eq!(inputs.len(), 2);
    assert_eq!(inputs[1], Input::Action(Action::new(Key::Alt, NO_MODS)));
}

#[test]
fn input_map_holds_its_entries() {
    let mut m = HashMap::new();
    m.insert(3u32, InputVariants::Axis(vec![]));
    let map = InputMap::new(m);
    assert_eq!(map.hash_map().len(), 1);
    assert_eq!(map.hash_map().get(&3), Some(&InputVariants::Axis(vec![])));
}

#[test]
fn window_texts() {
    assert_eq!(WindowSize { width: 800, height: 600 }.to_text(), "(width = 800, height = 600)");
    assert_eq!(WindowPosition { x: -32768, y: 5 }.to_text(), "(x = -32768, y = 5)");
    assert_eq!(WindowPosition { x: 0, y: 0 }.to_text(), "(x = 0, y = 0)");
}
