//! Keyboard steering: a configurable map from key presses to steering
//! buttons, and the publishing side's bookkeeping.  Reading raw terminal
//! input and publishing over a message bus live with the embedding
//! program; only the translation logic is here.

use crate::gamepad::{Button, GamepadReciever, GamepadSender};
use std::collections::HashMap;
use std::sync::atomic::AtomicBool;
use std::sync::Arc;
use vstd::prelude::*;
use vstd::std_specs::hash::obeys_key_model;

verus! {

broadcast use vstd::std_specs::hash::group_hash_axioms;

/// The receiving side: translates key presses into buttons using its
/// configured map.
pub struct KeyboardRecieve {
    button_map: HashMap<char, Button>,
    topic_name: String,
}

impl KeyboardRecieve {
    /// The configured key-to-button map.
    pub closed spec fn spec_buttons(&self) -> Map<char, Button> {
        self.button_map@
    }

    /// The topic this receiver listens on.
    pub closed spec fn spec_topic(&self) -> Seq<char> {
        self.topic_name@
    }

    pub fn new(topic: String, button_map: HashMap<char, Button>) -> (r: KeyboardRecieve)
        ensures
            r.spec_buttons() == button_map@,
            r.spec_topic() == topic@,
    {
        KeyboardRecieve { topic_name: topic, button_map }
    }

    /// The button a key press maps to, and `UNDEFINED` for a key the map
    /// does not know.  (The standard map promises this correspondence
    /// only under its key model, which covers equality-respecting keys
    /// such as `char`.)
    pub fn translate(&self, keypress: &char) -> (r: Button)
        ensures
            obeys_key_model::<char>() ==> r == (if self.spec_buttons().contains_key(*keypress) {
                self.spec_buttons()[*keypress]
            } else {
                Button::UNDEFINED
            }),
    {
        match self.button_map.get(keypress) {
            Some(button) => *button,
            None => Button::UNDEFINED,
        }
    }
}

impl GamepadReciever for KeyboardRecieve {
    fn get_message(&self) {
    }

    fn translate(&self, keypress: &char) -> Button {
        KeyboardRecieve::translate(self, keypress)
    }

    fn has_message(&self) {
    }
}

/// The publishing side: owns the flag that keeps the key stream running
/// and the topic it publishes to.  The stream itself — raw terminal
/// reads and bus publishing — is the embedding program's loop.
pub struct KeyboardSender {
    kb_stream_on: Arc<AtomicBool>,
    topic_name: String,
}

impl KeyboardSender {
    /// The topic this sender publishes on.
    pub closed spec fn spec_topic(&self) -> Seq<char> {
        self.topic_name@
    }

    pub fn new(topic_name: String) -> (r: KeyboardSender)
        ensures
            r.spec_topic() == topic_name@,
    {
        KeyboardSender { kb_stream_on: Arc::new(AtomicBool::new(false)), topic_name }
    }

    /// The topic this sender publishes on.
    pub fn topic_name(&self) -> (r: &String)
        ensures
            r@ == self.spec_topic(),
    {
        &self.topic_name
    }

    /// Whether the key stream is running.
    pub fn stream_on(&self) -> bool {
        crate::channels::flag_load(&self.kb_stream_on)
    }

    pub fn send_message(&self, _msg: &str) {
    }
}

impl GamepadSender for KeyboardSender {
    fn send_message(&self) {
    }
}

/// The default steering layout: `w`/`a`/`s`/`d` for the four directions,
/// `<`/`>` for the two turning senses, `t` to shift mode.
pub fn default_buttons() -> (r: HashMap<char, Button>)
    ensures
        obeys_key_model::<char>() ==> r@ == map![
            'w' => Button::FORWARD,
            'a' => Button::LEFT,
            's' => Button::BACKWARD,
            'd' => Button::RIGHT,
            '<' => Button::CCW,
            '>' => Button::CW,
            't' => Button::MODE_SHIFT,
        ],
{
    let mut buttons: HashMap<char, Button> = HashMap::new();
    buttons.insert('w', Button::FORWARD);
    buttons.insert('a', Button::LEFT);
    buttons.insert('s', Button::BACKWARD);
    buttons.insert('d', Button::RIGHT);
    buttons.insert('<', Button::CCW);
    buttons.insert('>', Button::CW);
    buttons.insert('t', Button::MODE_SHIFT);
    proof {
        if obeys_key_model::<char>() {
            assert(buttons@ =~= map![
                'w' => Button::FORWARD,
                'a' => Button::LEFT,
                's' => Button::BACKWARD,
                'd' => Button::RIGHT,
                '<' => Button::CCW,
                '>' => Button::CW,
                't' => Button::MODE_SHIFT,
            ]);
        }
    }
    buttons
}

} // verus!
