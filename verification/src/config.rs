use vstd::prelude::*;

verus! {

/// A colour theme, known to this library by its name.
#[derive(Clone, Debug)]
pub struct Theme {
    pub name: String,
}

/// A sequence of key presses, each in its textual form (such as `g` or `C-c`).
#[derive(Clone, Debug)]
pub struct KeySequence {
    pub keys: Vec<String>,
}

/// A key binding: the key sequence and the name of the command it triggers
/// (`None` for a binding that triggers nothing).
#[derive(Clone, Debug)]
pub struct Keymap {
    pub key_sequence: KeySequence,
    pub command: String,
}

impl View for KeySequence {
    type V = Seq<Seq<char>>;

    open spec fn view(&self) -> Seq<Seq<char>> {
        self.keys@.map_values(|k: String| k@)
    }
}

impl View for Keymap {
    type V = (Seq<Seq<char>>, Seq<char>);

    open spec fn view(&self) -> (Seq<Seq<char>>, Seq<char>) {
        (self.key_sequence@, self.command@)
    }
}

impl KeySequence {
    /// The empty key sequence.
    pub fn empty() -> (ks: KeySequence)
        ensures
            ks@ == Seq::<Seq<char>>::empty(),
    {
        KeySequence { keys: Vec::new() }
    }
}

} // verus!
