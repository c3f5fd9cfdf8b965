use vstd::prelude::*;

verus! {

#[derive(Debug, Clone, Copy, PartialEq, Eq)]
pub enum NavigationKey {
    ArrowLeft,
    ArrowRight,
    ArrowUp,
    ArrowDown,
    Home,
    End,
    PageUp,
    PageDown,
}

/// One keyboard or focus event from the listener.
#[derive(Debug, Clone, PartialEq, Eq)]
pub enum InputEvent {
    /// Text typed by the user.
    Text(String),
    Backspace,
    Delete,
    Enter,
    Escape,
    Tab,
    Navigation(NavigationKey),
    MouseButton,
    /// A key combination with a modifier, by name.
    Shortcut(String),
    FocusChanged,
    SleepOrLock,
}

/// The text typed since the buffer was last cleared.
#[derive(Debug, Clone, Default)]
pub struct KeystrokeBuffer {
    text: String,
}

impl View for KeystrokeBuffer {
    type V = Seq<char>;

    closed spec fn view(&self) -> Seq<char> {
        self.text@
    }
}

impl KeystrokeBuffer {
    pub fn new() -> (b: KeystrokeBuffer)
        ensures
            b@ == Seq::<char>::empty(),
    {
        KeystrokeBuffer { text: String::new() }
    }

    pub fn append(&mut self, text: &str)
        ensures
            final(self)@ == old(self)@ + text@,
    {
        self.text.append(text);
    }

    /// Drops the last character, if any.
    pub fn backspace(&mut self)
        ensures
            final(self)@ == if old(self)@.len() == 0 {
                old(self)@
            } else {
                old(self)@.drop_last()
            },
    {
        let n = self.text.as_str().unicode_len();
        if n > 0 {
            let kept = String::from_str(self.text.as_str().substring_char(0, n - 1));
            self.text = kept;
        }
    }

    pub fn clear(&mut self)
        ensures
            final(self)@ == Seq::<char>::empty(),
    {
        self.text = String::new();
    }

    pub fn as_str(&self) -> (s: &str)
        ensures
            s@ == self@,
    {
        self.text.as_str()
    }
}

} // verus!

verus! {

/// A backspace takes back exactly one typed character.
pub proof fn lemma_backspace_undoes_one_character(typed: Seq<char>, c: char)
    ensures
        (typed + seq![c]).drop_last() == typed,
{
    assert((typed + seq![c]).drop_last() =~= typed);
}

} // verus!
