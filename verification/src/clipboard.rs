use vstd::prelude::*;

use crate::text::{copy_opt_text, opt_text};

verus! {

/// The clipboard's text content at one moment.
#[derive(Debug, Clone, PartialEq, Eq)]
pub struct ClipboardSnapshot {
    pub text: Option<String>,
}

#[derive(Debug, Clone, Copy, PartialEq, Eq, Structural)]
pub enum ClipboardError {
    Unavailable,
}

/// Access to the system clipboard.
pub trait ClipboardBackend {
    fn snapshot(&mut self) -> Result<ClipboardSnapshot, ClipboardError>;

    fn get_text(&mut self) -> Result<Option<String>, ClipboardError>;

    fn set_text(&mut self, text: &str) -> Result<(), ClipboardError>;

    fn restore(&mut self, snapshot: &ClipboardSnapshot) -> Result<(), ClipboardError>;
}

/// A clipboard held in memory.
#[derive(Debug, Clone, Default)]
pub struct MemoryClipboard {
    text: Option<String>,
}

impl MemoryClipboard {
    pub fn new(text: Option<String>) -> (c: MemoryClipboard)
        ensures
            c.content() == opt_text(text),
    {
        MemoryClipboard { text }
    }

    /// The text the clipboard holds.
    pub closed spec fn content(&self) -> Option<Seq<char>> {
        opt_text(self.text)
    }

    pub fn text(&self) -> (t: Option<String>)
        ensures
            opt_text(t) == self.content(),
    {
        copy_opt_text(&self.text)
    }
}

impl ClipboardBackend for MemoryClipboard {
    fn snapshot(&mut self) -> (r: Result<ClipboardSnapshot, ClipboardError>)
        ensures
            final(self).content() == old(self).content(),
            r matches Ok(s) && opt_text(s.text) == old(self).content(),
    {
        Ok(ClipboardSnapshot { text: copy_opt_text(&self.text) })
    }

    fn get_text(&mut self) -> (r: Result<Option<String>, ClipboardError>)
        ensures
            final(self).content() == old(self).content(),
            r matches Ok(t) && opt_text(t) == old(self).content(),
    {
        Ok(copy_opt_text(&self.text))
    }

    fn set_text(&mut self, text: &str) -> (r: Result<(), ClipboardError>)
        ensures
            final(self).content() == Some(text@),
            r is Ok,
    {
        self.text = Some(String::from_str(text));
        Ok(())
    }

    fn restore(&mut self, snapshot: &ClipboardSnapshot) -> (r: Result<(), ClipboardError>)
        ensures
            final(self).content() == opt_text(snapshot.text),
            r is Ok,
    {
        self.text = copy_opt_text(&snapshot.text);
        Ok(())
    }
}

} // verus!
