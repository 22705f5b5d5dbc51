//! The error slot: where a component keeps the description of its last
//! failed call until the host asks for it.

use crate::error::{lemma_description_nonempty, AddinError, ErrorView};
use crate::utf16::{encode, lemma_encode_len};
use crate::value::{Value, ValueView};
use vstd::prelude::*;

verus! {

/// The text that a slot shows: the description of the error that it keeps,
/// or nothing where it keeps none.
pub open spec fn described(slot: Option<ErrorView>) -> Seq<char> {
    match slot {
        Some(err) => err.description(),
        None => Seq::empty(),
    }
}

/// At most one error, kept for the host to read.
pub struct ErrorSlot {
    last: Option<AddinError>,
}

impl View for ErrorSlot {
    type V = Option<ErrorView>;

    closed spec fn view(&self) -> Option<ErrorView> {
        match self.last {
            Some(err) => Some(err@),
            None => None,
        }
    }
}

impl ErrorSlot {
    /// A slot that keeps nothing.
    pub fn new() -> (slot: ErrorSlot)
        ensures
            slot@ is None,
    {
        ErrorSlot { last: None }
    }

    /// Keeps `err` in place of whatever was kept.
    pub fn record(&mut self, err: AddinError)
        ensures
            final(self)@ == Some(err@),
    {
        self.last = Some(err);
    }

    /// Forgets what was kept.
    pub fn clear(&mut self)
        ensures
            final(self)@ is None,
    {
        self.last = None;
    }

    /// Keeps `err`, or nothing where `err` is `None`.
    pub fn save(&mut self, err: Option<AddinError>)
        ensures
            match err {
                Some(e) => final(self)@ == Some(e@),
                None => final(self)@ is None,
            },
    {
        self.last = err;
    }

    /// The text that the slot shows.
    pub fn describe(&self) -> (text: String)
        ensures
            text@ == described(self@),
    {
        match &self.last {
            Some(err) => err.message(),
            None => String::new(),
        }
    }

    /// The slot as the host reads it: a wide string with the description,
    /// empty where nothing is kept.
    pub fn render(&self) -> (value: Value)
        ensures
            value@ == ValueView::Str(encode(described(self@))),
    {
        let text = self.describe();
        Value::from_text(text.as_str())
    }
}

/// A slot that keeps an error shows a text that is not empty; a slot that
/// keeps none shows the empty text.
pub proof fn lemma_described(slot: Option<ErrorView>)
    ensures
        slot is Some ==> encode(described(slot)).len() > 0,
        slot is None ==> encode(described(slot)).len() == 0,
{
    if let Some(err) = slot {
        lemma_description_nonempty(err);
    }
    lemma_encode_len(described(slot));
}

} // verus!
