//! What can go wrong in a call from the host, and how it is described.

use vstd::prelude::*;

verus! {

/// A failed call. The host sees only a failure signal; the description is
/// kept for it to ask for afterwards.
#[derive(Clone, Debug, PartialEq, Eq)]
pub enum AddinError {
    /// A cell's tag is not the kind that was asked for.
    TypeMismatch,
    /// A number does not fit the width that it is converted to.
    RangeError,
    /// The number of arguments is not the method's arity.
    ArityMismatch,
    /// No method has the index that the host gave.
    UnknownMethod,
    /// No property has the index that the host gave.
    UnknownProperty,
    /// A property is written that has no setter.
    ReadOnlyProperty,
    /// An operation of the component failed; the text says how.
    NativeFailure(String),
}

/// An error as a mathematical value: its kind and, for a native failure,
/// the text that came with it.
pub enum ErrorView {
    TypeMismatch,
    RangeError,
    ArityMismatch,
    UnknownMethod,
    UnknownProperty,
    ReadOnlyProperty,
    NativeFailure(Seq<char>),
}

impl ErrorView {
    /// The text that describes the error to the host. It is never empty: a
    /// native failure without a text of its own is called an unknown error.
    pub open spec fn description(self) -> Seq<char> {
        match self {
            ErrorView::TypeMismatch => "Incompatible type"@,
            ErrorView::RangeError => "Value out of range"@,
            ErrorView::ArityMismatch => "Wrong number of parameters"@,
            ErrorView::UnknownMethod => "Unknown method"@,
            ErrorView::UnknownProperty => "Unknown property"@,
            ErrorView::ReadOnlyProperty => "Property is read-only"@,
            ErrorView::NativeFailure(text) => if text.len() > 0 {
                text
            } else {
                "Unknown error"@
            },
        }
    }
}

impl View for AddinError {
    type V = ErrorView;

    open spec fn view(&self) -> ErrorView {
        match *self {
            AddinError::TypeMismatch => ErrorView::TypeMismatch,
            AddinError::RangeError => ErrorView::RangeError,
            AddinError::ArityMismatch => ErrorView::ArityMismatch,
            AddinError::UnknownMethod => ErrorView::UnknownMethod,
            AddinError::UnknownProperty => ErrorView::UnknownProperty,
            AddinError::ReadOnlyProperty => ErrorView::ReadOnlyProperty,
            AddinError::NativeFailure(text) => ErrorView::NativeFailure(text@),
        }
    }
}

impl AddinError {

    /// The error's description as text.
    pub fn message(&self) -> (text: String)
        ensures
            text@ == self@.description(),
    {
        match self {
            AddinError::TypeMismatch => "Incompatible type".to_owned(),
            AddinError::RangeError => "Value out of range".to_owned(),
            AddinError::ArityMismatch => "Wrong number of parameters".to_owned(),
            AddinError::UnknownMethod => "Unknown method".to_owned(),
            AddinError::UnknownProperty => "Unknown property".to_owned(),
            AddinError::ReadOnlyProperty => "Property is read-only".to_owned(),
            AddinError::NativeFailure(text) => if text.as_str().is_empty() {
                "Unknown error".to_owned()
            } else {
                text.clone()
            },
        }
    }
}

/// Every error has something to say: no description is empty.
pub proof fn lemma_description_nonempty(err: ErrorView)
    ensures
        err.description().len() > 0,
{
    reveal_strlit("Incompatible type");
    reveal_strlit("Value out of range");
    reveal_strlit("Wrong number of parameters");
    reveal_strlit("Unknown method");
    reveal_strlit("Unknown property");
    reveal_strlit("Property is read-only");
    reveal_strlit("Unknown error");
}

} // verus!
