//! The tables that a component shows the host: its methods and properties,
//! each under a wide-character name and at a fixed index.

use crate::error::AddinError;
use vstd::prelude::*;

verus! {

/// A method of a component: its name as the host writes it and the number
/// of arguments that it takes.
#[derive(Clone, Debug, PartialEq, Eq)]
pub struct MethodInfo {
    /// The name in UTF-16, closed by a zero unit as the host writes it.
    pub name: Vec<u16>,
    /// The number of arguments, the result cell not counted.
    pub arity: usize,
}

/// A method as a mathematical value.
pub struct MethodView {
    pub name: Seq<u16>,
    pub arity: nat,
}

impl View for MethodInfo {
    type V = MethodView;

    open spec fn view(&self) -> MethodView {
        MethodView { name: self.name@, arity: self.arity as nat }
    }
}

/// A property of a component: its name and whether it can be read and
/// written.
#[derive(Clone, Debug, PartialEq, Eq)]
pub struct PropInfo {
    /// The name in UTF-16, closed by a zero unit as the host writes it.
    pub name: Vec<u16>,
    /// Whether the property has a getter.
    pub readable: bool,
    /// Whether the property has a setter.
    pub writable: bool,
}

/// A property as a mathematical value.
pub struct PropView {
    pub name: Seq<u16>,
    pub readable: bool,
    pub writable: bool,
}

impl View for PropInfo {
    type V = PropView;

    open spec fn view(&self) -> PropView {
        PropView { name: self.name@, readable: self.readable, writable: self.writable }
    }
}

/// A table of methods as a sequence of mathematical values.
pub open spec fn method_views(table: Seq<MethodInfo>) -> Seq<MethodView> {
    table.map_values(|m: MethodInfo| m@)
}

/// A table of properties as a sequence of mathematical values.
pub open spec fn prop_views(table: Seq<PropInfo>) -> Seq<PropView> {
    table.map_values(|p: PropInfo| p@)
}

/// What the check of a method call finds: the index must name a method, and
/// the number of arguments must be its arity.
pub open spec fn call_checked(table: Seq<MethodView>, index: int, argc: int) -> Result<
    (),
    AddinError,
> {
    if !(0 <= index < table.len()) {
        Err(AddinError::UnknownMethod)
    } else if table[index].arity != argc {
        Err(AddinError::ArityMismatch)
    } else {
        Ok(())
    }
}

/// What the check of a property read finds: the index must name a property
/// that has a getter.
pub open spec fn get_checked(table: Seq<PropView>, index: int) -> Result<(), AddinError> {
    if !(0 <= index < table.len()) || !table[index].readable {
        Err(AddinError::UnknownProperty)
    } else {
        Ok(())
    }
}

/// What the check of a property write finds: the index must name a
/// property, and the property must have a setter.
pub open spec fn set_checked(table: Seq<PropView>, index: int) -> Result<(), AddinError> {
    if !(0 <= index < table.len()) {
        Err(AddinError::UnknownProperty)
    } else if !table[index].writable {
        Err(AddinError::ReadOnlyProperty)
    } else {
        Ok(())
    }
}

/// Whether no entry before `end` has the name `name`.
pub open spec fn absent_before(names: Seq<Seq<u16>>, name: Seq<u16>, end: int) -> bool {
    forall|j: int| 0 <= j < end && j < names.len() ==> names[j] != name
}

/// The index under which a name stands in a list of names: the first entry
/// that equals it.
pub open spec fn found(names: Seq<Seq<u16>>, name: Seq<u16>, at: Option<usize>) -> bool {
    match at {
        Some(i) => i < names.len() && names[i as int] == name && absent_before(
            names,
            name,
            i as int,
        ),
        None => absent_before(names, name, names.len() as int),
    }
}

/// The names of a table of methods, in the table's order.
pub open spec fn method_names(table: Seq<MethodInfo>) -> Seq<Seq<u16>> {
    table.map_values(|m: MethodInfo| m.name@)
}

/// The names of a table of properties, in the table's order.
pub open spec fn prop_names(table: Seq<PropInfo>) -> Seq<Seq<u16>> {
    table.map_values(|p: PropInfo| p.name@)
}

/// Whether two runs of code units are the same.
pub fn same_units(a: &[u16], b: &[u16]) -> (same: bool)
    ensures
        same == (a@ == b@),
{
    if a.len() != b.len() {
        return false;
    }
    let mut i: usize = 0;
    while i < a.len()
        invariant
            i <= a.len(),
            a.len() == b.len(),
            forall|j: int| 0 <= j < i ==> a@[j] == b@[j],
        decreases a.len() - i,
    {
        if a[i] != b[i] {
            return false;
        }
        i += 1;
    }
    assert(a@ =~= b@);
    true
}

/// The index of the method that the host calls `name`: the first in the
/// table with that name, or `None` where no method has it.
pub fn find_method(table: &[MethodInfo], name: &[u16]) -> (at: Option<usize>)
    ensures
        found(method_names(table@), name@, at),
{
    let mut i: usize = 0;
    while i < table.len()
        invariant
            i <= table.len(),
            absent_before(method_names(table@), name@, i as int),
        decreases table.len() - i,
    {
        if same_units(table[i].name.as_slice(), name) {
            return Some(i);
        }
        i += 1;
    }
    None
}

/// The index of the property that the host calls `name`: the first in the
/// table with that name, or `None` where no property has it.
pub fn find_property(table: &[PropInfo], name: &[u16]) -> (at: Option<usize>)
    ensures
        found(prop_names(table@), name@, at),
{
    let mut i: usize = 0;
    while i < table.len()
        invariant
            i <= table.len(),
            absent_before(prop_names(table@), name@, i as int),
        decreases table.len() - i,
    {
        if same_units(table[i].name.as_slice(), name) {
            return Some(i);
        }
        i += 1;
    }
    None
}

/// A call with the right number of arguments passes the check, and one with
/// any other number is an arity mismatch, whatever the arguments hold: the
/// check sees only how many there are.
pub proof fn lemma_arity_decides(table: Seq<MethodView>, index: int, argc: int)
    requires
        0 <= index < table.len(),
    ensures
        argc == table[index].arity ==> call_checked(table, index, argc) is Ok,
        argc != table[index].arity ==> call_checked(table, index, argc) == Err::<(), AddinError>(
            AddinError::ArityMismatch,
        ),
{
}

/// Checks a method call before any argument is looked at.
pub fn check_call(table: &[MethodInfo], index: usize, argc: usize) -> (r: Result<(), AddinError>)
    ensures
        r == call_checked(method_views(table@), index as int, argc as int),
{
    if index >= table.len() {
        Err(AddinError::UnknownMethod)
    } else if table[index].arity != argc {
        Err(AddinError::ArityMismatch)
    } else {
        Ok(())
    }
}

/// Checks a property read.
pub fn check_get(table: &[PropInfo], index: usize) -> (r: Result<(), AddinError>)
    ensures
        r == get_checked(prop_views(table@), index as int),
{
    if index >= table.len() || !table[index].readable {
        Err(AddinError::UnknownProperty)
    } else {
        Ok(())
    }
}

/// Checks a property write.
pub fn check_set(table: &[PropInfo], index: usize) -> (r: Result<(), AddinError>)
    ensures
        r == set_checked(prop_views(table@), index as int),
{
    if index >= table.len() {
        Err(AddinError::UnknownProperty)
    } else if !table[index].writable {
        Err(AddinError::ReadOnlyProperty)
    } else {
        Ok(())
    }
}

} // verus!
