//! The value cell: the tagged union in which the host hands over arguments
//! and takes results.

use crate::error::{AddinError, ErrorView};
use crate::utf16::{decode, decode_units, encode, encode_short, lemma_decode_encode};
use vstd::prelude::*;
use vstd::slice::slice_to_vec;

verus! {

/// A broken-down date and time, as the host's calendar structure holds it.
#[derive(Clone, Copy, Debug, PartialEq, Eq, Structural)]
pub struct Date {
    /// Seconds after the minute.
    pub sec: i32,
    /// Minutes after the hour.
    pub min: i32,
    /// Hours since midnight.
    pub hour: i32,
    /// Day of the month.
    pub mday: i32,
    /// Months since January.
    pub mon: i32,
    /// Years since 1900.
    pub year: i32,
    /// Days since Sunday.
    pub wday: i32,
    /// Days since the first of January.
    pub yday: i32,
    /// Daylight saving time flag.
    pub isdst: i32,
}

/// The tag of a cell.
#[derive(Clone, Copy, Debug, PartialEq, Eq, Structural)]
pub enum Kind {
    Empty,
    Bool,
    I32,
    F64,
    Date,
    Narrow,
    Str,
    Blob,
}

/// A value cell. The tag decides which accessor answers; every other
/// accessor reports a type mismatch.
#[derive(Clone, Debug, PartialEq, Eq)]
pub enum Value {
    /// No value.
    Empty,
    /// A boolean.
    Bool(bool),
    /// A 32-bit signed integer.
    I32(i32),
    /// A 64-bit float, held as its IEEE 754 bit pattern.
    F64(u64),
    /// A date and time.
    Date(Date),
    /// A narrow string: bytes in the host's own encoding.
    Narrow(Vec<u8>),
    /// A wide string: UTF-16 code units, with no terminator.
    Str(Vec<u16>),
    /// A binary blob.
    Blob(Vec<u8>),
}

/// What a cell holds, as a mathematical value.
pub enum ValueView {
    Empty,
    Bool(bool),
    I32(i32),
    F64(u64),
    Date(Date),
    Narrow(Seq<u8>),
    Str(Seq<u16>),
    Blob(Seq<u8>),
}

impl ValueView {
    /// The tag of the cell.
    pub open spec fn kind(self) -> Kind {
        match self {
            ValueView::Empty => Kind::Empty,
            ValueView::Bool(_) => Kind::Bool,
            ValueView::I32(_) => Kind::I32,
            ValueView::F64(_) => Kind::F64,
            ValueView::Date(_) => Kind::Date,
            ValueView::Narrow(_) => Kind::Narrow,
            ValueView::Str(_) => Kind::Str,
            ValueView::Blob(_) => Kind::Blob,
        }
    }

    /// Reading the cell as `kind`: the cell itself where that is its tag, a
    /// type mismatch where it is not.
    pub open spec fn read_as(self, kind: Kind) -> Result<ValueView, ErrorView> {
        if self.kind() == kind {
            Ok(self)
        } else {
            Err(ErrorView::TypeMismatch)
        }
    }

    /// Reading the cell as text: strict decoding of a wide string.
    pub open spec fn read_text(self) -> Result<Seq<char>, ErrorView> {
        match self {
            ValueView::Str(units) => match decode(units) {
                Some(text) => Ok(text),
                None => Err(ErrorView::NativeFailure("Invalid UTF-16 text"@)),
            },
            _ => Err(ErrorView::TypeMismatch),
        }
    }

    /// The cell that holds the integer `n`, where `n` fits the host's
    /// integer width.
    pub open spec fn of_integer(n: int) -> Option<ValueView> {
        if i32::MIN <= n <= i32::MAX {
            Some(ValueView::I32(n as i32))
        } else {
            None
        }
    }

    /// The cell that holds `text` as a wide string.
    pub open spec fn of_text(text: Seq<char>) -> ValueView {
        ValueView::Str(encode(text))
    }
}

impl View for Value {
    type V = ValueView;

    open spec fn view(&self) -> ValueView {
        match *self {
            Value::Empty => ValueView::Empty,
            Value::Bool(b) => ValueView::Bool(b),
            Value::I32(n) => ValueView::I32(n),
            Value::F64(bits) => ValueView::F64(bits),
            Value::Date(date) => ValueView::Date(date),
            Value::Narrow(bytes) => ValueView::Narrow(bytes@),
            Value::Str(units) => ValueView::Str(units@),
            Value::Blob(bytes) => ValueView::Blob(bytes@),
        }
    }
}

impl Value {
    /// The cell's tag.
    pub fn kind(&self) -> (kind: Kind)
        ensures
            kind == self@.kind(),
    {
        match self {
            Value::Empty => Kind::Empty,
            Value::Bool(_) => Kind::Bool,
            Value::I32(_) => Kind::I32,
            Value::F64(_) => Kind::F64,
            Value::Date(_) => Kind::Date,
            Value::Narrow(_) => Kind::Narrow,
            Value::Str(_) => Kind::Str,
            Value::Blob(_) => Kind::Blob,
        }
    }

    /// Reads the cell as `kind`: the cell itself where that is its tag.
    pub fn read_as(&self, kind: Kind) -> (r: Result<&Value, AddinError>)
        ensures
            match (r, self@.read_as(kind)) {
                (Ok(got), Ok(value)) => got@ == value,
                (Err(err), Err(why)) => err@ == why,
                _ => false,
            },
    {
        if self.kind() == kind {
            Ok(self)
        } else {
            Err(AddinError::TypeMismatch)
        }
    }

    /// Succeeds on an empty cell and on no other.
    pub fn read_as_empty(&self) -> (r: Result<(), AddinError>)
        ensures
            self@ is Empty ==> r is Ok,
            !(self@ is Empty) ==> r == Err::<(), AddinError>(AddinError::TypeMismatch),
    {
        match self {
            Value::Empty => Ok(()),
            _ => Err(AddinError::TypeMismatch),
        }
    }

    /// The boolean in a boolean cell.
    pub fn read_as_bool(&self) -> (r: Result<bool, AddinError>)
        ensures
            self@ matches ValueView::Bool(b) ==> r == Ok::<bool, AddinError>(b),
            !(self@ is Bool) ==> r == Err::<bool, AddinError>(AddinError::TypeMismatch),
    {
        match self {
            Value::Bool(b) => Ok(*b),
            _ => Err(AddinError::TypeMismatch),
        }
    }

    /// The integer in an integer cell.
    pub fn read_as_i32(&self) -> (r: Result<i32, AddinError>)
        ensures
            self@ matches ValueView::I32(n) ==> r == Ok::<i32, AddinError>(n),
            !(self@ is I32) ==> r == Err::<i32, AddinError>(AddinError::TypeMismatch),
    {
        match self {
            Value::I32(n) => Ok(*n),
            _ => Err(AddinError::TypeMismatch),
        }
    }

    /// The bit pattern of the float in a float cell.
    pub fn read_as_f64_bits(&self) -> (r: Result<u64, AddinError>)
        ensures
            self@ matches ValueView::F64(bits) ==> r == Ok::<u64, AddinError>(bits),
            !(self@ is F64) ==> r == Err::<u64, AddinError>(AddinError::TypeMismatch),
    {
        match self {
            Value::F64(bits) => Ok(*bits),
            _ => Err(AddinError::TypeMismatch),
        }
    }

    /// The date in a date cell.
    pub fn read_as_date(&self) -> (r: Result<Date, AddinError>)
        ensures
            self@ matches ValueView::Date(date) ==> r == Ok::<Date, AddinError>(date),
            !(self@ is Date) ==> r == Err::<Date, AddinError>(AddinError::TypeMismatch),
    {
        match self {
            Value::Date(date) => Ok(*date),
            _ => Err(AddinError::TypeMismatch),
        }
    }

    /// The bytes of a narrow-string cell.
    pub fn read_as_narrow(&self) -> (r: Result<&[u8], AddinError>)
        ensures
            self@ matches ValueView::Narrow(bytes) ==> (r matches Ok(got) && got@ == bytes),
            !(self@ is Narrow) ==> r == Err::<&[u8], AddinError>(AddinError::TypeMismatch),
    {
        match self {
            Value::Narrow(bytes) => Ok(bytes.as_slice()),
            _ => Err(AddinError::TypeMismatch),
        }
    }

    /// The code units of a wide-string cell, as the host wrote them.
    pub fn read_as_wide(&self) -> (r: Result<&[u16], AddinError>)
        ensures
            self@ matches ValueView::Str(units) ==> (r matches Ok(got) && got@ == units),
            !(self@ is Str) ==> r == Err::<&[u16], AddinError>(AddinError::TypeMismatch),
    {
        match self {
            Value::Str(units) => Ok(units.as_slice()),
            _ => Err(AddinError::TypeMismatch),
        }
    }

    /// The bytes of a blob cell.
    pub fn read_as_blob(&self) -> (r: Result<&[u8], AddinError>)
        ensures
            self@ matches ValueView::Blob(bytes) ==> (r matches Ok(got) && got@ == bytes),
            !(self@ is Blob) ==> r == Err::<&[u8], AddinError>(AddinError::TypeMismatch),
    {
        match self {
            Value::Blob(bytes) => Ok(bytes.as_slice()),
            _ => Err(AddinError::TypeMismatch),
        }
    }

    /// The text of a wide-string cell. Decoding is strict: code units that
    /// are not well-formed UTF-16 are a native failure, never replaced.
    pub fn read_as_string(&self) -> (r: Result<String, AddinError>)
        ensures
            match (r, self@.read_text()) {
                (Ok(got), Ok(text)) => got@ == text,
                (Err(err), Err(why)) => err@ == why,
                _ => false,
            },
    {
        match self {
            Value::Str(units) => match decode_units(units.as_slice()) {
                Some(text) => Ok(text),
                None => Err(AddinError::NativeFailure("Invalid UTF-16 text".to_owned())),
            },
            _ => Err(AddinError::TypeMismatch),
        }
    }

    /// A wide-string cell with a copy of `units`.
    pub fn from_wide(units: &[u16]) -> (value: Value)
        ensures
            value@ == ValueView::Str(units@),
    {
        Value::Str(slice_to_vec(units))
    }

    /// A wide-string cell with the UTF-16 encoding of `text`.
    pub fn from_text(text: &str) -> (value: Value)
        ensures
            value@ == ValueView::of_text(text@),
    {
        let buf = encode_short(text);
        Value::from_wide(buf.as_slice())
    }

    /// An integer cell with the number `n`, or a range error where `n` does
    /// not fit the host's 32 bits.
    pub fn from_integer(n: i64) -> (r: Result<Value, AddinError>)
        ensures
            ValueView::of_integer(n as int) matches Some(view) ==> (r matches Ok(value) && value@
                == view),
            ValueView::of_integer(n as int) is None ==> r == Err::<Value, AddinError>(
                AddinError::RangeError,
            ),
    {
        if n < -0x8000_0000 || n > 0x7FFF_FFFF {
            Err(AddinError::RangeError)
        } else {
            Ok(Value::I32(n as i32))
        }
    }
}

/// The cell that takes a call's result. It starts vacant and is written at
/// most once: a second write is ruled out where the first is proved.
#[derive(Debug)]
pub struct OutCell {
    value: Value,
    written: bool,
}

impl View for OutCell {
    type V = ValueView;

    closed spec fn view(&self) -> ValueView {
        self.value@
    }
}

impl OutCell {
    /// Whether the cell has been written.
    pub closed spec fn is_written(&self) -> bool {
        self.written
    }

    /// A vacant cell, which reads as empty.
    pub fn new() -> (cell: OutCell)
        ensures
            !cell.is_written(),
            cell@ == ValueView::Empty,
    {
        OutCell { value: Value::Empty, written: false }
    }

    /// Writes the cell: tag and payload at once, and only once.
    pub fn write(&mut self, value: Value)
        requires
            !old(self).is_written(),
        ensures
            final(self).is_written(),
            final(self)@ == value@,
    {
        self.value = value;
        self.written = true;
    }

    /// Whether the cell has been written.
    pub fn written(&self) -> (written: bool)
        ensures
            written == self.is_written(),
    {
        self.written
    }

    /// What the cell holds: what was written, or empty while it is vacant.
    pub fn value(&self) -> (value: &Value)
        ensures
            value@ == self@,
    {
        &self.value
    }
}

/// What is written to a cell is what is read from it: read as its own
/// kind a value comes back exactly, and read as any other kind it is a type
/// mismatch.
pub proof fn lemma_write_then_read(value: ValueView, kind: Kind)
    ensures
        kind == value.kind() ==> value.read_as(kind) == Ok::<ValueView, ErrorView>(value),
        kind != value.kind() ==> value.read_as(kind) == Err::<ValueView, ErrorView>(
            ErrorView::TypeMismatch,
        ),
{
}

/// An integer that fits the host's width is written and read back exactly.
pub proof fn lemma_integer_round_trip(n: int)
    requires
        i32::MIN <= n <= i32::MAX,
    ensures
        ValueView::of_integer(n) matches Some(ValueView::I32(m)) && m == n,
{
}

/// A text that is written to a cell is read back unchanged.
pub proof fn lemma_text_round_trip(text: Seq<char>)
    ensures
        ValueView::of_text(text).read_text() == Ok::<Seq<char>, ErrorView>(text),
{
    lemma_decode_encode(text);
}

} // verus!
