//! The utilities component: process id, environment, working directory,
//! executable path, raw output and sleep. The component decides; whoever
//! drives it does the work on the operating system and reports back.

use crate::error::{AddinError, ErrorView};
use crate::registry::{
    call_checked, check_call, check_get, check_set, get_checked, method_views, prop_views,
    set_checked, MethodInfo, MethodView, PropInfo, PropView,
};
use crate::slot::{described, lemma_described, ErrorSlot};
use crate::utf16::{
    append_units, encode, encode_name, encode_scalar, lemma_encode_concat, terminated,
};
use crate::value::{Kind, OutCell, Value, ValueView};
use vstd::prelude::*;
use vstd::string::StrSliceExecFns;
use vstd::utf8::encode_utf8;

verus! {

/// Work on the operating system that a call asks for.
#[derive(Clone, Debug, PartialEq, Eq)]
pub enum Effect {
    /// Read the id of the process.
    Pid,
    /// Read the environment variable of this name.
    Env(String),
    /// Read all environment variables.
    Envs,
    /// Read the working directory.
    CurrentDir,
    /// Read the path of the executable.
    CurrentExe,
    /// Write these bytes to standard output, as they are.
    Print(Vec<u8>),
    /// Write these bytes to standard error, as they are.
    EPrint(Vec<u8>),
    /// Block the calling thread for so many milliseconds.
    Sleep(u64),
}

/// An effect as a mathematical value.
pub enum EffectView {
    Pid,
    Env(Seq<char>),
    Envs,
    CurrentDir,
    CurrentExe,
    Print(Seq<u8>),
    EPrint(Seq<u8>),
    Sleep(u64),
}

impl View for Effect {
    type V = EffectView;

    open spec fn view(&self) -> EffectView {
        match *self {
            Effect::Pid => EffectView::Pid,
            Effect::Env(name) => EffectView::Env(name@),
            Effect::Envs => EffectView::Envs,
            Effect::CurrentDir => EffectView::CurrentDir,
            Effect::CurrentExe => EffectView::CurrentExe,
            Effect::Print(bytes) => EffectView::Print(bytes@),
            Effect::EPrint(bytes) => EffectView::EPrint(bytes@),
            Effect::Sleep(millis) => EffectView::Sleep(millis),
        }
    }
}

/// What came of an effect.
#[derive(Clone, Debug, PartialEq, Eq)]
pub enum Outcome {
    /// The id of the process.
    Pid(u32),
    /// The value of the variable in the system's wide units, as they are,
    /// or `None` where it is not set.
    Var(Option<Vec<u16>>),
    /// All variables, each with its name and value in the system's wide
    /// units.
    Vars(Vec<(Vec<u16>, Vec<u16>)>),
    /// A path in the system's wide units, as they are.
    Path(Vec<u16>),
    /// The work is done and has nothing to hand back.
    Done,
    /// The operating system refused; the text says why.
    Failed(String),
}

/// An outcome as a mathematical value.
pub enum OutcomeView {
    Pid(u32),
    Var(Option<Seq<u16>>),
    Vars(Seq<(Seq<u16>, Seq<u16>)>),
    Path(Seq<u16>),
    Done,
    Failed(Seq<char>),
}

/// A list of variables as a sequence of pairs: the units of each name and
/// of its value.
pub open spec fn var_views(vars: Seq<(Vec<u16>, Vec<u16>)>) -> Seq<(Seq<u16>, Seq<u16>)> {
    vars.map_values(|var: (Vec<u16>, Vec<u16>)| (var.0@, var.1@))
}

impl View for Outcome {
    type V = OutcomeView;

    open spec fn view(&self) -> OutcomeView {
        match *self {
            Outcome::Pid(id) => OutcomeView::Pid(id),
            Outcome::Var(Some(value)) => OutcomeView::Var(Some(value@)),
            Outcome::Var(None) => OutcomeView::Var(None),
            Outcome::Vars(vars) => OutcomeView::Vars(var_views(vars@)),
            Outcome::Path(path) => OutcomeView::Path(path@),
            Outcome::Done => OutcomeView::Done,
            Outcome::Failed(why) => OutcomeView::Failed(why@),
        }
    }
}

/// The arguments of a call as a sequence of mathematical values.
pub open spec fn arg_views(args: Seq<Value>) -> Seq<ValueView> {
    args.map_values(|arg: Value| arg@)
}

/// One variable as the host reads it: the units of the name, `=`, the units
/// of the value, line feed.
pub open spec fn env_line(name: Seq<u16>, value: Seq<u16>) -> Seq<u16> {
    name.push(0x3D) + value.push(0x0A)
}

/// All variables as the host reads them: one line each, in their order.
pub open spec fn env_block(vars: Seq<(Seq<u16>, Seq<u16>)>) -> Seq<u16>
    decreases vars.len(),
{
    if vars.len() == 0 {
        Seq::empty()
    } else {
        env_block(vars.drop_last()) + env_line(vars.last().0, vars.last().1)
    }
}

/// Where name and value are text, their line of the block is the encoding
/// of the line as text: the name, an equals sign, the value and a line
/// feed.
pub proof fn lemma_env_line_is_text(name: Seq<char>, value: Seq<char>)
    ensures
        env_line(encode(name), encode(value)) == encode(name.push('=') + value.push('\n')),
{
    let sign = seq!['='];
    let feed = seq!['\n'];
    assert(name.push('=') == name + sign);
    assert(value.push('\n') == value + feed);
    lemma_encode_concat(name, sign);
    lemma_encode_concat(value, feed);
    lemma_encode_concat(name + sign, value + feed);
    assert(encode(sign) == seq![0x3Du16]) by {
        assert(sign.drop_first() == Seq::<char>::empty());
        assert(encode(sign) == encode_scalar('=') + encode(sign.drop_first()));
    }
    assert(encode(feed) == seq![0x0Au16]) by {
        assert(feed.drop_first() == Seq::<char>::empty());
        assert(encode(feed) == encode_scalar('\n') + encode(feed.drop_first()));
    }
    assert(encode(name).push(0x3D) == encode(name) + seq![0x3Du16]);
    assert(encode(value).push(0x0A) == encode(value) + seq![0x0Au16]);
}

/// The utilities component.
pub struct Addin {
    last_error: ErrorSlot,
    tables: Tables,
}

/// The component's tables, made once with the component and never changed.
struct Tables {
    methods: Vec<MethodInfo>,
    properties: Vec<PropInfo>,
}

impl Tables {
    #[verifier::type_invariant]
    spec fn fixed(&self) -> bool {
        &&& method_views(self.methods@) == Addin::method_table()
        &&& prop_views(self.properties@) == Addin::property_table()
    }
}

impl Addin {
    /// The error that the slot keeps: that of the last failed call, until
    /// the next method call or property write clears it.
    pub closed spec fn error(&self) -> Option<ErrorView> {
        self.last_error@
    }

    /// The methods in the order of their indices.
    pub open spec fn method_table() -> Seq<MethodView> {
        seq![
            MethodView { name: terminated("Pid"@), arity: 0 },
            MethodView { name: terminated("Env"@), arity: 1 },
            MethodView { name: terminated("Envs"@), arity: 0 },
            MethodView { name: terminated("CurrentDir"@), arity: 0 },
            MethodView { name: terminated("CurrentExe"@), arity: 0 },
            MethodView { name: terminated("Print"@), arity: 1 },
            MethodView { name: terminated("EPrint"@), arity: 1 },
            MethodView { name: terminated("Sleep"@), arity: 1 },
        ]
    }

    /// The properties in the order of their indices: `LastError`, which can
    /// be read and not written.
    pub open spec fn property_table() -> Seq<PropView> {
        seq![PropView { name: terminated("LastError"@), readable: true, writable: false }]
    }

    /// A component that has no failure to report.
    pub fn new() -> (addin: Addin)
        ensures
            addin.error() is None,
    {
        Addin {
            last_error: ErrorSlot::new(),
            tables: Tables { methods: Self::methods(), properties: Self::properties() },
        }
    }

    /// The name under which the host registers the component, closed by a
    /// zero unit.
    pub fn name() -> (name: Vec<u16>)
        ensures
            name@ == terminated("Utils"@),
    {
        encode_name("Utils")
    }

    /// The table of methods.
    pub fn methods() -> (table: Vec<MethodInfo>)
        ensures
            method_views(table@) == Self::method_table(),
    {
        let mut table: Vec<MethodInfo> = Vec::new();
        table.push(MethodInfo { name: encode_name("Pid"), arity: 0 });
        table.push(MethodInfo { name: encode_name("Env"), arity: 1 });
        table.push(MethodInfo { name: encode_name("Envs"), arity: 0 });
        table.push(MethodInfo { name: encode_name("CurrentDir"), arity: 0 });
        table.push(MethodInfo { name: encode_name("CurrentExe"), arity: 0 });
        table.push(MethodInfo { name: encode_name("Print"), arity: 1 });
        table.push(MethodInfo { name: encode_name("EPrint"), arity: 1 });
        table.push(MethodInfo { name: encode_name("Sleep"), arity: 1 });
        assert(method_views(table@) =~= Self::method_table());
        table
    }

    /// The table of properties.
    pub fn properties() -> (table: Vec<PropInfo>)
        ensures
            prop_views(table@) == Self::property_table(),
    {
        let mut table: Vec<PropInfo> = Vec::new();
        table.push(PropInfo { name: encode_name("LastError"), readable: true, writable: false });
        assert(prop_views(table@) =~= Self::property_table());
        table
    }

    /// Keeps `err` in the error slot, or empties the slot.
    pub fn save_error(&mut self, err: Option<AddinError>)
        ensures
            match err {
                Some(e) => final(self).error() == Some(e@),
                None => final(self).error() is None,
            },
    {
        self.last_error.save(err);
    }

    /// The getter of `LastError`: writes the description of the error that
    /// the slot keeps, or the empty string.
    pub fn last_error(&self, value: &mut OutCell) -> (r: Result<(), AddinError>)
        requires
            !old(value).is_written(),
        ensures
            r is Ok,
            final(value).is_written(),
            final(value)@ == ValueView::Str(encode(described(self.error()))),
    {
        value.write(self.last_error.render());
        Ok(())
    }

    /// `Pid`: the process id as an integer cell. An id beyond the host's 32
    /// signed bits is a range error and leaves the cell as it was.
    pub fn pid(process_id: u32, ret_value: &mut OutCell) -> (r: Result<(), AddinError>)
        requires
            !old(ret_value).is_written(),
        ensures
            match ValueView::of_integer(process_id as int) {
                Some(view) => r is Ok && final(ret_value).is_written() && final(ret_value)@ == view,
                None => r == Err::<(), AddinError>(AddinError::RangeError) && *final(ret_value)
                    == *old(ret_value),
            },
    {
        match Value::from_integer(process_id as i64) {
            Ok(value) => {
                ret_value.write(value);
                Ok(())
            },
            Err(err) => Err(err),
        }
    }

    /// `Env`: the variable's value as a wide string, unit for unit as the
    /// system holds it, or an empty cell where the variable is not set.
    /// Neither is an error.
    pub fn env(var: Option<&[u16]>, ret_value: &mut OutCell) -> (r: Result<(), AddinError>)
        requires
            !old(ret_value).is_written(),
        ensures
            r is Ok,
            final(ret_value).is_written(),
            final(ret_value)@ == match var {
                Some(units) => ValueView::Str(units@),
                None => ValueView::Empty,
            },
    {
        match var {
            Some(units) => ret_value.write(Value::from_wide(units)),
            None => ret_value.write(Value::Empty),
        }
        Ok(())
    }

    /// `Envs`: all variables in one wide string, each on a line of its own
    /// as name, `=` and value, unit for unit as the system holds them.
    pub fn envs(vars: &[(Vec<u16>, Vec<u16>)], ret_value: &mut OutCell) -> (r: Result<
        (),
        AddinError,
    >)
        requires
            !old(ret_value).is_written(),
        ensures
            r is Ok,
            final(ret_value).is_written(),
            final(ret_value)@ == ValueView::Str(env_block(var_views(vars@))),
    {
        let ghost all = var_views(vars@);
        let mut buf: Vec<u16> = Vec::new();
        let mut i: usize = 0;
        while i < vars.len()
            invariant
                i <= vars.len(),
                all == var_views(vars@),
                buf@ == env_block(all.take(i as int)),
            decreases vars.len() - i,
        {
            let ghost before = buf@;
            append_units(&mut buf, vars[i].0.as_slice());
            buf.push(0x3D);
            append_units(&mut buf, vars[i].1.as_slice());
            buf.push(0x0A);
            proof {
                let upto = all.take(i + 1);
                assert(upto.drop_last() == all.take(i as int));
                assert(upto.last() == all[i as int]);
                assert(buf@ == before + env_line(all[i as int].0, all[i as int].1));
            }
            i += 1;
        }
        assert(all.take(vars.len() as int) == all);
        ret_value.write(Value::Str(buf));
        Ok(())
    }

    /// `CurrentDir`: the working directory as a wide string, in the units
    /// that the system gave.
    pub fn current_dir(path: &[u16], ret_value: &mut OutCell) -> (r: Result<(), AddinError>)
        requires
            !old(ret_value).is_written(),
        ensures
            r is Ok,
            final(ret_value).is_written(),
            final(ret_value)@ == ValueView::Str(path@),
    {
        ret_value.write(Value::from_wide(path));
        Ok(())
    }

    /// `CurrentExe`: the path of the executable as a wide string, in the
    /// units that the system gave.
    pub fn current_exe(path: &[u16], ret_value: &mut OutCell) -> (r: Result<(), AddinError>)
        requires
            !old(ret_value).is_written(),
        ensures
            r is Ok,
            final(ret_value).is_written(),
            final(ret_value)@ == ValueView::Str(path@),
    {
        ret_value.write(Value::from_wide(path));
        Ok(())
    }

    /// `Print`: the bytes to write to standard output, which are the UTF-8
    /// encoding of the text in `param`, with nothing added.
    pub fn print(param: &Value) -> (r: Result<Vec<u8>, AddinError>)
        ensures
            match (r, param@.read_text()) {
                (Ok(bytes), Ok(text)) => bytes@ == encode_utf8(text),
                (Err(err), Err(why)) => err@ == why,
                _ => false,
            },
    {
        match param.read_as_string() {
            Ok(text) => Ok(text.as_str().as_bytes_vec()),
            Err(err) => Err(err),
        }
    }

    /// `EPrint`: the bytes to write to standard error, which are the UTF-8
    /// encoding of the text in `param`, with nothing added.
    pub fn eprint(param: &Value) -> (r: Result<Vec<u8>, AddinError>)
        ensures
            match (r, param@.read_text()) {
                (Ok(bytes), Ok(text)) => bytes@ == encode_utf8(text),
                (Err(err), Err(why)) => err@ == why,
                _ => false,
            },
    {
        Self::print(param)
    }

    /// What `Sleep` makes of its argument: the milliseconds to block for. A
    /// negative number is a range error, not a long sleep.
    pub open spec fn sleep_millis(param: ValueView) -> Result<u64, ErrorView> {
        match param {
            ValueView::I32(millis) => if millis >= 0 {
                Ok(millis as u64)
            } else {
                Err(ErrorView::RangeError)
            },
            _ => Err(ErrorView::TypeMismatch),
        }
    }

    /// `Sleep`: the milliseconds to block the calling thread for.
    pub fn sleep(param: &Value) -> (r: Result<u64, AddinError>)
        ensures
            match (r, Self::sleep_millis(param@)) {
                (Ok(millis), Ok(expected)) => millis == expected,
                (Err(err), Err(why)) => err@ == why,
                _ => false,
            },
    {
        match param.read_as_i32() {
            Ok(millis) => if millis >= 0 {
                Ok(millis as u64)
            } else {
                Err(AddinError::RangeError)
            },
            Err(err) => Err(err),
        }
    }

    /// What a method call asks for, or why it is rejected. The index and the
    /// number of arguments are checked before any argument is looked at.
    pub open spec fn planned(index: int, args: Seq<ValueView>) -> Result<EffectView, ErrorView> {
        match call_checked(Self::method_table(), index, args.len() as int) {
            Err(err) => Err(err@),
            Ok(()) => if index == 0 {
                Ok(EffectView::Pid)
            } else if index == 1 {
                match args[0].read_text() {
                    Ok(name) => Ok(EffectView::Env(name)),
                    Err(why) => Err(why),
                }
            } else if index == 2 {
                Ok(EffectView::Envs)
            } else if index == 3 {
                Ok(EffectView::CurrentDir)
            } else if index == 4 {
                Ok(EffectView::CurrentExe)
            } else if index == 5 {
                match args[0].read_text() {
                    Ok(text) => Ok(EffectView::Print(encode_utf8(text))),
                    Err(why) => Err(why),
                }
            } else if index == 6 {
                match args[0].read_text() {
                    Ok(text) => Ok(EffectView::EPrint(encode_utf8(text))),
                    Err(why) => Err(why),
                }
            } else {
                match Self::sleep_millis(args[0]) {
                    Ok(millis) => Ok(EffectView::Sleep(millis)),
                    Err(why) => Err(why),
                }
            },
        }
    }

    /// The arguments of a checked call, turned into what the method works
    /// on.
    fn plan(index: usize, args: &[Value]) -> (r: Result<Effect, AddinError>)
        requires
            call_checked(Self::method_table(), index as int, args@.len() as int) is Ok,
        ensures
            match (r, Self::planned(index as int, arg_views(args@))) {
                (Ok(effect), Ok(expected)) => effect@ == expected,
                (Err(err), Err(why)) => err@ == why,
                _ => false,
            },
    {
        if index == 0 {
            Ok(Effect::Pid)
        } else if index == 1 {
            match args[0].read_as_string() {
                Ok(name) => Ok(Effect::Env(name)),
                Err(err) => Err(err),
            }
        } else if index == 2 {
            Ok(Effect::Envs)
        } else if index == 3 {
            Ok(Effect::CurrentDir)
        } else if index == 4 {
            Ok(Effect::CurrentExe)
        } else if index == 5 {
            match Self::print(&args[0]) {
                Ok(bytes) => Ok(Effect::Print(bytes)),
                Err(err) => Err(err),
            }
        } else if index == 6 {
            match Self::eprint(&args[0]) {
                Ok(bytes) => Ok(Effect::EPrint(bytes)),
                Err(err) => Err(err),
            }
        } else {
            match Self::sleep(&args[0]) {
                Ok(millis) => Ok(Effect::Sleep(millis)),
                Err(err) => Err(err),
            }
        }
    }

    /// A method call, up to the work on the operating system. The error slot
    /// is emptied first. A call that is rejected is recorded in the slot and
    /// asks for nothing; any other hands back the work to do.
    pub fn invoke(&mut self, index: usize, args: &[Value]) -> (effect: Option<Effect>)
        ensures
            match Self::planned(index as int, arg_views(args@)) {
                Ok(expected) => final(self).error() is None && (effect matches Some(e) && e@
                    == expected),
                Err(why) => final(self).error() == Some(why) && effect is None,
            },
    {
        proof {
            use_type_invariant(&self.tables);
        }
        self.last_error.clear();
        let planned = match check_call(self.tables.methods.as_slice(), index, args.len()) {
            Ok(()) => Self::plan(index, args),
            Err(err) => Err(err),
        };
        match planned {
            Ok(effect) => Some(effect),
            Err(err) => {
                self.last_error.record(err);
                None
            },
        }
    }

    /// What a call comes to once the work is done: the value for the result
    /// cell, `None` where the method hands nothing back, or the error. A
    /// refusal by the operating system is a native failure with the text
    /// that came with it; so is an outcome that does not answer the effect.
    pub open spec fn settled(effect: EffectView, outcome: OutcomeView) -> Result<
        Option<ValueView>,
        ErrorView,
    > {
        match (effect, outcome) {
            (_, OutcomeView::Failed(why)) => Err(ErrorView::NativeFailure(why)),
            (EffectView::Pid, OutcomeView::Pid(id)) => match ValueView::of_integer(id as int) {
                Some(value) => Ok(Some(value)),
                None => Err(ErrorView::RangeError),
            },
            (EffectView::Env(_), OutcomeView::Var(Some(value))) => Ok(Some(ValueView::Str(value))),
            (EffectView::Env(_), OutcomeView::Var(None)) => Ok(Some(ValueView::Empty)),
            (EffectView::Envs, OutcomeView::Vars(vars)) => Ok(
                Some(ValueView::Str(env_block(vars))),
            ),
            (EffectView::CurrentDir, OutcomeView::Path(path)) => Ok(Some(ValueView::Str(path))),
            (EffectView::CurrentExe, OutcomeView::Path(path)) => Ok(Some(ValueView::Str(path))),
            (EffectView::Print(_), OutcomeView::Done) => Ok(None),
            (EffectView::EPrint(_), OutcomeView::Done) => Ok(None),
            (EffectView::Sleep(_), OutcomeView::Done) => Ok(None),
            _ => Err(ErrorView::NativeFailure("Unexpected outcome"@)),
        }
    }

    /// The result of the work, written to the cell where there is one.
    fn settle(effect: &Effect, outcome: Outcome, out: &mut OutCell) -> (r: Result<(), AddinError>)
        requires
            !old(out).is_written(),
        ensures
            match Self::settled(effect@, outcome@) {
                Ok(Some(value)) => r is Ok && final(out).is_written() && final(out)@ == value,
                Ok(None) => r is Ok && *final(out) == *old(out),
                Err(why) => (r matches Err(err) && err@ == why) && *final(out) == *old(out),
            },
    {
        match (effect, outcome) {
            (_, Outcome::Failed(why)) => Err(AddinError::NativeFailure(why)),
            (Effect::Pid, Outcome::Pid(id)) => Self::pid(id, out),
            (Effect::Env(_), Outcome::Var(Some(value))) => Self::env(Some(value.as_slice()), out),
            (Effect::Env(_), Outcome::Var(None)) => Self::env(None, out),
            (Effect::Envs, Outcome::Vars(vars)) => Self::envs(vars.as_slice(), out),
            (Effect::CurrentDir, Outcome::Path(path)) => Self::current_dir(path.as_slice(), out),
            (Effect::CurrentExe, Outcome::Path(path)) => Self::current_exe(path.as_slice(), out),
            (Effect::Print(_), Outcome::Done) => Ok(()),
            (Effect::EPrint(_), Outcome::Done) => Ok(()),
            (Effect::Sleep(_), Outcome::Done) => Ok(()),
            _ => Err(AddinError::NativeFailure("Unexpected outcome".to_owned())),
        }
    }

    /// The end of a method call: what came of the work is written to the
    /// result cell and success reported, or the failure is recorded in the
    /// error slot and failure reported. A failure leaves the cell as it was;
    /// a success leaves the slot as it was.
    pub fn complete(&mut self, effect: &Effect, outcome: Outcome, out: &mut OutCell) -> (ok: bool)
        requires
            !old(out).is_written(),
        ensures
            match Self::settled(effect@, outcome@) {
                Ok(Some(value)) => ok && final(out).is_written() && final(out)@ == value
                    && final(self).error() == old(self).error(),
                Ok(None) => ok && *final(out) == *old(out) && final(self).error() == old(
                    self,
                ).error(),
                Err(why) => !ok && *final(out) == *old(out) && final(self).error() == Some(why),
            },
    {
        match Self::settle(effect, outcome, out) {
            Ok(()) => true,
            Err(err) => {
                self.last_error.record(err);
                false
            },
        }
    }

    /// A property read. The error slot is left as it is, so that it can be
    /// read; an index without a readable property fails and is recorded.
    pub fn invoke_property_get(&mut self, index: usize, out: &mut OutCell) -> (ok: bool)
        requires
            !old(out).is_written(),
        ensures
            match get_checked(Self::property_table(), index as int) {
                Err(err) => !ok && final(self).error() == Some(err@) && *final(out) == *old(out),
                Ok(()) => ok && final(self).error() == old(self).error() && final(out).is_written()
                    && final(out)@ == ValueView::Str(encode(described(old(self).error()))),
            },
    {
        proof {
            use_type_invariant(&self.tables);
        }
        match check_get(self.tables.properties.as_slice(), index) {
            Err(err) => {
                self.last_error.record(err);
                false
            },
            Ok(()) => {
                let _ = self.last_error(out);
                true
            },
        }
    }

    /// A property write. The error slot is emptied first; the component has
    /// no property that can be written, so the write fails and is recorded.
    pub fn invoke_property_set(&mut self, index: usize, value: &Value) -> (ok: bool)
        ensures
            match set_checked(Self::property_table(), index as int) {
                Err(err) => !ok && final(self).error() == Some(err@),
                Ok(()) => ok && final(self).error() is None,
            },
    {
        proof {
            use_type_invariant(&self.tables);
        }
        self.last_error.clear();
        match check_set(self.tables.properties.as_slice(), index) {
            Err(err) => {
                self.last_error.record(err);
                false
            },
            Ok(()) => true,
        }
    }
}

/// The kind of cell that the method at `index` takes as its argument, for
/// the methods that take one.
pub open spec fn param_kind(index: int) -> Kind {
    if index == 7 {
        Kind::I32
    } else {
        Kind::Str
    }
}

/// Whether every argument has the kind that the method at `index` takes.
pub open spec fn well_typed(index: int, args: Seq<ValueView>) -> bool {
    forall|i: int| 0 <= i < args.len() ==> (#[trigger] args[i]).kind() == param_kind(index)
}

/// A call of a method of the table with as many arguments as the method
/// takes, each of the kind that it takes, is never rejected as an unknown
/// method, an arity mismatch or a type mismatch.
pub proof fn lemma_well_typed_call(index: int, args: Seq<ValueView>)
    requires
        0 <= index < Addin::method_table().len(),
        args.len() == Addin::method_table()[index].arity,
        well_typed(index, args),
    ensures
        !(Addin::planned(index, args) matches Err(ErrorView::UnknownMethod)),
        !(Addin::planned(index, args) matches Err(ErrorView::ArityMismatch)),
        !(Addin::planned(index, args) matches Err(ErrorView::TypeMismatch)),
{
    if Addin::method_table()[index].arity == 1 {
        assert(args[0].kind() == param_kind(index));
    }
}

/// A call with the wrong number of arguments is an arity mismatch whatever
/// the arguments hold: none of them is looked at.
pub proof fn lemma_arity_checked_first(index: int, args: Seq<ValueView>)
    requires
        0 <= index < Addin::method_table().len(),
        args.len() != Addin::method_table()[index].arity,
    ensures
        Addin::planned(index, args) == Err::<EffectView, ErrorView>(ErrorView::ArityMismatch),
{
}

/// The error slot after a method call, which empties it on entry: the
/// error where the call was rejected or the work failed, nothing where the
/// call succeeded.
pub open spec fn slot_after_call(
    index: int,
    args: Seq<ValueView>,
    outcome: OutcomeView,
) -> Option<ErrorView> {
    match Addin::planned(index, args) {
        Err(why) => Some(why),
        Ok(effect) => match Addin::settled(effect, outcome) {
            Err(why) => Some(why),
            Ok(_) => None,
        },
    }
}

/// After a failed method call the host reads a description that is not
/// empty; after a successful one it reads the empty string, whatever
/// failed before.
pub proof fn lemma_slot_after_call(index: int, args: Seq<ValueView>, outcome: OutcomeView)
    ensures
        slot_after_call(index, args, outcome) is Some ==> encode(
            described(slot_after_call(index, args, outcome)),
        ).len() > 0,
        slot_after_call(index, args, outcome) is None ==> encode(
            described(slot_after_call(index, args, outcome)),
        ).len() == 0,
{
    lemma_described(slot_after_call(index, args, outcome));
}

} // verus!
