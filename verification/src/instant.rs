//! The stopwatch component: it remembers when it was last started and tells
//! how long ago that was. Time is counted in nanoseconds on the stopwatch's
//! own clock, which stands at zero at its origin: the moment the stopwatch
//! was made, unless it was given another.

use crate::error::{AddinError, ErrorView};
use crate::registry::{
    call_checked, check_call, check_get, check_set, get_checked, method_views, prop_views,
    set_checked, MethodInfo, MethodView, PropInfo, PropView,
};
use crate::slot::{described, ErrorSlot};
use crate::utf16::{encode, encode_name, terminated};
use crate::value::{OutCell, Value, ValueView};
use std::time::{Duration, Instant};
use vstd::prelude::*;

verus! {

/// `std::time::Instant`: a moment on the monotonic clock, carried through
/// as it is; nothing is known of what it holds.
#[verifier::external_type_specification]
#[verifier::external_body]
pub struct ExInstant(Instant);

/// `Instant::now`: the present moment on the monotonic clock.
#[verifier::external_body]
fn clock_now() -> Instant {
    Instant::now()
}

/// `Instant::elapsed`: the time that has passed since `origin`.
#[verifier::external_body]
fn clock_elapsed(origin: &Instant) -> Duration {
    origin.elapsed()
}

/// `Duration::as_nanos`: a span of time in whole nanoseconds.
#[verifier::external_body]
fn span_nanos(span: &Duration) -> u128 {
    span.as_nanos()
}

/// What the stopwatch finds for a call before it does anything.
#[derive(Clone, Copy, Debug, PartialEq, Eq)]
pub enum Step {
    /// The call was rejected; the error slot says why.
    Failed,
    /// The call is done and has no result to hand over.
    Done,
    /// The stopwatch was read: so many nanoseconds have passed since it was
    /// last started. The caller turns them into microseconds as a float and
    /// completes the call.
    Elapsed(u128),
}

/// The nanoseconds from the reading `started` to the reading `now`: their
/// difference, or nothing where the clock shows less than it did.
pub open spec fn elapsed_between(started: u128, now: u128) -> u128 {
    if now >= started {
        (now - started) as u128
    } else {
        0
    }
}

/// A stopwatch read at the reading of its start shows nothing. Read at two
/// readings of a clock that has not run backwards since the start, it shows
/// at the later one what it showed at the earlier one and the time between
/// them.
pub proof fn lemma_elapsed_grows(started: u128, earlier: u128, later: u128)
    requires
        started <= earlier <= later,
    ensures
        elapsed_between(started, started) == 0,
        elapsed_between(started, later) == elapsed_between(started, earlier) + (later - earlier),
{
}

/// The stopwatch.
pub struct Addin {
    last_error: ErrorSlot,
    instant: Instant,
    started: u128,
    tables: Tables,
}

/// The component's tables, made once with the component and never changed.
struct Tables {
    methods: Vec<MethodInfo>,
    properties: Vec<PropInfo>,
}

impl Tables {
    #[verifier::type_invariant]
    spec fn fixed(&self) -> bool {
        &&& method_views(self.methods@) == Addin::method_table()
        &&& prop_views(self.properties@) == Addin::property_table()
    }
}

impl Addin {
    /// The error that the slot keeps: that of the last failed call, until
    /// the next method call or property write clears it.
    pub closed spec fn error(&self) -> Option<ErrorView> {
        self.last_error@
    }

    /// The origin of the stopwatch's clock: the moment from which its
    /// readings count.
    pub closed spec fn origin(&self) -> Instant {
        self.instant
    }

    /// The reading of the clock at which the stopwatch was last started;
    /// zero where it never was.
    pub closed spec fn started(&self) -> u128 {
        self.started
    }

    /// The methods in the order of their indices: `Start` and `Elapsed`,
    /// neither of which takes an argument.
    pub open spec fn method_table() -> Seq<MethodView> {
        seq![
            MethodView { name: terminated("Start"@), arity: 0 },
            MethodView { name: terminated("Elapsed"@), arity: 0 },
        ]
    }

    /// The properties in the order of their indices: `LastError`, which can
    /// be read and not written.
    pub open spec fn property_table() -> Seq<PropView> {
        seq![PropView { name: terminated("LastError"@), readable: true, writable: false }]
    }

    /// A stopwatch whose clock counts from `origin`. It counts as started
    /// at its origin and has no failure to report.
    pub fn starting_at(origin: Instant) -> (addin: Addin)
        ensures
            addin.error() is None,
            addin.origin() == origin,
            addin.started() == 0,
    {
        Addin {
            last_error: ErrorSlot::new(),
            instant: origin,
            started: 0,
            tables: Tables { methods: Self::methods(), properties: Self::properties() },
        }
    }

    /// A stopwatch that starts now and has no failure to report.
    pub fn new() -> (addin: Addin)
        ensures
            addin.error() is None,
            addin.started() == 0,
    {
        Self::starting_at(clock_now())
    }

    /// The name under which the host registers the component, closed by a
    /// zero unit.
    pub fn name() -> (name: Vec<u16>)
        ensures
            name@ == terminated("Instant"@),
    {
        encode_name("Instant")
    }

    /// The table of methods.
    pub fn methods() -> (table: Vec<MethodInfo>)
        ensures
            method_views(table@) == Self::method_table(),
    {
        let mut table: Vec<MethodInfo> = Vec::new();
        table.push(MethodInfo { name: encode_name("Start"), arity: 0 });
        table.push(MethodInfo { name: encode_name("Elapsed"), arity: 0 });
        assert(method_views(table@) =~= Self::method_table());
        table
    }

    /// The table of properties.
    pub fn properties() -> (table: Vec<PropInfo>)
        ensures
            prop_views(table@) == Self::property_table(),
    {
        let mut table: Vec<PropInfo> = Vec::new();
        table.push(PropInfo { name: encode_name("LastError"), readable: true, writable: false });
        assert(prop_views(table@) =~= Self::property_table());
        table
    }

    /// Keeps `err` in the error slot, or empties the slot. The stopwatch
    /// runs on.
    pub fn save_error(&mut self, err: Option<AddinError>)
        ensures
            match err {
                Some(e) => final(self).error() == Some(e@),
                None => final(self).error() is None,
            },
            final(self).origin() == old(self).origin(),
            final(self).started() == old(self).started(),
    {
        self.last_error.save(err);
    }

    /// The getter of `LastError`: writes the description of the error that
    /// the slot keeps, or the empty string.
    pub fn last_error(&self, value: &mut OutCell) -> (r: Result<(), AddinError>)
        requires
            !old(value).is_written(),
        ensures
            r is Ok,
            final(value).is_written(),
            final(value)@ == ValueView::Str(encode(described(self.error()))),
    {
        value.write(self.last_error.render());
        Ok(())
    }

    /// The clock as it stands: the nanoseconds that have passed since the
    /// origin.
    fn reading(&self) -> u128 {
        let span = clock_elapsed(&self.instant);
        span_nanos(&span)
    }

    /// Starts the stopwatch anew at the reading `now`.
    pub fn restart_at(&mut self, now: u128)
        ensures
            final(self).started() == now,
            final(self).origin() == old(self).origin(),
            final(self).error() == old(self).error(),
    {
        self.started = now;
    }

    /// The nanoseconds from the last start to the reading `now`.
    pub fn elapsed_at(&self, now: u128) -> (nanos: u128)
        ensures
            nanos == elapsed_between(self.started(), now),
    {
        if now >= self.started {
            now - self.started
        } else {
            0
        }
    }

    /// Starts the stopwatch anew, at what the clock reads now.
    pub fn start(&mut self)
        ensures
            final(self).origin() == old(self).origin(),
            final(self).error() == old(self).error(),
    {
        let now = self.reading();
        self.restart_at(now);
    }

    /// The nanoseconds that have passed since the stopwatch was started,
    /// or since it was made if it never was, by what the clock reads now:
    /// the time from the last start to some reading of the clock.
    pub fn elapsed(&self) -> (nanos: u128)
        ensures
            exists|now: u128| nanos == #[trigger] elapsed_between(self.started(), now),
    {
        let now = self.reading();
        self.elapsed_at(now)
    }

    /// What a method call comes to at the reading `now`. The error slot is
    /// emptied first. A call that the table does not allow fails, is
    /// recorded and leaves the stopwatch running; `Start` starts it anew at
    /// `now`; `Elapsed` tells the time from the last start to `now` and
    /// leaves the stopwatch running.
    pub fn invoke_at(&mut self, index: usize, args: &[Value], now: u128) -> (step: Step)
        ensures
            final(self).origin() == old(self).origin(),
            match call_checked(Self::method_table(), index as int, args@.len() as int) {
                Err(err) => step is Failed && final(self).error() == Some(err@) && final(self).started() == old(self).started(),
                Ok(()) => final(self).error() is None && if index == 0 {
                    step is Done && final(self).started() == now
                } else {
                    step == Step::Elapsed(elapsed_between(old(self).started(), now)) && final(self).started() == old(self).started()
                },
            },
    {
        proof {
            use_type_invariant(&self.tables);
        }
        self.last_error.clear();
        match check_call(self.tables.methods.as_slice(), index, args.len()) {
            Err(err) => {
                self.last_error.record(err);
                Step::Failed
            },
            Ok(()) => {
                if index == 0 {
                    self.restart_at(now);
                    Step::Done
                } else {
                    Step::Elapsed(self.elapsed_at(now))
                }
            },
        }
    }

    /// A method call, up to the point where its result is due, by what the
    /// clock reads now. The error slot is emptied first. A call that the
    /// table does not allow fails and is recorded; `Start` is done at once;
    /// `Elapsed` reads the stopwatch, leaves it running and leaves the
    /// conversion to the caller.
    pub fn invoke(&mut self, index: usize, args: &[Value]) -> (step: Step)
        ensures
            final(self).origin() == old(self).origin(),
            match call_checked(Self::method_table(), index as int, args@.len() as int) {
                Err(err) => step is Failed && final(self).error() == Some(err@) && final(self).started() == old(self).started(),
                Ok(()) => final(self).error() is None && if index == 0 {
                    step is Done
                } else {
                    final(self).started() == old(self).started() && exists|now: u128|
                        step == Step::Elapsed(
                            #[trigger] elapsed_between(old(self).started(), now),
                        )
                },
            },
    {
        let now = self.reading();
        self.invoke_at(index, args, now)
    }

    /// The end of a call of `Elapsed`: writes the bit pattern of the float
    /// that the caller made of the nanoseconds, and reports success. The
    /// stopwatch runs on.
    pub fn complete(&mut self, micros: u64, out: &mut OutCell) -> (ok: bool)
        requires
            !old(out).is_written(),
        ensures
            ok,
            final(out).is_written(),
            final(out)@ == ValueView::F64(micros),
            final(self).error() == old(self).error(),
            final(self).origin() == old(self).origin(),
            final(self).started() == old(self).started(),
    {
        out.write(Value::F64(micros));
        true
    }

    /// A property read. The error slot is left as it is, so that it can be
    /// read; an index without a readable property fails and is recorded. The
    /// stopwatch runs on.
    pub fn invoke_property_get(&mut self, index: usize, out: &mut OutCell) -> (ok: bool)
        requires
            !old(out).is_written(),
        ensures
            final(self).origin() == old(self).origin(),
            final(self).started() == old(self).started(),
            match get_checked(Self::property_table(), index as int) {
                Err(err) => !ok && final(self).error() == Some(err@) && *final(out) == *old(out),
                Ok(()) => ok && final(self).error() == old(self).error() && final(out).is_written()
                    && final(out)@ == ValueView::Str(encode(described(old(self).error()))),
            },
    {
        proof {
            use_type_invariant(&self.tables);
        }
        match check_get(self.tables.properties.as_slice(), index) {
            Err(err) => {
                self.last_error.record(err);
                false
            },
            Ok(()) => {
                let _ = self.last_error(out);
                true
            },
        }
    }

    /// A property write. The error slot is emptied first; the component has
    /// no property that can be written, so the write fails and is recorded.
    /// The stopwatch runs on.
    pub fn invoke_property_set(&mut self, index: usize, value: &Value) -> (ok: bool)
        ensures
            final(self).origin() == old(self).origin(),
            final(self).started() == old(self).started(),
            match set_checked(Self::property_table(), index as int) {
                Err(err) => !ok && final(self).error() == Some(err@),
                Ok(()) => ok && final(self).error() is None,
            },
    {
        proof {
            use_type_invariant(&self.tables);
        }
        self.last_error.clear();
        match check_set(self.tables.properties.as_slice(), index) {
            Err(err) => {
                self.last_error.record(err);
                false
            },
            Ok(()) => true,
        }
    }
}

} // verus!
