use vstd::prelude::*;

use crate::accumulator::Accumulator;
use crate::native::{Call, Delivery};
use crate::record::Record;
use crate::session::Input;

verus! {

/// One invocation of a callback: the session and the record it is handed, and
/// the CPU.
pub struct Invocation {
    /// Address of the session that the record comes from.
    pub session: usize,
    /// The record.
    pub record: Record,
    /// The CPU that the record was captured on.
    pub cpu: i32,
}

/// What the callback is handed, call by call, when the engine walks the one
/// session at `session` and delivers `deliveries`.
pub open spec fn single(session: usize, deliveries: Seq<Delivery>) -> Seq<Invocation> {
    Seq::new(
        deliveries.len(),
        |i: int| Invocation { session, record: deliveries[i].record, cpu: deliveries[i].cpu },
    )
}

/// What the callback is handed, call by call, when the engine walks the
/// sessions at `sessions` and delivers `deliveries`, each from the session
/// that its `source` names.
pub open spec fn merged(sessions: Seq<usize>, deliveries: Seq<Delivery>) -> Seq<Invocation> {
    Seq::new(
        deliveries.len(),
        |i: int|
            Invocation {
                session: sessions[deliveries[i].source as int],
                record: deliveries[i].record,
                cpu: deliveries[i].cpu,
            },
    )
}

/// The addresses of `inputs`, in their order.
pub open spec fn addrs(inputs: Seq<Input>) -> Seq<usize> {
    Seq::new(inputs.len(), |i: int| inputs[i].addr())
}

/// What one call of the trampoline does to the bytes in `storage`, for a
/// callback that behaves as `step`: the bytes are copied in, the callback
/// works on the value, and the value is copied out.
pub open spec fn bridge<D: Accumulator>(
    step: spec_fn(Input, Record, i32, D) -> (D, i32),
    call: Invocation,
    storage: Seq<u8>,
) -> (Seq<u8>, i32) {
    let (data, signal) = step(Input::at(call.session), call.record, call.cpu, D::decode(storage));
    (data.encode(), signal)
}

/// The bytes that the engine holds once the trampoline has run on each of
/// `calls`, first to last, beginning on `storage`.
pub open spec fn relay<D: Accumulator>(
    step: spec_fn(Input, Record, i32, D) -> (D, i32),
    calls: Seq<Invocation>,
    storage: Seq<u8>,
) -> Seq<u8>
    decreases calls.len(),
{
    if calls.len() == 0 {
        storage
    } else {
        bridge(step, calls.last(), relay(step, calls.drop_last(), storage)).0
    }
}

/// The value that a callback which behaves as `step` has built from `data`
/// once it has been handed each of `calls`, first to last.
pub open spec fn accumulate<D>(
    step: spec_fn(Input, Record, i32, D) -> (D, i32),
    calls: Seq<Invocation>,
    data: D,
) -> D
    decreases calls.len(),
{
    if calls.len() == 0 {
        data
    } else {
        let call = calls.last();
        step(
            Input::at(call.session),
            call.record,
            call.cpu,
            accumulate(step, calls.drop_last(), data),
        ).0
    }
}

/// A typed callback, and the iteration that drives it.
pub trait Handler: Sized {
    /// The value that the callback builds up.
    type DataType: Accumulator;

    /// What the callback does: the value it leaves in `data`, and the signal
    /// it returns.
    spec fn step(input: Input, rec: Record, cpu: i32, data: Self::DataType) -> (
        Self::DataType,
        i32,
    );

    /// Handles one record.  A zero signal lets the iteration go on; what any
    /// other signal means is up to the engine.
    fn callback(input: &mut Input, rec: &mut Record, cpu: i32, data: &mut Self::DataType) -> (signal:
        i32)
        ensures
            (*final(data), signal) == Self::step(*old(input), *old(rec), cpu, *old(data)),
    ;

    /// The trampoline that the engine calls for each record, with the session
    /// and the record it delivers and the bytes it keeps for the accumulator.
    /// The signal goes back to the engine as the callback gave it.
    fn c_callback(session: usize, rec: Record, cpu: i32, raw_data: &mut Vec<u8>) -> (signal: i32)
        requires
            old(raw_data)@.len() == Self::DataType::size(),
        ensures
            (final(raw_data)@, signal) == bridge(
                |i: Input, r: Record, c: i32, d: Self::DataType| Self::step(i, r, c, d),
                (Invocation { session, record: rec, cpu }),
                old(raw_data)@,
            ),
            final(raw_data)@.len() == Self::DataType::size(),
    {
        let mut input = Input::view_of(session);
        let mut rec = rec;
        let mut data = Self::DataType::load(raw_data.as_slice());
        let signal = Self::callback(&mut input, &mut rec, cpu, &mut data);
        proof {
            data.layout();
        }
        *raw_data = data.store();
        signal
    }

    /// The bytes that an iteration starts on: the empty accumulator, copied
    /// out.
    fn start() -> (raw_data: Vec<u8>)
        ensures
            raw_data@ == Self::DataType::initial().encode(),
            raw_data@.len() == Self::DataType::size(),
    {
        let data = Self::DataType::empty();
        proof {
            data.layout();
        }
        data.store()
    }

    /// Reads the end of an iteration: the engine's `status`, and the bytes
    /// that it kept.  A zero status gives the accumulator, copied in once
    /// more; any other status is handed on as it is, and the bytes are not
    /// read.
    fn finish(raw_data: &[u8], status: i32) -> (r: Result<Self::DataType, i32>)
        requires
            status == 0 ==> raw_data@.len() == Self::DataType::size(),
        ensures
            status == 0 ==> r == Ok::<Self::DataType, i32>(Self::DataType::decode(raw_data@)),
            status != 0 ==> r == Err::<Self::DataType, i32>(status),
    {
        if status == 0 {
            Ok(Self::DataType::load(raw_data))
        } else {
            Err(status)
        }
    }

    /// The call that walks the records of `input`, on all of its CPUs.
    fn process_call(input: &Input) -> (call: Call)
        ensures
            call matches Call::Iterate { session: s } && s == input.addr(),
    {
        Call::Iterate { session: input.raw() }
    }

    /// Runs one iteration over `input` against what the engine did: it
    /// delivered `deliveries`, in this order, and ended with `status`.  All
    /// of them come from the one session, so their `source` is not read.
    ///
    /// The callback's signals go to the engine, which alone decides what
    /// follows a nonzero one: what it decided shows in `deliveries`.
    fn process(input: &mut Input, deliveries: &[Delivery], status: i32) -> (r: Result<
        Self::DataType,
        i32,
    >)
        ensures
            *final(input) == *old(input),
            status == 0 ==> r == Ok::<Self::DataType, i32>(
                accumulate(
                    |i: Input, r: Record, c: i32, d: Self::DataType| Self::step(i, r, c, d),
                    single(old(input).addr(), deliveries@),
                    Self::DataType::initial(),
                ),
            ),
            status != 0 ==> r == Err::<Self::DataType, i32>(status),
    {
        let session = input.raw();
        let ghost step = |i: Input, r: Record, c: i32, d: Self::DataType| Self::step(i, r, c, d);
        let ghost calls = single(session, deliveries@);
        let mut raw_data = Self::start();
        let mut i: usize = 0;
        while i < deliveries.len()
            invariant
                i <= deliveries@.len(),
                calls == single(session, deliveries@),
                step == |i: Input, r: Record, c: i32, d: Self::DataType| Self::step(i, r, c, d),
                raw_data@ == accumulate(step, calls.take(i as int), Self::DataType::initial()).encode(),
                raw_data@.len() == Self::DataType::size(),
            decreases deliveries@.len() - i,
        {
            let delivery = &deliveries[i];
            proof {
                accumulate(step, calls.take(i as int), Self::DataType::initial()).layout();
                assert(calls.take(i + 1).drop_last() == calls.take(i as int));
                assert(calls.take(i + 1).last() == calls[i as int]);
            }
            let _ = Self::c_callback(session, delivery.record, delivery.cpu, &mut raw_data);
            i += 1;
        }
        proof {
            assert(calls.take(i as int) == calls);
            accumulate(step, calls, Self::DataType::initial()).layout();
        }
        Self::finish(raw_data.as_slice(), status)
    }

    /// The call that walks the records of `inputs`, merged by the engine.  An
    /// empty set is handed to the engine like any other.
    fn process_multi_call(inputs: &[Input]) -> (call: Call)
        requires
            inputs@.len() <= i32::MAX,
        ensures
            call matches Call::IterateMulti { sessions: s, count: c } && s@ == addrs(inputs@) && c
                == inputs@.len(),
    {
        let mut sessions: Vec<usize> = Vec::new();
        let mut i: usize = 0;
        while i < inputs.len()
            invariant
                i <= inputs@.len(),
                sessions@ == addrs(inputs@.take(i as int)),
            decreases inputs@.len() - i,
        {
            sessions.push(inputs[i].raw());
            proof {
                assert(sessions@ =~= addrs(inputs@.take(i + 1)));
            }
            i += 1;
        }
        proof {
            assert(inputs@.take(i as int) == inputs@);
        }
        Call::IterateMulti { sessions, count: inputs.len() as i32 }
    }

    /// Runs one iteration over `inputs` against what the engine did: it
    /// delivered `deliveries`, in this order and each from the session that
    /// its `source` names, and ended with `status`.  The order is the
    /// engine's, and is kept.
    fn process_multi(inputs: &mut [Input], deliveries: &[Delivery], status: i32) -> (r: Result<
        Self::DataType,
        i32,
    >)
        requires
            forall|i: int|
                0 <= i < deliveries@.len() ==> (#[trigger] deliveries@[i]).source < old(
                    inputs,
                )@.len(),
        ensures
            final(inputs)@ == old(inputs)@,
            status == 0 ==> r == Ok::<Self::DataType, i32>(
                accumulate(
                    |i: Input, r: Record, c: i32, d: Self::DataType| Self::step(i, r, c, d),
                    merged(addrs(old(inputs)@), deliveries@),
                    Self::DataType::initial(),
                ),
            ),
            status != 0 ==> r == Err::<Self::DataType, i32>(status),
    {
        let ghost step = |i: Input, r: Record, c: i32, d: Self::DataType| Self::step(i, r, c, d);
        let ghost calls = merged(addrs(inputs@), deliveries@);
        let mut raw_data = Self::start();
        let mut i: usize = 0;
        while i < deliveries.len()
            invariant
                i <= deliveries@.len(),
                inputs@ == old(inputs)@,
                forall|i: int|
                    0 <= i < deliveries@.len() ==> (#[trigger] deliveries@[i]).source
                        < inputs@.len(),
                calls == merged(addrs(inputs@), deliveries@),
                step == |i: Input, r: Record, c: i32, d: Self::DataType| Self::step(i, r, c, d),
                raw_data@ == accumulate(
                    step,
                    calls.take(i as int),
                    Self::DataType::initial(),
                ).encode(),
                raw_data@.len() == Self::DataType::size(),
            decreases deliveries@.len() - i,
        {
            let delivery = &deliveries[i];
            let session = inputs[delivery.source].raw();
            proof {
                accumulate(step, calls.take(i as int), Self::DataType::initial()).layout();
                assert(calls.take(i + 1).drop_last() == calls.take(i as int));
                assert(calls.take(i + 1).last() == calls[i as int]);
            }
            let _ = Self::c_callback(session, delivery.record, delivery.cpu, &mut raw_data);
            i += 1;
        }
        proof {
            assert(calls.take(i as int) == calls);
            accumulate(step, calls, Self::DataType::initial()).layout();
        }
        Self::finish(raw_data.as_slice(), status)
    }
}

/// Whether the timestamps of `records` never go down.
pub open spec fn in_time_order(records: Seq<Record>) -> bool {
    forall|i: int, j: int| 0 <= i <= j < records.len() ==> records[i].ts <= records[j].ts
}

/// The records of `deliveries`, in their order.
pub open spec fn delivered(deliveries: Seq<Delivery>) -> Seq<Record> {
    Seq::new(deliveries.len(), |i: int| deliveries[i].record)
}

/// The records of `calls`, in their order.
pub open spec fn handled(calls: Seq<Invocation>) -> Seq<Record> {
    Seq::new(calls.len(), |i: int| calls[i].record)
}

/// The record that comes next is handed to the callback after all that came
/// before it, and with the value that they have built.
pub proof fn lemma_accumulate_next<D>(
    step: spec_fn(Input, Record, i32, D) -> (D, i32),
    calls: Seq<Invocation>,
    next: Invocation,
    data: D,
)
    ensures
        accumulate(step, calls.push(next), data) == step(
            Input::at(next.session),
            next.record,
            next.cpu,
            accumulate(step, calls, data),
        ).0,
{
    assert(calls.push(next).drop_last() == calls);
}

/// An iteration can be cut anywhere: what the callback builds from a run of
/// records is what it builds from the second part, begun on what it built
/// from the first.  Nothing is held back or moved.
pub proof fn lemma_accumulate_append<D>(
    step: spec_fn(Input, Record, i32, D) -> (D, i32),
    first: Seq<Invocation>,
    second: Seq<Invocation>,
    data: D,
)
    ensures
        accumulate(step, first + second, data) == accumulate(
            step,
            second,
            accumulate(step, first, data),
        ),
    decreases second.len(),
{
    if second.len() == 0 {
        assert(first + second == first);
    } else {
        lemma_accumulate_append(step, first, second.drop_last(), data);
        assert((first + second).drop_last() == first + second.drop_last());
        assert((first + second).last() == second.last());
    }
}

/// Every record is counted once: where each call of the callback raises a
/// count that is read off the accumulator by one, the count after an
/// iteration has gone up by the number of records delivered.
pub proof fn lemma_accumulate_counts<D>(
    step: spec_fn(Input, Record, i32, D) -> (D, i32),
    count: spec_fn(D) -> nat,
    calls: Seq<Invocation>,
    data: D,
)
    requires
        forall|i: Input, r: Record, c: i32, d: D|
            count(#[trigger] step(i, r, c, d).0) == count(d) + 1,
    ensures
        count(accumulate(step, calls, data)) == count(data) + calls.len(),
    decreases calls.len(),
{
    if calls.len() > 0 {
        lemma_accumulate_counts(step, count, calls.drop_last(), data);
    }
}

/// The callback is handed the records that the engine delivered, each once
/// and in the engine's order: if they came in time order, the callback sees
/// them in time order.
pub proof fn lemma_order_kept(sessions: Seq<usize>, session: usize, deliveries: Seq<Delivery>)
    ensures
        handled(single(session, deliveries)) == delivered(deliveries),
        handled(merged(sessions, deliveries)) == delivered(deliveries),
        in_time_order(delivered(deliveries)) ==> in_time_order(
            handled(merged(sessions, deliveries)),
        ) && in_time_order(handled(single(session, deliveries))),
{
    assert(handled(single(session, deliveries)) =~= delivered(deliveries));
    assert(handled(merged(sessions, deliveries)) =~= delivered(deliveries));
}

/// Copying the accumulator in and out changes nothing: where the callback
/// leaves the value as it was, the trampoline leaves the bytes as they were.
pub proof fn lemma_bridge_round_trip<D: Accumulator>(
    step: spec_fn(Input, Record, i32, D) -> (D, i32),
    call: Invocation,
    data: D,
)
    requires
        step(Input::at(call.session), call.record, call.cpu, data).0 == data,
    ensures
        bridge(step, call, data.encode()).0 == data.encode(),
        D::decode(bridge(step, call, data.encode()).0) == data,
{
    data.layout();
}

/// The bytes that the engine keeps always stand for the value that the
/// callback has built: running the trampoline on the bytes of a value gives
/// the bytes of the value that the callback makes of it, and its signal.
pub proof fn lemma_bridge_follows_step<D: Accumulator>(
    step: spec_fn(Input, Record, i32, D) -> (D, i32),
    call: Invocation,
    data: D,
)
    ensures
        bridge(step, call, data.encode()) == (
            step(Input::at(call.session), call.record, call.cpu, data).0.encode(),
            step(Input::at(call.session), call.record, call.cpu, data).1,
        ),
{
    data.layout();
}

/// Going through bytes between two records loses nothing: the bytes that
/// the engine holds after any run of trampoline calls stand for the value
/// that the callback has built from those records.
pub proof fn lemma_relay_carries_accumulate<D: Accumulator>(
    step: spec_fn(Input, Record, i32, D) -> (D, i32),
    calls: Seq<Invocation>,
    data: D,
)
    ensures
        relay(step, calls, data.encode()) == accumulate(step, calls, data).encode(),
        D::decode(relay(step, calls, data.encode())) == accumulate(step, calls, data),
        relay(step, calls, data.encode()).len() == D::size(),
    decreases calls.len(),
{
    if calls.len() > 0 {
        lemma_relay_carries_accumulate(step, calls.drop_last(), data);
        lemma_bridge_follows_step(step, calls.last(), accumulate(step, calls.drop_last(), data));
    }
    accumulate(step, calls, data).layout();
}

} // verus!
