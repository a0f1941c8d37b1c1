//! The answer to a pending cluster tasks request: the tasks waiting in the
//! cluster manager's queue.
use vstd::prelude::*;
use crate::action_wire::{lift, require_no_trailing_bytes, TransportActionWireError};
use crate::codec::{
    enc_bool, enc_i64, enc_string, enc_vint, lemma_i64_roundtrip, lemma_string_roundtrip, lemma_vint_roundtrip,
    parse_bool, parse_i64, parse_len, parse_string, string_fits,
};
use crate::stream::{StreamInput, StreamOutput};
use crate::task_requests::{PendingClusterTaskWire, PendingClusterTasksResponseWire};
use crate::wire_fields::{lemma_append_assoc, lemma_bool_roundtrip, lemma_skip_append};

verus! {

/// The fields of one pending task.
pub struct PendingClusterTaskView {
    pub insert_order: i64,
    pub priority: Seq<char>,
    pub source: Seq<char>,
    pub executing: bool,
    pub time_in_queue_millis: i64,
}

impl View for PendingClusterTaskWire {
    type V = PendingClusterTaskView;

    open spec fn view(&self) -> PendingClusterTaskView {
        PendingClusterTaskView {
            insert_order: self.insert_order,
            priority: self.priority@,
            source: self.source@,
            executing: self.executing,
            time_in_queue_millis: self.time_in_queue_millis,
        }
    }
}

/// The fields of each task.
pub open spec fn pending_task_views(v: Seq<PendingClusterTaskWire>) -> Seq<PendingClusterTaskView> {
    v.map_values(|x: PendingClusterTaskWire| x@)
}

/// A task: its insertion order, priority, source, whether it runs, and how
/// long it has waited.
#[verifier::opaque]
pub open spec fn enc_pending_task(t: PendingClusterTaskView) -> Seq<u8> {
    enc_i64(t.insert_order) + (enc_string(t.priority) + (enc_string(t.source) + (enc_bool(t.executing) + enc_i64(
        t.time_in_queue_millis,
    ))))
}

/// What a reader makes of one task.
#[verifier::opaque]
pub open spec fn parse_pending_task(s: Seq<u8>) -> Option<(PendingClusterTaskView, int)> {
    match parse_i64(s) {
        None => None,
        Some((insert_order, k1)) => match parse_string(s.skip(k1)) {
            None => None,
            Some((priority, k2)) => match parse_string(s.skip(k1 + k2)) {
                None => None,
                Some((source, k3)) => match parse_bool(s.skip(k1 + k2 + k3)) {
                    None => None,
                    Some((executing, k4)) => match parse_i64(s.skip(k1 + k2 + k3 + k4)) {
                        None => None,
                        Some((time_in_queue_millis, k5)) => Some(
                            (
                                PendingClusterTaskView { insert_order, priority, source, executing, time_in_queue_millis },
                                k1 + k2 + k3 + k4 + k5,
                            ),
                        ),
                    },
                },
            },
        },
    }
}

/// Tasks one after the other.
pub open spec fn enc_pending_tasks(v: Seq<PendingClusterTaskView>) -> Seq<u8>
    decreases v.len(),
{
    if v.len() == 0 {
        seq![]
    } else {
        enc_pending_tasks(v.drop_last()) + enc_pending_task(v.last())
    }
}

/// What a reader makes of `n` tasks one after the other.
pub open spec fn parse_pending_tasks(s: Seq<u8>, n: nat) -> Option<(Seq<PendingClusterTaskView>, int)>
    decreases n,
{
    if n == 0 {
        Some((seq![], 0))
    } else {
        match parse_pending_tasks(s, (n - 1) as nat) {
            Some((v, k)) => match parse_pending_task(s.skip(k)) {
                Some((x, m)) => Some((v.push(x), k + m)),
                None => None,
            },
            None => None,
        }
    }
}

/// The bytes of the answer: the task count, then the tasks.
pub open spec fn enc_pending_cluster_tasks_response(v: Seq<PendingClusterTaskView>) -> Seq<u8> {
    enc_vint(v.len() as i32) + enc_pending_tasks(v)
}

/// What a reader makes of the bytes of the answer.
#[verifier::opaque]
pub open spec fn parse_pending_cluster_tasks_response(s: Seq<u8>) -> Option<(Seq<PendingClusterTaskView>, int)> {
    match parse_len(s) {
        None => None,
        Some((n, k)) => match parse_pending_tasks(s.skip(k), n) {
            Some((v, m)) => Some((v, k + m)),
            None => None,
        },
    }
}

/// True when the answer reads back as written.
pub open spec fn pending_cluster_tasks_response_fits(v: Seq<PendingClusterTaskView>) -> bool {
    &&& v.len() < 0x8000_0000
    &&& forall|i: int| 0 <= i < v.len() ==> string_fits(#[trigger] v[i].priority) && string_fits(v[i].source)
}

/// What reading the answer from the whole of `bytes` gives.
pub open spec fn pending_cluster_tasks_response_read_result(
    bytes: Seq<u8>,
    r: Result<PendingClusterTasksResponseWire, TransportActionWireError>,
) -> bool {
    match parse_pending_cluster_tasks_response(bytes) {
        Some((v, n)) => if n < bytes.len() {
            r == Err::<PendingClusterTasksResponseWire, TransportActionWireError>(
                TransportActionWireError::TrailingBytes((bytes.len() - n) as usize),
            )
        } else {
            r matches Ok(x) && pending_task_views(x.tasks@) == v
        },
        None => r is Err,
    }
}

proof fn lemma_pending_task_roundtrip(t: PendingClusterTaskView, rest: Seq<u8>)
    requires
        string_fits(t.priority),
        string_fits(t.source),
    ensures
        parse_pending_task(enc_pending_task(t) + rest) == Some((t, enc_pending_task(t).len() as int)),
{
    reveal(enc_pending_task);
    reveal(parse_pending_task);
    let e1 = enc_i64(t.insert_order);
    let e2 = enc_string(t.priority);
    let e3 = enc_string(t.source);
    let e4 = enc_bool(t.executing);
    let e5 = enc_i64(t.time_in_queue_millis);
    let t4 = e5 + rest;
    let t3 = e4 + t4;
    let t2 = e3 + t3;
    let t1 = e2 + t2;
    let s = enc_pending_task(t) + rest;
    lemma_append_assoc(e4, e5, rest);
    lemma_append_assoc(e3, e4 + e5, rest);
    lemma_append_assoc(e2, e3 + (e4 + e5), rest);
    lemma_append_assoc(e1, e2 + (e3 + (e4 + e5)), rest);
    assert(s == e1 + t1);
    lemma_i64_roundtrip(t.insert_order, t1);
    lemma_skip_append(e1, t1);
    lemma_string_roundtrip(t.priority, t2);
    assert(s.skip((e1.len() + e2.len()) as int) =~= t2);
    lemma_string_roundtrip(t.source, t3);
    assert(s.skip((e1.len() + e2.len() + e3.len()) as int) =~= t3);
    lemma_bool_roundtrip(t.executing, t4);
    assert(s.skip((e1.len() + e2.len() + e3.len() + e4.len()) as int) =~= t4);
    lemma_i64_roundtrip(t.time_in_queue_millis, rest);
}

proof fn lemma_pending_tasks_roundtrip(v: Seq<PendingClusterTaskView>, rest: Seq<u8>)
    requires
        forall|i: int| 0 <= i < v.len() ==> string_fits(#[trigger] v[i].priority) && string_fits(v[i].source),
    ensures
        parse_pending_tasks(enc_pending_tasks(v) + rest, v.len()) == Some((v, enc_pending_tasks(v).len() as int)),
    decreases v.len(),
{
    if v.len() > 0 {
        let init = v.drop_last();
        let e = enc_pending_task(v.last());
        assert forall|i: int| 0 <= i < init.len() implies string_fits(#[trigger] init[i].priority) && string_fits(
            init[i].source,
        ) by {
            assert(init[i] == v[i]);
        }
        lemma_pending_tasks_roundtrip(init, e + rest);
        let s = enc_pending_tasks(v) + rest;
        assert(enc_pending_tasks(v) == enc_pending_tasks(init) + e);
        lemma_append_assoc(enc_pending_tasks(init), e, rest);
        assert(s == enc_pending_tasks(init) + (e + rest));
        assert(string_fits(v[v.len() - 1].priority));
        lemma_pending_task_roundtrip(v.last(), rest);
        lemma_skip_append(enc_pending_tasks(init), e + rest);
        let k = enc_pending_tasks(init).len() as int;
        assert(s.skip(k) == e + rest);
        assert(parse_pending_tasks(s, init.len()) == Some((init, k)));
        assert(((v.len() - 1) as nat) == init.len());
        assert(init.push(v.last()) =~= v);
        assert(parse_pending_task(s.skip(k)) == Some((v.last(), e.len() as int)));
    } else {
        assert(enc_pending_tasks(v) + rest =~= rest);
        assert(v =~= Seq::<PendingClusterTaskView>::empty());
    }
}

/// A pending task goes on the wire as its insertion order, its priority, its
/// source, whether it is executing, and how long it has waited, in that
/// order; and a reader given those five values in that order reads each back
/// into its own field, whatever follows them.
pub proof fn lemma_pending_task_wire_order(
    insert_order: i64,
    priority: Seq<char>,
    source: Seq<char>,
    executing: bool,
    time_in_queue_millis: i64,
    rest: Seq<u8>,
)
    requires
        string_fits(priority),
        string_fits(source),
    ensures
        ({
            let t = PendingClusterTaskView { insert_order, priority, source, executing, time_in_queue_millis };
            let wire = enc_i64(insert_order) + enc_string(priority) + enc_string(source) + enc_bool(executing)
                + enc_i64(time_in_queue_millis);
            &&& enc_pending_task(t) == wire
            &&& parse_pending_task(wire + rest) == Some((t, wire.len() as int))
        }),
{
    let t = PendingClusterTaskView { insert_order, priority, source, executing, time_in_queue_millis };
    let wire = enc_i64(insert_order) + enc_string(priority) + enc_string(source) + enc_bool(executing) + enc_i64(
        time_in_queue_millis,
    );
    reveal(enc_pending_task);
    assert(enc_pending_task(t) =~= wire);
    lemma_pending_task_roundtrip(t, rest);
}

/// The answer reads back as written, whatever follows it.
pub proof fn lemma_pending_cluster_tasks_response_roundtrip(v: Seq<PendingClusterTaskView>, rest: Seq<u8>)
    requires
        pending_cluster_tasks_response_fits(v),
    ensures
        parse_pending_cluster_tasks_response(enc_pending_cluster_tasks_response(v) + rest) == Some(
            (v, enc_pending_cluster_tasks_response(v).len() as int),
        ),
{
    reveal(parse_pending_cluster_tasks_response);
    let c = enc_vint(v.len() as i32);
    lemma_append_assoc(c, enc_pending_tasks(v), rest);
    lemma_vint_roundtrip(v.len() as i32, enc_pending_tasks(v) + rest);
    lemma_skip_append(c, enc_pending_tasks(v) + rest);
    lemma_pending_tasks_roundtrip(v, rest);
}

/// Reading the whole of a written answer gives back the tasks written.
pub proof fn lemma_pending_cluster_tasks_response_read_back(
    v: Seq<PendingClusterTaskView>,
    r: Result<PendingClusterTasksResponseWire, TransportActionWireError>,
)
    requires
        pending_cluster_tasks_response_fits(v),
        pending_cluster_tasks_response_read_result(enc_pending_cluster_tasks_response(v), r),
    ensures
        r matches Ok(x) && pending_task_views(x.tasks@) == v,
{
    lemma_pending_cluster_tasks_response_roundtrip(v, Seq::empty());
    assert(enc_pending_cluster_tasks_response(v) + Seq::<u8>::empty() =~= enc_pending_cluster_tasks_response(v));
}

proof fn lemma_pending_tasks_fail_after(s: Seq<u8>, i: nat, n: nat)
    requires
        i < n,
        parse_pending_tasks(s, i) is Some,
        parse_pending_tasks(s, (i + 1) as nat) is None,
    ensures
        parse_pending_tasks(s, n) is None,
    decreases n - i,
{
    if n > i + 1 {
        lemma_pending_tasks_fail_after(s, i, (n - 1) as nat);
    }
}

impl PendingClusterTaskWire {
    /// Writes a task.
    pub fn write(&self, output: &mut StreamOutput)
        ensures
            final(output)@ == old(output)@ + enc_pending_task(self@),
    {
        reveal(enc_pending_task);
        output.write_i64(self.insert_order);
        output.write_string(self.priority.as_str());
        output.write_string(self.source.as_str());
        output.write_bool(self.executing);
        output.write_i64(self.time_in_queue_millis);
        assert(output@ =~= old(output)@ + enc_pending_task(self@));
    }

    /// Reads a task.
    pub fn read(input: &mut StreamInput) -> (r: Result<Self, TransportActionWireError>)
        ensures
            final(input).data() == old(input).data(),
            old(input).pos() <= final(input).pos() <= final(input).data().len(),
            match parse_pending_task(old(input).rest()) {
                Some((v, n)) => r matches Ok(x) && x@ == v && final(input).pos() == old(input).pos() + n,
                None => r is Err,
            },
    {
        reveal(parse_pending_task);
        let ghost s = old(input).rest();
        let ghost p0 = old(input).pos();
        let insert_order = lift(input.read_i64())?;
        assert(input.rest() =~= s.skip(input.pos() - p0));
        let priority = lift(input.read_string())?;
        assert(input.rest() =~= s.skip(input.pos() - p0));
        let source = lift(input.read_string())?;
        assert(input.rest() =~= s.skip(input.pos() - p0));
        let executing = lift(input.read_bool())?;
        assert(input.rest() =~= s.skip(input.pos() - p0));
        let time_in_queue_millis = lift(input.read_i64())?;
        Ok(PendingClusterTaskWire { insert_order, priority, source, executing, time_in_queue_millis })
    }
}

impl PendingClusterTasksResponseWire {
    /// Writes the answer.
    pub fn write(&self, output: &mut StreamOutput)
        ensures
            final(output)@ == old(output)@ + enc_pending_cluster_tasks_response(pending_task_views(self.tasks@)),
    {
        let ghost views = pending_task_views(self.tasks@);
        output.write_vint(self.tasks.len() as i32);
        let ghost start = output@;
        let mut i: usize = 0;
        assert(views.take(0) =~= Seq::<PendingClusterTaskView>::empty());
        while i < self.tasks.len()
            invariant
                i <= self.tasks@.len(),
                views == pending_task_views(self.tasks@),
                start == old(output)@ + enc_vint(self.tasks@.len() as i32),
                output@ == start + enc_pending_tasks(views.take(i as int)),
            decreases self.tasks@.len() - i,
        {
            self.tasks[i].write(output);
            proof {
                assert(views.take(i + 1).drop_last() =~= views.take(i as int));
                assert(views.take(i + 1).last() == views[i as int]);
                lemma_append_assoc(start, enc_pending_tasks(views.take(i as int)), enc_pending_task(views[i as int]));
            }
            i = i + 1;
        }
        assert(views.take(i as int) =~= views);
    }

    /// Reads the answer: the task count, then the tasks.
    pub fn read_from_input(input: &mut StreamInput) -> (r: Result<Self, TransportActionWireError>)
        ensures
            final(input).data() == old(input).data(),
            old(input).pos() <= final(input).pos() <= final(input).data().len(),
            match parse_pending_cluster_tasks_response(old(input).rest()) {
                Some((v, n)) => r matches Ok(x) && pending_task_views(x.tasks@) == v && final(input).pos()
                    == old(input).pos() + n,
                None => r is Err,
            },
    {
        reveal(parse_pending_cluster_tasks_response);
        let ghost s0 = old(input).rest();
        let n = lift(input.read_len())?;
        let ghost k0 = input.pos() - old(input).pos();
        let ghost s = s0.skip(k0);
        assert(input.rest() =~= s);
        let ghost p0 = input.pos();
        let mut tasks: Vec<PendingClusterTaskWire> = Vec::new();
        assert(pending_task_views(tasks@) =~= Seq::<PendingClusterTaskView>::empty());
        let mut i: usize = 0;
        while i < n
            invariant
                i <= n,
                input.data() == old(input).data(),
                old(input).pos() <= p0 <= input.pos() <= input.data().len(),
                s == input.data().skip(p0 as int),
                s0 == old(input).rest(),
                parse_len(s0) == Some((n as nat, k0)),
                s == s0.skip(k0),
                p0 == old(input).pos() + k0,
                parse_pending_tasks(s, i as nat) == Some((pending_task_views(tasks@), input.pos() - p0)),
            decreases n - i,
        {
            reveal(parse_pending_cluster_tasks_response);
            assert(input.rest() =~= s.skip(input.pos() - p0));
            let task = match PendingClusterTaskWire::read(input) {
                Ok(x) => x,
                Err(e) => {
                    proof {
                        lemma_pending_tasks_fail_after(s, i as nat, n as nat);
                    }
                    return Err(e);
                },
            };
            proof {
                assert(pending_task_views(tasks@.push(task)) =~= pending_task_views(tasks@).push(task@));
            }
            tasks.push(task);
            i = i + 1;
        }
        Ok(PendingClusterTasksResponseWire { tasks })
    }

    /// Reads the answer from the whole of `bytes`.
    pub fn read(bytes: Vec<u8>) -> (r: Result<Self, TransportActionWireError>)
        ensures
            pending_cluster_tasks_response_read_result(bytes@, r),
    {
        let mut input = StreamInput::new(bytes);
        let value = Self::read_from_input(&mut input)?;
        require_no_trailing_bytes(&input)?;
        Ok(value)
    }
}

/// The wire order of a pending cluster tasks response: its fields go on the wire one after the
/// other in the order listed here, and a reader given them in that order
/// reads each back into its own field, whatever follows them.
pub proof fn lemma_pending_cluster_tasks_response_wire_order(v: Seq<PendingClusterTaskView>, rest: Seq<u8>)
    requires
        pending_cluster_tasks_response_fits(v),
    ensures
        enc_pending_cluster_tasks_response(v) == (enc_vint(v.len() as i32) + enc_pending_tasks(v)),
        parse_pending_cluster_tasks_response((enc_vint(v.len() as i32) + enc_pending_tasks(v)) + rest) == Some(
            (v, (enc_vint(v.len() as i32) + enc_pending_tasks(v)).len() as int),
        ),
{
    assert(enc_pending_cluster_tasks_response(v) =~= (enc_vint(v.len() as i32) + enc_pending_tasks(v)));
    lemma_pending_cluster_tasks_response_roundtrip(v, rest);
}

} // verus!
