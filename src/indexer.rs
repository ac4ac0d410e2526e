//! Correlation of the dispatch and dispatch-id streams into message records,
//! and selection of records by an optional sender, receiver and destination.
use crate::decoder::{
    decode_dispatch, decode_dispatch_id, decode_dispatch_id_spec, decode_dispatch_spec,
};
use crate::types::{
    dispatch_views, log_views, DecodeError, Dispatch, DispatchView, RawLog, RawLogView,
};
use vstd::prelude::*;

verus! {

/// Whether a reorganisation retracted this log.
pub open spec fn is_removed(log: RawLogView) -> bool {
    log.removed == Some(true)
}

/// Whether a pair of logs is kept: neither side was retracted.
pub open spec fn retained(a: RawLogView, b: RawLogView) -> bool {
    !is_removed(a) && !is_removed(b)
}

/// The message record that a dispatch log and a dispatch-id log make together.
pub open spec fn pair_message(origin: u32, a: RawLogView, b: RawLogView) -> Result<
    DispatchView,
    DecodeError,
> {
    match decode_dispatch_spec(a) {
        Err(e) => Err(e),
        Ok(ev) => match decode_dispatch_id_spec(b) {
            Err(e) => Err(e),
            Ok(id) => Ok(
                DispatchView {
                    id,
                    origin,
                    sender: ev.sender,
                    destination: ev.destination,
                    receiver: ev.receiver,
                    message: ev.message,
                },
            ),
        },
    }
}

/// Number of pairs that two streams make: the length of the shorter one.
pub open spec fn pair_count(a: Seq<RawLogView>, b: Seq<RawLogView>) -> nat {
    if a.len() <= b.len() {
        a.len()
    } else {
        b.len()
    }
}

/// The records that the first `n` pairs give: one for each retained pair, in
/// order, or the error of the first retained pair that does not decode.
pub open spec fn stitch(origin: u32, a: Seq<RawLogView>, b: Seq<RawLogView>, n: nat) -> Result<
    Seq<DispatchView>,
    DecodeError,
>
    decreases n,
{
    if n == 0 {
        Ok(Seq::empty())
    } else {
        let i = n - 1;
        match stitch(origin, a, b, i as nat) {
            Err(e) => Err(e),
            Ok(prev) => if retained(a[i], b[i]) {
                match pair_message(origin, a[i], b[i]) {
                    Err(e) => Err(e),
                    Ok(m) => Ok(prev.push(m)),
                }
            } else {
                Ok(prev)
            },
        }
    }
}

/// The positions among the first `n` whose pair is retained, in increasing order.
pub open spec fn retained_positions(a: Seq<RawLogView>, b: Seq<RawLogView>, n: nat) -> Seq<int>
    decreases n,
{
    if n == 0 {
        Seq::empty()
    } else {
        let i = n - 1;
        let prev = retained_positions(a, b, i as nat);
        if retained(a[i], b[i]) {
            prev.push(i)
        } else {
            prev
        }
    }
}

/// An optional constraint on each of sender, receiver and destination domain.
pub struct QueryFilter {
    pub sender: Option<[u8; 20]>,
    pub receiver: Option<[u8; 20]>,
    pub destination: Option<u32>,
}

/// A query filter as values.
pub struct QueryFilterView {
    pub sender: Option<Seq<u8>>,
    pub receiver: Option<Seq<u8>>,
    pub destination: Option<u32>,
}

impl View for QueryFilter {
    type V = QueryFilterView;

    open spec fn view(&self) -> QueryFilterView {
        QueryFilterView {
            sender: match self.sender {
                Some(s) => Some(s@),
                None => None,
            },
            receiver: match self.receiver {
                Some(r) => Some(r@),
                None => None,
            },
            destination: self.destination,
        }
    }
}

/// Whether a record meets every constraint that the filter holds.
pub open spec fn matches(f: QueryFilterView, m: DispatchView) -> bool {
    &&& match f.sender {
        Some(s) => m.sender == s,
        None => true,
    }
    &&& match f.receiver {
        Some(r) => m.receiver == r,
        None => true,
    }
    &&& match f.destination {
        Some(d) => m.destination == d,
        None => true,
    }
}

/// The records of `ms` that meet the filter, in their order.
pub open spec fn select_spec(ms: Seq<DispatchView>, f: QueryFilterView) -> Seq<DispatchView>
    decreases ms.len(),
{
    if ms.len() == 0 {
        Seq::empty()
    } else {
        let prev = select_spec(ms.drop_last(), f);
        if matches(f, ms.last()) {
            prev.push(ms.last())
        } else {
            prev
        }
    }
}

/// The filter with no constraint.
pub open spec fn no_constraint() -> QueryFilterView {
    QueryFilterView { sender: None, receiver: None, destination: None }
}

/// An error met among the first `k` pairs stays the result for any longer prefix.
proof fn lemma_stitch_error_persists(
    origin: u32,
    a: Seq<RawLogView>,
    b: Seq<RawLogView>,
    k: nat,
    n: nat,
    e: DecodeError,
)
    requires
        k <= n,
        stitch(origin, a, b, k) == Err::<Seq<DispatchView>, DecodeError>(e),
    ensures
        stitch(origin, a, b, n) == Err::<Seq<DispatchView>, DecodeError>(e),
    decreases n - k,
{
    if k < n {
        lemma_stitch_error_persists(origin, a, b, k, (n - 1) as nat, e);
    }
}

/// Selecting with no constraint gives back the records unchanged and in order.
pub proof fn lemma_select_no_constraint(ms: Seq<DispatchView>)
    ensures
        select_spec(ms, no_constraint()) == ms,
    decreases ms.len(),
{
    if ms.len() > 0 {
        lemma_select_no_constraint(ms.drop_last());
        assert(ms.drop_last().push(ms.last()) =~= ms);
    }
}

/// A selection holds only records of the input, and holds a record of the
/// input exactly when the record meets every constraint of the filter.
pub proof fn lemma_select_members(ms: Seq<DispatchView>, f: QueryFilterView)
    ensures
        forall|m: DispatchView| #[trigger]
            select_spec(ms, f).contains(m) <==> (ms.contains(m) && matches(f, m)),
    decreases ms.len(),
{
    if ms.len() > 0 {
        let init = ms.drop_last();
        lemma_select_members(init, f);
        assert(init.push(ms.last()) =~= ms);
        assert forall|m: DispatchView| #[trigger]
            select_spec(ms, f).contains(m) <==> (ms.contains(m) && matches(f, m)) by {
            if ms.contains(m) {
                let j = choose|j: int| 0 <= j < ms.len() && ms[j] == m;
                if j < ms.len() - 1 {
                    assert(init[j] == m);
                }
            }
            if init.contains(m) {
                let j = choose|j: int| 0 <= j < init.len() && init[j] == m;
                assert(ms[j] == m);
            }
            let prev = select_spec(init, f);
            if matches(f, ms.last()) {
                if prev.push(ms.last()).contains(m) && m != ms.last() {
                    let j = choose|j: int| 0 <= j < prev.len() + 1 && prev.push(ms.last())[j] == m;
                    assert(prev[j] == m);
                }
                if m == ms.last() {
                    assert(prev.push(ms.last())[prev.len() as int] == m);
                }
                if prev.contains(m) {
                    let j = choose|j: int| 0 <= j < prev.len() && prev[j] == m;
                    assert(prev.push(ms.last())[j] == m);
                }
            }
        }
    }
}

/// Shape of a successful correlation of the first `n` pairs: one record per
/// retained position, each made of the two logs at that position.
proof fn lemma_stitch_shape(origin: u32, a: Seq<RawLogView>, b: Seq<RawLogView>, n: nat)
    requires
        n <= a.len(),
        n <= b.len(),
        stitch(origin, a, b, n) is Ok,
    ensures
        stitch(origin, a, b, n)->Ok_0.len() == retained_positions(a, b, n).len(),
        forall|k: int|
            0 <= k < retained_positions(a, b, n).len() ==> {
                let p = #[trigger] retained_positions(a, b, n)[k];
                &&& 0 <= p < n
                &&& retained(a[p], b[p])
                &&& pair_message(origin, a[p], b[p]) == Ok::<DispatchView, DecodeError>(
                    stitch(origin, a, b, n)->Ok_0[k],
                )
            },
        forall|i: int|
            0 <= i < n && retained(a[i], b[i]) ==> #[trigger] retained_positions(
                a,
                b,
                n,
            ).contains(i),
        forall|k1: int, k2: int|
            0 <= k1 < k2 < retained_positions(a, b, n).len() ==> #[trigger] retained_positions(
                a,
                b,
                n,
            )[k1] < #[trigger] retained_positions(a, b, n)[k2],
    decreases n,
{
    if n > 0 {
        let i = n - 1;
        lemma_stitch_shape(origin, a, b, i as nat);
        let prev = retained_positions(a, b, i as nat);
        let pos = retained_positions(a, b, n);
        assert forall|j: int| 0 <= j < n && retained(a[j], b[j]) implies #[trigger] pos.contains(
            j,
        ) by {
            if j < i {
                assert(prev.contains(j));
                let k = choose|k: int| 0 <= k < prev.len() && prev[k] == j;
                assert(pos[k] == j);
            } else {
                assert(pos[pos.len() - 1] == j);
            }
        }
    }
}

/// Correlation drops exactly the pairs of which either side was retracted:
/// the records stand for the retained positions, all of them, in increasing
/// order.
pub proof fn lemma_stitch_drops_retracted(origin: u32, a: Seq<RawLogView>, b: Seq<RawLogView>)
    requires
        stitch(origin, a, b, pair_count(a, b)) is Ok,
    ensures
        ({
            let n = pair_count(a, b);
            let out = stitch(origin, a, b, n)->Ok_0;
            let pos = retained_positions(a, b, n);
            &&& out.len() == pos.len()
            &&& forall|k: int|
                0 <= k < pos.len() ==> 0 <= #[trigger] pos[k] < n && !is_removed(a[pos[k]])
                    && !is_removed(b[pos[k]])
            &&& forall|i: int|
                0 <= i < n && !is_removed(a[i]) && !is_removed(b[i]) ==> #[trigger] pos.contains(
                    i,
                )
            &&& forall|k1: int, k2: int|
                0 <= k1 < k2 < pos.len() ==> #[trigger] pos[k1] < #[trigger] pos[k2]
        }),
{
    lemma_stitch_shape(origin, a, b, pair_count(a, b));
}

/// Correlation pairs by position: each record is made of the dispatch log and
/// the dispatch-id log found at one and the same index of the two streams.
pub proof fn lemma_stitch_pairs_by_position(
    origin: u32,
    a: Seq<RawLogView>,
    b: Seq<RawLogView>,
)
    requires
        stitch(origin, a, b, pair_count(a, b)) is Ok,
    ensures
        ({
            let n = pair_count(a, b);
            let out = stitch(origin, a, b, n)->Ok_0;
            forall|k: int|
                0 <= k < out.len() ==> exists|p: int|
                    0 <= p < n && pair_message(origin, a[p], b[p]) == Ok::<
                        DispatchView,
                        DecodeError,
                    >(#[trigger] out[k])
        }),
{
    let n = pair_count(a, b);
    lemma_stitch_shape(origin, a, b, n);
    let out = stitch(origin, a, b, n)->Ok_0;
    let pos = retained_positions(a, b, n);
    assert forall|k: int| 0 <= k < out.len() implies exists|p: int|
        0 <= p < n && pair_message(origin, a[p], b[p]) == Ok::<DispatchView, DecodeError>(
            #[trigger] out[k],
        ) by {
        let p = pos[k];
        assert(0 <= p < n);
    }
}

/// Whether two addresses are the same.
fn same_address(x: &[u8; 20], y: &[u8; 20]) -> (r: bool)
    ensures
        r == (x@ == y@),
{
    let mut i: usize = 0;
    while i < 20
        invariant
            0 <= i <= 20,
            forall|k: int| 0 <= k < i ==> x@[k] == y@[k],
        decreases 20 - i,
    {
        if x[i] != y[i] {
            return false;
        }
        i = i + 1;
    }
    assert(x@ =~= y@);
    true
}

impl QueryFilter {
    /// Whether a record meets the filter. Each combination of present and
    /// absent constraints has its own arm, so none can be passed over.
    pub fn accepts(&self, m: &Dispatch) -> (r: bool)
        ensures
            r == matches(self@, m@),
    {
        match (&self.sender, &self.receiver, &self.destination) {
            (Some(s), Some(r), Some(d)) => m.destination == *d && same_address(&m.sender, s)
                && same_address(&m.receiver, r),
            (Some(s), Some(r), None) => same_address(&m.sender, s) && same_address(&m.receiver, r),
            (Some(s), None, Some(d)) => same_address(&m.sender, s) && m.destination == *d,
            (Some(s), None, None) => same_address(&m.sender, s),
            (None, Some(r), Some(d)) => same_address(&m.receiver, r) && m.destination == *d,
            (None, Some(r), None) => same_address(&m.receiver, r),
            (None, None, Some(d)) => m.destination == *d,
            (None, None, None) => true,
        }
    }
}

/// The stateless indexing pipeline over logs already fetched from a chain.
pub struct Indexer;

impl Indexer {
    /// Pairs the dispatch logs with the dispatch-id logs by position, drops
    /// each pair of which either side was retracted, and decodes the rest into
    /// records from chain `origin`. The first pair that fails to decode aborts
    /// the whole correlation.
    pub fn correlate(origin: u32, dispatch_logs: &Vec<RawLog>, id_logs: &Vec<RawLog>) -> (r: Result<
        Vec<Dispatch>,
        DecodeError,
    >)
        ensures
            match r {
                Ok(v) => stitch(
                    origin,
                    log_views(dispatch_logs@),
                    log_views(id_logs@),
                    pair_count(log_views(dispatch_logs@), log_views(id_logs@)),
                ) == Ok::<Seq<DispatchView>, DecodeError>(dispatch_views(v@)),
                Err(e) => stitch(
                    origin,
                    log_views(dispatch_logs@),
                    log_views(id_logs@),
                    pair_count(log_views(dispatch_logs@), log_views(id_logs@)),
                ) == Err::<Seq<DispatchView>, DecodeError>(e),
            },
    {
        let ghost va = log_views(dispatch_logs@);
        let ghost vb = log_views(id_logs@);
        let n: usize = if dispatch_logs.len() <= id_logs.len() {
            dispatch_logs.len()
        } else {
            id_logs.len()
        };
        let mut out: Vec<Dispatch> = Vec::new();
        assert(dispatch_views(out@) =~= Seq::empty());
        let mut i: usize = 0;
        while i < n
            invariant
                0 <= i <= n,
                n == pair_count(va, vb),
                n <= dispatch_logs@.len(),
                n <= id_logs@.len(),
                va == log_views(dispatch_logs@),
                vb == log_views(id_logs@),
                stitch(origin, va, vb, i as nat) == Ok::<Seq<DispatchView>, DecodeError>(
                    dispatch_views(out@),
                ),
            decreases n - i,
        {
            let a = &dispatch_logs[i];
            let b = &id_logs[i];
            assert(va[i as int] == a@);
            assert(vb[i as int] == b@);
            let kept = a.removed != Some(true) && b.removed != Some(true);
            if kept {
                let ev = match decode_dispatch(a) {
                    Ok(ev) => ev,
                    Err(e) => {
                        proof {
                            lemma_stitch_error_persists(origin, va, vb, (i + 1) as nat, n as nat, e);
                        }
                        return Err(e);
                    },
                };
                let id = match decode_dispatch_id(b) {
                    Ok(id) => id,
                    Err(e) => {
                        proof {
                            lemma_stitch_error_persists(origin, va, vb, (i + 1) as nat, n as nat, e);
                        }
                        return Err(e);
                    },
                };
                let m = Dispatch {
                    id,
                    origin,
                    sender: ev.sender,
                    destination: ev.destination,
                    receiver: ev.receiver,
                    message: ev.message,
                };
                let ghost before = out@;
                out.push(m);
                assert(dispatch_views(out@) =~= dispatch_views(before).push(m@));
            }
            i = i + 1;
        }
        Ok(out)
    }

    /// The records that meet the filter, in their order.
    pub fn select(messages: &Vec<Dispatch>, filter: &QueryFilter) -> (r: Vec<Dispatch>)
        ensures
            dispatch_views(r@) == select_spec(dispatch_views(messages@), filter@),
    {
        let ghost vm = dispatch_views(messages@);
        let mut out: Vec<Dispatch> = Vec::new();
        assert(dispatch_views(out@) =~= select_spec(vm.subrange(0, 0), filter@));
        let mut i: usize = 0;
        while i < messages.len()
            invariant
                0 <= i <= messages@.len(),
                vm == dispatch_views(messages@),
                dispatch_views(out@) == select_spec(vm.subrange(0, i as int), filter@),
            decreases messages@.len() - i,
        {
            let m = &messages[i];
            assert(vm.subrange(0, i + 1).drop_last() =~= vm.subrange(0, i as int));
            assert(vm.subrange(0, i + 1).last() == m@);
            if filter.accepts(m) {
                let ghost before = out@;
                out.push(m.duplicate());
                assert(dispatch_views(out@) =~= dispatch_views(before).push(m@));
            }
            i = i + 1;
        }
        assert(vm.subrange(0, messages@.len() as int) =~= vm);
        out
    }

    /// The records from chain `origin` that the fetched logs hold and that
    /// meet the filter: correlation followed by selection.
    pub fn events_in_range(
        origin: u32,
        dispatch_logs: &Vec<RawLog>,
        id_logs: &Vec<RawLog>,
        filter: &QueryFilter,
    ) -> (r: Result<Vec<Dispatch>, DecodeError>)
        ensures
            match stitch(
                origin,
                log_views(dispatch_logs@),
                log_views(id_logs@),
                pair_count(log_views(dispatch_logs@), log_views(id_logs@)),
            ) {
                Ok(all) => r is Ok && dispatch_views(r->Ok_0@) == select_spec(all, filter@),
                Err(e) => r == Err::<Vec<Dispatch>, DecodeError>(e),
            },
    {
        let all = Indexer::correlate(origin, dispatch_logs, id_logs)?;
        Ok(Indexer::select(&all, filter))
    }
}

} // verus!
