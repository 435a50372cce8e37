//! The stored counter as a state machine: what each entry point does to the
//! value kept in the count slot.
use vstd::multiset::Multiset;
use vstd::prelude::*;

verus! {

/// The value the count slot holds right after installation.
pub const INITIAL_COUNT: i64 = 0;

/// The version number that the platform gives the first version of a new
/// contract package.
pub const FIRST_VERSION: u32 = 1;

/// The entry points of the counter contract.
#[derive(Clone, Copy, Debug, PartialEq, Eq, Structural)]
pub enum CounterCall {
    Inc,
    Dec,
    Reset,
    Get,
}

/// A change that an entry point asks the platform to make to the count slot.
#[derive(Clone, Copy, Debug, PartialEq, Eq, Structural)]
pub enum CountUpdate {
    /// Add a signed amount to the stored value; the platform wraps on overflow.
    Add(i32),
    /// Overwrite the stored value.
    Write(i64),
}

/// The change that `call` makes to the count slot, if any.
pub open spec fn update_of(call: CounterCall) -> Option<CountUpdate> {
    match call {
        CounterCall::Inc => Some(CountUpdate::Add(1i32)),
        CounterCall::Dec => Some(CountUpdate::Add(-1i32)),
        CounterCall::Reset => Some(CountUpdate::Write(INITIAL_COUNT)),
        CounterCall::Get => None,
    }
}

/// The stored value after `update` is applied to `value`.
pub open spec fn applied(value: i64, update: CountUpdate) -> i64 {
    match update {
        CountUpdate::Add(d) => value.wrapping_add(d as i64),
        CountUpdate::Write(v) => v,
    }
}

/// The stored value after `call` ran on a slot that held `value`.
pub open spec fn after_call(value: i64, call: CounterCall) -> i64 {
    match update_of(call) {
        Some(u) => applied(value, u),
        None => value,
    }
}

/// The stored value after `calls` ran, in order, on a slot that held `start`.
/// The entry points `counter_inc`, `counter_dec` and `counter_reset` ask the
/// platform for exactly `update_of(call)` on the count slot they find.
pub open spec fn run(start: i64, calls: Seq<CounterCall>) -> i64
    decreases calls.len(),
{
    if calls.len() == 0 {
        start
    } else {
        after_call(run(start, calls.drop_last()), calls.last())
    }
}

/// The amount one call adds to the count: one for an increment, minus one
/// for a decrement.
pub open spec fn step_of(call: CounterCall) -> int {
    match call {
        CounterCall::Inc => 1,
        CounterCall::Dec => -1,
        _ => 0,
    }
}

/// The sum of the steps of `calls`.
pub open spec fn net_sum(calls: Seq<CounterCall>) -> int
    decreases calls.len(),
{
    if calls.len() == 0 {
        0
    } else {
        net_sum(calls.drop_last()) + step_of(calls.last())
    }
}

/// Every call in `calls` is an increment or a decrement.
pub open spec fn only_inc_dec(calls: Seq<CounterCall>) -> bool {
    forall|i: int| 0 <= i < calls.len() ==> (#[trigger] calls[i] == CounterCall::Inc || calls[i]
        == CounterCall::Dec)
}

/// `k` whole wraparounds of `i64`: `k` times the number of its values.
pub open spec fn wraparounds(k: int) -> int {
    k * 0x1_0000_0000_0000_0000
}

/// After increments and decrements from `start`, the stored value differs
/// from `start` plus their net sum by a whole number of wraparounds.
pub proof fn lemma_run_wraps_net_sum(start: i64, calls: Seq<CounterCall>)
    requires
        only_inc_dec(calls),
    ensures
        exists|k: int| run(start, calls) as int == start as int + net_sum(calls) + #[trigger] wraparounds(k),
    decreases calls.len(),
{
    if calls.len() == 0 {
        assert(run(start, calls) as int == start as int + net_sum(calls) + wraparounds(0));
    } else {
        let prefix = calls.drop_last();
        assert forall|i: int| 0 <= i < prefix.len() implies (#[trigger] prefix[i]
            == CounterCall::Inc || prefix[i] == CounterCall::Dec) by {
            assert(prefix[i] == calls[i]);
        }
        lemma_run_wraps_net_sum(start, prefix);
        let k = choose|k: int|
            run(start, prefix) as int == start as int + net_sum(prefix) + wraparounds(k);
        let before = run(start, prefix);
        let last = calls.last();
        assert(calls[calls.len() - 1] == last);
        let sum = before as int + step_of(last);
        if sum > i64::MAX {
            assert(run(start, calls) as int == start as int + net_sum(calls) + wraparounds(k - 1));
        } else if sum < i64::MIN {
            assert(run(start, calls) as int == start as int + net_sum(calls) + wraparounds(k + 1));
        } else {
            assert(run(start, calls) as int == start as int + net_sum(calls) + wraparounds(k));
        }
    }
}

/// Starting from installation, the value stored after a sequence of
/// increments and decrements equals the net sum of their `+1` and `-1`
/// steps, for every sequence whose net sum is a value of `i64`.
pub proof fn lemma_count_is_net_sum(calls: Seq<CounterCall>)
    requires
        only_inc_dec(calls),
        i64::MIN <= net_sum(calls) <= i64::MAX,
    ensures
        run(INITIAL_COUNT, calls) as int == net_sum(calls),
{
    lemma_run_wraps_net_sum(INITIAL_COUNT, calls);
    let k = choose|k: int|
        run(INITIAL_COUNT, calls) as int == INITIAL_COUNT as int + net_sum(calls) + wraparounds(k);
    assert(k == 0);
}

/// A reset leaves zero in the count slot, whatever the calls before it and
/// whatever the slot held at first.
pub proof fn lemma_reset_yields_zero(start: i64, calls: Seq<CounterCall>)
    ensures
        run(start, calls.push(CounterCall::Reset)) == 0,
{
    assert(calls.push(CounterCall::Reset).drop_last() =~= calls);
}

/// The net sum is the number of increments less the number of decrements,
/// whatever their order.
pub proof fn lemma_net_sum_counts(calls: Seq<CounterCall>)
    ensures
        net_sum(calls) == calls.to_multiset().count(CounterCall::Inc) - calls.to_multiset().count(
            CounterCall::Dec,
        ),
    decreases calls.len(),
{
    broadcast use vstd::seq_lib::group_to_multiset_ensures;

    if calls.len() == 0 {
        assert(calls.to_multiset().len() == 0);
        assert(calls.to_multiset() =~= Multiset::<CounterCall>::empty());
    } else {
        let prefix = calls.drop_last();
        lemma_net_sum_counts(prefix);
        assert(calls =~= prefix.push(calls.last()));
    }
}

/// Two runs of increments and decrements that hold the same calls, in any
/// order, leave the same stored value.
pub proof fn lemma_count_order_free(a: Seq<CounterCall>, b: Seq<CounterCall>)
    requires
        only_inc_dec(a),
        only_inc_dec(b),
        a.to_multiset() == b.to_multiset(),
    ensures
        run(INITIAL_COUNT, a) == run(INITIAL_COUNT, b),
{
    lemma_net_sum_counts(a);
    lemma_net_sum_counts(b);
    lemma_run_wraps_net_sum(INITIAL_COUNT, a);
    lemma_run_wraps_net_sum(INITIAL_COUNT, b);
    let ka = choose|k: int|
        run(INITIAL_COUNT, a) as int == INITIAL_COUNT as int + net_sum(a) + wraparounds(k);
    let kb = choose|k: int|
        run(INITIAL_COUNT, b) as int == INITIAL_COUNT as int + net_sum(b) + wraparounds(k);
    assert(ka == kb);
}

/// An increment undoes a decrement and a decrement undoes an increment, on
/// every stored value, wraparound included.
pub proof fn lemma_inc_dec_cancel(value: i64)
    ensures
        after_call(after_call(value, CounterCall::Dec), CounterCall::Inc) == value,
        after_call(after_call(value, CounterCall::Inc), CounterCall::Dec) == value,
{
}

/// An increment and a decrement give the same stored value in either order.
pub proof fn lemma_inc_dec_commute(value: i64)
    ensures
        after_call(after_call(value, CounterCall::Dec), CounterCall::Inc) == after_call(
            after_call(value, CounterCall::Inc),
            CounterCall::Dec,
        ),
{
    lemma_inc_dec_cancel(value);
}

/// The change that an entry point asks for: `+1` for an increment, `-1` for
/// a decrement, a write of zero for a reset, none for a read.
pub fn update_for(call: CounterCall) -> (r: Option<CountUpdate>)
    ensures
        r == update_of(call),
{
    match call {
        CounterCall::Inc => Some(CountUpdate::Add(1)),
        CounterCall::Dec => Some(CountUpdate::Add(-1i32)),
        CounterCall::Reset => Some(CountUpdate::Write(INITIAL_COUNT)),
        CounterCall::Get => None,
    }
}

/// Applies `update` to a stored `value`: an addition wraps around at the
/// bounds of `i64`, a write replaces the value.
pub fn apply_update(value: i64, update: CountUpdate) -> (r: i64)
    ensures
        r == applied(value, update),
{
    match update {
        CountUpdate::Add(d) => value.wrapping_add(d as i64),
        CountUpdate::Write(v) => v,
    }
}

/// The stored state of an installed counter contract.
#[derive(Clone, Copy, Debug, PartialEq, Eq, Structural)]
pub struct CounterState {
    /// The value in the count slot.
    pub count: i64,
    /// The version number recorded at installation.
    pub version: u32,
}

impl CounterState {
    /// The state right after installation.
    pub fn installed() -> (s: CounterState)
        ensures
            s.count == 0,
            s.version == 1,
    {
        CounterState { count: INITIAL_COUNT, version: FIRST_VERSION }
    }

    /// Runs one entry point: applies its change to the count and returns the
    /// count for a read.
    pub fn step(&mut self, call: CounterCall) -> (r: Option<i64>)
        ensures
            final(self).count == after_call(old(self).count, call),
            final(self).version == old(self).version,
            r == (if call == CounterCall::Get { Some(old(self).count) } else { None::<i64> }),
    {
        match update_for(call) {
            Some(u) => {
                self.count = apply_update(self.count, u);
                None
            },
            None => Some(self.count),
        }
    }
}

} // verus!
