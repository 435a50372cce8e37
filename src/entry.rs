//! The entry points of the installed contract: each finds the count slot
//! among the contract's named keys and says what to do with it.
use crate::counter::{
    lemma_count_is_net_sum, lemma_count_order_free, lemma_reset_yields_zero, net_sum, only_inc_dec,
    run, update_for, update_of, CountUpdate, CounterCall, INITIAL_COUNT,
};
use casper_types::bytesrepr;
use casper_types::{ApiError, CLValue, CLValueError, Key, URef};
use vstd::prelude::*;

verus! {

/// The name under which the count slot is kept among the contract's keys.
pub const COUNT_KEY: &'static str = "count";

/// Why an entry point call fails.
#[derive(Clone, Copy, Debug, PartialEq, Eq, Structural)]
pub enum CounterError {
    /// No key is stored under the count slot's name.
    MissingKey,
    /// The key under the count slot's name is not a storage reference.
    UnexpectedKeyVariant,
    /// The stored value could not be read.
    Read,
    /// Nothing is stored in the count slot.
    ValueNotFound,
    /// The count could not be made into a typed return value.
    TypeMismatch,
}

/// The code under which a failure is reported to the platform.
pub open spec fn api_error_of(e: CounterError) -> ApiError {
    match e {
        CounterError::MissingKey => ApiError::MissingKey,
        CounterError::UnexpectedKeyVariant => ApiError::UnexpectedKeyVariant,
        CounterError::Read => ApiError::Read,
        CounterError::ValueNotFound => ApiError::ValueNotFound,
        CounterError::TypeMismatch => ApiError::CLTypeMismatch,
    }
}

/// The platform error that a failed call reverts with.
pub fn api_error(e: CounterError) -> (r: ApiError)
    ensures
        r == api_error_of(e),
{
    match e {
        CounterError::MissingKey => ApiError::MissingKey,
        CounterError::UnexpectedKeyVariant => ApiError::UnexpectedKeyVariant,
        CounterError::Read => ApiError::Read,
        CounterError::ValueNotFound => ApiError::ValueNotFound,
        CounterError::TypeMismatch => ApiError::CLTypeMismatch,
    }
}

/// Relies on `Key::into_uref`: the storage reference of a key of the `URef`
/// variant, `None` for any other variant.
pub assume_specification[ Key::into_uref ](key: Key) -> (r: Option<URef>)
    ensures
        r == match key {
            Key::URef(u) => Some(u),
            _ => None::<URef>,
        },
;

/// The count slot found from what the platform returned for its name.
pub open spec fn slot_of(found: Option<Key>) -> Result<URef, CounterError> {
    match found {
        None => Err(CounterError::MissingKey),
        Some(Key::URef(u)) => Ok(u),
        Some(_) => Err(CounterError::UnexpectedKeyVariant),
    }
}

/// Finds the count slot from what the platform returned for its name:
/// `MissingKey` when nothing is stored under the name, `UnexpectedKeyVariant`
/// when the key there is not a storage reference, else the reference.
pub fn count_slot(found: Option<Key>) -> (r: Result<URef, CounterError>)
    ensures
        r == slot_of(found),
{
    match found {
        None => Err(CounterError::MissingKey),
        Some(key) => match key.into_uref() {
            Some(slot) => Ok(slot),
            None => Err(CounterError::UnexpectedKeyVariant),
        },
    }
}

/// A change to make to the count slot.
pub struct SlotUpdate {
    /// The count slot.
    pub slot: URef,
    /// The change to make to its value.
    pub update: CountUpdate,
}

/// What the entry point `call` asks for, given what the platform returned
/// for the count slot's name: the slot found and the call's change to it.
pub open spec fn entry_result(found: Option<Key>, call: CounterCall) -> Result<
    SlotUpdate,
    CounterError,
> {
    match slot_of(found) {
        Ok(slot) => Ok(SlotUpdate { slot, update: update_of(call).unwrap() }),
        Err(e) => Err(e),
    }
}

/// What an entry point that changes the count asks for, given what the
/// platform returned for the count slot's name.
fn slot_update(found: Option<Key>, call: CounterCall) -> (r: Result<SlotUpdate, CounterError>)
    requires
        update_of(call) is Some,
    ensures
        r == entry_result(found, call),
{
    let slot = match count_slot(found) {
        Ok(slot) => slot,
        Err(e) => {
            return Err(e);
        },
    };
    let update = update_for(call).unwrap();
    Ok(SlotUpdate { slot, update })
}

/// The increment entry point: adds one to the count slot.
pub fn counter_inc(found: Option<Key>) -> (r: Result<SlotUpdate, CounterError>)
    ensures
        r == entry_result(found, CounterCall::Inc),
        r is Ok ==> r->Ok_0.update == CountUpdate::Add(1i32),
        forall|u: URef| found == Some(Key::URef(u)) ==> (r is Ok && r->Ok_0.slot == u),
{
    slot_update(found, CounterCall::Inc)
}

/// The decrement entry point: adds minus one to the count slot.
pub fn counter_dec(found: Option<Key>) -> (r: Result<SlotUpdate, CounterError>)
    ensures
        r == entry_result(found, CounterCall::Dec),
        r is Ok ==> r->Ok_0.update == CountUpdate::Add(-1i32),
        forall|u: URef| found == Some(Key::URef(u)) ==> (r is Ok && r->Ok_0.slot == u),
{
    slot_update(found, CounterCall::Dec)
}

/// The reset entry point: writes zero to the count slot.
pub fn counter_reset(found: Option<Key>) -> (r: Result<SlotUpdate, CounterError>)
    ensures
        r == entry_result(found, CounterCall::Reset),
        r is Ok ==> r->Ok_0.update == CountUpdate::Write(0),
        forall|u: URef| found == Some(Key::URef(u)) ==> (r is Ok && r->Ok_0.slot == u),
{
    slot_update(found, CounterCall::Reset)
}

/// The count that a read of the count slot yields.
pub open spec fn count_read(read: Result<Option<i64>, bytesrepr::Error>) -> Result<
    i64,
    CounterError,
> {
    match read {
        Err(_) => Err(CounterError::Read),
        Ok(None) => Err(CounterError::ValueNotFound),
        Ok(Some(count)) => Ok(count),
    }
}

/// The count to return, given what the platform read from the count slot:
/// `Read` when the read failed, `ValueNotFound` when the slot is empty, and
/// otherwise the value read.
pub fn read_count(read: Result<Option<i64>, bytesrepr::Error>) -> (r: Result<i64, CounterError>)
    ensures
        r == count_read(read),
{
    match read {
        Err(_) => Err(CounterError::Read),
        Ok(None) => Err(CounterError::ValueNotFound),
        Ok(Some(count)) => Ok(count),
    }
}

/// The typed value that `CLValue::from_t` makes of an `i64`.
pub uninterp spec fn typed_i64(count: i64) -> CLValue;

/// Relies on `CLValue::from_t` for `i64`: an `i64` is serialized as its
/// eight little-endian bytes, which never fails, and the result depends on
/// the count alone.
#[verifier::external_body]
fn typed_count(count: i64) -> (r: Result<CLValue, CLValueError>)
    ensures
        r is Ok && r->Ok_0 == typed_i64(count),
{
    CLValue::from_t(count)
}

/// The read entry point, given what the platform read from the count slot:
/// the errors of `read_count`, and otherwise the typed value of the count
/// that `read_count` yields.
pub fn counter_get(read: Result<Option<i64>, bytesrepr::Error>) -> (r: Result<
    CLValue,
    CounterError,
>)
    ensures
        count_read(read) is Err ==> r == Err::<CLValue, CounterError>(count_read(read)->Err_0),
        count_read(read) is Ok <==> r is Ok,
        count_read(read) is Ok ==> (r is Ok && r->Ok_0 == typed_i64(count_read(read)->Ok_0)),
        r == get_result(read),
{
    match read_count(read) {
        Err(e) => Err(e),
        Ok(count) => match typed_count(count) {
            Ok(value) => Ok(value),
            Err(_) => Err(CounterError::TypeMismatch),
        },
    }
}

/// What the read entry point returns, given what the platform read from the
/// count slot.
pub open spec fn get_result(read: Result<Option<i64>, bytesrepr::Error>) -> Result<
    CLValue,
    CounterError,
> {
    match count_read(read) {
        Ok(count) => Ok(typed_i64(count)),
        Err(e) => Err(e),
    }
}

/// What the read entry point returns when the count slot holds `count`: the
/// typed value of `count`.
pub open spec fn get_of(count: i64) -> Result<CLValue, CounterError> {
    get_result(Ok(Some(count)))
}

/// Right after installation, a read returns zero.
pub proof fn lemma_get_after_install()
    ensures
        get_of(run(INITIAL_COUNT, Seq::<CounterCall>::empty())) == get_of(0),
{
}

/// After installation and a run of increments and decrements, a read
/// returns the net sum of their `+1` and `-1` steps, for every run whose net
/// sum is a value of `i64`.
pub proof fn lemma_get_is_net_sum(calls: Seq<CounterCall>)
    requires
        only_inc_dec(calls),
        i64::MIN <= net_sum(calls) <= i64::MAX,
    ensures
        get_of(run(INITIAL_COUNT, calls)) == get_of(net_sum(calls) as i64),
{
    lemma_count_is_net_sum(calls);
}

/// After installation, two runs that hold the same increments and
/// decrements, in any order, are read alike.
pub proof fn lemma_get_order_free(a: Seq<CounterCall>, b: Seq<CounterCall>)
    requires
        only_inc_dec(a),
        only_inc_dec(b),
        a.to_multiset() == b.to_multiset(),
    ensures
        get_of(run(INITIAL_COUNT, a)) == get_of(run(INITIAL_COUNT, b)),
{
    lemma_count_order_free(a, b);
}

/// After a reset a read returns zero, whatever the calls before it and
/// whatever the slot held at first.
pub proof fn lemma_get_after_reset(start: i64, calls: Seq<CounterCall>)
    ensures
        get_of(run(start, calls.push(CounterCall::Reset))) == get_of(0),
{
    lemma_reset_yields_zero(start, calls);
}

} // verus!
