use casper_types::bytesrepr;
use casper_types::contracts::{EntryPointAccess, EntryPointType};
use casper_types::{AccessRights, ApiError, CLType, CLValue, Key, URef};
use counter_contract::counter::{
    apply_update, update_for, CountUpdate, CounterCall, CounterState, FIRST_VERSION, INITIAL_COUNT,
};
use counter_contract::entry::{
    api_error, count_slot, counter_dec, counter_get, counter_inc, counter_reset, read_count,
    CounterError, SlotUpdate, COUNT_KEY,
};
use counter_contract::install::{
    call, count_named_key, counter_entry_points, CONTRACT_KEY, CONTRACT_VERSION_KEY, ENTRY_POINT_COUNTER_DEC,
    ENTRY_POINT_COUNTER_GET, ENTRY_POINT_COUNTER_INC, ENTRY_POINT_COUNTER_RESET,
};

fn slot() -> URef {
    URef::new([7u8; 32], AccessRights::READ_ADD_WRITE)
}

fn count_of(state: &mut CounterState) -> i64 {
    state.step(CounterCall::Get).expect("a read returns the count")
}

/// What the read entry point returns for a slot holding `stored`.
fn get_count(stored: i64) -> i64 {
    counter_get(Ok(Some(stored)))
        .ok()
        .expect("a stored count")
        .into_t::<i64>()
        .expect("an i64 return value")
}

/// Carries out on `stored` what an entry point asked of the count slot.
fn perform(stored: &mut i64, asked: Result<SlotUpdate, CounterError>) {
    let change = asked.ok().expect("the count slot is found");
    assert_eq!(change.slot, slot());
    *stored = apply_update(*stored, change.update);
}

#[test]
fn test_contract_deploy() {
    let version = CounterState::installed().version;
    assert_eq!(version, 1);

    let installation = call(slot());
    let count_key = *installation.named_keys.get(COUNT_KEY).expect("Count uref should exist");
    assert_eq!(count_key, Key::URef(slot()));

    let entry_points = installation.entry_points;
    assert!(entry_points.has_entry_point(ENTRY_POINT_COUNTER_INC));
    assert!(entry_points.has_entry_point(ENTRY_POINT_COUNTER_GET));
    assert!(entry_points.has_entry_point(ENTRY_POINT_COUNTER_DEC));
    assert!(entry_points.has_entry_point(ENTRY_POINT_COUNTER_RESET));
}

#[test]
fn test_counter_inc() {
    let key = call(slot()).named_keys.get(COUNT_KEY).copied();
    let mut stored = INITIAL_COUNT;
    let count_before = get_count(stored);
    perform(&mut stored, counter_inc(key));
    let count_after = get_count(stored);
    assert!(count_after - count_before == 1);
}

#[test]
fn test_counter_dec() {
    let key = call(slot()).named_keys.get(COUNT_KEY).copied();
    let mut stored = INITIAL_COUNT;
    let count_before = get_count(stored);
    perform(&mut stored, counter_dec(key));
    let count_after = get_count(stored);
    assert!(count_after - count_before == -1);
}

#[test]
fn test_counter_reset() {
    let key = call(slot()).named_keys.get(COUNT_KEY).copied();
    let mut stored = INITIAL_COUNT;
    perform(&mut stored, counter_inc(key));
    perform(&mut stored, counter_reset(key));
    let count = get_count(stored);
    assert_eq!(count, 0);
}

#[test]
fn model_inc_dec_reset() {
    let mut state = CounterState::installed();
    let before = count_of(&mut state);
    assert_eq!(state.step(CounterCall::Inc), None);
    assert_eq!(count_of(&mut state) - before, 1);
    assert_eq!(state.step(CounterCall::Dec), None);
    assert_eq!(state.step(CounterCall::Dec), None);
    assert_eq!(count_of(&mut state) - before, -1);
    state.step(CounterCall::Reset);
    assert_eq!(count_of(&mut state), 0);
}

#[test]
fn entry_points_inc_inc_dec_get_yields_one() {
    let key = Some(Key::URef(slot()));
    let mut stored = INITIAL_COUNT;
    perform(&mut stored, counter_inc(key));
    perform(&mut stored, counter_inc(key));
    perform(&mut stored, counter_dec(key));
    assert_eq!(get_count(stored), 1);
}

#[test]
fn inc_and_dec_cancel_even_at_the_bounds() {
    let key = Some(Key::URef(slot()));
    for start in [i64::MIN, -1, 0, 5, i64::MAX] {
        let mut stored = start;
        perform(&mut stored, counter_dec(key));
        perform(&mut stored, counter_inc(key));
        assert_eq!(stored, start);
        perform(&mut stored, counter_inc(key));
        perform(&mut stored, counter_dec(key));
        assert_eq!(stored, start);
    }
}

#[test]
fn entry_point_signatures() {
    let entry_points = counter_entry_points();
    assert_eq!(entry_points.keys().count(), 4);
    let get = entry_points.get(ENTRY_POINT_COUNTER_GET).expect("read entry point");
    assert_eq!(get.ret(), &CLType::I64);
    assert!(get.args().is_empty());
    assert_eq!(get.access(), &EntryPointAccess::Public);
    assert_eq!(get.entry_point_type(), EntryPointType::Contract);
    for name in [ENTRY_POINT_COUNTER_INC, ENTRY_POINT_COUNTER_DEC, ENTRY_POINT_COUNTER_RESET] {
        let entry_point = entry_points.get(name).expect("entry point");
        assert_eq!(entry_point.ret(), &CLType::Unit);
        assert!(entry_point.args().is_empty());
        assert_eq!(entry_point.access(), &EntryPointAccess::Public);
        assert_eq!(entry_point.entry_point_type(), EntryPointType::Contract);
    }
}

#[test]
fn count_named_key_holds_the_slot() {
    let (name, key) = count_named_key(slot());
    assert_eq!(name, "count");
    assert_eq!(key, Key::URef(slot()));
}

#[test]
fn read_count_passes_the_value_or_the_error() {
    assert_eq!(read_count(Ok(Some(-17))), Ok(-17));
    assert_eq!(read_count(Ok(None)), Err(CounterError::ValueNotFound));
    assert_eq!(read_count(Err(bytesrepr::Error::EarlyEndOfStream)), Err(CounterError::Read));
}

#[test]
fn installed_state_is_zero_at_version_one() {
    let state = CounterState::installed();
    assert_eq!(state, CounterState { count: 0, version: 1 });
    assert_eq!(INITIAL_COUNT, 0);
    assert_eq!(FIRST_VERSION, 1);
}

#[test]
fn inc_inc_dec_get_yields_one() {
    let mut state = CounterState::installed();
    state.step(CounterCall::Inc);
    state.step(CounterCall::Inc);
    state.step(CounterCall::Dec);
    assert_eq!(state.step(CounterCall::Get), Some(1));
}

#[test]
fn count_is_net_sum_of_steps() {
    let calls = [
        CounterCall::Dec,
        CounterCall::Dec,
        CounterCall::Inc,
        CounterCall::Dec,
        CounterCall::Dec,
        CounterCall::Inc,
        CounterCall::Dec,
    ];
    let mut state = CounterState::installed();
    for c in calls {
        state.step(c);
    }
    assert_eq!(state.count, -3);
}

#[test]
fn reset_yields_zero_from_any_value() {
    for start in [i64::MIN, -5, 0, 1, 12345, i64::MAX] {
        let mut state = CounterState { count: start, version: 3 };
        assert_eq!(state.step(CounterCall::Reset), None);
        assert_eq!(state.count, 0);
        assert_eq!(state.version, 3);
    }
}

#[test]
fn get_leaves_count_unchanged() {
    let mut state = CounterState { count: 42, version: 1 };
    assert_eq!(state.step(CounterCall::Get), Some(42));
    assert_eq!(state.count, 42);
}

#[test]
fn addition_wraps_at_the_bounds() {
    assert_eq!(apply_update(i64::MAX, CountUpdate::Add(1)), i64::MIN);
    assert_eq!(apply_update(i64::MIN, CountUpdate::Add(-1)), i64::MAX);
    assert_eq!(apply_update(10, CountUpdate::Add(-3)), 7);
    assert_eq!(apply_update(10, CountUpdate::Write(-9)), -9);
}

#[test]
fn updates_of_each_entry_point() {
    assert_eq!(update_for(CounterCall::Inc), Some(CountUpdate::Add(1)));
    assert_eq!(update_for(CounterCall::Dec), Some(CountUpdate::Add(-1)));
    assert_eq!(update_for(CounterCall::Reset), Some(CountUpdate::Write(0)));
    assert_eq!(update_for(CounterCall::Get), None);
}

#[test]
fn missing_count_key_is_reported() {
    assert!(matches!(count_slot(None), Err(CounterError::MissingKey)));
    assert!(matches!(counter_inc(None), Err(CounterError::MissingKey)));
    assert!(matches!(counter_dec(None), Err(CounterError::MissingKey)));
    assert!(matches!(counter_reset(None), Err(CounterError::MissingKey)));
}

#[test]
fn count_key_of_another_variant_is_reported() {
    let key = Key::Hash([1u8; 32]);
    assert!(matches!(count_slot(Some(key)), Err(CounterError::UnexpectedKeyVariant)));
    assert!(matches!(counter_inc(Some(key)), Err(CounterError::UnexpectedKeyVariant)));
    assert!(matches!(counter_dec(Some(key)), Err(CounterError::UnexpectedKeyVariant)));
    assert!(matches!(counter_reset(Some(key)), Err(CounterError::UnexpectedKeyVariant)));
}

#[test]
fn count_slot_is_found_under_a_uref_key() {
    let key = Key::from(slot());
    assert_eq!(count_slot(Some(key)).ok(), Some(slot()));
    let inc = counter_inc(Some(key)).ok().expect("a uref key");
    assert_eq!(inc.slot, slot());
    assert_eq!(inc.update, CountUpdate::Add(1));
    let dec = counter_dec(Some(key)).ok().expect("a uref key");
    assert_eq!(dec.slot, slot());
    assert_eq!(dec.update, CountUpdate::Add(-1));
    let reset = counter_reset(Some(key)).ok().expect("a uref key");
    assert_eq!(reset.slot, slot());
    assert_eq!(reset.update, CountUpdate::Write(0));
}

#[test]
fn get_reports_read_failures() {
    assert!(matches!(
        counter_get(Err(bytesrepr::Error::LeftOverBytes)),
        Err(CounterError::Read)
    ));
    assert!(matches!(counter_get(Ok(None)), Err(CounterError::ValueNotFound)));
}

#[test]
fn get_returns_the_count_as_a_typed_value() {
    for count in [0i64, 1, -1, 987654321, i64::MIN, i64::MAX] {
        let value = counter_get(Ok(Some(count))).ok().expect("a stored count");
        assert_eq!(value.into_t::<i64>().ok(), Some(count));
    }
}

#[test]
fn errors_map_to_platform_codes() {
    assert!(api_error(CounterError::MissingKey) == ApiError::MissingKey);
    assert!(api_error(CounterError::UnexpectedKeyVariant) == ApiError::UnexpectedKeyVariant);
    assert!(api_error(CounterError::Read) == ApiError::Read);
    assert!(api_error(CounterError::ValueNotFound) == ApiError::ValueNotFound);
    assert!(api_error(CounterError::TypeMismatch) == ApiError::CLTypeMismatch);
    assert_eq!(u32::from(api_error(CounterError::MissingKey)), 24);
    assert_eq!(u32::from(api_error(CounterError::Read)), 5);
}

#[test]
fn installation_names_the_count_slot_and_four_entry_points() {
    let installation = call(slot());
    assert_eq!(installation.named_keys.len(), 1);
    assert_eq!(installation.named_keys.get(COUNT_KEY), Some(&Key::URef(slot())));
    let mut names: Vec<&String> = installation.entry_points.keys().collect();
    names.sort();
    assert_eq!(
        names,
        vec!["counter_dec", "counter_get", "counter_inc", "counter_reset"]
    );
    assert_eq!(CONTRACT_KEY, "counter");
    assert_eq!(CONTRACT_VERSION_KEY, "version");
}

#[test]
fn reads_agree_whatever_the_order_of_calls() {
    let key = Some(Key::URef(slot()));
    let mut first = INITIAL_COUNT;
    perform(&mut first, counter_inc(key));
    perform(&mut first, counter_dec(key));
    perform(&mut first, counter_dec(key));
    let mut second = INITIAL_COUNT;
    perform(&mut second, counter_dec(key));
    perform(&mut second, counter_dec(key));
    perform(&mut second, counter_inc(key));
    assert_eq!(get_count(first), -1);
    assert_eq!(get_count(second), -1);
}

#[test]
fn read_returns_the_platform_typed_value() {
    for count in [0i64, -42, i64::MAX] {
        let value = counter_get(Ok(Some(count))).ok().expect("a stored count");
        assert_eq!(value, CLValue::from_t(count).expect("an i64 serializes"));
        assert_eq!(value.cl_type(), &CLType::I64);
    }
}
