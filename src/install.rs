//! Installation: the entry points that the contract declares and the named
//! keys it starts with.
use casper_types::contracts::{
    EntryPoint, EntryPointAccess, EntryPointType, EntryPoints, NamedKeys, Parameter,
};
use casper_types::{CLType, Key, URef};
use crate::entry::COUNT_KEY;
use vstd::laws_cmp::obeys_cmp;
use vstd::prelude::*;

verus! {

/// The name under which the contract package is recorded.
pub const CONTRACT_PACKAGE_NAME: &'static str = "kpomian_counter_package_name";

/// The name under which the package's access reference is recorded.
pub const CONTRACT_ACCESS_UREF: &'static str = "kpomian_counter_access_uref";

/// The name under which the installed version number is recorded.
pub const CONTRACT_VERSION_KEY: &'static str = "version";

/// The name under which the contract's reference is recorded.
pub const CONTRACT_KEY: &'static str = "counter";

/// The entry point that increments the count.
pub const ENTRY_POINT_COUNTER_INC: &'static str = "counter_inc";

/// The entry point that returns the count.
pub const ENTRY_POINT_COUNTER_GET: &'static str = "counter_get";

/// The entry point that decrements the count.
pub const ENTRY_POINT_COUNTER_DEC: &'static str = "counter_dec";

/// The entry point that sets the count to zero.
pub const ENTRY_POINT_COUNTER_RESET: &'static str = "counter_reset";

/// What a collection of entry points holds: for each name, the entry point's
/// parameters, return type, access and kind.
pub uninterp spec fn entry_points_of(entry_points: EntryPoints) -> Map<
    Seq<char>,
    (Seq<Parameter>, CLType, EntryPointAccess, EntryPointType),
>;

/// Relies on `EntryPoints::new`: a collection with no entry point.
pub assume_specification[ EntryPoints::new ]() -> (r: EntryPoints)
    ensures
        entry_points_of(r).is_empty(),
;

/// Relies on `EntryPoint::new` and `EntryPoints::add_entry_point`: the entry
/// point, with the given parameters, return type, access and kind, is stored
/// under its name, replacing any other of that name.
#[verifier::external_body]
fn add_entry_point(
    entry_points: &mut EntryPoints,
    name: &str,
    args: Vec<Parameter>,
    ret: CLType,
    access: EntryPointAccess,
    kind: EntryPointType,
)
    ensures
        entry_points_of(*final(entry_points)) == entry_points_of(*old(entry_points)).insert(
            name@,
            (args@, ret, access, kind),
        ),
{
    entry_points.add_entry_point(EntryPoint::new(name, args, ret, access, kind));
}

/// Relies on `Key::from` for a `URef`: the key of the `URef` variant that
/// holds it.
#[verifier::external_body]
fn uref_key(slot: URef) -> (r: Key)
    ensures
        r == Key::URef(slot),
{
    Key::from(slot)
}

/// A public entry point without parameters, run in the contract's context,
/// that returns a value of type `ret`.
pub open spec fn public_entry_point(ret: CLType) -> (
    Seq<Parameter>,
    CLType,
    EntryPointAccess,
    EntryPointType,
) {
    (Seq::empty(), ret, EntryPointAccess::Public, EntryPointType::Contract)
}

/// The four entry points of the counter: the read returns an `i64`, the
/// increment, decrement and reset return nothing.
pub open spec fn counter_entry_point_map() -> Map<
    Seq<char>,
    (Seq<Parameter>, CLType, EntryPointAccess, EntryPointType),
> {
    map![
        "counter_get"@ => public_entry_point(CLType::I64),
        "counter_inc"@ => public_entry_point(CLType::Unit),
        "counter_dec"@ => public_entry_point(CLType::Unit),
        "counter_reset"@ => public_entry_point(CLType::Unit),
    ]
}

/// The entry points of the counter: increment, read, decrement and reset,
/// each public, without parameters, run in the contract's context.
pub fn counter_entry_points() -> (r: EntryPoints)
    ensures
        entry_points_of(r) == counter_entry_point_map(),
        entry_points_of(r).dom() == set![
            "counter_get"@,
            "counter_inc"@,
            "counter_dec"@,
            "counter_reset"@,
        ],
        entry_points_of(r)["counter_get"@] == public_entry_point(CLType::I64),
        entry_points_of(r)["counter_inc"@] == public_entry_point(CLType::Unit),
        entry_points_of(r)["counter_dec"@] == public_entry_point(CLType::Unit),
        entry_points_of(r)["counter_reset"@] == public_entry_point(CLType::Unit),
{
    proof {
        reveal_strlit("counter_get");
        reveal_strlit("counter_inc");
        reveal_strlit("counter_dec");
        reveal_strlit("counter_reset");
        assert("counter_get"@[8] != "counter_inc"@[8]);
        assert("counter_get"@[8] != "counter_dec"@[8]);
        assert("counter_inc"@[8] != "counter_dec"@[8]);
        assert("counter_get"@.len() != "counter_reset"@.len());
        assert("counter_inc"@.len() != "counter_reset"@.len());
        assert("counter_dec"@.len() != "counter_reset"@.len());
    }
    let mut entry_points = EntryPoints::new();
    add_entry_point(
        &mut entry_points,
        ENTRY_POINT_COUNTER_GET,
        Vec::new(),
        CLType::I64,
        EntryPointAccess::Public,
        EntryPointType::Contract,
    );
    add_entry_point(
        &mut entry_points,
        ENTRY_POINT_COUNTER_INC,
        Vec::new(),
        CLType::Unit,
        EntryPointAccess::Public,
        EntryPointType::Contract,
    );
    add_entry_point(
        &mut entry_points,
        ENTRY_POINT_COUNTER_DEC,
        Vec::new(),
        CLType::Unit,
        EntryPointAccess::Public,
        EntryPointType::Contract,
    );
    add_entry_point(
        &mut entry_points,
        ENTRY_POINT_COUNTER_RESET,
        Vec::new(),
        CLType::Unit,
        EntryPointAccess::Public,
        EntryPointType::Contract,
    );
    assert(entry_points_of(entry_points) =~= counter_entry_point_map());
    entry_points
}

/// The named key under which the count slot is recorded: the count slot's
/// name, and the key of the `URef` variant that holds the slot.
pub fn count_named_key(count: URef) -> (r: (String, Key))
    ensures
        r.0@ == COUNT_KEY@,
        r.1 == Key::URef(count),
{
    (COUNT_KEY.to_owned(), uref_key(count))
}

/// What installation hands the platform besides the count slot itself.
pub struct Installation {
    /// The contract's named keys: the count slot under its name.
    pub named_keys: NamedKeys,
    /// The contract's entry points.
    pub entry_points: EntryPoints,
}

/// The installer, given the count slot that the platform created holding
/// the initial count: the named keys hold that slot alone, under the count
/// slot's name, and the entry points are the counter's four. What the map
/// holds is stated as far as vstd specifies `BTreeMap::insert`, that is for
/// a key type whose order obeys `Ord`'s laws.
pub fn call(count: URef) -> (r: Installation)
    ensures
        entry_points_of(r.entry_points) == counter_entry_point_map(),
        entry_points_of(r.entry_points).dom() == set![
            "counter_get"@,
            "counter_inc"@,
            "counter_dec"@,
            "counter_reset"@,
        ],
        entry_points_of(r.entry_points)["counter_get"@] == public_entry_point(CLType::I64),
        entry_points_of(r.entry_points)["counter_inc"@] == public_entry_point(CLType::Unit),
        entry_points_of(r.entry_points)["counter_dec"@] == public_entry_point(CLType::Unit),
        entry_points_of(r.entry_points)["counter_reset"@] == public_entry_point(CLType::Unit),
        obeys_cmp::<String>() ==> r.named_keys@.len() == 1,
        obeys_cmp::<String>() ==> forall|name: String| #[trigger]
            r.named_keys@.contains_key(name) ==> name@ == COUNT_KEY@ && r.named_keys@[name]
                == Key::URef(count),
{
    let mut named_keys: NamedKeys = NamedKeys::new();
    let (name, key) = count_named_key(count);
    named_keys.insert(name, key);
    Installation { named_keys, entry_points: counter_entry_points() }
}

} // verus!
