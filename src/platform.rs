//! The platform's value types that the contract's logic handles, declared to
//! Verus.
use casper_types::bytesrepr;
use casper_types::contracts::{EntryPointAccess, EntryPointType, EntryPoints, Group, Parameter};
use casper_types::account::AccountHash;
use casper_types::{
    ApiError, CLType, CLValue, CLValueError, DeployHash, EraId, Key, TransferAddr, URef,
};
use vstd::prelude::*;

verus! {

/// Read by Verus variant by variant.
#[verifier::external_type_specification]
pub struct ExKey(Key);

/// Opaque to Verus: values are carried through, never looked into.
#[verifier::external_type_specification]
#[verifier::external_body]
pub struct ExAccountHash(AccountHash);

/// Opaque to Verus: values are carried through, never looked into.
#[verifier::external_type_specification]
#[verifier::external_body]
pub struct ExTransferAddr(TransferAddr);

/// Opaque to Verus: values are carried through, never looked into.
#[verifier::external_type_specification]
#[verifier::external_body]
pub struct ExDeployHash(DeployHash);

/// Opaque to Verus: values are carried through, never looked into.
#[verifier::external_type_specification]
#[verifier::external_body]
pub struct ExEraId(EraId);

/// Opaque to Verus: values are carried through, never looked into.
#[verifier::external_type_specification]
#[verifier::external_body]
pub struct ExURef(URef);

/// Opaque to Verus: values are carried through, never looked into.
#[verifier::external_type_specification]
#[verifier::external_body]
pub struct ExCLValue(CLValue);

/// Opaque to Verus: values are carried through, never looked into.
#[verifier::external_type_specification]
#[verifier::external_body]
pub struct ExCLValueError(CLValueError);

/// Opaque to Verus: values are carried through, never looked into.
#[verifier::external_type_specification]
#[verifier::external_body]
pub struct ExBytesreprError(bytesrepr::Error);

/// Opaque to Verus; what it holds is `install::entry_points_of`.
#[verifier::external_type_specification]
#[verifier::external_body]
pub struct ExEntryPoints(EntryPoints);

/// Opaque to Verus: values are carried through, never looked into.
#[verifier::external_type_specification]
#[verifier::external_body]
pub struct ExParameter(Parameter);

/// Opaque to Verus: values are carried through, never looked into.
#[verifier::external_type_specification]
#[verifier::external_body]
pub struct ExGroup(Group);

/// Read by Verus variant by variant.
#[verifier::external_type_specification]
pub struct ExEntryPointAccess(EntryPointAccess);

/// Read by Verus variant by variant.
#[verifier::external_type_specification]
pub struct ExEntryPointType(EntryPointType);

/// Read by Verus variant by variant.
#[verifier::external_type_specification]
pub struct ExCLType(CLType);

/// Read by Verus variant by variant.
#[verifier::external_type_specification]
pub struct ExApiError(ApiError);

} // verus!
