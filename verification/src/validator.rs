//! The address-validator boundary: callbacks that a wallet polls, in order,
//! whenever it derives a new address. All of them must let the address
//! through for the derivation to proceed; the first veto aborts it and is
//! handed back, untranslated, to whoever asked for the address.

use vstd::prelude::*;

verus! {

/// Which chain a derived script belongs to: addresses handed out to the
/// outside, or change addresses kept internal to the wallet.
#[derive(Clone, Copy, Debug, PartialEq, Eq, Structural)]
pub enum ScriptType {
    External,
    Internal,
}

/// One entry of the hierarchical-derivation map handed to a validator: a
/// public key (its serialized bytes), the fingerprint of the master key it
/// descends from, and the derivation path as child indices.
#[derive(Debug)]
pub struct HdKeyPath {
    pub public_key: Vec<u8>,
    pub fingerprint: Vec<u8>,
    pub path: Vec<u32>,
}

/// Errors that can be returned to fail the validation of an address.
#[derive(Debug, PartialEq, Eq)]
pub enum AddressValidatorError {
    UserRejected,
    ConnectionError,
    TimeoutError,
    InvalidScript,
    Message(String),
}

impl Clone for AddressValidatorError {
    fn clone(&self) -> (r: Self)
        ensures
            r == *self,
    {
        match self {
            AddressValidatorError::UserRejected => AddressValidatorError::UserRejected,
            AddressValidatorError::ConnectionError => AddressValidatorError::ConnectionError,
            AddressValidatorError::TimeoutError => AddressValidatorError::TimeoutError,
            AddressValidatorError::InvalidScript => AddressValidatorError::InvalidScript,
            AddressValidatorError::Message(m) => AddressValidatorError::Message(m.clone()),
        }
    }
}

/// A validator or observer of newly derived addresses.
///
/// An implementation declares its verdict in `validate_spec`, and `validate`
/// must agree with it: `Ok` to let the address through, or the error chosen
/// to veto it.
pub trait AddressValidator {
    /// The verdict this validator gives to an address: `None` to let it
    /// through, `Some(error)` to veto it.
    spec fn validate_spec(
        &self,
        script_type: ScriptType,
        hd_keypaths: Seq<HdKeyPath>,
        script: Seq<u8>,
    ) -> Option<AddressValidatorError>;

    /// Validate or inspect a newly derived address, given its chain, the
    /// derivation map of the keys in it, and the output script itself.
    fn validate(
        &self,
        script_type: ScriptType,
        hd_keypaths: &Vec<HdKeyPath>,
        script: &Vec<u8>,
    ) -> (r: Result<(), AddressValidatorError>)
        ensures
            (r is Ok ==> self.validate_spec(script_type, hd_keypaths@, script@) is None),
            (r matches Err(e) ==> self.validate_spec(script_type, hd_keypaths@, script@)
                == Some(e)),
    ;
}

/// Poll every attached validator, in order, against one newly derived
/// address, stopping at the first veto.
///
/// The result is `Ok` exactly when every validator lets the address through;
/// otherwise it is the verdict of the first validator that vetoes it — the
/// validators after that one are never invoked, and the error is handed back
/// unchanged.
pub fn poll_validators<V: AddressValidator>(
    validators: &Vec<V>,
    script_type: ScriptType,
    hd_keypaths: &Vec<HdKeyPath>,
    script: &Vec<u8>,
) -> (r: Result<(), AddressValidatorError>)
    ensures
        (r is Ok <==> forall|i: int|
            0 <= i < validators@.len() ==> (#[trigger] validators@[i].validate_spec(
                script_type,
                hd_keypaths@,
                script@,
            )) is None),
        (r matches Err(e) ==> exists|i: int|
            0 <= i < validators@.len()
                && (#[trigger] validators@[i].validate_spec(script_type, hd_keypaths@, script@))
                == Some(e)
                && (forall|j: int| 0 <= j < i ==> validators@[j].validate_spec(
                script_type,
                hd_keypaths@,
                script@,
            ) is None)),
{
    let n = validators.len();
    let mut i: usize = 0;
    while i < n
        invariant
            i <= n,
            n == validators@.len(),
            forall|j: int|
                0 <= j < i ==> (#[trigger] validators@[j].validate_spec(
                    script_type,
                    hd_keypaths@,
                    script@,
                )) is None,
        decreases n - i,
    {
        match (&validators[i]).validate(script_type, hd_keypaths, script) {
            Ok(()) => {},
            Err(e) => {
                return Err(e);
            },
        }
        i = i + 1;
    }
    Ok(())
}

/// A validator whose verdict is fixed in advance, whatever the address: it
/// lets every address through, or vetoes every address with the one error it
/// holds. Useful as a stand-in where a real validator is not attached.
pub struct FixedOutcomeValidator {
    pub outcome: Option<AddressValidatorError>,
}

impl AddressValidator for FixedOutcomeValidator {
    open spec fn validate_spec(
        &self,
        script_type: ScriptType,
        hd_keypaths: Seq<HdKeyPath>,
        script: Seq<u8>,
    ) -> Option<AddressValidatorError> {
        self.outcome
    }

    fn validate(
        &self,
        _script_type: ScriptType,
        _hd_keypaths: &Vec<HdKeyPath>,
        _script: &Vec<u8>,
    ) -> (r: Result<(), AddressValidatorError>) {
        match &self.outcome {
            None => Ok(()),
            Some(e) => Err(e.clone()),
        }
    }
}

} // verus!
