use descriptor_checksum::validator::{
    poll_validators, AddressValidator, AddressValidatorError, FixedOutcomeValidator, HdKeyPath,
    ScriptType,
};

fn pass() -> FixedOutcomeValidator {
    FixedOutcomeValidator { outcome: None }
}

fn veto(err: AddressValidatorError) -> FixedOutcomeValidator {
    FixedOutcomeValidator { outcome: Some(err) }
}

#[test]
fn empty_chain_succeeds() {
    let validators: Vec<FixedOutcomeValidator> = Vec::new();
    let r = poll_validators(&validators, ScriptType::External, &Vec::new(), &Vec::new());
    assert_eq!(r, Ok(()));
}

#[test]
fn all_validators_succeed() {
    let validators = vec![pass(), pass(), pass()];
    let script = vec![0x00, 0x14, 0xab];
    let r = poll_validators(&validators, ScriptType::External, &Vec::new(), &script);
    assert_eq!(r, Ok(()));
}

#[test]
fn first_failure_is_propagated() {
    let validators = vec![
        pass(),
        veto(AddressValidatorError::TimeoutError),
        veto(AddressValidatorError::UserRejected),
    ];
    let r = poll_validators(&validators, ScriptType::Internal, &Vec::new(), &Vec::new());
    assert_eq!(r, Err(AddressValidatorError::TimeoutError));
}

#[test]
fn message_error_is_propagated_unchanged() {
    let validators = vec![veto(AddressValidatorError::Message(String::from(
        "hardware wallet unplugged",
    )))];
    let r = poll_validators(&validators, ScriptType::External, &Vec::new(), &Vec::new());
    assert_eq!(
        r,
        Err(AddressValidatorError::Message(String::from(
            "hardware wallet unplugged"
        )))
    );
}

#[test]
fn single_validator_sees_the_address_data() {
    let keypath = HdKeyPath {
        public_key: vec![0x02; 33],
        fingerprint: vec![0xd3, 0x4d, 0xb3, 0x3f],
        path: vec![44, 0, 0, 0, 7],
    };
    let validator = veto(AddressValidatorError::InvalidScript);
    let r = validator.validate(ScriptType::External, &vec![keypath], &vec![0x51]);
    assert_eq!(r, Err(AddressValidatorError::InvalidScript));
    let r2 = pass().validate(ScriptType::Internal, &Vec::new(), &Vec::new());
    assert_eq!(r2, Ok(()));
}
