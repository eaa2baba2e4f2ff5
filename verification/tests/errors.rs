use localchat::errors::ServiceError;

#[test]
fn zero_code_is_no_error() {
    assert_eq!(ServiceError::from_code(0), ServiceError::NoError);
}

#[test]
fn every_documented_code_maps_to_its_kind() {
    let table = [
        (-65537, ServiceError::Unknown),
        (-65538, ServiceError::NoSuchName),
        (-65539, ServiceError::NoMemory),
        (-65540, ServiceError::BadParam),
        (-65541, ServiceError::BadReference),
        (-65542, ServiceError::BadState),
        (-65543, ServiceError::BadFlags),
        (-65544, ServiceError::Unsupported),
        (-65545, ServiceError::NotInitialized),
        (-65547, ServiceError::AlreadyRegistered),
        (-65548, ServiceError::NameConflict),
        (-65549, ServiceError::Invalid),
        (-65550, ServiceError::Firewall),
        (-65551, ServiceError::Incompatible),
        (-65552, ServiceError::BadInterfaceIndex),
        (-65553, ServiceError::Refused),
        (-65554, ServiceError::NoSuchRecord),
        (-65555, ServiceError::NoAuth),
        (-65556, ServiceError::NoSuchKey),
        (-65557, ServiceError::NATTraversal),
        (-65558, ServiceError::DoubleNAT),
        (-65559, ServiceError::BadTime),
        (-65560, ServiceError::BadSig),
        (-65561, ServiceError::BadKey),
        (-65562, ServiceError::Transiet),
        (-65563, ServiceError::ServiceNotRunning),
        (-65564, ServiceError::NatPortMappingUnsupported),
        (-65565, ServiceError::NatPortMappingDisabled),
        (-65566, ServiceError::NoRouter),
        (-65567, ServiceError::PollingMode),
        (-65568, ServiceError::Timeout),
    ];
    for (code, kind) in table {
        assert_eq!(ServiceError::from_code(code), kind);
    }
}

#[test]
fn unmapped_codes_never_become_no_error() {
    for code in [-1, 1, -65536, -65546, -65569, -70000, i32::MIN, i32::MAX] {
        assert_eq!(ServiceError::from_code(code), ServiceError::Unmapped);
    }
}
