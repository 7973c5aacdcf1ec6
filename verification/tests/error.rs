use dds::retcode_to_result;

#[test]
fn all_failure_codes_classify_as_err() {
    let failure_codes = [
        dds::RETCODE_ERROR,
        dds::RETCODE_UNSUPPORTED,
        dds::RETCODE_BAD_PARAMETER,
        dds::RETCODE_PRECONDITION_NOT_MET,
        dds::RETCODE_OUT_OF_RESOURCES,
        dds::RETCODE_NOT_ENABLED,
        dds::RETCODE_IMMUTABLE_POLICY,
        dds::RETCODE_INCONSISTENT_POLICY,
        dds::RETCODE_ALREADY_DELETED,
        dds::RETCODE_TIMEOUT,
        dds::RETCODE_NO_DATA,
        dds::RETCODE_ILLEGAL_OPERATION,
        dds::RETCODE_NOT_ALLOWED_BY_SECURITY,
    ];
    assert_eq!(failure_codes.len(), 13);
    for code in failure_codes {
        let e = retcode_to_result(code).unwrap_err();
        assert_eq!(e.code(), code);
    }
}

#[test]
fn non_members_classify_as_ok() {
    assert_eq!(retcode_to_result(dds::RETCODE_OK), Ok(0));
    assert_eq!(retcode_to_result(42), Ok(42));
    assert_eq!(retcode_to_result(0x7fff0000), Ok(0x7fff0000));
    assert_eq!(retcode_to_result(-14), Ok(-14));
    assert_eq!(retcode_to_result(i32::MIN), Ok(i32::MIN));
}

#[test]
fn errors_compare_by_code() {
    let a = retcode_to_result(dds::RETCODE_TIMEOUT).unwrap_err();
    let b = retcode_to_result(dds::RETCODE_TIMEOUT).unwrap_err();
    let c = retcode_to_result(dds::RETCODE_NO_DATA).unwrap_err();
    assert_eq!(a, b);
    assert_ne!(a, c);
}
