use dds::{marshal_name, marshal_names, Participant, Topic, DOMAIN_DEFAULT};

#[test]
fn participant_wraps_a_handle() {
    let p = Participant::from_retcode(12).unwrap();
    assert_eq!(p.entity(), 12);
}

#[test]
fn failed_participant_creation_owns_nothing() {
    let r = Participant::from_retcode(dds::RETCODE_ALREADY_DELETED);
    let e = r.unwrap_err();
    assert_eq!(e.code(), dds::RETCODE_ALREADY_DELETED);
    let r = Participant::from_retcode(dds::RETCODE_OUT_OF_RESOURCES);
    assert!(r.is_err());
}

#[test]
fn domain_mapping() {
    assert_eq!(Participant::domain_to_raw(None), DOMAIN_DEFAULT);
    assert_eq!(Participant::domain_to_raw(None), 0xffff_ffff);
    assert_eq!(Participant::domain_to_raw(Some(0)), 0);
    assert_eq!(Participant::domain_to_raw(Some(7)), 7);
}

#[test]
fn topic_wraps_a_handle() {
    let t = Topic::from_retcode(99).unwrap();
    assert_eq!(t.entity(), 99);
    let e = Topic::from_retcode(dds::RETCODE_BAD_PARAMETER).unwrap_err();
    assert_eq!(e.code(), dds::RETCODE_BAD_PARAMETER);
}

#[test]
fn marshal_name_terminates_with_nul() {
    let buf = marshal_name("hello").unwrap();
    assert_eq!(buf, b"hello\0");
}

#[test]
fn marshal_name_unicode() {
    let name = "t\u{f6}pic";
    let buf = marshal_name(name).unwrap();
    let mut expected = name.as_bytes().to_vec();
    expected.push(0);
    assert_eq!(buf, expected);
}

#[test]
fn marshal_name_rejects_interior_nul() {
    assert_eq!(marshal_name("a\0b"), None);
}

#[test]
fn marshal_names_lengths() {
    let empty: [String; 0] = [];
    assert_eq!(marshal_names(&empty).unwrap().len(), 0);

    let one = [String::from("solo")];
    let bufs = marshal_names(&one).unwrap();
    assert_eq!(bufs.len(), 1);
    assert_eq!(bufs[0], b"solo\0");

    let many = [
        String::from("letters"),
        String::from("p\u{e4}rti\u{e7}i\u{f3}n"),
        String::from("third"),
    ];
    let bufs = marshal_names(&many).unwrap();
    assert_eq!(bufs.len(), 3);
    for (i, name) in many.iter().enumerate() {
        let mut expected = name.as_bytes().to_vec();
        expected.push(0);
        assert_eq!(bufs[i], expected);
    }
}

#[test]
fn marshal_names_rejects_interior_nul() {
    let names = [String::from("fine"), String::from("bad\0name")];
    assert_eq!(marshal_names(&names), None);
}
