use dds::{
    Durability, Duration, History, QoS, Reliability, DURABILITY_PERSISTENT, DURABILITY_VOLATILE,
    HISTORY_KEEP_ALL, HISTORY_KEEP_LAST, RELIABILITY_BEST_EFFORT, RELIABILITY_RELIABLE,
};

#[test]
fn history_round_trip() {
    assert_eq!(History::KeepLast { n: 5 }.to_raw(), (HISTORY_KEEP_LAST, Some(5)));
    assert_eq!(
        History::from_raw(HISTORY_KEEP_LAST, Some(5)),
        Ok(History::KeepLast { n: 5 })
    );
    assert_eq!(History::KeepAll.to_raw(), (HISTORY_KEEP_ALL, None));
    assert_eq!(History::from_raw(HISTORY_KEEP_ALL, None), Ok(History::KeepAll));
}

#[test]
fn history_rejects_invalid_pairs() {
    assert!(History::from_raw(HISTORY_KEEP_LAST, None).is_err());
    assert!(History::from_raw(HISTORY_KEEP_ALL, Some(1)).is_err());
    assert!(History::from_raw(7, None).is_err());
    assert!(History::from_raw(7, Some(1)).is_err());
}

#[test]
fn reliability_round_trip() {
    assert_eq!(Reliability::BestEffort.to_raw_parts(), (RELIABILITY_BEST_EFFORT, None));
    let reliable = Reliability::Reliable { max_blocking_time: Duration::from_millis(100) };
    assert_eq!(reliable.to_raw_parts(), (RELIABILITY_RELIABLE, Some(100_000_000)));
    assert_eq!(
        Reliability::from_raw_parts(RELIABILITY_RELIABLE, Some(100_000_000)),
        Ok(reliable)
    );
    assert_eq!(
        Reliability::from_raw_parts(RELIABILITY_BEST_EFFORT, None),
        Ok(Reliability::BestEffort)
    );
    assert_eq!(
        Reliability::from_raw_parts(RELIABILITY_RELIABLE, Some(i64::MAX)),
        Ok(Reliability::Reliable { max_blocking_time: Duration::Infinite })
    );
}

#[test]
fn reliability_rejects_invalid_pairs() {
    assert!(Reliability::from_raw_parts(RELIABILITY_RELIABLE, None).is_err());
    assert!(Reliability::from_raw_parts(RELIABILITY_BEST_EFFORT, Some(0)).is_err());
    assert!(Reliability::from_raw_parts(9, Some(0)).is_err());
    assert!(Reliability::from_raw_parts(9, None).is_err());
}

#[test]
fn durability_round_trip() {
    let all = [
        Durability::Volatile,
        Durability::TransientLocal,
        Durability::Transient,
        Durability::Persistent,
    ];
    for d in all {
        assert_eq!(Durability::from_raw(d.to_raw()), Ok(d));
    }
    assert_eq!(Durability::Volatile.to_raw(), DURABILITY_VOLATILE);
    assert_eq!(Durability::Persistent.to_raw(), DURABILITY_PERSISTENT);
    assert!(Durability::from_raw(4).is_err());
}

#[test]
fn native_setter_arguments() {
    assert_eq!(History::KeepLast { n: 5 }.native_args(), (HISTORY_KEEP_LAST, 5));
    assert_eq!(History::KeepAll.native_args(), (HISTORY_KEEP_ALL, 0));
    assert_eq!(
        Reliability::BestEffort.native_args(),
        (RELIABILITY_BEST_EFFORT, i64::MAX)
    );
    assert_eq!(
        Reliability::Reliable { max_blocking_time: Duration::from_millis(1000) }.native_args(),
        (RELIABILITY_RELIABLE, 1_000_000_000)
    );
}

fn customized_block() -> QoS {
    let mut qos = QoS::default();
    qos.history(History::KeepAll);
    qos.durability(Durability::Persistent);
    qos.reliability(Reliability::Reliable { max_blocking_time: Duration::from_millis(1000) });
    qos.partitions(&[String::from("alpha"), String::from("bravo")]);
    qos
}

#[test]
fn identical_setter_sequences_compare_equal() {
    let a = customized_block();
    let b = customized_block();
    assert_eq!(a, b);
}

#[test]
fn different_settings_compare_unequal() {
    let a = customized_block();
    let mut b = customized_block();
    b.history(History::KeepLast { n: 1 });
    assert_ne!(a, b);
    let mut c = customized_block();
    c.partitions(&[String::from("alpha")]);
    assert_ne!(a, c);
}

#[test]
fn reset_equals_fresh_block() {
    let mut qos = customized_block();
    qos.reset();
    assert_eq!(qos, QoS::default());
}

#[test]
fn getters_read_back_what_was_set() {
    let qos = customized_block();
    assert_eq!(qos.get_history(), Some(History::KeepAll));
    assert_eq!(qos.get_durability(), Some(Durability::Persistent));
    assert_eq!(
        qos.get_reliability(),
        Some(Reliability::Reliable { max_blocking_time: Duration::from_millis(1000) })
    );
    let parts = qos.get_partitions().unwrap();
    assert_eq!(parts.as_slice(), &[String::from("alpha"), String::from("bravo")]);
    let fresh = QoS::default();
    assert_eq!(fresh.get_history(), None);
    assert_eq!(fresh.get_partitions(), None);
}

#[test]
fn partitions_replace_the_whole_list() {
    let mut qos = QoS::default();
    qos.partitions(&[String::from("a"), String::from("b"), String::from("c")]);
    qos.partitions(&[String::from("only")]);
    assert_eq!(qos.get_partitions().unwrap().as_slice(), &[String::from("only")]);
    qos.partitions(&[]);
    assert_eq!(qos.get_partitions().unwrap().len(), 0);
}

#[test]
fn partitions_keep_order_and_unicode() {
    let names = [
        String::from("plain"),
        String::from("p\u{e4}rti\u{e7}i\u{f3}n"),
        String::from("z"),
    ];
    let mut qos = QoS::default();
    qos.partitions(&names);
    let parts = qos.get_partitions().unwrap();
    assert_eq!(parts.len(), 3);
    for (i, name) in names.iter().enumerate() {
        assert_eq!(&parts[i], name);
    }
}

#[test]
fn clone_is_independent() {
    let a = customized_block();
    let mut b = a.clone();
    assert_eq!(a, b);
    b.history(History::KeepLast { n: 2 });
    assert_ne!(a, b);
    assert_eq!(a.get_history(), Some(History::KeepAll));
}
