use epoch_archive::{Epoch, EpochError, SubSecond};

const TEST_EPOCH: [i64; 9] = [
    0,
    1,
    -1,
    123,
    -123,
    i64::MAX,
    i64::MIN,
    i64::MAX / 1000,
    i64::MIN / 1000,
];

const TEST_MS: [u16; 4] = [0, 1, 999, 123];
const TEST_US: [u32; 4] = [0, 1, 999_999, 123_123];
const TEST_NS: [u64; 4] = [0, 1, 999_999_999, 123_123_123];

#[test]
fn epoch_test_new() {
    for epoch in TEST_EPOCH {
        let new = Epoch::new(epoch);
        assert_eq!(new.epoch(), epoch);
    }
}

#[test]
fn test_with_milli() {
    for epoch in TEST_EPOCH {
        for ms in TEST_MS {
            let new = Epoch::new(epoch).with_millis(ms);
            assert_eq!(*new.subsecond(), SubSecond::Milli(ms));
            assert_eq!(new.epoch(), epoch);
        }
    }
}

#[test]
fn test_with_micro() {
    for epoch in TEST_EPOCH {
        for ms in TEST_US {
            let new = Epoch::new(epoch).with_micros(ms);
            assert_eq!(*new.subsecond(), SubSecond::Micro(ms));
            assert_eq!(new.epoch(), epoch);
        }
    }
}

#[test]
fn test_with_nano() {
    for epoch in TEST_EPOCH {
        for ms in TEST_NS {
            let new = Epoch::new(epoch).with_nanos(ms);
            assert_eq!(*new.subsecond(), SubSecond::Nano(ms));
            assert_eq!(new.epoch(), epoch);
        }
    }
}

#[test]
fn epoch_test_default() {
    let default = Epoch::default();
    assert_eq!(default.epoch(), 0);
    assert!(matches!(default.subsecond(), SubSecond::Unset));
}

#[test]
fn test_display() {
    let epochs = [
        (0, "0"),
        (1, "1"),
        (-1, "-1"),
        (123, "123"),
        (-123, "-123"),
        (i64::MAX, "9223372036854775807"),
        (i64::MIN, "-9223372036854775808"),
    ];

    for (epoch, expected) in epochs {
        let epoch = Epoch::new(epoch);
        assert_eq!(epoch.to_string(), expected);
    }
}

#[test]
fn test_display_with_millis() {
    let epochs = [
        (0, 0, "0.000"),
        (0, 999, "0.999"),
        (1, 123, "1.123"),
        (-1, 123, "-1.123"),
        (123, 999, "123.999"),
        (-123, 999, "-123.999"),
        (i64::MAX, 999, "9223372036854775807.999"),
        (i64::MIN, 999, "-9223372036854775808.999"),
    ];

    for (epoch, ms, expected) in epochs {
        let epoch = Epoch::new(epoch).with_millis(ms);
        assert_eq!(epoch.to_string(), expected);
    }
}

#[test]
fn test_display_with_micros() {
    let epochs = [
        (0, 0, "0.000000"),
        (0, 999_999, "0.999999"),
        (1, 123_123, "1.123123"),
        (-1, 123_123, "-1.123123"),
        (123, 999_999, "123.999999"),
        (-123, 999_999, "-123.999999"),
        (i64::MAX, 999_999, "9223372036854775807.999999"),
        (i64::MIN, 999_999, "-9223372036854775808.999999"),
    ];

    for (epoch, ms, expected) in epochs {
        let epoch = Epoch::new(epoch).with_micros(ms);
        assert_eq!(epoch.to_string(), expected);
    }
}

#[test]
fn test_display_with_nanos() {
    let epochs = [
        (0, 0, "0.000000000"),
        (0, 999_999_999, "0.999999999"),
        (1, 123_123_123, "1.123123123"),
        (-1, 123_123_123, "-1.123123123"),
        (123, 999_999_999, "123.999999999"),
        (-123, 999_999_999, "-123.999999999"),
        (i64::MAX, 999_999_999, "9223372036854775807.999999999"),
        (i64::MIN, 999_999_999, "-9223372036854775808.999999999"),
    ];

    for (epoch, ms, expected) in epochs {
        let epoch = Epoch::new(epoch).with_nanos(ms);
        assert_eq!(epoch.to_string(), expected);
    }
}

#[test]
fn test_display_with_delimiter() {
    let epochs = [
        (0, 0, '-', "0-000"),
        (0, 0, ':', "0:000"),
        (1, 0, ':', "1:000"),
        (-1, 0, ':', "-1:000"),
        (1, 999, ':', "1:999"),
        (-1, 999, ':', "-1:999"),
    ];

    for (epoch, ms, delimiter, expected) in epochs {
        let epoch = Epoch::new(epoch).with_millis(ms);
        assert_eq!(epoch.format_with_delimiter(delimiter), expected);
    }
}

#[test]
fn test_subsecond_from_str() {
    let epochs = [
        ("000", SubSecond::Milli(0)),
        ("999", SubSecond::Milli(999)),
        ("000000", SubSecond::Micro(0)),
        ("999999", SubSecond::Micro(999_999)),
        ("000000000", SubSecond::Nano(0)),
        ("999999999", SubSecond::Nano(999_999_999)),
    ];

    for (epoch, expected) in epochs {
        let epoch = SubSecond::from_str(epoch).unwrap();
        assert_eq!(epoch, expected);
    }
}

#[test]
fn test_subsecond_from_str_error() {
    let epochs = [
        "1",
        "22",
        "4444",
        "55555",
        "7777777",
        "88888888",
        "1234567890",
        "-1",
        "-333",
        "-666666",
        "-999999999",
        "3.33",
        "-3.33",
        "aaa",
        "bbbbbb",
        "",
        " ",
        "00a",
        "000.000.000",
    ];

    for epoch in epochs {
        let epoch = SubSecond::from_str(epoch);
        assert!(epoch.is_err());
    }
}

#[test]
fn format_exact_texts() {
    assert_eq!(Epoch::new(1).with_millis(123).format(), "1.123");
    assert_eq!(Epoch::new(-1).with_micros(123123).format(), "-1.123123");
    assert_eq!(
        Epoch::new(i64::MIN).with_nanos(999999999).format(),
        "-9223372036854775808.999999999"
    );
    assert_eq!(Epoch::new(0).format(), "0");
}

#[test]
fn format_pads_small_values_to_the_width() {
    assert_eq!(Epoch::new(7).with_millis(5).format(), "7.005");
    assert_eq!(Epoch::new(7).with_micros(5).format(), "7.000005");
    assert_eq!(Epoch::new(7).with_nanos(5).format(), "7.000000005");
    assert_eq!(Epoch::new(7).with_millis(50).format(), "7.050");
    assert_eq!(Epoch::new(7).with_micros(120_000).format(), "7.120000");
    assert_eq!(Epoch::new(7).with_nanos(100_000_000).format(), "7.100000000");
}

#[test]
fn format_is_format_with_a_dot() {
    for epoch in TEST_EPOCH {
        for ns in TEST_NS {
            let e = Epoch::new(epoch).with_nanos(ns);
            assert_eq!(e.format(), e.format_with_delimiter('.'));
            assert_eq!(e.format(), e.to_string());
        }
        let e = Epoch::new(epoch);
        assert_eq!(e.format(), e.format_with_delimiter('.'));
        assert_eq!(e.format_with_delimiter('#'), e.format());
    }
}

#[test]
fn format_takes_any_delimiter() {
    assert_eq!(Epoch::new(-5).with_millis(7).format_with_delimiter('é'), "-5é007");
    assert_eq!(Epoch::new(5).with_micros(7).format_with_delimiter('0'), "50000007");
    assert_eq!(Epoch::new(5).format_with_delimiter(','), "5");
}

#[test]
fn sign_of_the_seconds_leaves_the_digits_alone() {
    let plus = Epoch::new(42).with_micros(1_234).format();
    let minus = Epoch::new(-42).with_micros(1_234).format();
    assert_eq!(plus, "42.001234");
    assert_eq!(minus, "-42.001234");
    assert_eq!(&minus[1..], plus);
}

#[test]
fn a_later_precision_replaces_an_earlier_one() {
    let e = Epoch::new(3).with_millis(1).with_nanos(2);
    assert_eq!(*e.subsecond(), SubSecond::Nano(2));
    assert_eq!(e.epoch(), 3);
    let e = e.with_micros(9).with_millis(8);
    assert_eq!(*e.subsecond(), SubSecond::Milli(8));
    assert_eq!(e.format(), "3.008");
}

#[test]
fn with_epoch_replaces_the_seconds_only() {
    let e = Epoch::new(1337).with_epoch(123);
    assert_eq!(e.epoch(), 123);
    assert_eq!(*e.subsecond(), SubSecond::Unset);
    let e = Epoch::new(1).with_micros(77).with_epoch(-9);
    assert_eq!(e.epoch(), -9);
    assert_eq!(*e.subsecond(), SubSecond::Micro(77));
    assert_eq!(e.format(), "-9.000077");
}

#[test]
fn epochs_compare_by_seconds_then_subsecond() {
    assert_eq!(Epoch::new(5).with_millis(1), Epoch::new(5).with_millis(1));
    assert_ne!(Epoch::new(5).with_millis(1), Epoch::new(5).with_micros(1));
    assert!(Epoch::new(4).with_millis(999) < Epoch::new(5));
    assert!(Epoch::new(5).with_millis(1) < Epoch::new(5).with_millis(2));
    assert_eq!(Epoch::new(5).with_nanos(1).clone(), Epoch::new(5).with_nanos(1));
}

#[test]
fn from_str_reads_leading_zeros() {
    assert_eq!(SubSecond::from_str("007").unwrap(), SubSecond::Milli(7));
    assert_eq!(SubSecond::from_str("123").unwrap(), SubSecond::Milli(123));
    assert_eq!(SubSecond::from_str("012345").unwrap(), SubSecond::Micro(12_345));
    assert_eq!(
        SubSecond::from_str("123456789").unwrap(),
        SubSecond::Nano(123_456_789)
    );
    assert_eq!(SubSecond::from_str("000000001").unwrap(), SubSecond::Nano(1));
}

#[test]
fn from_str_rejects_digit_runs_of_other_lengths() {
    for len in [1usize, 2, 4, 5, 7, 8, 10, 11, 12, 20, 40] {
        let text = "7".repeat(len);
        match SubSecond::from_str(&text) {
            Err(EpochError::InvalidSubSecond(t)) => assert_eq!(t, text),
            other => panic!("{:?} for {:?}", other, text),
        }
    }
}

#[test]
fn from_str_names_the_text_of_a_wrong_length() {
    for text in ["", " ", "1", "3.33", "-3.33", "-333", "000.000.000", "aaaa"] {
        match SubSecond::from_str(text) {
            Err(EpochError::InvalidSubSecond(t)) => assert_eq!(t, text),
            other => panic!("{:?} for {:?}", other, text),
        }
    }
}

#[test]
fn from_str_hands_on_the_integer_error() {
    for text in [
        "00a", "aaa", "bbbbbb", "-22", "-55555", "-88888888", "1 2", "12.456", "   ", "+  ",
        "++1",
    ] {
        match SubSecond::from_str(text) {
            Err(EpochError::InvalidEpoch(e)) => {
                assert_eq!(*e.kind(), std::num::IntErrorKind::InvalidDigit)
            }
            other => panic!("{:?} for {:?}", other, text),
        }
    }
}

#[test]
fn from_str_rejects_a_plus_sign() {
    for text in ["+12", "+12345", "+12345678"] {
        match SubSecond::from_str(text) {
            Err(EpochError::InvalidSubSecond(t)) => assert_eq!(t, text),
            other => panic!("{:?} for {:?}", other, text),
        }
    }
}

#[test]
fn from_str_counts_bytes_for_the_length() {
    // Two characters in three bytes: the length fits, the text is no number.
    assert!(matches!(
        SubSecond::from_str("é1"),
        Err(EpochError::InvalidEpoch(_))
    ));
    // Three characters in six bytes.
    assert!(matches!(
        SubSecond::from_str("ééé"),
        Err(EpochError::InvalidEpoch(_))
    ));
    // Three characters in four bytes: no accepted length.
    assert!(matches!(
        SubSecond::from_str("é12"),
        Err(EpochError::InvalidSubSecond(_))
    ));
    // Digits of another script are no decimal digits here.
    assert!(SubSecond::from_str("١٢٣").is_err());
}

#[test]
fn parse_goes_through_from_str() {
    let parsed: SubSecond = "042".parse().unwrap();
    assert_eq!(parsed, SubSecond::Milli(42));
    assert!("42".parse::<SubSecond>().is_err());
    assert!("+42".parse::<SubSecond>().is_err());
}

#[test]
fn formatted_subsecond_reads_back() {
    for ms in TEST_MS {
        let text = Epoch::new(-17).with_millis(ms).format();
        let (seconds, digits) = text.split_once('.').unwrap();
        assert_eq!(seconds.parse::<i64>().unwrap(), -17);
        assert_eq!(SubSecond::from_str(digits).unwrap(), SubSecond::Milli(ms));
    }
    for us in TEST_US {
        let text = Epoch::new(17).with_micros(us).format();
        let (_, digits) = text.split_once('.').unwrap();
        assert_eq!(SubSecond::from_str(digits).unwrap(), SubSecond::Micro(us));
    }
    for ns in TEST_NS {
        let text = Epoch::new(0).with_nanos(ns).format();
        let (_, digits) = text.split_once('.').unwrap();
        assert_eq!(SubSecond::from_str(digits).unwrap(), SubSecond::Nano(ns));
    }
}

#[test]
fn equal_seconds_and_subsecond_make_equal_epochs() {
    assert_eq!(
        Epoch::new(7).with_nanos(5).with_millis(999),
        Epoch::new(7).with_millis(999)
    );
    assert_eq!(Epoch::new(0), Epoch::default());
    assert_eq!(Epoch::new(3).with_epoch(0), Epoch::default());
    assert_ne!(Epoch::new(7).with_millis(998), Epoch::new(7).with_millis(999));
}
