use ferrisetw::guid::Guid;

const SAMPLE: Guid = Guid {
    data1: 0x22fb2cd6,
    data2: 0x0e7b,
    data3: 0x422b,
    data4: [0xa0, 0xc7, 0x2f, 0xad, 0x1f, 0xd0, 0xe7, 0x16],
};

#[test]
fn parse_reads_each_group_into_its_field() {
    assert_eq!(Some(SAMPLE), Guid::parse("22fb2cd6-0e7b-422b-a0c7-2fad1fd0e716"));
    assert_eq!(
        Some(Guid {
            data1: 0x01234567,
            data2: 0x89ab,
            data3: 0xcdef,
            data4: [0xfe, 0xdc, 0xba, 0x98, 0x76, 0x54, 0x32, 0x10],
        }),
        Guid::parse("01234567-89ab-cdef-fedc-ba9876543210")
    );
}

#[test]
fn parse_ignores_the_case_of_digits() {
    assert_eq!(Some(SAMPLE), Guid::parse("22FB2CD6-0E7B-422B-A0C7-2FAD1FD0E716"));
    assert_eq!(Some(SAMPLE), Guid::parse("22fB2cD6-0e7B-422b-A0c7-2FaD1fD0e716"));
}

#[test]
fn parse_takes_one_pair_of_braces() {
    assert_eq!(Some(SAMPLE), Guid::parse("{22fb2cd6-0e7b-422b-a0c7-2fad1fd0e716}"));
    assert_eq!(Some(SAMPLE), Guid::parse("{22FB2CD6-0E7B-422B-A0C7-2FAD1FD0E716}"));
    assert_eq!(None, Guid::parse("{{22fb2cd6-0e7b-422b-a0c7-2fad1fd0e716}}"));
    assert_eq!(None, Guid::parse("{22fb2cd6-0e7b-422b-a0c7-2fad1fd0e716"));
    assert_eq!(None, Guid::parse("22fb2cd6-0e7b-422b-a0c7-2fad1fd0e716}"));
    assert_eq!(None, Guid::parse("[22fb2cd6-0e7b-422b-a0c7-2fad1fd0e716]"));
    assert_eq!(None, Guid::parse("{22fb2cd6-0e7b-422b-a0c7-2fad1fd0e716]"));
}

#[test]
fn parse_refuses_malformed_text() {
    for text in [
        "",
        "-",
        "22fb2cd6-0e7b-422b-a0c7-2fad1fd0e71",
        "22fb2cd6-0e7b-422b-a0c7-2fad1fd0e7160",
        "22fb2cd6-0e7b-422b-a0c72-fad1fd0e716",
        "22fb2cd60-e7b-422b-a0c7-2fad1fd0e716",
        "22fb2cd6-0e7b-422b-a0c7_2fad1fd0e716",
        "22fb2cd6-0e7b-422b-a0c7-2fad1fd0e71G",
        "g2fb2cd6-0e7b-422b-a0c7-2fad1fd0e716",
        "22fb2cd6-0e7b-422b-a0c7-2fad1fd0e7 6",
        "22fb2cd6--e7b-422b-a0c7-2fad1fd0e716",
        "22fb2cd6-0e7b-422b-a0c7-2fad1fd0e71\u{ff16}",
        "\u{e9}2fb2cd6-0e7b-422b-a0c7-2fad1fd0e71",
        "22fb2cd6-0e7b-422b-a0c7-2fad1fd0e716\n",
        " 22fb2cd6-0e7b-422b-a0c7-2fad1fd0e716",
    ] {
        assert_eq!(None, Guid::parse(text), "{:?}", text);
    }
}

#[test]
fn from_reads_what_parse_reads() {
    for text in [
        "22fb2cd6-0e7b-422b-a0c7-2fad1fd0e716",
        "{22fb2cd6-0e7b-422b-a0c7-2fad1fd0e716}",
        "AE53722E-C863-11d2-8659-00C04FA321A1",
        "00000000-0000-0000-0000-000000000000",
        "ffffffff-ffff-ffff-ffff-ffffffffffff",
    ] {
        assert_eq!(Guid::parse(text), Some(Guid::from(text)));
    }
}

#[test]
fn from_reads_the_extremes() {
    assert_eq!(
        Guid { data1: 0, data2: 0, data3: 0, data4: [0; 8] },
        Guid::from("00000000-0000-0000-0000-000000000000")
    );
    assert_eq!(
        Guid { data1: u32::MAX, data2: u16::MAX, data3: u16::MAX, data4: [0xff; 8] },
        Guid::from("FFFFFFFF-ffff-FFFF-ffff-FFFFFFFFFFFF")
    );
}

#[test]
fn from_agrees_with_the_system_type() {
    let text = "AE53722E-C863-11d2-8659-00C04FA321A1";
    let theirs = windows::core::GUID::from(text);
    let ours = Guid::from(text);
    assert_eq!(theirs.data1, ours.data1);
    assert_eq!(theirs.data2, ours.data2);
    assert_eq!(theirs.data3, ours.data3);
    assert_eq!(theirs.data4, ours.data4);
    assert_eq!(0xae53722e, ours.data1);
    assert_eq!(0xc863, ours.data2);
    assert_eq!(0x11d2, ours.data3);
    assert_eq!([0x86, 0x59, 0x00, 0xc0, 0x4f, 0xa3, 0x21, 0xa1], ours.data4);
}

#[test]
fn to_text_writes_lower_case_without_braces() {
    assert_eq!("22fb2cd6-0e7b-422b-a0c7-2fad1fd0e716", SAMPLE.to_text());
    assert_eq!(
        "ae53722e-c863-11d2-8659-00c04fa321a1",
        Guid::from("{AE53722E-C863-11D2-8659-00C04FA321A1}").to_text()
    );
    assert_eq!(
        "00000000-0000-0000-0000-000000000000",
        Guid { data1: 0, data2: 0, data3: 0, data4: [0; 8] }.to_text()
    );
    assert_eq!(
        "0000000a-000b-00c0-0d00-00000000000f",
        Guid { data1: 10, data2: 11, data3: 0xc0, data4: [0x0d, 0, 0, 0, 0, 0, 0, 0x0f] }.to_text()
    );
}

#[test]
fn byte_gives_the_sixteen_bytes_in_writing_order() {
    let expected: [u8; 16] = [
        0x22, 0xfb, 0x2c, 0xd6, 0x0e, 0x7b, 0x42, 0x2b, 0xa0, 0xc7, 0x2f, 0xad, 0x1f, 0xd0, 0xe7,
        0x16,
    ];
    for j in 0..16 {
        assert_eq!(expected[j], SAMPLE.byte(j));
    }
}

#[test]
fn reading_writing_and_reading_again_gives_the_same_identifier() {
    for text in [
        "22fb2cd6-0e7b-422b-a0c7-2fad1fd0e716",
        "{22FB2CD6-0E7B-422B-A0C7-2FAD1FD0E716}",
        "AE53722E-C863-11d2-8659-00C04FA321A1",
        "01234567-89ab-cdef-fedc-ba9876543210",
        "ffffffff-ffff-ffff-ffff-ffffffffffff",
        "00000000-0000-0000-0000-000000000000",
        "80000000-8000-8000-8080-808080808080",
    ] {
        let first = Guid::parse(text).unwrap();
        let written = first.to_text();
        assert_eq!(36, written.len());
        assert_eq!(Some(first), Guid::parse(&written));
        assert_eq!(written, Guid::parse(&written).unwrap().to_text());
    }
}

#[test]
fn writing_and_reading_gives_the_identifier_back() {
    let mut seed: u64 = 0x9e3779b97f4a7c15;
    for _ in 0..200 {
        let mut next = || {
            seed ^= seed << 13;
            seed ^= seed >> 7;
            seed ^= seed << 17;
            seed
        };
        let a = next();
        let b = next();
        let guid = Guid {
            data1: a as u32,
            data2: (a >> 32) as u16,
            data3: (a >> 48) as u16,
            data4: b.to_be_bytes(),
        };
        assert_eq!(Some(guid), Guid::parse(&guid.to_text()));
    }
}
