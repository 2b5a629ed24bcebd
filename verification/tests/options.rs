use virtualization::intparse::{parse_i32, parse_u64, IntErrorKind};
use virtualization::options::{
    parse_local_file_ro_option, parse_local_ro_file_unverified_ro_option,
    parse_remote_new_rw_file_option, parse_remote_ro_file_option,
    parse_remote_ro_file_unverified_option, Args, OptionError, OptionRemoteRoFile,
    OptionRemoteRoFileUnverified, OptionRemoteRwFile,
};
use virtualization::text::{split_fields, text_equals};

fn std_kind(e: &std::num::ParseIntError) -> IntErrorKind {
    match e.kind() {
        std::num::IntErrorKind::Empty => IntErrorKind::Empty,
        std::num::IntErrorKind::InvalidDigit => IntErrorKind::InvalidDigit,
        std::num::IntErrorKind::PosOverflow => IntErrorKind::PosOverflow,
        std::num::IntErrorKind::NegOverflow => IntErrorKind::NegOverflow,
        other => panic!("unexpected kind {:?}", other),
    }
}

const SAMPLES: &[&str] = &[
    "", "0", "7", "007", "+7", "-7", "+", "-", "++1", "+-1", "1+", " 1", "1 ", "a", "12a",
    "٣", "1٣", "4294967295", "4294967296", "2147483647", "2147483648", "-2147483648",
    "-2147483649", "-0", "18446744073709551615", "18446744073709551616",
    "99999999999999999999x", "x99999999999999999999", "-99999999999999x", "184467440737095516150",
];

#[test]
fn parse_u64_agrees_with_std() {
    for s in SAMPLES {
        let ours = parse_u64(s);
        let theirs = s.parse::<u64>().map_err(|e| std_kind(&e));
        assert_eq!(ours, theirs, "text {:?}", s);
    }
}

#[test]
fn parse_i32_agrees_with_std() {
    for s in SAMPLES {
        let ours = parse_i32(s);
        let theirs = s.parse::<i32>().map_err(|e| std_kind(&e));
        assert_eq!(ours, theirs, "text {:?}", s);
    }
}

#[test]
fn parse_integer_exact_values() {
    assert_eq!(parse_u64("42"), Ok(42));
    assert_eq!(parse_u64("+18446744073709551615"), Ok(u64::MAX));
    assert_eq!(parse_u64("18446744073709551616"), Err(IntErrorKind::PosOverflow));
    assert_eq!(parse_u64("-1"), Err(IntErrorKind::InvalidDigit));
    assert_eq!(parse_u64(""), Err(IntErrorKind::Empty));
    assert_eq!(parse_i32("-2147483648"), Ok(i32::MIN));
    assert_eq!(parse_i32("-2147483649"), Err(IntErrorKind::NegOverflow));
    assert_eq!(parse_i32("2147483648"), Err(IntErrorKind::PosOverflow));
    assert_eq!(parse_i32("-"), Err(IntErrorKind::InvalidDigit));
}

#[test]
fn split_keeps_empty_pieces() {
    assert_eq!(split_fields("a::b", ':'), vec!["a", "", "b"]);
    assert_eq!(split_fields("", ':'), vec![""]);
    assert_eq!(split_fields(":", ':'), vec!["", ""]);
    assert_eq!(split_fields("5:10:/path/to/cert", ':'), vec!["5", "10", "/path/to/cert"]);
    for s in ["a::b", "", ":", "x:y:", "日本:語"] {
        let ours = split_fields(s, ':');
        let theirs: Vec<&str> = s.split(':').collect();
        assert_eq!(ours, theirs);
    }
}

#[test]
fn text_equality() {
    assert!(text_equals("zygote64", "zygote64"));
    assert!(!text_equals("zygote64", "zygote64_32"));
    assert!(!text_equals("zygote64", "zygote65"));
    assert!(text_equals("", ""));
}

#[test]
fn remote_verified_file_option_from_the_docs() {
    let o = parse_remote_ro_file_option("5:10:/path/to/cert").unwrap();
    assert_eq!(o.ino, 5);
    assert_eq!(o.remote_id, 10);
    assert_eq!(o._certificate_path, "/path/to/cert");
}

#[test]
fn remote_verified_file_option_errors() {
    assert_eq!(parse_remote_ro_file_option("5:10").unwrap_err(), OptionError::InvalidOption);
    assert_eq!(parse_remote_ro_file_option("").unwrap_err(), OptionError::InvalidOption);
    assert_eq!(parse_remote_ro_file_option("5:10:a:b").unwrap_err(), OptionError::InvalidOption);
    assert_eq!(
        parse_remote_ro_file_option("x:10:c").unwrap_err(),
        OptionError::InvalidNumber(IntErrorKind::InvalidDigit)
    );
    assert_eq!(
        parse_remote_ro_file_option(":10:c").unwrap_err(),
        OptionError::InvalidNumber(IntErrorKind::Empty)
    );
    assert_eq!(
        parse_remote_ro_file_option("1:2147483648:c").unwrap_err(),
        OptionError::InvalidNumber(IntErrorKind::PosOverflow)
    );
    // The inode is checked before the remote ID.
    assert_eq!(
        parse_remote_ro_file_option("-1:x:c").unwrap_err(),
        OptionError::InvalidNumber(IntErrorKind::InvalidDigit)
    );
    let o = parse_remote_ro_file_option("+5:-10:").unwrap();
    assert_eq!((o.ino, o.remote_id, o._certificate_path.as_str()), (5, -10, ""));
}

#[test]
fn remote_unverified_file_option_from_the_docs() {
    let o = parse_remote_ro_file_unverified_option("5:10").unwrap();
    assert_eq!((o.ino, o.remote_id), (5, 10));
    assert_eq!(
        parse_remote_ro_file_unverified_option("5:10:x").unwrap_err(),
        OptionError::InvalidOption
    );
    assert_eq!(
        parse_remote_ro_file_unverified_option("5:ten").unwrap_err(),
        OptionError::InvalidNumber(IntErrorKind::InvalidDigit)
    );
}

#[test]
fn remote_new_file_option_from_the_docs() {
    let o = parse_remote_new_rw_file_option("12:34").unwrap();
    assert_eq!((o.ino, o.remote_id), (12, 34));
    assert_eq!(parse_remote_new_rw_file_option("12").unwrap_err(), OptionError::InvalidOption);
    assert_eq!(parse_remote_new_rw_file_option("1:2:3").unwrap_err(), OptionError::InvalidOption);
}

#[test]
fn local_file_options() {
    let o = parse_local_file_ro_option("3:/data/file:/data/tree:/data/sig:/data/cert").unwrap();
    assert_eq!(o.ino, 3);
    assert_eq!(o.file_path, "/data/file");
    assert_eq!(o.merkle_tree_dump_path, "/data/tree");
    assert_eq!(o.signature_path, "/data/sig");
    assert_eq!(o._certificate_path, "/data/cert");
    assert_eq!(parse_local_file_ro_option("3:/a:/b:/c").unwrap_err(), OptionError::InvalidOption);
    assert_eq!(
        parse_local_file_ro_option("three:/a:/b:/c:/d").unwrap_err(),
        OptionError::InvalidNumber(IntErrorKind::InvalidDigit)
    );

    let o = parse_local_ro_file_unverified_ro_option("4:/data/plain").unwrap();
    assert_eq!((o.ino, o.file_path.as_str()), (4, "/data/plain"));
    assert_eq!(
        parse_local_ro_file_unverified_ro_option("4:/a:/b").unwrap_err(),
        OptionError::InvalidOption
    );
    assert_eq!(
        parse_local_ro_file_unverified_ro_option("18446744073709551616:/a").unwrap_err(),
        OptionError::InvalidNumber(IntErrorKind::PosOverflow)
    );
}

fn empty_args() -> Args {
    Args {
        mount_point: "/mnt".to_string(),
        cid: 3,
        extra_options: None,
        remote_ro_file: vec![],
        remote_ro_file_unverified: vec![],
        remote_new_rw_file: vec![],
        local_ro_file: vec![],
        local_ro_file_unverified: vec![],
        debug: false,
    }
}

#[test]
fn remote_files_need_the_service() {
    let mut args = empty_args();
    assert!(!args.has_remote_files());
    args.local_ro_file_unverified = vec![parse_local_ro_file_unverified_ro_option("1:/a").unwrap()];
    assert!(!args.has_remote_files());
    args.remote_new_rw_file = vec![OptionRemoteRwFile { ino: 1, remote_id: 2 }];
    assert!(args.has_remote_files());

    let mut args = empty_args();
    args.remote_ro_file_unverified = vec![OptionRemoteRoFileUnverified { ino: 1, remote_id: 2 }];
    assert!(args.has_remote_files());

    let mut args = empty_args();
    args.remote_ro_file = vec![OptionRemoteRoFile {
        ino: 1,
        remote_id: 2,
        _certificate_path: String::new(),
    }];
    assert!(args.has_remote_files());
}

#[test]
fn written_options_read_back() {
    let inos = [0u64, 1, 42, 1_000_000, u64::MAX];
    let ids = [0i32, 7, -7, i32::MAX, i32::MIN];
    for &ino in &inos {
        for &id in &ids {
            let text = format!("{}:{}", ino, id);
            let o = parse_remote_ro_file_unverified_option(&text).unwrap();
            assert_eq!((o.ino, o.remote_id), (ino, id));
            let o = parse_remote_new_rw_file_option(&text).unwrap();
            assert_eq!((o.ino, o.remote_id), (ino, id));
            let text = format!("{}:{}:/etc/cert.pem", ino, id);
            let o = parse_remote_ro_file_option(&text).unwrap();
            assert_eq!((o.ino, o.remote_id, o._certificate_path.as_str()), (ino, id, "/etc/cert.pem"));
        }
        let o = parse_local_file_ro_option(&format!("{}:/f:/t:/s:/c", ino)).unwrap();
        assert_eq!((o.ino, o.file_path.as_str(), o.signature_path.as_str()), (ino, "/f", "/s"));
        let o = parse_local_ro_file_unverified_ro_option(&format!("{}:/plain", ino)).unwrap();
        assert_eq!((o.ino, o.file_path.as_str()), (ino, "/plain"));
    }
}

#[test]
fn joined_fields_split_back() {
    let fields = ["12", "", "/a/b", "x y"];
    let joined = fields.join(":");
    assert_eq!(split_fields(&joined, ':'), fields.to_vec());
}
