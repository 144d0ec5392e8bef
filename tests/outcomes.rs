use rocksdb::result::RocksDBResult;
use rocksdb::status::{
    destroy_status, engine_error_message, get_status, open_status, os_error_message,
    write_status, GET_FAILED, OPEN_FAILED, READ_OPTIONS_FAILED,
};
use rocksdb::vector::RocksDBVector;

#[test]
fn result_map_applies_to_found_only() {
    let r: RocksDBResult<i32, String> = RocksDBResult::Found(20);
    assert!(r.map(|x| x + 1).unwrap() == 21);
    let a: RocksDBResult<i32, String> = RocksDBResult::Absent;
    assert!(a.map(|x| x + 1).is_none());
    let e: RocksDBResult<i32, String> = RocksDBResult::Error("bad".to_string());
    match e.map(|x| x + 1) {
        RocksDBResult::Error(m) => assert_eq!(m, "bad"),
        _ => panic!("error was not kept"),
    }
}

#[test]
fn result_on_error_maps_the_error() {
    let e: RocksDBResult<i32, String> = RocksDBResult::Error("bad".to_string());
    match e.on_error(|m| m.len()) {
        RocksDBResult::Error(n) => assert_eq!(n, 3),
        _ => panic!("error was not mapped"),
    }
    let f: RocksDBResult<i32, String> = RocksDBResult::Found(4);
    assert_eq!(f.on_error(|m| m.len()).unwrap(), 4);
}

#[test]
fn result_on_absent_runs_only_when_absent() {
    let mut hits = 0;
    let a: RocksDBResult<i32, String> = RocksDBResult::Absent;
    assert!(a.on_absent(|| hits += 1).is_none());
    assert_eq!(hits, 1);
    let f: RocksDBResult<i32, String> = RocksDBResult::Found(1);
    assert!(f.on_absent(|| hits += 1).is_some());
    let e: RocksDBResult<i32, String> = RocksDBResult::Error("x".to_string());
    assert!(e.on_absent(|| hits += 1).is_error());
    assert_eq!(hits, 1);
}

#[test]
fn result_predicates_tell_variants_apart() {
    let found = || -> RocksDBResult<u8, String> { RocksDBResult::Found(1) };
    let absent = || -> RocksDBResult<u8, String> { RocksDBResult::Absent };
    let error = || -> RocksDBResult<u8, String> { RocksDBResult::Error(String::new()) };
    assert!(found().is_some() && !found().is_none() && !found().is_error());
    assert!(!absent().is_some() && absent().is_none() && !absent().is_error());
    assert!(!error().is_some() && !error().is_none() && error().is_error());
}

#[test]
fn vector_keeps_the_reported_length() {
    let v = RocksDBVector::from_c(b"v1111xyz".to_vec(), 5);
    assert_eq!(v.as_slice(), b"v1111");
    assert_eq!(v.to_utf8(), Some("v1111"));
}

#[test]
fn vector_of_invalid_utf8_has_no_text() {
    let v = RocksDBVector::from_c(vec![0x66, 0xff, 0x6f], 3);
    assert_eq!(v.as_slice(), &[0x66, 0xff, 0x6f]);
    assert_eq!(v.to_utf8(), None);
    let empty = RocksDBVector::from_c(Vec::new(), 0);
    assert_eq!(empty.to_utf8(), Some(""));
}

#[test]
fn engine_message_is_read_as_utf8() {
    assert_eq!(engine_error_message(b"IO error: lock"), Some("IO error: lock".to_string()));
    assert_eq!(engine_error_message(&[0xc3, 0x28]), None);
}

#[test]
fn open_reports_engine_error_first() {
    assert_eq!(open_status(Some(b"Invalid argument"), true), Err("Invalid argument".to_string()));
    assert_eq!(open_status(Some(b"Invalid argument"), false), Err("Invalid argument".to_string()));
    assert_eq!(open_status(Some(&[0xff]), false), Err(OPEN_FAILED.to_string()));
}

#[test]
fn open_with_null_handle_and_no_error_fails() {
    assert_eq!(open_status(None, true), Err("Could not initialize database.".to_string()));
    assert_eq!(open_status(None, false), Ok(()));
}

#[test]
fn destroy_outcomes() {
    assert_eq!(destroy_status(None), Ok(()));
    assert_eq!(destroy_status(Some(b"busy")), Err("busy".to_string()));
    assert_eq!(destroy_status(Some(&[0x80])), Err(OPEN_FAILED.to_string()));
}

#[test]
fn os_error_text_has_fixed_shape() {
    assert_eq!(
        os_error_message("no space", Some("disk full")),
        "ERROR: desc:no space, details:disk full"
    );
    assert_eq!(
        os_error_message("unknown", None),
        "ERROR: desc:unknown, details:none provided by OS"
    );
}

#[test]
fn write_outcomes() {
    assert_eq!(write_status(None, "d", None), Ok(()));
    assert_eq!(write_status(Some(b"Corruption"), "d", None), Err("Corruption".to_string()));
    assert_eq!(
        write_status(Some(&[0xfe]), "io", Some("eio")),
        Err("ERROR: desc:io, details:eio".to_string())
    );
}

#[test]
fn get_outcomes_keep_three_cases_apart() {
    let missing = get_status(true, None, Some(b"v".to_vec()), 1);
    match missing {
        RocksDBResult::Error(m) => assert_eq!(m, READ_OPTIONS_FAILED),
        _ => panic!("read options failure was not reported"),
    }
    match get_status(false, Some(b"IO error"), Some(b"v".to_vec()), 1) {
        RocksDBResult::Error(m) => assert_eq!(m, "IO error"),
        _ => panic!("engine error was not reported"),
    }
    match get_status(false, Some(&[0xff, 0xfe]), None, 0) {
        RocksDBResult::Error(m) => assert_eq!(m, GET_FAILED),
        _ => panic!("unreadable engine error was not reported"),
    }
    assert!(get_status(false, None, None, 0).is_none());
}

#[test]
fn get_found_value_round_trips_the_bytes() {
    let r = get_status(false, None, Some(b"v1111".to_vec()), 5);
    let v = r.unwrap();
    assert_eq!(v.as_slice(), b"v1111");
    assert!(v.to_utf8().unwrap() == "v1111");
}

#[test]
fn found_then_absent_sequence() {
    let found = get_status(false, None, Some(b"v1111".to_vec()), 5);
    assert!(found.unwrap().to_utf8().unwrap() == "v1111");
    assert!(write_status(None, "", None).is_ok());
    assert!(get_status(false, None, None, 0).is_none());
    assert!(destroy_status(None).is_ok());
}
