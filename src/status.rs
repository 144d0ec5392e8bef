use vstd::prelude::*;
use vstd::string::StringExecFns;
use vstd::utf8::{decode_utf8, valid_utf8};

use crate::result::RocksDBResult;
use crate::vector::{text_of, RocksDBVector};

verus! {

/// Reported when opening or destroying a store fails without a readable
/// message from the engine.
pub const OPEN_FAILED: &'static str = "Could not initialize database.";

/// Reported by a read when the engine cannot even create its read options.
pub const READ_OPTIONS_FAILED: &'static str = "Unable to create rocksdb read options.  This is a fairly trivial call, and its failure may be indicative of a mis-compiled or mis-loaded rocksdb library.";

/// Reported by a read when the engine's error message is not valid UTF-8.
pub const GET_FAILED: &'static str = "Unable to get value from rocksdb. (non-utf8 error received from underlying library)";

/// Stands for an operating-system error whose detail is unknown.
pub const NO_OS_DETAIL: &'static str = "none provided by OS";

/// The engine's error message when it is readable text, else `fallback`.
pub open spec fn message_or(err: Seq<u8>, fallback: Seq<char>) -> Seq<char> {
    if valid_utf8(err) {
        decode_utf8(err)
    } else {
        fallback
    }
}

/// The text of an operating-system error description.
pub open spec fn os_error_text(desc: Seq<char>, detail: Option<Seq<char>>) -> Seq<char> {
    "ERROR: desc:"@ + desc + ", details:"@ + match detail {
        Option::Some(d) => d,
        Option::None => NO_OS_DETAIL@,
    }
}

/// Reads the error message that the engine wrote, if it is valid UTF-8.
pub fn engine_error_message(err: &[u8]) -> (r: Option<String>)
    ensures
        r is Some <==> valid_utf8(err@),
        r is Some ==> r->0@ == decode_utf8(err@),
{
    match text_of(err) {
        Option::Some(s) => Option::Some(String::from_str(s)),
        Option::None => Option::None,
    }
}

/// The engine's message, or `fallback` when it is not readable text.
fn message_or_else(err: &[u8], fallback: &str) -> (r: String)
    ensures
        r@ == message_or(err@, fallback@),
{
    match engine_error_message(err) {
        Option::Some(m) => m,
        Option::None => String::from_str(fallback),
    }
}

/// Describes an operating-system error from its description and detail.
pub fn os_error_message(desc: &str, detail: Option<&str>) -> (r: String)
    ensures
        r@ == os_error_text(desc@, match detail {
            Option::Some(d) => Option::Some(d@),
            Option::None => Option::None,
        }),
{
    let mut m = String::from_str("ERROR: desc:");
    m.append(desc);
    m.append(", details:");
    match detail {
        Option::Some(d) => m.append(d),
        Option::None => m.append(NO_OS_DETAIL),
    }
    m
}

/// Outcome of opening a store, from the engine's error out-parameter and
/// whether the handle it returned is null. An error wins over a handle; a
/// null handle without an error is still a failure.
pub fn open_status(err: Option<&[u8]>, db_is_null: bool) -> (r: Result<(), String>)
    ensures
        err is Some ==> r is Err && r->Err_0@ == message_or(err->0@, OPEN_FAILED@),
        err is None && db_is_null ==> r is Err && r->Err_0@ == OPEN_FAILED@,
        err is None && !db_is_null ==> r is Ok,
{
    match err {
        Option::Some(e) => Err(message_or_else(e, OPEN_FAILED)),
        Option::None => {
            if db_is_null {
                Err(String::from_str(OPEN_FAILED))
            } else {
                Ok(())
            }
        },
    }
}

/// Outcome of destroying a store, from the engine's error out-parameter.
pub fn destroy_status(err: Option<&[u8]>) -> (r: Result<(), String>)
    ensures
        err is Some ==> r is Err && r->Err_0@ == message_or(err->0@, OPEN_FAILED@),
        err is None ==> r is Ok,
{
    match err {
        Option::Some(e) => Err(message_or_else(e, OPEN_FAILED)),
        Option::None => Ok(()),
    }
}

/// Outcome of a write (put, delete or merge), from the engine's error
/// out-parameter. When the engine's message is not readable text, the last
/// operating-system error, given by `os_desc` and `os_detail`, is reported.
pub fn write_status(err: Option<&[u8]>, os_desc: &str, os_detail: Option<&str>) -> (r: Result<
    (),
    String,
>)
    ensures
        err is None ==> r is Ok,
        err is Some ==> r is Err && r->Err_0@ == message_or(
            err->0@,
            os_error_text(os_desc@, match os_detail {
                Option::Some(d) => Option::Some(d@),
                Option::None => Option::None,
            }),
        ),
{
    match err {
        Option::Some(e) => match engine_error_message(e) {
            Option::Some(m) => Err(m),
            Option::None => Err(os_error_message(os_desc, os_detail)),
        },
        Option::None => Ok(()),
    }
}

/// Outcome of a read. `read_options_missing` says that the engine could not
/// create its read options; `err` is its error out-parameter; `val` is the
/// buffer it returned, if any, of which the first `val_len` bytes are the
/// value. An error wins over a value; no error and no value is absence.
pub fn get_status(
    read_options_missing: bool,
    err: Option<&[u8]>,
    val: Option<Vec<u8>>,
    val_len: usize,
) -> (r: RocksDBResult<RocksDBVector, String>)
    requires
        val is Some ==> val_len <= val->0@.len(),
    ensures
        read_options_missing ==> r is Error && r->Error_0@ == READ_OPTIONS_FAILED@,
        !read_options_missing && err is Some ==> r is Error && r->Error_0@ == message_or(
            err->0@,
            GET_FAILED@,
        ),
        !read_options_missing && err is None && val is None ==> r is Absent,
        !read_options_missing && err is None && val is Some ==> r is Found && r->Found_0@
            == val->0@.subrange(0, val_len as int),
{
    if read_options_missing {
        return RocksDBResult::Error(String::from_str(READ_OPTIONS_FAILED));
    }
    match err {
        Option::Some(e) => RocksDBResult::Error(message_or_else(e, GET_FAILED)),
        Option::None => match val {
            Option::Some(v) => RocksDBResult::Found(RocksDBVector::from_c(v, val_len)),
            Option::None => RocksDBResult::Absent,
        },
    }
}

} // verus!
