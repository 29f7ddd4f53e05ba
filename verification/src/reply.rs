use vstd::prelude::*;
use crate::models::ApiResponse;

verus! {

/// A database operation that failed, with the database's own description.
#[derive(Debug)]
pub struct DbError {
    pub message: String,
}

/// An HTTP status together with the envelope sent as the body.
#[derive(Debug)]
pub struct Reply<T> {
    pub status: u16,
    pub body: ApiResponse<T>,
}

/// `r` is a success with the given status carrying `data`.
pub open spec fn is_success<T>(r: Reply<T>, status: u16, data: T) -> bool {
    &&& r.status == status
    &&& r.body.code == 0
    &&& r.body.message@ == "success"@
    &&& r.body.data == Some(data)
}

/// `r` is a failure with the given status, the same number as its code, and
/// the given message.
pub open spec fn is_failure<T>(r: Reply<T>, status: u16, message: Seq<char>) -> bool {
    &&& r.status == status
    &&& r.body.code == status as i32
    &&& r.body.message@ == message
    &&& r.body.data is None
}

/// The invariant of every reply the service sends: a 2xx status comes with
/// code 0 and data, any other status with that status as code and no data.
pub open spec fn well_formed<T>(r: Reply<T>) -> bool {
    if 200 <= r.status < 300 {
        r.body.code == 0 && r.body.data is Some
    } else {
        r.body.code == r.status as i32 && r.body.data is None
    }
}

/// The 200 reply carrying `data`.
pub fn ok<T>(data: T) -> (r: Reply<T>)
    ensures
        is_success(r, 200, data),
        well_formed(r),
{
    Reply { status: 200, body: ApiResponse::success(data) }
}

/// The 201 reply carrying a newly created `data`.
pub fn created<T>(data: T) -> (r: Reply<T>)
    ensures
        is_success(r, 201, data),
        well_formed(r),
{
    Reply { status: 201, body: ApiResponse::success(data) }
}

/// The failure reply with `status` (a 4xx or 5xx) and `message`.
pub fn failure<T>(status: u16, message: String) -> (r: Reply<T>)
    requires
        400 <= status < 600,
    ensures
        is_failure(r, status, message@),
        well_formed(r),
{
    Reply { status, body: ApiResponse::error(status as i32, message) }
}

/// The 500 reply for a failed database operation, carrying its description.
pub fn internal_error<T>(e: DbError) -> (r: Reply<T>)
    ensures
        is_failure(r, 500, e.message@),
        well_formed(r),
{
    failure(500, e.message)
}

/// The 404 reply with `message`.
pub fn not_found<T>(message: &str) -> (r: Reply<T>)
    ensures
        is_failure(r, 404, message@),
        well_formed(r),
{
    failure(404, String::from_str(message))
}

/// The 400 reply with `message`.
pub fn bad_request<T>(message: &str) -> (r: Reply<T>)
    ensures
        is_failure(r, 400, message@),
        well_formed(r),
{
    failure(400, String::from_str(message))
}

/// The reply to a query that reads or writes one result: 200 with the
/// result, or 500 when the query failed.
pub fn fetched_reply<T>(result: Result<T, DbError>) -> (r: Reply<T>)
    ensures
        well_formed(r),
        match result {
            Ok(data) => is_success(r, 200, data),
            Err(e) => is_failure(r, 500, e.message@),
        },
{
    match result {
        Ok(data) => ok(data),
        Err(e) => internal_error(e),
    }
}

/// The reply to a query that inserts a row: 201 with the stored row, or 500
/// when the insert failed.
pub fn created_reply<T>(result: Result<T, DbError>) -> (r: Reply<T>)
    ensures
        well_formed(r),
        match result {
            Ok(data) => is_success(r, 201, data),
            Err(e) => is_failure(r, 500, e.message@),
        },
{
    match result {
        Ok(data) => created(data),
        Err(e) => internal_error(e),
    }
}

/// The reply to a lookup by id: 200 with the row, 404 with `missing` when
/// there is none, or 500 when the lookup failed.
pub fn found_reply<T>(result: Result<Option<T>, DbError>, missing: &str) -> (r: Reply<T>)
    ensures
        well_formed(r),
        match result {
            Ok(Some(data)) => is_success(r, 200, data),
            Ok(None) => is_failure(r, 404, missing@),
            Err(e) => is_failure(r, 500, e.message@),
        },
{
    match result {
        Ok(Some(data)) => ok(data),
        Ok(None) => not_found(missing),
        Err(e) => internal_error(e),
    }
}

/// The body of a successful deletion, `{"deleted": true}`.
#[derive(Debug)]
pub struct Deleted {
    pub deleted: bool,
}

/// The reply to a deletion by id, given how many rows it removed: 200 when
/// one was, 404 with `missing` when none was, 500 when it failed.
pub fn deleted_reply(result: Result<u64, DbError>, missing: &str) -> (r: Reply<Deleted>)
    ensures
        well_formed(r),
        match result {
            Ok(n) => if n > 0 {
                is_success(r, 200, Deleted { deleted: true })
            } else {
                is_failure(r, 404, missing@)
            },
            Err(e) => is_failure(r, 500, e.message@),
        },
{
    match result {
        Ok(n) => if n > 0 {
            ok(Deleted { deleted: true })
        } else {
            not_found(missing)
        },
        Err(e) => internal_error(e),
    }
}

} // verus!
