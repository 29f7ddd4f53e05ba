//! Display schedules: when, how long and how often a popup is shown.

use vstd::prelude::*;
use crate::models::{CreateScheduleRequest, PopupDisplaySchedule, UpdateScheduleRequest};
use crate::popup_handler::{either, or_keep};
use crate::popup_handler::POPUP_NOT_FOUND;
use crate::query::{
    confirms_existence, count_placeholders, has_text, lemma_count_at, lemma_count_free, lemma_count_one_inside,
    single_value_query, spec_confirms, string_views, Param, SqlQuery, Statement,
};
use crate::reply::{
    bad_request, created_reply, deleted_reply, fetched_reply, found_reply,
    internal_error, is_failure, is_success, not_found, well_formed, DbError, Deleted,
    Reply,
};
use crate::stamps::{is_utc_rfc3339, is_uuid_v4_text, new_id, now_rfc3339};

verus! {

/// The query string of a schedule listing.
#[derive(Debug)]
pub struct ListScheduleQuery {
    pub live_room_id: Option<String>,
    pub popup_id: Option<String>,
}

/// The message for a schedule id that names no schedule.
pub const SCHEDULE_NOT_FOUND: &'static str = "Schedule not found";

/// The row stored for a new schedule with identifier `id`, created at `now`.
pub open spec fn spec_new_schedule(req: CreateScheduleRequest, id: String, now: String) -> PopupDisplaySchedule {
    PopupDisplaySchedule {
        id,
        popup_id: req.popup_id,
        live_room_id: req.live_room_id,
        start_time: req.start_time,
        end_time: req.end_time,
        repeat_mode: req.repeat_mode,
        repeat_interval_secs: req.repeat_interval_secs,
        display_duration_secs: req.display_duration_secs,
        enabled: req.enabled,
        created_at: now,
        updated_at: now,
    }
}

/// The row to insert for a new schedule: the request's fields, the
/// identifier `id`, and `now` as both creation and change time.
pub fn new_schedule(req: CreateScheduleRequest, id: String, now: String) -> (s: PopupDisplaySchedule)
    ensures
        s == spec_new_schedule(req, id, now),
        s.id == id,
        s.created_at == now,
        s.updated_at == now,
        s.popup_id == req.popup_id,
        s.live_room_id == req.live_room_id,
        s.start_time == req.start_time,
        s.end_time == req.end_time,
        s.repeat_mode == req.repeat_mode,
        s.repeat_interval_secs == req.repeat_interval_secs,
        s.display_duration_secs == req.display_duration_secs,
        s.enabled == req.enabled,
{
    let updated_at = now.clone();
    PopupDisplaySchedule {
        id,
        popup_id: req.popup_id,
        live_room_id: req.live_room_id,
        start_time: req.start_time,
        end_time: req.end_time,
        repeat_mode: req.repeat_mode,
        repeat_interval_secs: req.repeat_interval_secs,
        display_duration_secs: req.display_duration_secs,
        enabled: req.enabled,
        created_at: now,
        updated_at,
    }
}

/// The step of a create request once the popup's existence was checked: the
/// row to insert, under a fresh random identifier and stamped with the current
/// time, or 400 "Popup not found" when the popup does not exist or the check
/// failed.
pub fn create_schedule_on_exists(req: CreateScheduleRequest, exists: Result<i32, DbError>) -> (step: Result<
    PopupDisplaySchedule,
    Reply<PopupDisplaySchedule>,
>)
    ensures
        step is Ok <==> spec_confirms(exists),
        step matches Ok(s) ==> s == spec_new_schedule(req, s.id, s.created_at) && is_uuid_v4_text(s.id@)
            && is_utc_rfc3339(s.created_at@),
        step matches Ok(s) ==> s.updated_at == s.created_at && s.popup_id == req.popup_id && s.live_room_id == req.live_room_id && s.start_time == req.start_time && s.end_time == req.end_time && s.repeat_mode == req.repeat_mode && s.repeat_interval_secs == req.repeat_interval_secs && s.display_duration_secs == req.display_duration_secs && s.enabled == req.enabled,
        step matches Err(r) ==> is_failure(r, 400, POPUP_NOT_FOUND@) && well_formed(r),
{
    if !confirms_existence(exists) {
        return Err(bad_request(POPUP_NOT_FOUND));
    }
    let id = new_id();
    let now = now_rfc3339();
    Ok(new_schedule(req, id, now))
}

/// The reply to a create request once the insert ran: 201 with the stored
/// schedule, or 500.
pub fn create_schedule_reply(inserted: Result<PopupDisplaySchedule, DbError>) -> (r: Reply<
    PopupDisplaySchedule,
>)
    ensures
        well_formed(r),
        match inserted {
            Ok(s) => is_success(r, 201, s),
            Err(e) => is_failure(r, 500, e.message@),
        },
{
    created_reply(inserted)
}

/// The listing of one popup's schedules.
pub const SCHEDULES_OF_POPUP: &'static str = "SELECT * FROM popup_display_schedule WHERE popup_id = ? ORDER BY start_time ASC";
/// The listing of one live room's schedules.
pub const SCHEDULES_OF_ROOM: &'static str = "SELECT * FROM popup_display_schedule WHERE live_room_id = ? ORDER BY start_time ASC";
/// The listing of every schedule.
pub const ALL_SCHEDULES: &'static str = "SELECT * FROM popup_display_schedule ORDER BY start_time ASC";

/// The query of a schedule listing: a named popup takes precedence over a
/// named live room; with neither, every schedule is listed. All listings are
/// ordered by start time.
pub open spec fn spec_list_schedules_query(q: ListScheduleQuery, sql: Seq<char>, binds: Seq<Seq<char>>) -> bool {
    match q.popup_id {
        Some(p) => sql == SCHEDULES_OF_POPUP@ && binds == seq![p@],
        None => match q.live_room_id {
            Some(room) => sql == SCHEDULES_OF_ROOM@ && binds == seq![room@],
            None => sql == ALL_SCHEDULES@ && binds == Seq::<Seq<char>>::empty(),
        },
    }
}

/// The query of a schedule listing, which binds as many values as it has
/// placeholders.
pub fn list_schedules_query(q: ListScheduleQuery) -> (r: SqlQuery)
    ensures
        spec_list_schedules_query(q, r.sql@, string_views(r.binds@)),
        count_placeholders(r.sql@) == r.binds@.len(),
        q.popup_id matches Some(p) ==> r.sql@ == SCHEDULES_OF_POPUP@ && string_views(r.binds@) == seq![p@],
        (q.popup_id is None && q.live_room_id is Some) ==> r.sql@ == SCHEDULES_OF_ROOM@ && string_views(
            r.binds@,
        ) == seq![q.live_room_id->0@],
        (q.popup_id is None && q.live_room_id is None) ==> r.sql@ == ALL_SCHEDULES@ && r.binds@.len() == 0,
{
    proof {
        reveal_strlit("SELECT * FROM popup_display_schedule WHERE popup_id = ? ORDER BY start_time ASC");
        reveal_strlit("SELECT * FROM popup_display_schedule WHERE live_room_id = ? ORDER BY start_time ASC");
        reveal_strlit("SELECT * FROM popup_display_schedule ORDER BY start_time ASC");
    }
    let mut binds: Vec<String> = Vec::new();
    match q.popup_id {
        Some(p) => {
            binds.push(p);
            proof {
                assert(string_views(binds@) =~= seq![q.popup_id->0@]);
                lemma_count_one_inside(SCHEDULES_OF_POPUP@, 54);
            }
            SqlQuery { sql: String::from_str(SCHEDULES_OF_POPUP), binds }
        },
        None => match q.live_room_id {
            Some(room) => {
                binds.push(room);
                proof {
                    assert(string_views(binds@) =~= seq![q.live_room_id->0@]);
                    lemma_count_one_inside(SCHEDULES_OF_ROOM@, 58);
                }
                SqlQuery { sql: String::from_str(SCHEDULES_OF_ROOM), binds }
            },
            None => {
                proof {
                    assert(string_views(binds@) =~= Seq::<Seq<char>>::empty());
                    lemma_count_free(ALL_SCHEDULES@);
                }
                SqlQuery { sql: String::from_str(ALL_SCHEDULES), binds }
            },
        },
    }
}

/// The reply to a listing: 200 with the schedules as read, or 500.
pub fn list_schedules_reply(listed: Result<Vec<PopupDisplaySchedule>, DbError>) -> (r: Reply<
    Vec<PopupDisplaySchedule>,
>)
    ensures
        well_formed(r),
        match listed {
            Ok(ss) => is_success(r, 200, ss),
            Err(e) => is_failure(r, 500, e.message@),
        },
{
    fetched_reply(listed)
}

/// The reply to a lookup of one schedule: 200 with it, 404 "Schedule not
/// found", or 500.
pub fn get_schedule_reply(found: Result<Option<PopupDisplaySchedule>, DbError>) -> (r: Reply<
    PopupDisplaySchedule,
>)
    ensures
        well_formed(r),
        match found {
            Ok(Some(s)) => is_success(r, 200, s),
            Ok(None) => is_failure(r, 404, SCHEDULE_NOT_FOUND@),
            Err(e) => is_failure(r, 500, e.message@),
        },
{
    found_reply(found, SCHEDULE_NOT_FOUND)
}

/// The values an update writes to the schedule `id`: every changeable field
/// and the change time.
#[derive(Debug)]
pub struct ScheduleUpdate {
    pub id: String,
    pub start_time: String,
    pub end_time: String,
    pub repeat_mode: String,
    pub repeat_interval_secs: Option<i32>,
    pub display_duration_secs: i32,
    pub enabled: bool,
    pub updated_at: String,
}

/// The values written when `req` changes the stored schedule `existing`
/// (stored under `id`) at `now`: each field given in the request, the stored
/// value of every other.
pub open spec fn spec_merge_schedule(
    id: String,
    existing: PopupDisplaySchedule,
    req: UpdateScheduleRequest,
    now: String,
) -> ScheduleUpdate {
    ScheduleUpdate {
        id,
        start_time: req.start_time.unwrap_or(existing.start_time),
        end_time: req.end_time.unwrap_or(existing.end_time),
        repeat_mode: req.repeat_mode.unwrap_or(existing.repeat_mode),
        repeat_interval_secs: or_keep(req.repeat_interval_secs, existing.repeat_interval_secs),
        display_duration_secs: req.display_duration_secs.unwrap_or(existing.display_duration_secs),
        enabled: req.enabled.unwrap_or(existing.enabled),
        updated_at: now,
    }
}

/// The values written when `req` changes the stored schedule `existing` at
/// `now`.
pub fn merge_schedule_update(
    id: String,
    existing: PopupDisplaySchedule,
    req: UpdateScheduleRequest,
    now: String,
) -> (u: ScheduleUpdate)
    ensures
        u == spec_merge_schedule(id, existing, req, now),
        u.id == id,
        u.updated_at == now,
        req.start_time matches Some(v) ==> u.start_time == v,
        req.start_time is None ==> u.start_time == existing.start_time,
        req.end_time matches Some(v) ==> u.end_time == v,
        req.end_time is None ==> u.end_time == existing.end_time,
        req.repeat_mode matches Some(v) ==> u.repeat_mode == v,
        req.repeat_mode is None ==> u.repeat_mode == existing.repeat_mode,
        req.display_duration_secs matches Some(v) ==> u.display_duration_secs == v,
        req.display_duration_secs is None ==> u.display_duration_secs == existing.display_duration_secs,
        req.enabled matches Some(v) ==> u.enabled == v,
        req.enabled is None ==> u.enabled == existing.enabled,
        req.repeat_interval_secs matches Some(v) ==> u.repeat_interval_secs == Some(v),
        req.repeat_interval_secs is None ==> u.repeat_interval_secs == existing.repeat_interval_secs,
{
    ScheduleUpdate {
        id,
        start_time: req.start_time.unwrap_or(existing.start_time),
        end_time: req.end_time.unwrap_or(existing.end_time),
        repeat_mode: req.repeat_mode.unwrap_or(existing.repeat_mode),
        repeat_interval_secs: either(req.repeat_interval_secs, existing.repeat_interval_secs),
        display_duration_secs: req.display_duration_secs.unwrap_or(existing.display_duration_secs),
        enabled: req.enabled.unwrap_or(existing.enabled),
        updated_at: now,
    }
}

/// The row the update `u` leaves in place of `row`: the written fields
/// replaced, identity, popup, room and creation time kept.
pub open spec fn spec_apply_schedule_update(row: PopupDisplaySchedule, u: ScheduleUpdate) -> PopupDisplaySchedule {
    PopupDisplaySchedule {
        start_time: u.start_time,
        end_time: u.end_time,
        repeat_mode: u.repeat_mode,
        repeat_interval_secs: u.repeat_interval_secs,
        display_duration_secs: u.display_duration_secs,
        enabled: u.enabled,
        updated_at: u.updated_at,
        ..row
    }
}

/// The step of an update once the stored schedule was looked up: the values
/// to write, stamped with the current time, or the 404 / 500 reply.
pub fn update_schedule_on_fetch(
    id: String,
    req: UpdateScheduleRequest,
    fetched: Result<Option<PopupDisplaySchedule>, DbError>,
) -> (step: Result<ScheduleUpdate, Reply<PopupDisplaySchedule>>)
    ensures
        match fetched {
            Ok(Some(existing)) => step matches Ok(u) && u == spec_merge_schedule(
                id,
                existing,
                req,
                u.updated_at,
            ) && is_utc_rfc3339(u.updated_at@),
            Ok(None) => step matches Err(r) && is_failure(r, 404, SCHEDULE_NOT_FOUND@) && well_formed(r),
            Err(e) => step matches Err(r) && is_failure(r, 500, e.message@) && well_formed(r),
        },
{
    match fetched {
        Ok(Some(existing)) => {
            let now = now_rfc3339();
            Ok(merge_schedule_update(id, existing, req, now))
        },
        Ok(None) => Err(not_found(SCHEDULE_NOT_FOUND)),
        Err(e) => Err(internal_error(e)),
    }
}

/// The reply to an update once it ran: 200 with the stored schedule, or 500.
pub fn update_schedule_reply(updated: Result<PopupDisplaySchedule, DbError>) -> (r: Reply<
    PopupDisplaySchedule,
>)
    ensures
        well_formed(r),
        match updated {
            Ok(s) => is_success(r, 200, s),
            Err(e) => is_failure(r, 500, e.message@),
        },
{
    fetched_reply(updated)
}

/// The reply to a deletion given how many rows it removed: 200
/// `{"deleted": true}`, 404 "Schedule not found", or 500.
pub fn delete_schedule_reply(removed: Result<u64, DbError>) -> (r: Reply<Deleted>)
    ensures
        well_formed(r),
        match removed {
            Ok(n) => if n > 0 {
                is_success(r, 200, Deleted { deleted: true })
            } else {
                is_failure(r, 404, SCHEDULE_NOT_FOUND@)
            },
            Err(e) => is_failure(r, 500, e.message@),
        },
{
    deleted_reply(removed, SCHEDULE_NOT_FOUND)
}

/// Inserts a schedule row and returns it as stored.
pub const INSERT_SCHEDULE: &'static str = "INSERT INTO popup_display_schedule (id, popup_id, live_room_id, start_time, end_time, repeat_mode, repeat_interval_secs, display_duration_secs, enabled, created_at, updated_at) VALUES (?, ?, ?, ?, ?, ?, ?, ?, ?, ?, ?) RETURNING *";

/// The values bound when inserting the row `x`, in column order.
pub open spec fn schedule_insert_params(x: PopupDisplaySchedule) -> Seq<Param> {
    seq![Param::Text(x.id), Param::Text(x.popup_id), Param::Text(x.live_room_id), Param::Text(x.start_time), Param::Text(x.end_time), Param::Text(x.repeat_mode), Param::MaybeInt(x.repeat_interval_secs), Param::Int(x.display_duration_secs), Param::Bool(x.enabled), Param::Text(x.created_at), Param::Text(x.updated_at)]
}

/// The statement inserting the row `x`, its columns bound in table order.
pub fn insert_schedule_statement(x: PopupDisplaySchedule) -> (st: Statement)
    ensures
        st.sql@ == INSERT_SCHEDULE@,
        st.params@ == schedule_insert_params(x),
        count_placeholders(st.sql@) == st.params@.len(),
{
    proof {
        reveal_strlit("INSERT INTO popup_display_schedule (id, popup_id, live_room_id, start_time, end_time, repeat_mode, repeat_interval_secs, display_duration_secs, enabled, created_at, updated_at) VALUES (?, ?, ?, ?, ?, ?, ?, ?, ?, ?, ?) RETURNING *");
        lemma_count_at(INSERT_SCHEDULE@, seq![185int, 188int, 191int, 194int, 197int, 200int, 203int, 206int, 209int, 212int, 215int]);
    }
    let ghost x0 = x;
    let mut params: Vec<Param> = Vec::new();
    params.push(Param::Text(x.id));
    params.push(Param::Text(x.popup_id));
    params.push(Param::Text(x.live_room_id));
    params.push(Param::Text(x.start_time));
    params.push(Param::Text(x.end_time));
    params.push(Param::Text(x.repeat_mode));
    params.push(Param::MaybeInt(x.repeat_interval_secs));
    params.push(Param::Int(x.display_duration_secs));
    params.push(Param::Bool(x.enabled));
    params.push(Param::Text(x.created_at));
    params.push(Param::Text(x.updated_at));
    proof {
        assert(params@ =~= schedule_insert_params(x0));
    }
    Statement { sql: String::from_str(INSERT_SCHEDULE), params }
}

/// Reads one schedule by id.
pub const SCHEDULE_BY_ID: &'static str = "SELECT * FROM popup_display_schedule WHERE id = ?";

/// The query reading the schedule `id`.
pub fn schedule_by_id_query(id: String) -> (r: SqlQuery)
    ensures
        r.sql@ == SCHEDULE_BY_ID@,
        string_views(r.binds@) == seq![id@],
        count_placeholders(r.sql@) == r.binds@.len(),
{
    proof {
        reveal_strlit("SELECT * FROM popup_display_schedule WHERE id = ?");
        lemma_count_one_inside(SCHEDULE_BY_ID@, 48);
    }
    single_value_query(SCHEDULE_BY_ID, id)
}

/// Writes the changeable fields of one schedule and returns it as stored.
pub const UPDATE_SCHEDULE: &'static str = "UPDATE popup_display_schedule SET start_time = ?, end_time = ?, repeat_mode = ?, repeat_interval_secs = ?, display_duration_secs = ?, enabled = ?, updated_at = ? WHERE id = ? RETURNING *";

/// The values bound when writing the update `x`.
pub open spec fn schedule_update_params(x: ScheduleUpdate) -> Seq<Param> {
    seq![Param::Text(x.start_time), Param::Text(x.end_time), Param::Text(x.repeat_mode), Param::MaybeInt(x.repeat_interval_secs), Param::Int(x.display_duration_secs), Param::Bool(x.enabled), Param::Text(x.updated_at), Param::Text(x.id)]
}

/// The statement writing the update `x`: its values in the order of the `SET` list, then the id.
pub fn update_schedule_statement(x: ScheduleUpdate) -> (st: Statement)
    ensures
        st.sql@ == UPDATE_SCHEDULE@,
        st.params@ == schedule_update_params(x),
        count_placeholders(st.sql@) == st.params@.len(),
{
    proof {
        reveal_strlit("UPDATE popup_display_schedule SET start_time = ?, end_time = ?, repeat_mode = ?, repeat_interval_secs = ?, display_duration_secs = ?, enabled = ?, updated_at = ? WHERE id = ? RETURNING *");
        lemma_count_at(UPDATE_SCHEDULE@, seq![47int, 61int, 78int, 104int, 131int, 144int, 160int, 173int]);
    }
    let ghost x0 = x;
    let mut params: Vec<Param> = Vec::new();
    params.push(Param::Text(x.start_time));
    params.push(Param::Text(x.end_time));
    params.push(Param::Text(x.repeat_mode));
    params.push(Param::MaybeInt(x.repeat_interval_secs));
    params.push(Param::Int(x.display_duration_secs));
    params.push(Param::Bool(x.enabled));
    params.push(Param::Text(x.updated_at));
    params.push(Param::Text(x.id));
    proof {
        assert(params@ =~= schedule_update_params(x0));
    }
    Statement { sql: String::from_str(UPDATE_SCHEDULE), params }
}

/// Removes one schedule by id.
pub const DELETE_SCHEDULE: &'static str = "DELETE FROM popup_display_schedule WHERE id = ?";

/// The statement removing the schedule `id`.
pub fn delete_schedule_query(id: String) -> (r: SqlQuery)
    ensures
        r.sql@ == DELETE_SCHEDULE@,
        string_views(r.binds@) == seq![id@],
        count_placeholders(r.sql@) == r.binds@.len(),
{
    proof {
        reveal_strlit("DELETE FROM popup_display_schedule WHERE id = ?");
        lemma_count_one_inside(DELETE_SCHEDULE@, 46);
    }
    single_value_query(DELETE_SCHEDULE, id)
}

/// Each schedule statement reads or writes what its name says: the listings
/// filter by popup, by live room or not at all and order by start time, and
/// the lookup and deletion act on the row with the given id.
pub proof fn lemma_schedule_statements_say_what_they_do()
    ensures
        has_text(SCHEDULES_OF_POPUP@, "FROM popup_display_schedule WHERE popup_id = ?"@),
        has_text(SCHEDULES_OF_POPUP@, "ORDER BY start_time ASC"@),
        has_text(SCHEDULES_OF_ROOM@, "FROM popup_display_schedule WHERE live_room_id = ?"@),
        has_text(SCHEDULES_OF_ROOM@, "ORDER BY start_time ASC"@),
        has_text(ALL_SCHEDULES@, "FROM popup_display_schedule ORDER BY start_time ASC"@),
        has_text(SCHEDULE_BY_ID@, "SELECT * FROM popup_display_schedule WHERE id = ?"@),
        has_text(DELETE_SCHEDULE@, "DELETE FROM popup_display_schedule WHERE id = ?"@),
        has_text(INSERT_SCHEDULE@, "INSERT INTO popup_display_schedule"@),
        has_text(UPDATE_SCHEDULE@, "UPDATE popup_display_schedule SET"@),
        has_text(UPDATE_SCHEDULE@, "WHERE id = ?"@),
{
    reveal_strlit("SELECT * FROM popup_display_schedule WHERE popup_id = ? ORDER BY start_time ASC");
    reveal_strlit("SELECT * FROM popup_display_schedule WHERE live_room_id = ? ORDER BY start_time ASC");
    reveal_strlit("SELECT * FROM popup_display_schedule ORDER BY start_time ASC");
    reveal_strlit("SELECT * FROM popup_display_schedule WHERE id = ?");
    reveal_strlit("DELETE FROM popup_display_schedule WHERE id = ?");
    reveal_strlit("INSERT INTO popup_display_schedule (id, popup_id, live_room_id, start_time, end_time, repeat_mode, repeat_interval_secs, display_duration_secs, enabled, created_at, updated_at) VALUES (?, ?, ?, ?, ?, ?, ?, ?, ?, ?, ?) RETURNING *");
    reveal_strlit("UPDATE popup_display_schedule SET start_time = ?, end_time = ?, repeat_mode = ?, repeat_interval_secs = ?, display_duration_secs = ?, enabled = ?, updated_at = ? WHERE id = ? RETURNING *");
    reveal_strlit("FROM popup_display_schedule WHERE popup_id = ?");
    reveal_strlit("ORDER BY start_time ASC");
    reveal_strlit("FROM popup_display_schedule WHERE live_room_id = ?");
    reveal_strlit("FROM popup_display_schedule ORDER BY start_time ASC");
    reveal_strlit("SELECT * FROM popup_display_schedule WHERE id = ?");
    reveal_strlit("DELETE FROM popup_display_schedule WHERE id = ?");
    reveal_strlit("INSERT INTO popup_display_schedule");
    reveal_strlit("UPDATE popup_display_schedule SET");
    reveal_strlit("WHERE id = ?");
    assert(SCHEDULES_OF_POPUP@.subrange(9, 9 + "FROM popup_display_schedule WHERE popup_id = ?"@.len() as int) =~= "FROM popup_display_schedule WHERE popup_id = ?"@);
    assert(SCHEDULES_OF_POPUP@.subrange(56, 56 + "ORDER BY start_time ASC"@.len() as int) =~= "ORDER BY start_time ASC"@);
    assert(SCHEDULES_OF_ROOM@.subrange(9, 9 + "FROM popup_display_schedule WHERE live_room_id = ?"@.len() as int) =~= "FROM popup_display_schedule WHERE live_room_id = ?"@);
    assert(SCHEDULES_OF_ROOM@.subrange(60, 60 + "ORDER BY start_time ASC"@.len() as int) =~= "ORDER BY start_time ASC"@);
    assert(ALL_SCHEDULES@.subrange(9, 9 + "FROM popup_display_schedule ORDER BY start_time ASC"@.len() as int) =~= "FROM popup_display_schedule ORDER BY start_time ASC"@);
    assert(SCHEDULE_BY_ID@.subrange(0, 0 + "SELECT * FROM popup_display_schedule WHERE id = ?"@.len() as int) =~= "SELECT * FROM popup_display_schedule WHERE id = ?"@);
    assert(DELETE_SCHEDULE@.subrange(0, 0 + "DELETE FROM popup_display_schedule WHERE id = ?"@.len() as int) =~= "DELETE FROM popup_display_schedule WHERE id = ?"@);
    assert(INSERT_SCHEDULE@.subrange(0, 0 + "INSERT INTO popup_display_schedule"@.len() as int) =~= "INSERT INTO popup_display_schedule"@);
    assert(UPDATE_SCHEDULE@.subrange(0, 0 + "UPDATE popup_display_schedule SET"@.len() as int) =~= "UPDATE popup_display_schedule SET"@);
    assert(UPDATE_SCHEDULE@.subrange(162, 162 + "WHERE id = ?"@.len() as int) =~= "WHERE id = ?"@);
}

/// Inserting a schedule binds its fields in the order of the column list.
pub proof fn lemma_schedule_insert_binds_columns(x: PopupDisplaySchedule)
    ensures
        schedule_insert_params(x).len() == 11,
        schedule_insert_params(x)[0] == Param::Text(x.id),
        schedule_insert_params(x)[1] == Param::Text(x.popup_id),
        schedule_insert_params(x)[2] == Param::Text(x.live_room_id),
        schedule_insert_params(x)[3] == Param::Text(x.start_time),
        schedule_insert_params(x)[4] == Param::Text(x.end_time),
        schedule_insert_params(x)[5] == Param::Text(x.repeat_mode),
        schedule_insert_params(x)[6] == Param::MaybeInt(x.repeat_interval_secs),
        schedule_insert_params(x)[7] == Param::Int(x.display_duration_secs),
        schedule_insert_params(x)[8] == Param::Bool(x.enabled),
        schedule_insert_params(x)[9] == Param::Text(x.created_at),
        schedule_insert_params(x)[10] == Param::Text(x.updated_at),
{
}

/// Writing a schedule update binds its values in the order of the `SET`
/// list, then the id of the row it writes.
pub proof fn lemma_schedule_update_binds_columns(x: ScheduleUpdate)
    ensures
        schedule_update_params(x).len() == 8,
        schedule_update_params(x)[0] == Param::Text(x.start_time),
        schedule_update_params(x)[1] == Param::Text(x.end_time),
        schedule_update_params(x)[2] == Param::Text(x.repeat_mode),
        schedule_update_params(x)[3] == Param::MaybeInt(x.repeat_interval_secs),
        schedule_update_params(x)[4] == Param::Int(x.display_duration_secs),
        schedule_update_params(x)[5] == Param::Bool(x.enabled),
        schedule_update_params(x)[6] == Param::Text(x.updated_at),
        schedule_update_params(x)[7] == Param::Text(x.id),
{
}

/// A new schedule row carries the request's fields, the given id, and the
/// given time as both creation and change time.
pub proof fn lemma_new_schedule_row(req: CreateScheduleRequest, id: String, now: String)
    ensures
        ({
            let s = spec_new_schedule(req, id, now);
            &&& s.id == id
            &&& s.created_at == now
            &&& s.updated_at == now
            &&& s.popup_id == req.popup_id
            &&& s.live_room_id == req.live_room_id
            &&& s.start_time == req.start_time
            &&& s.end_time == req.end_time
            &&& s.repeat_mode == req.repeat_mode
            &&& s.repeat_interval_secs == req.repeat_interval_secs
            &&& s.display_duration_secs == req.display_duration_secs
            &&& s.enabled == req.enabled
        }),
{
}

/// A listing names a popup, a live room or neither; the popup wins when both
/// are named, and the one value bound is the one named.
pub proof fn lemma_schedule_listing_precedence(q: ListScheduleQuery, sql: Seq<char>, binds: Seq<Seq<char>>)
    requires
        spec_list_schedules_query(q, sql, binds),
    ensures
        q.popup_id matches Some(p) ==> sql == SCHEDULES_OF_POPUP@ && binds == seq![p@],
        (q.popup_id is None && q.live_room_id is Some) ==> sql == SCHEDULES_OF_ROOM@ && binds == seq![q.live_room_id->0@],
        (q.popup_id is None && q.live_room_id is None) ==> sql == ALL_SCHEDULES@ && binds.len() == 0,
{
}

/// An update request that gives no field.
pub open spec fn is_empty_schedule_update(req: UpdateScheduleRequest) -> bool {
    &&& req.start_time is None
    &&& req.end_time is None
    &&& req.repeat_mode is None
    &&& req.repeat_interval_secs is None
    &&& req.display_duration_secs is None
    &&& req.enabled is None
}

/// An update that gives no field leaves the stored schedule as it was, except
/// for its change time.
pub proof fn lemma_empty_schedule_update_keeps_row(
    existing: PopupDisplaySchedule,
    req: UpdateScheduleRequest,
    now: String,
)
    requires
        is_empty_schedule_update(req),
    ensures
        spec_apply_schedule_update(existing, spec_merge_schedule(existing.id, existing, req, now))
            == (PopupDisplaySchedule { updated_at: now, ..existing }),
{
}

/// Sending the same update twice leaves the schedule as sending it once,
/// except for the change time.
pub proof fn lemma_schedule_update_idempotent(
    existing: PopupDisplaySchedule,
    req: UpdateScheduleRequest,
    now1: String,
    now2: String,
)
    ensures
        ({
            let once = spec_apply_schedule_update(
                existing,
                spec_merge_schedule(existing.id, existing, req, now1),
            );
            let twice = spec_apply_schedule_update(once, spec_merge_schedule(once.id, once, req, now2));
            twice == (PopupDisplaySchedule { updated_at: now2, ..once })
        }),
{
}

/// An update writes every field it gives, keeps the stored value of every
/// field it leaves out, keeps the schedule's identity, popup, room and
/// creation time, and never removes a stored repeat interval.
pub proof fn lemma_schedule_update_fields(existing: PopupDisplaySchedule, req: UpdateScheduleRequest, now: String)
    ensures
        ({
            let after = spec_apply_schedule_update(
                existing,
                spec_merge_schedule(existing.id, existing, req, now),
            );
            &&& after.id == existing.id
            &&& after.popup_id == existing.popup_id
            &&& after.live_room_id == existing.live_room_id
            &&& after.created_at == existing.created_at
            &&& after.updated_at == now
            &&& (req.start_time matches Some(v) ==> after.start_time == v)
            &&& (req.end_time matches Some(v) ==> after.end_time == v)
            &&& (req.repeat_mode matches Some(v) ==> after.repeat_mode == v)
            &&& (req.repeat_interval_secs matches Some(v) ==> after.repeat_interval_secs == Some(v))
            &&& (req.display_duration_secs matches Some(v) ==> after.display_duration_secs == v)
            &&& (req.enabled matches Some(v) ==> after.enabled == v)
            &&& (req.start_time is None ==> after.start_time == existing.start_time)
            &&& (req.end_time is None ==> after.end_time == existing.end_time)
            &&& (req.repeat_mode is None ==> after.repeat_mode == existing.repeat_mode)
            &&& (req.display_duration_secs is None ==> after.display_duration_secs == existing.display_duration_secs)
            &&& (req.enabled is None ==> after.enabled == existing.enabled)
            &&& (req.repeat_interval_secs is None ==> after.repeat_interval_secs == existing.repeat_interval_secs)
            &&& (existing.repeat_interval_secs is Some ==> after.repeat_interval_secs is Some)
        }),
{
}

} // verus!
