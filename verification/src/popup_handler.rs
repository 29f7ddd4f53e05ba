//! Popups: creating, listing, reading, changing and removing the cards shown
//! in a live room.

use vstd::prelude::*;
use crate::models::{CreatePopupRequest, FloatBits, LiveRoomPopup, UpdatePopupRequest};
use crate::query::{
    count_placeholders, has_text, lemma_count_at, lemma_count_one_inside, single_value_query, string_views, Param,
    SqlQuery, Statement,
};
use crate::reply::{
    created_reply, deleted_reply, fetched_reply, found_reply, internal_error, is_failure,
    is_success, not_found, well_formed, DbError, Deleted, Reply,
};
use crate::stamps::{is_utc_rfc3339, is_uuid_v4_text, new_id, now_rfc3339};

verus! {

/// The query string of a popup listing.
#[derive(Debug)]
pub struct ListPopupQuery {
    pub live_room_id: String,
}

/// The message for a popup id that names no popup.
pub const POPUP_NOT_FOUND: &'static str = "Popup not found";

/// `a` when it is given, `b` otherwise.
pub open spec fn or_keep<T>(a: Option<T>, b: Option<T>) -> Option<T> {
    match a {
        Some(x) => Some(x),
        None => b,
    }
}

/// `a` when it is given, `b` otherwise.
pub fn either<T>(a: Option<T>, b: Option<T>) -> (r: Option<T>)
    ensures
        r == or_keep(a, b),
        a matches Some(x) ==> r == Some(x),
        a is None ==> r == b,
{
    match a {
        Some(x) => Some(x),
        None => b,
    }
}

/// The row stored for a new popup with identifier `id`, created at `now`.
pub open spec fn spec_new_popup(req: CreatePopupRequest, id: String, now: String) -> LiveRoomPopup {
    LiveRoomPopup {
        id,
        live_room_id: req.live_room_id,
        product_id: req.product_id,
        product_name: req.product_name,
        product_image: req.product_image,
        product_price: req.product_price,
        original_price: req.original_price,
        popup_type: req.popup_type,
        title: req.title,
        description: req.description,
        action_url: req.action_url,
        sort_order: req.sort_order,
        enabled: req.enabled,
        created_at: now,
        updated_at: now,
    }
}

/// The row to insert for a new popup: the request's fields, the identifier
/// `id`, and `now` as both creation and change time.
pub fn new_popup(req: CreatePopupRequest, id: String, now: String) -> (p: LiveRoomPopup)
    ensures
        p == spec_new_popup(req, id, now),
        p.id == id,
        p.created_at == now,
        p.updated_at == now,
        p.live_room_id == req.live_room_id,
        p.product_id == req.product_id,
        p.product_name == req.product_name,
        p.product_image == req.product_image,
        p.product_price == req.product_price,
        p.original_price == req.original_price,
        p.popup_type == req.popup_type,
        p.title == req.title,
        p.description == req.description,
        p.action_url == req.action_url,
        p.sort_order == req.sort_order,
        p.enabled == req.enabled,
{
    let updated_at = now.clone();
    LiveRoomPopup {
        id,
        live_room_id: req.live_room_id,
        product_id: req.product_id,
        product_name: req.product_name,
        product_image: req.product_image,
        product_price: req.product_price,
        original_price: req.original_price,
        popup_type: req.popup_type,
        title: req.title,
        description: req.description,
        action_url: req.action_url,
        sort_order: req.sort_order,
        enabled: req.enabled,
        created_at: now,
        updated_at,
    }
}

/// The row to insert for a create request, under a fresh random identifier
/// and stamped with the current time.
pub fn prepare_popup_insert(req: CreatePopupRequest) -> (p: LiveRoomPopup)
    ensures
        p == spec_new_popup(req, p.id, p.created_at),
        p.updated_at == p.created_at,
        p.live_room_id == req.live_room_id,
        p.product_id == req.product_id,
        p.product_name == req.product_name,
        p.product_image == req.product_image,
        p.product_price == req.product_price,
        p.original_price == req.original_price,
        p.popup_type == req.popup_type,
        p.title == req.title,
        p.description == req.description,
        p.action_url == req.action_url,
        p.sort_order == req.sort_order,
        p.enabled == req.enabled,
        is_uuid_v4_text(p.id@),
        is_utc_rfc3339(p.created_at@),
{
    let id = new_id();
    let now = now_rfc3339();
    new_popup(req, id, now)
}

/// The reply to a create request once the insert ran: 201 with the stored
/// popup, or 500.
pub fn create_popup_reply(inserted: Result<LiveRoomPopup, DbError>) -> (r: Reply<LiveRoomPopup>)
    ensures
        well_formed(r),
        match inserted {
            Ok(p) => is_success(r, 201, p),
            Err(e) => is_failure(r, 500, e.message@),
        },
{
    created_reply(inserted)
}

/// The listing of a live room's popups: by sort order, then newest first.
pub const POPUPS_OF_ROOM: &'static str = "SELECT * FROM live_room_popup WHERE live_room_id = ? ORDER BY sort_order ASC, created_at DESC";

/// The query listing the popups of the live room `q` names.
pub fn list_popups_query(q: ListPopupQuery) -> (r: SqlQuery)
    ensures
        r.sql@ == POPUPS_OF_ROOM@,
        string_views(r.binds@) == seq![q.live_room_id@],
        count_placeholders(r.sql@) == r.binds@.len(),
{
    proof {
        reveal_strlit("SELECT * FROM live_room_popup WHERE live_room_id = ? ORDER BY sort_order ASC, created_at DESC");
        lemma_count_one_inside(POPUPS_OF_ROOM@, 51);
    }
    let mut binds: Vec<String> = Vec::new();
    binds.push(q.live_room_id);
    proof {
        assert(string_views(binds@) =~= seq![q.live_room_id@]);
    }
    SqlQuery { sql: String::from_str(POPUPS_OF_ROOM), binds }
}

/// The reply to a listing of a live room's popups: 200 with the popups as
/// read, or 500.
pub fn list_popups_reply(listed: Result<Vec<LiveRoomPopup>, DbError>) -> (r: Reply<Vec<LiveRoomPopup>>)
    ensures
        well_formed(r),
        match listed {
            Ok(ps) => is_success(r, 200, ps),
            Err(e) => is_failure(r, 500, e.message@),
        },
{
    fetched_reply(listed)
}

/// The reply to a lookup of one popup: 200 with it, 404 "Popup not found", or
/// 500.
pub fn get_popup_reply(found: Result<Option<LiveRoomPopup>, DbError>) -> (r: Reply<LiveRoomPopup>)
    ensures
        well_formed(r),
        match found {
            Ok(Some(p)) => is_success(r, 200, p),
            Ok(None) => is_failure(r, 404, POPUP_NOT_FOUND@),
            Err(e) => is_failure(r, 500, e.message@),
        },
{
    found_reply(found, POPUP_NOT_FOUND)
}

/// The values an update writes to the popup `id`: every changeable field and
/// the change time.
#[derive(Debug)]
pub struct PopupUpdate {
    pub id: String,
    pub product_name: String,
    pub product_image: Option<String>,
    pub product_price: FloatBits,
    pub original_price: Option<FloatBits>,
    pub popup_type: String,
    pub title: Option<String>,
    pub description: Option<String>,
    pub action_url: Option<String>,
    pub sort_order: i32,
    pub enabled: bool,
    pub updated_at: String,
}

/// The values written when `req` changes the stored popup `existing` (stored
/// under `id`) at `now`: each field given in the request, the stored value of
/// every other.
pub open spec fn spec_merge_popup(
    id: String,
    existing: LiveRoomPopup,
    req: UpdatePopupRequest,
    now: String,
) -> PopupUpdate {
    PopupUpdate {
        id,
        product_name: req.product_name.unwrap_or(existing.product_name),
        product_image: or_keep(req.product_image, existing.product_image),
        product_price: req.product_price.unwrap_or(existing.product_price),
        original_price: or_keep(req.original_price, existing.original_price),
        popup_type: req.popup_type.unwrap_or(existing.popup_type),
        title: or_keep(req.title, existing.title),
        description: or_keep(req.description, existing.description),
        action_url: or_keep(req.action_url, existing.action_url),
        sort_order: req.sort_order.unwrap_or(existing.sort_order),
        enabled: req.enabled.unwrap_or(existing.enabled),
        updated_at: now,
    }
}

/// The values written when `req` changes the stored popup `existing` at
/// `now`.
pub fn merge_popup_update(id: String, existing: LiveRoomPopup, req: UpdatePopupRequest, now: String) -> (u:
    PopupUpdate)
    ensures
        u == spec_merge_popup(id, existing, req, now),
        u.id == id,
        u.updated_at == now,
        req.product_name matches Some(v) ==> u.product_name == v,
        req.product_name is None ==> u.product_name == existing.product_name,
        req.product_price matches Some(v) ==> u.product_price == v,
        req.product_price is None ==> u.product_price == existing.product_price,
        req.popup_type matches Some(v) ==> u.popup_type == v,
        req.popup_type is None ==> u.popup_type == existing.popup_type,
        req.sort_order matches Some(v) ==> u.sort_order == v,
        req.sort_order is None ==> u.sort_order == existing.sort_order,
        req.enabled matches Some(v) ==> u.enabled == v,
        req.enabled is None ==> u.enabled == existing.enabled,
        req.product_image matches Some(v) ==> u.product_image == Some(v),
        req.product_image is None ==> u.product_image == existing.product_image,
        req.original_price matches Some(v) ==> u.original_price == Some(v),
        req.original_price is None ==> u.original_price == existing.original_price,
        req.title matches Some(v) ==> u.title == Some(v),
        req.title is None ==> u.title == existing.title,
        req.description matches Some(v) ==> u.description == Some(v),
        req.description is None ==> u.description == existing.description,
        req.action_url matches Some(v) ==> u.action_url == Some(v),
        req.action_url is None ==> u.action_url == existing.action_url,
{
    PopupUpdate {
        id,
        product_name: req.product_name.unwrap_or(existing.product_name),
        product_image: either(req.product_image, existing.product_image),
        product_price: req.product_price.unwrap_or(existing.product_price),
        original_price: either(req.original_price, existing.original_price),
        popup_type: req.popup_type.unwrap_or(existing.popup_type),
        title: either(req.title, existing.title),
        description: either(req.description, existing.description),
        action_url: either(req.action_url, existing.action_url),
        sort_order: req.sort_order.unwrap_or(existing.sort_order),
        enabled: req.enabled.unwrap_or(existing.enabled),
        updated_at: now,
    }
}

/// The row the update `u` leaves in place of `row`: the written fields
/// replaced, identity, room, product and creation time kept.
pub open spec fn spec_apply_popup_update(row: LiveRoomPopup, u: PopupUpdate) -> LiveRoomPopup {
    LiveRoomPopup {
        product_name: u.product_name,
        product_image: u.product_image,
        product_price: u.product_price,
        original_price: u.original_price,
        popup_type: u.popup_type,
        title: u.title,
        description: u.description,
        action_url: u.action_url,
        sort_order: u.sort_order,
        enabled: u.enabled,
        updated_at: u.updated_at,
        ..row
    }
}

/// The step of an update once the stored popup was looked up: the values to
/// write, stamped with the current time, or the 404 / 500 reply.
pub fn update_popup_on_fetch(
    id: String,
    req: UpdatePopupRequest,
    fetched: Result<Option<LiveRoomPopup>, DbError>,
) -> (step: Result<PopupUpdate, Reply<LiveRoomPopup>>)
    ensures
        match fetched {
            Ok(Some(existing)) => step matches Ok(u) && u == spec_merge_popup(
                id,
                existing,
                req,
                u.updated_at,
            ) && is_utc_rfc3339(u.updated_at@),
            Ok(None) => step matches Err(r) && is_failure(r, 404, POPUP_NOT_FOUND@) && well_formed(r),
            Err(e) => step matches Err(r) && is_failure(r, 500, e.message@) && well_formed(r),
        },
{
    match fetched {
        Ok(Some(existing)) => {
            let now = now_rfc3339();
            Ok(merge_popup_update(id, existing, req, now))
        },
        Ok(None) => Err(not_found(POPUP_NOT_FOUND)),
        Err(e) => Err(internal_error(e)),
    }
}

/// The reply to an update once it ran: 200 with the stored popup, or 500.
pub fn update_popup_reply(updated: Result<LiveRoomPopup, DbError>) -> (r: Reply<LiveRoomPopup>)
    ensures
        well_formed(r),
        match updated {
            Ok(p) => is_success(r, 200, p),
            Err(e) => is_failure(r, 500, e.message@),
        },
{
    fetched_reply(updated)
}

/// The reply to a deletion given how many rows it removed: 200
/// `{"deleted": true}`, 404 "Popup not found", or 500.
pub fn delete_popup_reply(removed: Result<u64, DbError>) -> (r: Reply<Deleted>)
    ensures
        well_formed(r),
        match removed {
            Ok(n) => if n > 0 {
                is_success(r, 200, Deleted { deleted: true })
            } else {
                is_failure(r, 404, POPUP_NOT_FOUND@)
            },
            Err(e) => is_failure(r, 500, e.message@),
        },
{
    deleted_reply(removed, POPUP_NOT_FOUND)
}

/// Inserts a popup row and returns it as stored.
pub const INSERT_POPUP: &'static str = "INSERT INTO live_room_popup (id, live_room_id, product_id, product_name, product_image, product_price, original_price, popup_type, title, description, action_url, sort_order, enabled, created_at, updated_at) VALUES (?, ?, ?, ?, ?, ?, ?, ?, ?, ?, ?, ?, ?, ?, ?) RETURNING *";

/// The values bound when inserting the row `x`, in column order.
pub open spec fn popup_insert_params(x: LiveRoomPopup) -> Seq<Param> {
    seq![Param::Text(x.id), Param::Text(x.live_room_id), Param::Text(x.product_id), Param::Text(x.product_name), Param::MaybeText(x.product_image), Param::Real(x.product_price), Param::MaybeReal(x.original_price), Param::Text(x.popup_type), Param::MaybeText(x.title), Param::MaybeText(x.description), Param::MaybeText(x.action_url), Param::Int(x.sort_order), Param::Bool(x.enabled), Param::Text(x.created_at), Param::Text(x.updated_at)]
}

/// The statement inserting the row `x`, its columns bound in table order.
pub fn insert_popup_statement(x: LiveRoomPopup) -> (st: Statement)
    ensures
        st.sql@ == INSERT_POPUP@,
        st.params@ == popup_insert_params(x),
        count_placeholders(st.sql@) == st.params@.len(),
{
    proof {
        reveal_strlit("INSERT INTO live_room_popup (id, live_room_id, product_id, product_name, product_image, product_price, original_price, popup_type, title, description, action_url, sort_order, enabled, created_at, updated_at) VALUES (?, ?, ?, ?, ?, ?, ?, ?, ?, ?, ?, ?, ?, ?, ?) RETURNING *");
        lemma_count_at(INSERT_POPUP@, seq![216int, 219int, 222int, 225int, 228int, 231int, 234int, 237int, 240int, 243int, 246int, 249int, 252int, 255int, 258int]);
    }
    let ghost x0 = x;
    let mut params: Vec<Param> = Vec::new();
    params.push(Param::Text(x.id));
    params.push(Param::Text(x.live_room_id));
    params.push(Param::Text(x.product_id));
    params.push(Param::Text(x.product_name));
    params.push(Param::MaybeText(x.product_image));
    params.push(Param::Real(x.product_price));
    params.push(Param::MaybeReal(x.original_price));
    params.push(Param::Text(x.popup_type));
    params.push(Param::MaybeText(x.title));
    params.push(Param::MaybeText(x.description));
    params.push(Param::MaybeText(x.action_url));
    params.push(Param::Int(x.sort_order));
    params.push(Param::Bool(x.enabled));
    params.push(Param::Text(x.created_at));
    params.push(Param::Text(x.updated_at));
    proof {
        assert(params@ =~= popup_insert_params(x0));
    }
    Statement { sql: String::from_str(INSERT_POPUP), params }
}

/// Reads one popup by id.
pub const POPUP_BY_ID: &'static str = "SELECT * FROM live_room_popup WHERE id = ?";

/// The query reading the popup `id`.
pub fn popup_by_id_query(id: String) -> (r: SqlQuery)
    ensures
        r.sql@ == POPUP_BY_ID@,
        string_views(r.binds@) == seq![id@],
        count_placeholders(r.sql@) == r.binds@.len(),
{
    proof {
        reveal_strlit("SELECT * FROM live_room_popup WHERE id = ?");
        lemma_count_one_inside(POPUP_BY_ID@, 41);
    }
    single_value_query(POPUP_BY_ID, id)
}

/// Writes the changeable fields of one popup and returns it as stored.
pub const UPDATE_POPUP: &'static str = "UPDATE live_room_popup SET product_name = ?, product_image = ?, product_price = ?, original_price = ?, popup_type = ?, title = ?, description = ?, action_url = ?, sort_order = ?, enabled = ?, updated_at = ? WHERE id = ? RETURNING *";

/// The values bound when writing the update `x`.
pub open spec fn popup_update_params(x: PopupUpdate) -> Seq<Param> {
    seq![Param::Text(x.product_name), Param::MaybeText(x.product_image), Param::Real(x.product_price), Param::MaybeReal(x.original_price), Param::Text(x.popup_type), Param::MaybeText(x.title), Param::MaybeText(x.description), Param::MaybeText(x.action_url), Param::Int(x.sort_order), Param::Bool(x.enabled), Param::Text(x.updated_at), Param::Text(x.id)]
}

/// The statement writing the update `x`: its values in the order of the `SET` list, then the id.
pub fn update_popup_statement(x: PopupUpdate) -> (st: Statement)
    ensures
        st.sql@ == UPDATE_POPUP@,
        st.params@ == popup_update_params(x),
        count_placeholders(st.sql@) == st.params@.len(),
{
    proof {
        reveal_strlit("UPDATE live_room_popup SET product_name = ?, product_image = ?, product_price = ?, original_price = ?, popup_type = ?, title = ?, description = ?, action_url = ?, sort_order = ?, enabled = ?, updated_at = ? WHERE id = ? RETURNING *");
        lemma_count_at(UPDATE_POPUP@, seq![42int, 61int, 80int, 100int, 116int, 127int, 144int, 160int, 176int, 189int, 205int, 218int]);
    }
    let ghost x0 = x;
    let mut params: Vec<Param> = Vec::new();
    params.push(Param::Text(x.product_name));
    params.push(Param::MaybeText(x.product_image));
    params.push(Param::Real(x.product_price));
    params.push(Param::MaybeReal(x.original_price));
    params.push(Param::Text(x.popup_type));
    params.push(Param::MaybeText(x.title));
    params.push(Param::MaybeText(x.description));
    params.push(Param::MaybeText(x.action_url));
    params.push(Param::Int(x.sort_order));
    params.push(Param::Bool(x.enabled));
    params.push(Param::Text(x.updated_at));
    params.push(Param::Text(x.id));
    proof {
        assert(params@ =~= popup_update_params(x0));
    }
    Statement { sql: String::from_str(UPDATE_POPUP), params }
}

/// Removes one popup by id.
pub const DELETE_POPUP: &'static str = "DELETE FROM live_room_popup WHERE id = ?";

/// The statement removing the popup `id`.
pub fn delete_popup_query(id: String) -> (r: SqlQuery)
    ensures
        r.sql@ == DELETE_POPUP@,
        string_views(r.binds@) == seq![id@],
        count_placeholders(r.sql@) == r.binds@.len(),
{
    proof {
        reveal_strlit("DELETE FROM live_room_popup WHERE id = ?");
        lemma_count_one_inside(DELETE_POPUP@, 39);
    }
    single_value_query(DELETE_POPUP, id)
}

/// Asks whether a popup exists: `1` if it does, `0` if not.
pub const POPUP_EXISTS: &'static str = "SELECT EXISTS(SELECT 1 FROM live_room_popup WHERE id = ?)";

/// The query asking whether the popup `popup_id` exists.
pub fn popup_exists_query(popup_id: String) -> (r: SqlQuery)
    ensures
        r.sql@ == POPUP_EXISTS@,
        string_views(r.binds@) == seq![popup_id@],
        count_placeholders(r.sql@) == r.binds@.len(),
{
    proof {
        reveal_strlit("SELECT EXISTS(SELECT 1 FROM live_room_popup WHERE id = ?)");
        lemma_count_one_inside(POPUP_EXISTS@, 55);
    }
    single_value_query(POPUP_EXISTS, popup_id)
}

/// Each popup statement reads or writes what its name says: the listing
/// filters by live room and orders by sort order then newest first, and the
/// lookups, deletion and existence check act on the row with the given id.
pub proof fn lemma_popup_statements_say_what_they_do()
    ensures
        has_text(POPUPS_OF_ROOM@, "FROM live_room_popup WHERE live_room_id = ?"@),
        has_text(POPUPS_OF_ROOM@, "ORDER BY sort_order ASC, created_at DESC"@),
        has_text(POPUP_BY_ID@, "SELECT * FROM live_room_popup WHERE id = ?"@),
        has_text(DELETE_POPUP@, "DELETE FROM live_room_popup WHERE id = ?"@),
        has_text(POPUP_EXISTS@, "FROM live_room_popup WHERE id = ?"@),
        has_text(INSERT_POPUP@, "INSERT INTO live_room_popup"@),
        has_text(INSERT_POPUP@, "RETURNING *"@),
        has_text(UPDATE_POPUP@, "UPDATE live_room_popup SET"@),
        has_text(UPDATE_POPUP@, "WHERE id = ?"@),
{
    reveal_strlit("SELECT * FROM live_room_popup WHERE live_room_id = ? ORDER BY sort_order ASC, created_at DESC");
    reveal_strlit("SELECT * FROM live_room_popup WHERE id = ?");
    reveal_strlit("DELETE FROM live_room_popup WHERE id = ?");
    reveal_strlit("SELECT EXISTS(SELECT 1 FROM live_room_popup WHERE id = ?)");
    reveal_strlit("INSERT INTO live_room_popup (id, live_room_id, product_id, product_name, product_image, product_price, original_price, popup_type, title, description, action_url, sort_order, enabled, created_at, updated_at) VALUES (?, ?, ?, ?, ?, ?, ?, ?, ?, ?, ?, ?, ?, ?, ?) RETURNING *");
    reveal_strlit("UPDATE live_room_popup SET product_name = ?, product_image = ?, product_price = ?, original_price = ?, popup_type = ?, title = ?, description = ?, action_url = ?, sort_order = ?, enabled = ?, updated_at = ? WHERE id = ? RETURNING *");
    reveal_strlit("FROM live_room_popup WHERE live_room_id = ?");
    reveal_strlit("ORDER BY sort_order ASC, created_at DESC");
    reveal_strlit("SELECT * FROM live_room_popup WHERE id = ?");
    reveal_strlit("DELETE FROM live_room_popup WHERE id = ?");
    reveal_strlit("FROM live_room_popup WHERE id = ?");
    reveal_strlit("INSERT INTO live_room_popup");
    reveal_strlit("RETURNING *");
    reveal_strlit("UPDATE live_room_popup SET");
    reveal_strlit("WHERE id = ?");
    assert(POPUPS_OF_ROOM@.subrange(9, 9 + "FROM live_room_popup WHERE live_room_id = ?"@.len() as int) =~= "FROM live_room_popup WHERE live_room_id = ?"@);
    assert(POPUPS_OF_ROOM@.subrange(53, 53 + "ORDER BY sort_order ASC, created_at DESC"@.len() as int) =~= "ORDER BY sort_order ASC, created_at DESC"@);
    assert(POPUP_BY_ID@.subrange(0, 0 + "SELECT * FROM live_room_popup WHERE id = ?"@.len() as int) =~= "SELECT * FROM live_room_popup WHERE id = ?"@);
    assert(DELETE_POPUP@.subrange(0, 0 + "DELETE FROM live_room_popup WHERE id = ?"@.len() as int) =~= "DELETE FROM live_room_popup WHERE id = ?"@);
    assert(POPUP_EXISTS@.subrange(23, 23 + "FROM live_room_popup WHERE id = ?"@.len() as int) =~= "FROM live_room_popup WHERE id = ?"@);
    assert(INSERT_POPUP@.subrange(0, 0 + "INSERT INTO live_room_popup"@.len() as int) =~= "INSERT INTO live_room_popup"@);
    assert(INSERT_POPUP@.subrange(261, 261 + "RETURNING *"@.len() as int) =~= "RETURNING *"@);
    assert(UPDATE_POPUP@.subrange(0, 0 + "UPDATE live_room_popup SET"@.len() as int) =~= "UPDATE live_room_popup SET"@);
    assert(UPDATE_POPUP@.subrange(207, 207 + "WHERE id = ?"@.len() as int) =~= "WHERE id = ?"@);
}

/// Inserting a popup binds its fields in the order of the column list.
pub proof fn lemma_popup_insert_binds_columns(x: LiveRoomPopup)
    ensures
        popup_insert_params(x).len() == 15,
        popup_insert_params(x)[0] == Param::Text(x.id),
        popup_insert_params(x)[1] == Param::Text(x.live_room_id),
        popup_insert_params(x)[2] == Param::Text(x.product_id),
        popup_insert_params(x)[3] == Param::Text(x.product_name),
        popup_insert_params(x)[4] == Param::MaybeText(x.product_image),
        popup_insert_params(x)[5] == Param::Real(x.product_price),
        popup_insert_params(x)[6] == Param::MaybeReal(x.original_price),
        popup_insert_params(x)[7] == Param::Text(x.popup_type),
        popup_insert_params(x)[8] == Param::MaybeText(x.title),
        popup_insert_params(x)[9] == Param::MaybeText(x.description),
        popup_insert_params(x)[10] == Param::MaybeText(x.action_url),
        popup_insert_params(x)[11] == Param::Int(x.sort_order),
        popup_insert_params(x)[12] == Param::Bool(x.enabled),
        popup_insert_params(x)[13] == Param::Text(x.created_at),
        popup_insert_params(x)[14] == Param::Text(x.updated_at),
{
}

/// Writing a popup update binds its values in the order of the `SET` list,
/// then the id of the row it writes.
pub proof fn lemma_popup_update_binds_columns(x: PopupUpdate)
    ensures
        popup_update_params(x).len() == 12,
        popup_update_params(x)[0] == Param::Text(x.product_name),
        popup_update_params(x)[1] == Param::MaybeText(x.product_image),
        popup_update_params(x)[2] == Param::Real(x.product_price),
        popup_update_params(x)[3] == Param::MaybeReal(x.original_price),
        popup_update_params(x)[4] == Param::Text(x.popup_type),
        popup_update_params(x)[5] == Param::MaybeText(x.title),
        popup_update_params(x)[6] == Param::MaybeText(x.description),
        popup_update_params(x)[7] == Param::MaybeText(x.action_url),
        popup_update_params(x)[8] == Param::Int(x.sort_order),
        popup_update_params(x)[9] == Param::Bool(x.enabled),
        popup_update_params(x)[10] == Param::Text(x.updated_at),
        popup_update_params(x)[11] == Param::Text(x.id),
{
}

/// A new popup row carries the request's fields, the given id, and the given
/// time as both creation and change time.
pub proof fn lemma_new_popup_row(req: CreatePopupRequest, id: String, now: String)
    ensures
        ({
            let p = spec_new_popup(req, id, now);
            &&& p.id == id
            &&& p.created_at == now
            &&& p.updated_at == now
            &&& p.live_room_id == req.live_room_id
            &&& p.product_id == req.product_id
            &&& p.product_name == req.product_name
            &&& p.product_image == req.product_image
            &&& p.product_price == req.product_price
            &&& p.original_price == req.original_price
            &&& p.popup_type == req.popup_type
            &&& p.title == req.title
            &&& p.description == req.description
            &&& p.action_url == req.action_url
            &&& p.sort_order == req.sort_order
            &&& p.enabled == req.enabled
        }),
{
}

/// An update request that gives no field.
pub open spec fn is_empty_popup_update(req: UpdatePopupRequest) -> bool {
    &&& req.product_name is None
    &&& req.product_image is None
    &&& req.product_price is None
    &&& req.original_price is None
    &&& req.popup_type is None
    &&& req.title is None
    &&& req.description is None
    &&& req.action_url is None
    &&& req.sort_order is None
    &&& req.enabled is None
}

/// An update that gives no field leaves the stored popup as it was, except
/// for its change time.
pub proof fn lemma_empty_popup_update_keeps_row(existing: LiveRoomPopup, req: UpdatePopupRequest, now: String)
    requires
        is_empty_popup_update(req),
    ensures
        spec_apply_popup_update(existing, spec_merge_popup(existing.id, existing, req, now))
            == (LiveRoomPopup { updated_at: now, ..existing }),
{
}

/// Sending the same update twice leaves the popup as sending it once, except
/// for the change time.
pub proof fn lemma_popup_update_idempotent(
    existing: LiveRoomPopup,
    req: UpdatePopupRequest,
    now1: String,
    now2: String,
)
    ensures
        ({
            let once = spec_apply_popup_update(existing, spec_merge_popup(existing.id, existing, req, now1));
            let twice = spec_apply_popup_update(once, spec_merge_popup(once.id, once, req, now2));
            twice == (LiveRoomPopup { updated_at: now2, ..once })
        }),
{
}

/// An update writes every field it gives, keeps the stored value of every
/// field it leaves out, keeps the popup's identity, room, product and
/// creation time, and never removes an optional value that was stored: a field
/// sent as absent means "keep", not "clear".
pub proof fn lemma_popup_update_fields(existing: LiveRoomPopup, req: UpdatePopupRequest, now: String)
    ensures
        ({
            let after = spec_apply_popup_update(existing, spec_merge_popup(existing.id, existing, req, now));
            &&& after.id == existing.id
            &&& after.live_room_id == existing.live_room_id
            &&& after.product_id == existing.product_id
            &&& after.created_at == existing.created_at
            &&& after.updated_at == now
            &&& (req.product_name matches Some(v) ==> after.product_name == v)
            &&& (req.product_image matches Some(v) ==> after.product_image == Some(v))
            &&& (req.product_price matches Some(v) ==> after.product_price == v)
            &&& (req.original_price matches Some(v) ==> after.original_price == Some(v))
            &&& (req.popup_type matches Some(v) ==> after.popup_type == v)
            &&& (req.title matches Some(v) ==> after.title == Some(v))
            &&& (req.description matches Some(v) ==> after.description == Some(v))
            &&& (req.action_url matches Some(v) ==> after.action_url == Some(v))
            &&& (req.sort_order matches Some(v) ==> after.sort_order == v)
            &&& (req.enabled matches Some(v) ==> after.enabled == v)
            &&& (req.product_name is None ==> after.product_name == existing.product_name)
            &&& (req.product_price is None ==> after.product_price == existing.product_price)
            &&& (req.popup_type is None ==> after.popup_type == existing.popup_type)
            &&& (req.sort_order is None ==> after.sort_order == existing.sort_order)
            &&& (req.enabled is None ==> after.enabled == existing.enabled)
            &&& (req.product_image is None ==> after.product_image == existing.product_image)
            &&& (req.original_price is None ==> after.original_price == existing.original_price)
            &&& (req.title is None ==> after.title == existing.title)
            &&& (req.description is None ==> after.description == existing.description)
            &&& (req.action_url is None ==> after.action_url == existing.action_url)
            &&& (existing.product_image is Some ==> after.product_image is Some)
            &&& (existing.original_price is Some ==> after.original_price is Some)
            &&& (existing.title is Some ==> after.title is Some)
            &&& (existing.description is Some ==> after.description is Some)
            &&& (existing.action_url is Some ==> after.action_url is Some)
        }),
{
}

} // verus!
