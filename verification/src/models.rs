use vstd::prelude::*;

verus! {

/// A double-precision number carried through the library by its IEEE-754 bit
/// pattern. Prices and ratios computed by the database are never inspected
/// here, only moved from a stored row to a reply.
#[derive(Clone, Copy, Debug, PartialEq, Eq, Structural)]
pub struct FloatBits {
    pub bits: u64,
}

/// A popup card shown in a live room.
#[derive(Debug)]
pub struct LiveRoomPopup {
    pub id: String,
    pub live_room_id: String,
    pub product_id: String,
    pub product_name: String,
    pub product_image: Option<String>,
    pub product_price: FloatBits,
    pub original_price: Option<FloatBits>,
    pub popup_type: String,
    pub title: Option<String>,
    pub description: Option<String>,
    pub action_url: Option<String>,
    pub sort_order: i32,
    pub enabled: bool,
    pub created_at: String,
    pub updated_at: String,
}

/// The body of a request that creates a popup.
#[derive(Debug)]
pub struct CreatePopupRequest {
    pub live_room_id: String,
    pub product_id: String,
    pub product_name: String,
    pub product_image: Option<String>,
    pub product_price: FloatBits,
    pub original_price: Option<FloatBits>,
    pub popup_type: String,
    pub title: Option<String>,
    pub description: Option<String>,
    pub action_url: Option<String>,
    pub sort_order: i32,
    pub enabled: bool,
}

/// The body of a request that changes a popup; an absent field keeps the
/// stored value.
#[derive(Debug)]
pub struct UpdatePopupRequest {
    pub product_name: Option<String>,
    pub product_image: Option<String>,
    pub product_price: Option<FloatBits>,
    pub original_price: Option<FloatBits>,
    pub popup_type: Option<String>,
    pub title: Option<String>,
    pub description: Option<String>,
    pub action_url: Option<String>,
    pub sort_order: Option<i32>,
    pub enabled: Option<bool>,
}

/// When and how a popup is displayed.
#[derive(Debug)]
pub struct PopupDisplaySchedule {
    pub id: String,
    pub popup_id: String,
    pub live_room_id: String,
    pub start_time: String,
    pub end_time: String,
    pub repeat_mode: String,
    pub repeat_interval_secs: Option<i32>,
    pub display_duration_secs: i32,
    pub enabled: bool,
    pub created_at: String,
    pub updated_at: String,
}

/// The body of a request that creates a schedule.
#[derive(Debug)]
pub struct CreateScheduleRequest {
    pub popup_id: String,
    pub live_room_id: String,
    pub start_time: String,
    pub end_time: String,
    pub repeat_mode: String,
    pub repeat_interval_secs: Option<i32>,
    pub display_duration_secs: i32,
    pub enabled: bool,
}

/// The body of a request that changes a schedule; an absent field keeps the
/// stored value.
#[derive(Debug)]
pub struct UpdateScheduleRequest {
    pub start_time: Option<String>,
    pub end_time: Option<String>,
    pub repeat_mode: Option<String>,
    pub repeat_interval_secs: Option<i32>,
    pub display_duration_secs: Option<i32>,
    pub enabled: Option<bool>,
}

/// One schedule that overlaps another.
#[derive(Debug)]
pub struct ScheduleConflictInfo {
    pub conflicting_schedule_id: String,
    pub popup_id: String,
    pub popup_name: String,
    pub start_time: String,
    pub end_time: String,
}

/// A report of overlapping schedules.
#[derive(Debug)]
pub struct ScheduleConflictError {
    pub message: String,
    pub conflicts: Vec<ScheduleConflictInfo>,
}

/// The body of an impression or click event.
#[derive(Debug)]
pub struct TrackEventRequest {
    pub popup_id: String,
    pub live_room_id: String,
}

/// What an impression or click event is answered with: the popup's total
/// count of that event after it was recorded.
#[derive(Debug)]
pub struct TrackEventResult {
    pub popup_id: String,
    pub event_type: String,
    pub total_count: i64,
}

/// A click-through rate, `clicks * 100 / impressions` percent, kept as the
/// two counts it is made of. `impressions` is positive.
#[derive(Clone, Copy, Debug, PartialEq, Eq, Structural)]
pub struct CtrRatio {
    pub clicks: i64,
    pub impressions: i64,
}

/// The running totals of one popup.
#[derive(Debug)]
pub struct PopupStatsSummary {
    pub popup_id: String,
    pub live_room_id: String,
    pub impression_count: i64,
    pub click_count: i64,
    pub ctr: Option<CtrRatio>,
    pub last_impression_at: Option<String>,
    pub last_click_at: Option<String>,
    pub updated_at: String,
}

/// The totals of one popup on one day.
#[derive(Debug)]
pub struct PopupStatsDaily {
    pub popup_id: String,
    pub live_room_id: String,
    pub stat_date: String,
    pub impression_count: i64,
    pub click_count: i64,
    pub ctr: Option<CtrRatio>,
    pub updated_at: String,
}

/// A popup of a live room together with its totals; the rate is the one the
/// database computed.
#[derive(Debug)]
pub struct LiveRoomPopupStatsRow {
    pub id: String,
    pub live_room_id: String,
    pub product_id: String,
    pub product_name: String,
    pub product_image: Option<String>,
    pub product_price: FloatBits,
    pub original_price: Option<FloatBits>,
    pub popup_type: String,
    pub title: Option<String>,
    pub description: Option<String>,
    pub action_url: Option<String>,
    pub sort_order: i32,
    pub enabled: bool,
    pub impression_count: i64,
    pub click_count: i64,
    pub ctr: Option<FloatBits>,
}

/// The query string of a daily statistics listing.
#[derive(Debug)]
pub struct DailyStatsQuery {
    pub popup_id: Option<String>,
    pub live_room_id: Option<String>,
    pub start_date: Option<String>,
    pub end_date: Option<String>,
}

/// The envelope of every reply body: `code` 0 and `data` present on success,
/// an error code and no `data` otherwise.
#[derive(Debug)]
pub struct ApiResponse<T> {
    pub code: i32,
    pub message: String,
    pub data: Option<T>,
}

impl<T> ApiResponse<T> {
    /// A successful envelope around `data`.
    pub fn success(data: T) -> (r: Self)
        ensures
            r.code == 0,
            r.message@ == "success"@,
            r.data == Some(data),
    {
        ApiResponse { code: 0, message: String::from_str("success"), data: Some(data) }
    }

    /// A failed envelope with the given code and message.
    pub fn error(code: i32, message: String) -> (r: Self)
        ensures
            r.code == code,
            r.message == message,
            r.data is None,
    {
        ApiResponse { code, message, data: None }
    }
}

/// The popup type of a popup created without one.
pub fn default_popup_type() -> (s: String)
    ensures
        s@ == "product_card"@,
{
    String::from_str("product_card")
}

/// The repeat mode of a schedule created without one.
pub fn default_repeat_mode() -> (s: String)
    ensures
        s@ == "once"@,
{
    String::from_str("once")
}

/// The display duration, in seconds, of a schedule created without one.
pub fn default_display_duration() -> (d: i32)
    ensures
        d == 10,
{
    10
}

/// Whether a popup or schedule created without saying so is enabled.
pub fn default_enabled() -> (b: bool)
    ensures
        b,
{
    true
}

} // verus!
