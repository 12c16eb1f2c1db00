//! The statements of the repository whose text depends on their arguments:
//! the update of a reminder, and the query of the log.

use crate::models::reminder::{CreateReminderRequest, RemindType, UpdateReminderRequest};
use crate::models::reminder_log::LogAction;
use crate::storage::codec::{
    days_json, format_rfc3339, is_plain, optional_plain, optional_rfc3339_text, optional_writable,
    rfc3339_text, writable, write_json_days,
};
use crate::text::{append_decimal, decimal_text};
use crate::time::Timestamp;
use vstd::prelude::*;
use vstd::string::*;

verus! {

/// A value bound to a placeholder of a statement.
#[derive(Debug, Clone, PartialEq, Eq)]
pub enum SqlValue {
    Null,
    Integer(i64),
    Text(String),
}

/// A bound value with its text as a sequence of characters.
pub enum SqlValueView {
    Null,
    Integer(i64),
    Text(Seq<char>),
}

impl View for SqlValue {
    type V = SqlValueView;

    open spec fn view(&self) -> SqlValueView {
        match *self {
            SqlValue::Null => SqlValueView::Null,
            SqlValue::Integer(i) => SqlValueView::Integer(i),
            SqlValue::Text(text) => SqlValueView::Text(text@),
        }
    }
}

/// A list of bound values, each by its view.
pub open spec fn value_views(values: Seq<SqlValue>) -> Seq<SqlValueView> {
    values.map_values(|v: SqlValue| v@)
}

/// A statement: its text, and the values of its placeholders in order.
#[derive(Debug, Clone, PartialEq, Eq)]
pub struct Statement {
    pub sql: String,
    pub params: Vec<SqlValue>,
}

/// A piece of text that is there or not.
#[verifier::opaque]
pub open spec fn part(present: bool, text: Seq<char>) -> Seq<char> {
    if present {
        text
    } else {
        Seq::<char>::empty()
    }
}

/// An optional string as an optional sequence of characters.
pub open spec fn optional_text(text: Option<String>) -> Option<Seq<char>> {
    match text {
        Some(t) => Some(t@),
        None => None,
    }
}

/// An optional slice as an optional sequence of characters.
pub open spec fn slice_view(text: Option<&str>) -> Option<Seq<char>> {
    match text {
        Some(t) => Some(t@),
        None => None,
    }
}

/// The value of an optional text.
#[verifier::opaque]
pub open spec fn text_value(text: Option<Seq<char>>) -> Seq<SqlValueView> {
    match text {
        Some(t) => seq![SqlValueView::Text(t)],
        None => Seq::<SqlValueView>::empty(),
    }
}

/// The value of an optional number.
#[verifier::opaque]
pub open spec fn number_value(number: Option<i32>) -> Seq<SqlValueView> {
    match number {
        Some(n) => seq![SqlValueView::Integer(n as i64)],
        None => Seq::<SqlValueView>::empty(),
    }
}

/// The value of an optional flag: 1 for a flag that is set, else 0.
#[verifier::opaque]
pub open spec fn flag_value(flag: Option<bool>) -> Seq<SqlValueView> {
    match flag {
        Some(b) => seq![SqlValueView::Integer(if b { 1i64 } else { 0i64 })],
        None => Seq::<SqlValueView>::empty(),
    }
}

/// The value of an optional kind of recurrence: its name.
#[verifier::opaque]
pub open spec fn kind_value(kind: Option<RemindType>) -> Seq<SqlValueView> {
    match kind {
        Some(k) => seq![SqlValueView::Text(k.name())],
        None => Seq::<SqlValueView>::empty(),
    }
}

fn append_if(sql: &mut String, present: bool, text: &str)
    ensures
        final(sql)@ == old(sql)@ + part(present, text@),
{
    reveal(part);
    if present {
        sql.append(text);
    } else {
        assert(sql@ =~= sql@ + part(present, text@));
    }
}

fn push_text(params: &mut Vec<SqlValue>, text: &Option<String>)
    ensures
        value_views(final(params)@) == value_views(old(params)@) + text_value(
            optional_text(*text),
        ),
{
    reveal(text_value);
    if let Some(t) = text {
        params.push(SqlValue::Text(t.clone()));
    }
    assert(value_views(params@) =~= value_views(old(params)@) + text_value(optional_text(*text)));
}

fn push_slice(params: &mut Vec<SqlValue>, text: Option<&str>)
    ensures
        value_views(final(params)@) == value_views(old(params)@) + text_value(slice_view(text)),
{
    reveal(text_value);
    if let Some(t) = text {
        params.push(SqlValue::Text(String::from_str(t)));
    }
    assert(value_views(params@) =~= value_views(old(params)@) + text_value(slice_view(text)));
}

fn push_number(params: &mut Vec<SqlValue>, number: Option<i32>)
    ensures
        value_views(final(params)@) == value_views(old(params)@) + number_value(number),
{
    reveal(number_value);
    if let Some(n) = number {
        params.push(SqlValue::Integer(n as i64));
    }
    assert(value_views(params@) =~= value_views(old(params)@) + number_value(number));
}

fn push_flag(params: &mut Vec<SqlValue>, flag: Option<bool>)
    ensures
        value_views(final(params)@) == value_views(old(params)@) + flag_value(flag),
{
    reveal(flag_value);
    if let Some(b) = flag {
        params.push(SqlValue::Integer(if b { 1 } else { 0 }));
    }
    assert(value_views(params@) =~= value_views(old(params)@) + flag_value(flag));
}

fn push_kind(params: &mut Vec<SqlValue>, kind: Option<RemindType>)
    ensures
        value_views(final(params)@) == value_views(old(params)@) + kind_value(kind),
{
    reveal(kind_value);
    if let Some(k) = kind {
        params.push(SqlValue::Text(String::from_str(k.as_str())));
    }
    assert(value_views(params@) =~= value_views(old(params)@) + kind_value(kind));
}

/// The text of the update of a reminder: the columns that are always set,
/// then one assignment for each field that the request carries, in the order
/// of the fields; a new time of day also clears the instant of the last
/// firing, so that the reminder can fire at its new time.
pub open spec fn update_sql(
    request: UpdateReminderRequest,
    has_links: bool,
    has_weekdays: bool,
    has_monthdays: bool,
) -> Seq<char> {
    "UPDATE reminders SET updated_at = ?, version = version + 1, sync_status = 'pending'"@ + part(
        request.title is Some,
        ", title = ?"@,
    ) + part(request.content is Some, ", content = ?"@) + part(has_links, ", links = ?"@) + part(
        request.remind_time is Some,
        ", remind_time = ?, last_triggered_at = NULL"@,
    ) + part(request.remind_type is Some, ", remind_type = ?"@) + part(
        has_weekdays,
        ", weekdays = ?"@,
    ) + part(has_monthdays, ", monthdays = ?"@) + part(
        request.is_enabled is Some,
        ", is_enabled = ?"@,
    ) + part(request.repeat_on_close is Some, ", repeat_on_close = ?"@) + part(
        request.repeat_interval is Some,
        ", repeat_interval = ?"@,
    ) + part(request.is_loop is Some, ", is_loop = ?"@) + part(
        request.loop_interval is Some,
        ", loop_interval = ?"@,
    ) + part(request.notify_on_trigger is Some, ", notify_on_trigger = ?"@) + part(
        request.notify_on_complete is Some,
        ", notify_on_complete = ?"@,
    ) + part(request.notify_on_timeout is Some, ", notify_on_timeout = ?"@) + part(
        request.timeout_minutes is Some,
        ", timeout_minutes = ?"@,
    ) + part(request.sort_order is Some, ", sort_order = ?"@)
        + " WHERE uuid = ? AND deleted_at IS NULL"@
}

/// The values of the update of a reminder, in the order of its
/// placeholders: the instant of the update, the value of each field that
/// the request carries, and the id of the reminder.
pub open spec fn update_values(
    request: UpdateReminderRequest,
    links_json: Option<Seq<char>>,
    weekdays_json: Option<Seq<char>>,
    monthdays_json: Option<Seq<char>>,
    now_text: Seq<char>,
) -> Seq<SqlValueView> {
    seq![SqlValueView::Text(now_text)] + text_value(optional_text(request.title)) + text_value(
        optional_text(request.content),
    ) + text_value(links_json) + text_value(optional_text(request.remind_time)) + kind_value(
        request.remind_type,
    ) + text_value(weekdays_json) + text_value(monthdays_json) + flag_value(request.is_enabled)
        + flag_value(request.repeat_on_close) + number_value(request.repeat_interval) + flag_value(
        request.is_loop,
    ) + number_value(request.loop_interval) + flag_value(request.notify_on_trigger) + flag_value(
        request.notify_on_complete,
    ) + flag_value(request.notify_on_timeout) + number_value(request.timeout_minutes)
        + number_value(request.sort_order) + seq![SqlValueView::Text(request.uuid@)]
}

fn update_text(
    request: &UpdateReminderRequest,
    has_links: bool,
    has_weekdays: bool,
    has_monthdays: bool,
) -> (sql: String)
    ensures
        sql@ == update_sql(*request, has_links, has_weekdays, has_monthdays),
{
    let mut sql = String::from_str(
        "UPDATE reminders SET updated_at = ?, version = version + 1, sync_status = 'pending'",
    );
    append_if(&mut sql, request.title.is_some(), ", title = ?");
    append_if(&mut sql, request.content.is_some(), ", content = ?");
    append_if(&mut sql, has_links, ", links = ?");
    append_if(
        &mut sql,
        request.remind_time.is_some(),
        ", remind_time = ?, last_triggered_at = NULL",
    );
    append_if(&mut sql, request.remind_type.is_some(), ", remind_type = ?");
    append_if(&mut sql, has_weekdays, ", weekdays = ?");
    append_if(&mut sql, has_monthdays, ", monthdays = ?");
    append_if(&mut sql, request.is_enabled.is_some(), ", is_enabled = ?");
    append_if(&mut sql, request.repeat_on_close.is_some(), ", repeat_on_close = ?");
    append_if(&mut sql, request.repeat_interval.is_some(), ", repeat_interval = ?");
    append_if(&mut sql, request.is_loop.is_some(), ", is_loop = ?");
    append_if(&mut sql, request.loop_interval.is_some(), ", loop_interval = ?");
    append_if(&mut sql, request.notify_on_trigger.is_some(), ", notify_on_trigger = ?");
    append_if(&mut sql, request.notify_on_complete.is_some(), ", notify_on_complete = ?");
    append_if(&mut sql, request.notify_on_timeout.is_some(), ", notify_on_timeout = ?");
    append_if(&mut sql, request.timeout_minutes.is_some(), ", timeout_minutes = ?");
    append_if(&mut sql, request.sort_order.is_some(), ", sort_order = ?");
    sql.append(" WHERE uuid = ? AND deleted_at IS NULL");
    sql
}

fn push_first(params: &mut Vec<SqlValue>, text: &str)
    requires
        old(params)@.len() == 0,
    ensures
        value_views(final(params)@) == seq![SqlValueView::Text(text@)],
{
    params.push(SqlValue::Text(String::from_str(text)));
    assert(value_views(params@) =~= seq![SqlValueView::Text(text@)]);
}

fn push_last(params: &mut Vec<SqlValue>, text: &String)
    ensures
        value_views(final(params)@) == value_views(old(params)@) + seq![
            SqlValueView::Text(text@),
        ],
{
    params.push(SqlValue::Text(text.clone()));
    assert(value_views(params@) =~= value_views(old(params)@) + seq![SqlValueView::Text(text@)]);
}

fn update_params(
    request: &UpdateReminderRequest,
    links_json: Option<&str>,
    weekdays_json: Option<&str>,
    monthdays_json: Option<&str>,
    now_text: &str,
) -> (params: Vec<SqlValue>)
    ensures
        value_views(params@) == update_values(
            *request,
            slice_view(links_json),
            slice_view(weekdays_json),
            slice_view(monthdays_json),
            now_text@,
        ),
{
    let mut params: Vec<SqlValue> = Vec::new();
    push_first(&mut params, now_text);
    push_text(&mut params, &request.title);
    push_text(&mut params, &request.content);
    push_slice(&mut params, links_json);
    push_text(&mut params, &request.remind_time);
    push_kind(&mut params, request.remind_type);
    push_slice(&mut params, weekdays_json);
    push_slice(&mut params, monthdays_json);
    push_flag(&mut params, request.is_enabled);
    push_flag(&mut params, request.repeat_on_close);
    push_number(&mut params, request.repeat_interval);
    push_flag(&mut params, request.is_loop);
    push_number(&mut params, request.loop_interval);
    push_flag(&mut params, request.notify_on_trigger);
    push_flag(&mut params, request.notify_on_complete);
    push_flag(&mut params, request.notify_on_timeout);
    push_number(&mut params, request.timeout_minutes);
    push_number(&mut params, request.sort_order);
    push_last(&mut params, &request.uuid);
    params
}

/// The update of a reminder, given the texts of what is stored as text: the
/// links and the lists of days as JSON, where the request carries them, and
/// the instant of the update.
pub fn update_statement(
    request: &UpdateReminderRequest,
    links_json: Option<&str>,
    weekdays_json: Option<&str>,
    monthdays_json: Option<&str>,
    now_text: &str,
) -> (statement: Statement)
    ensures
        statement.sql@ == update_sql(
            *request,
            links_json is Some,
            weekdays_json is Some,
            monthdays_json is Some,
        ),
        value_views(statement.params@) == update_values(
            *request,
            slice_view(links_json),
            slice_view(weekdays_json),
            slice_view(monthdays_json),
            now_text@,
        ),
{
    let sql = update_text(
        request,
        links_json.is_some(),
        weekdays_json.is_some(),
        monthdays_json.is_some(),
    );
    let params = update_params(request, links_json, weekdays_json, monthdays_json, now_text);
    Statement { sql, params }
}

/// The JSON of an optional list of days.
pub open spec fn optional_days_json(days: Option<Vec<u8>>) -> Option<Seq<char>> {
    match days {
        Some(list) => Some(days_json(list@)),
        None => None,
    }
}

/// The update of a reminder at the instant `now`. `links_json` is the JSON
/// of the links, which the host writes where the request carries links. The
/// lists of days and the instant are written here. There is a statement
/// exactly where the instant can be written, as every instant can that a
/// clock gives.
pub fn update(request: &UpdateReminderRequest, links_json: Option<&str>, now: &Timestamp) -> (r:
    Option<Statement>)
    ensures
        r is Some <==> writable(*now),
        is_plain(*now) ==> r is Some,
        r matches Some(statement) ==> {
            &&& rfc3339_text(now.secs, now.nanos) matches Some(now_text)
            &&& statement.sql@ == update_sql(
                *request,
                links_json is Some,
                request.weekdays is Some,
                request.monthdays is Some,
            )
            &&& value_views(statement.params@) == update_values(
                *request,
                slice_view(links_json),
                optional_days_json(request.weekdays),
                optional_days_json(request.monthdays),
                now_text,
            )
        },
{
    let now_text = match format_rfc3339(now.secs, now.nanos) {
        Some(text) => text,
        None => { return None; },
    };
    let weekdays: Option<String> = match &request.weekdays {
        Some(days) => match write_json_days(days) {
            Some(json) => Some(json),
            None => { return None; },
        },
        None => None,
    };
    let monthdays: Option<String> = match &request.monthdays {
        Some(days) => match write_json_days(days) {
            Some(json) => Some(json),
            None => { return None; },
        },
        None => None,
    };
    let weekdays_json: Option<&str> = match &weekdays {
        Some(json) => Some(json.as_str()),
        None => None,
    };
    let monthdays_json: Option<&str> = match &monthdays {
        Some(json) => Some(json.as_str()),
        None => None,
    };
    let statement = update_statement(
        request,
        links_json,
        weekdays_json,
        monthdays_json,
        now_text.as_str(),
    );
    proof {
        assert(slice_view(weekdays_json) == optional_days_json(request.weekdays));
        assert(slice_view(monthdays_json) == optional_days_json(request.monthdays));
    }
    Some(statement)
}

/// An optional text as a value: null where it is absent.
pub open spec fn nullable_text(text: Option<Seq<char>>) -> SqlValueView {
    match text {
        Some(t) => SqlValueView::Text(t),
        None => SqlValueView::Null,
    }
}

/// An optional number as a value: null where it is absent.
pub open spec fn nullable_number(number: Option<i32>) -> SqlValueView {
    match number {
        Some(n) => SqlValueView::Integer(n as i64),
        None => SqlValueView::Null,
    }
}

/// A flag as a value: 1 where it is set, and 0 where it is not or is absent.
pub open spec fn flag_or_unset(flag: Option<bool>) -> SqlValueView {
    SqlValueView::Integer(if flag == Some(true) { 1i64 } else { 0i64 })
}

fn text_or_null(text: Option<&str>) -> (v: SqlValue)
    ensures
        v@ == nullable_text(slice_view(text)),
{
    match text {
        Some(t) => SqlValue::Text(String::from_str(t)),
        None => SqlValue::Null,
    }
}

fn number_or_null(number: Option<i32>) -> (v: SqlValue)
    ensures
        v@ == nullable_number(number),
{
    match number {
        Some(n) => SqlValue::Integer(n as i64),
        None => SqlValue::Null,
    }
}

fn flag_or_zero(flag: Option<bool>) -> (v: SqlValue)
    ensures
        v@ == flag_or_unset(flag),
{
    match flag {
        Some(true) => SqlValue::Integer(1),
        _ => SqlValue::Integer(0),
    }
}

fn push_value(params: &mut Vec<SqlValue>, value: SqlValue)
    ensures
        value_views(final(params)@) == value_views(old(params)@).push(value@),
{
    params.push(value);
    assert(value_views(params@) =~= value_views(old(params)@).push(value@));
}

/// The text of the insertion of a reminder. A new reminder is enabled, comes
/// first in the order, and has version 1.
pub open spec fn create_sql() -> Seq<char> {
    "INSERT INTO reminders (uuid, title, content, links, remind_time, remind_type, weekdays, monthdays, is_enabled, repeat_on_close, repeat_interval, is_loop, loop_interval, notify_on_trigger, notify_on_complete, notify_on_timeout, timeout_minutes, sort_order, created_at, updated_at, version, sync_status) VALUES (?, ?, ?, ?, ?, ?, ?, ?, 1, ?, ?, ?, ?, ?, ?, ?, ?, 0, ?, ?, 1, 'pending')"@
}

/// The content of a new reminder: that of the request, and empty where it
/// carries none.
pub open spec fn content_or_empty(content: Option<String>) -> Seq<char> {
    match content {
        Some(c) => c@,
        None => Seq::<char>::empty(),
    }
}

/// The kind of a new reminder: that of the request, and daily where it
/// carries none.
pub open spec fn kind_or_daily(kind: Option<RemindType>) -> RemindType {
    match kind {
        Some(k) => k,
        None => RemindType::Daily,
    }
}

/// The values of the insertion of a reminder, in the order of its
/// placeholders. What the request does not carry is stored as null, but for
/// the content, the kind and the flags, which have defaults.
pub open spec fn create_values(
    request: CreateReminderRequest,
    uuid: Seq<char>,
    links_json: Option<Seq<char>>,
    weekdays_json: Option<Seq<char>>,
    monthdays_json: Option<Seq<char>>,
    now_text: Seq<char>,
) -> Seq<SqlValueView> {
    seq![
        SqlValueView::Text(uuid),
        SqlValueView::Text(request.title@),
        SqlValueView::Text(content_or_empty(request.content)),
        nullable_text(links_json),
        SqlValueView::Text(request.remind_time@),
        SqlValueView::Text(kind_or_daily(request.remind_type).name()),
        nullable_text(weekdays_json),
        nullable_text(monthdays_json),
        flag_or_unset(request.repeat_on_close),
        nullable_number(request.repeat_interval),
        flag_or_unset(request.is_loop),
        nullable_number(request.loop_interval),
        flag_or_unset(request.notify_on_trigger),
        flag_or_unset(request.notify_on_complete),
        flag_or_unset(request.notify_on_timeout),
        nullable_number(request.timeout_minutes),
        SqlValueView::Text(now_text),
        SqlValueView::Text(now_text),
    ]
}

fn create_front(
    request: &CreateReminderRequest,
    uuid: &str,
    links_json: Option<&str>,
    weekdays_json: Option<&str>,
    monthdays_json: Option<&str>,
) -> (params: Vec<SqlValue>)
    ensures
        value_views(params@) == seq![
            SqlValueView::Text(uuid@),
            SqlValueView::Text(request.title@),
            SqlValueView::Text(content_or_empty(request.content)),
            nullable_text(slice_view(links_json)),
            SqlValueView::Text(request.remind_time@),
            SqlValueView::Text(kind_or_daily(request.remind_type).name()),
            nullable_text(slice_view(weekdays_json)),
            nullable_text(slice_view(monthdays_json)),
        ],
{
    let content = match &request.content {
        Some(c) => c.clone(),
        None => String::new(),
    };
    let kind = match request.remind_type {
        Some(k) => k,
        None => RemindType::Daily,
    };
    let mut params: Vec<SqlValue> = Vec::new();
    params.push(SqlValue::Text(String::from_str(uuid)));
    params.push(SqlValue::Text(request.title.clone()));
    params.push(SqlValue::Text(content));
    params.push(text_or_null(links_json));
    params.push(SqlValue::Text(request.remind_time.clone()));
    params.push(SqlValue::Text(String::from_str(kind.as_str())));
    params.push(text_or_null(weekdays_json));
    params.push(text_or_null(monthdays_json));
    assert(value_views(params@) =~= seq![
        SqlValueView::Text(uuid@),
        SqlValueView::Text(request.title@),
        SqlValueView::Text(content_or_empty(request.content)),
        nullable_text(slice_view(links_json)),
        SqlValueView::Text(request.remind_time@),
        SqlValueView::Text(kind_or_daily(request.remind_type).name()),
        nullable_text(slice_view(weekdays_json)),
        nullable_text(slice_view(monthdays_json)),
    ]);
    params
}

/// The insertion of a reminder, given the texts of what is stored as text:
/// the links and the lists of days as JSON, where the request carries them,
/// and the instant of the creation.
pub fn create_statement(
    request: &CreateReminderRequest,
    uuid: &str,
    links_json: Option<&str>,
    weekdays_json: Option<&str>,
    monthdays_json: Option<&str>,
    now_text: &str,
) -> (statement: Statement)
    ensures
        statement.sql@ == create_sql(),
        value_views(statement.params@) == create_values(
            *request,
            uuid@,
            slice_view(links_json),
            slice_view(weekdays_json),
            slice_view(monthdays_json),
            now_text@,
        ),
{
    let mut params = create_front(request, uuid, links_json, weekdays_json, monthdays_json);
    let ghost front = value_views(params@);
    push_value(&mut params, flag_or_zero(request.repeat_on_close));
    push_value(&mut params, number_or_null(request.repeat_interval));
    push_value(&mut params, flag_or_zero(request.is_loop));
    push_value(&mut params, number_or_null(request.loop_interval));
    push_value(&mut params, flag_or_zero(request.notify_on_trigger));
    push_value(&mut params, flag_or_zero(request.notify_on_complete));
    push_value(&mut params, flag_or_zero(request.notify_on_timeout));
    push_value(&mut params, number_or_null(request.timeout_minutes));
    push_value(&mut params, SqlValue::Text(String::from_str(now_text)));
    push_value(&mut params, SqlValue::Text(String::from_str(now_text)));
    assert(value_views(params@) =~= create_values(
        *request,
        uuid@,
        slice_view(links_json),
        slice_view(weekdays_json),
        slice_view(monthdays_json),
        now_text@,
    ));
    let sql = String::from_str(
        "INSERT INTO reminders (uuid, title, content, links, remind_time, remind_type, weekdays, monthdays, is_enabled, repeat_on_close, repeat_interval, is_loop, loop_interval, notify_on_trigger, notify_on_complete, notify_on_timeout, timeout_minutes, sort_order, created_at, updated_at, version, sync_status) VALUES (?, ?, ?, ?, ?, ?, ?, ?, 1, ?, ?, ?, ?, ?, ?, ?, ?, 0, ?, ?, 1, 'pending')",
    );
    Statement { sql, params }
}

/// The insertion of a reminder under the id `uuid` at the instant `now`.
/// `links_json` is the JSON of the links, which the host writes where the
/// request carries links. The lists of days and the instant are written
/// here. There is a statement exactly where the instant can be written, as
/// every instant can that a clock gives.
pub fn create(
    request: &CreateReminderRequest,
    uuid: &str,
    links_json: Option<&str>,
    now: &Timestamp,
) -> (r: Option<Statement>)
    ensures
        r is Some <==> writable(*now),
        is_plain(*now) ==> r is Some,
        r matches Some(statement) ==> {
            &&& rfc3339_text(now.secs, now.nanos) matches Some(now_text)
            &&& statement.sql@ == create_sql()
            &&& value_views(statement.params@) == create_values(
                *request,
                uuid@,
                slice_view(links_json),
                optional_days_json(request.weekdays),
                optional_days_json(request.monthdays),
                now_text,
            )
        },
{
    let now_text = match format_rfc3339(now.secs, now.nanos) {
        Some(text) => text,
        None => { return None; },
    };
    let weekdays: Option<String> = match &request.weekdays {
        Some(days) => match write_json_days(days) {
            Some(json) => Some(json),
            None => { return None; },
        },
        None => None,
    };
    let monthdays: Option<String> = match &request.monthdays {
        Some(days) => match write_json_days(days) {
            Some(json) => Some(json),
            None => { return None; },
        },
        None => None,
    };
    let weekdays_json: Option<&str> = match &weekdays {
        Some(json) => Some(json.as_str()),
        None => None,
    };
    let monthdays_json: Option<&str> = match &monthdays {
        Some(json) => Some(json.as_str()),
        None => None,
    };
    Some(
        create_statement(
            request,
            uuid,
            links_json,
            weekdays_json,
            monthdays_json,
            now_text.as_str(),
        ),
    )
}

/// The text of the insertion of a log entry.
pub open spec fn create_log_sql() -> Seq<char> {
    "INSERT INTO reminder_logs (uuid, reminder_uuid, action, triggered_at, action_at, snooze_until, note, created_at, sync_status) VALUES (?, ?, ?, ?, ?, ?, ?, ?, 'pending')"@
}

/// The values of the insertion of a log entry, in the order of its
/// placeholders; what the entry does not carry is stored as null.
pub open spec fn create_log_values(
    uuid: Seq<char>,
    reminder_uuid: Seq<char>,
    action: LogAction,
    triggered_at_text: Seq<char>,
    action_at_text: Option<Seq<char>>,
    snooze_until_text: Option<Seq<char>>,
    note: Option<Seq<char>>,
    now_text: Seq<char>,
) -> Seq<SqlValueView> {
    seq![
        SqlValueView::Text(uuid),
        SqlValueView::Text(reminder_uuid),
        SqlValueView::Text(action.name()),
        SqlValueView::Text(triggered_at_text),
        nullable_text(action_at_text),
        nullable_text(snooze_until_text),
        nullable_text(note),
        SqlValueView::Text(now_text),
    ]
}

/// The insertion of a log entry under the id `uuid`, given its instants as
/// text.
pub fn create_log_statement(
    uuid: &str,
    reminder_uuid: &str,
    action: LogAction,
    triggered_at_text: &str,
    action_at_text: Option<&str>,
    snooze_until_text: Option<&str>,
    note: Option<&str>,
    now_text: &str,
) -> (statement: Statement)
    ensures
        statement.sql@ == create_log_sql(),
        value_views(statement.params@) == create_log_values(
            uuid@,
            reminder_uuid@,
            action,
            triggered_at_text@,
            slice_view(action_at_text),
            slice_view(snooze_until_text),
            slice_view(note),
            now_text@,
        ),
{
    let mut params: Vec<SqlValue> = Vec::new();
    params.push(SqlValue::Text(String::from_str(uuid)));
    params.push(SqlValue::Text(String::from_str(reminder_uuid)));
    params.push(SqlValue::Text(String::from_str(action.as_str())));
    params.push(SqlValue::Text(String::from_str(triggered_at_text)));
    params.push(text_or_null(action_at_text));
    params.push(text_or_null(snooze_until_text));
    params.push(text_or_null(note));
    params.push(SqlValue::Text(String::from_str(now_text)));
    assert(value_views(params@) =~= create_log_values(
        uuid@,
        reminder_uuid@,
        action,
        triggered_at_text@,
        slice_view(action_at_text),
        slice_view(snooze_until_text),
        slice_view(note),
        now_text@,
    ));
    let sql = String::from_str(
        "INSERT INTO reminder_logs (uuid, reminder_uuid, action, triggered_at, action_at, snooze_until, note, created_at, sync_status) VALUES (?, ?, ?, ?, ?, ?, ?, ?, 'pending')",
    );
    Statement { sql, params }
}

/// The insertion of a log entry under the id `uuid` at the instant `now`.
/// The instants are written here. There is a statement exactly where each of
/// them can be written, as every instant can that a clock gives.
pub fn create_log(
    uuid: &str,
    reminder_uuid: &str,
    action: LogAction,
    triggered_at: &Timestamp,
    action_at: Option<Timestamp>,
    snooze_until: Option<Timestamp>,
    note: Option<&str>,
    now: &Timestamp,
) -> (r: Option<Statement>)
    ensures
        r is Some <==> writable(*now) && writable(*triggered_at) && optional_writable(action_at)
            && optional_writable(snooze_until),
        is_plain(*now) && is_plain(*triggered_at) && optional_plain(action_at) && optional_plain(
            snooze_until,
        ) ==> r is Some,
        r matches Some(statement) ==> {
            &&& rfc3339_text(now.secs, now.nanos) matches Some(now_text)
            &&& rfc3339_text(triggered_at.secs, triggered_at.nanos) matches Some(triggered_text)
            &&& statement.sql@ == create_log_sql()
            &&& value_views(statement.params@) == create_log_values(
                uuid@,
                reminder_uuid@,
                action,
                triggered_text,
                optional_rfc3339_text(action_at),
                optional_rfc3339_text(snooze_until),
                slice_view(note),
                now_text,
            )
        },
{
    let now_text = match format_rfc3339(now.secs, now.nanos) {
        Some(text) => text,
        None => { return None; },
    };
    let triggered_text = match format_rfc3339(triggered_at.secs, triggered_at.nanos) {
        Some(text) => text,
        None => { return None; },
    };
    let action_text: Option<String> = match action_at {
        Some(t) => match format_rfc3339(t.secs, t.nanos) {
            Some(text) => Some(text),
            None => { return None; },
        },
        None => None,
    };
    let snooze_text: Option<String> = match snooze_until {
        Some(t) => match format_rfc3339(t.secs, t.nanos) {
            Some(text) => Some(text),
            None => { return None; },
        },
        None => None,
    };
    let action_slice: Option<&str> = match &action_text {
        Some(text) => Some(text.as_str()),
        None => None,
    };
    let snooze_slice: Option<&str> = match &snooze_text {
        Some(text) => Some(text.as_str()),
        None => None,
    };
    Some(
        create_log_statement(
            uuid,
            reminder_uuid,
            action,
            triggered_text.as_str(),
            action_slice,
            snooze_slice,
            note,
            now_text.as_str(),
        ),
    )
}

/// The clause that limits the number of rows of a query.
pub open spec fn limit_clause(limit: Option<i32>) -> Seq<char> {
    match limit {
        Some(n) => " LIMIT "@ + decimal_text(n as int),
        None => Seq::<char>::empty(),
    }
}

/// The text of the query of the log: one condition for each filter that is
/// given, the latest firing first, and the limit where one is given.
pub open spec fn query_sql(
    by_reminder: bool,
    from_date: bool,
    to_date: bool,
    limit: Option<i32>,
) -> Seq<char> {
    "SELECT * FROM reminder_logs WHERE 1=1"@ + part(by_reminder, " AND reminder_uuid = ?"@) + part(
        from_date,
        " AND triggered_at >= ?"@,
    ) + part(to_date, " AND triggered_at <= ?"@) + " ORDER BY triggered_at DESC"@ + limit_clause(
        limit,
    )
}

/// The query of the log: the entries of one reminder, where one is given,
/// that fired within the given dates, where they are given.
pub fn query(
    reminder_uuid: Option<&str>,
    start_date: Option<&str>,
    end_date: Option<&str>,
    limit: Option<i32>,
) -> (statement: Statement)
    ensures
        statement.sql@ == query_sql(
            reminder_uuid is Some,
            start_date is Some,
            end_date is Some,
            limit,
        ),
        value_views(statement.params@) == text_value(slice_view(reminder_uuid)) + text_value(
            slice_view(start_date),
        ) + text_value(slice_view(end_date)),
{
    let mut sql = String::from_str("SELECT * FROM reminder_logs WHERE 1=1");
    append_if(&mut sql, reminder_uuid.is_some(), " AND reminder_uuid = ?");
    append_if(&mut sql, start_date.is_some(), " AND triggered_at >= ?");
    append_if(&mut sql, end_date.is_some(), " AND triggered_at <= ?");
    sql.append(" ORDER BY triggered_at DESC");
    let ghost ordered = sql@;
    match limit {
        Some(n) => {
            sql.append(" LIMIT ");
            append_decimal(&mut sql, n);
            assert(sql@ =~= ordered + limit_clause(limit));
        },
        None => {
            assert(sql@ =~= ordered + limit_clause(limit));
        },
    }
    let mut params: Vec<SqlValue> = Vec::new();
    assert(value_views(params@) =~= Seq::<SqlValueView>::empty());
    push_slice(&mut params, reminder_uuid);
    push_slice(&mut params, start_date);
    push_slice(&mut params, end_date);
    assert(value_views(params@) =~= text_value(slice_view(reminder_uuid)) + text_value(
        slice_view(start_date),
    ) + text_value(slice_view(end_date)));
    Statement { sql, params }
}

} // verus!
