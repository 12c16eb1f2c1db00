//! The settings as they are stored: one entry for each setting, its value
//! written as JSON.

use crate::models::settings::{AppSettings, WindowPosition, DEFAULT_SNOOZE_INTERVAL};
use crate::storage::codec::{
    bool_json, bool_to_json, i32_to_json, json_bool, json_i32, json_of_string, json_string,
    parse_json_bool, parse_json_i32, parse_json_string, write_json_string,
};
use crate::storage::statements::{optional_text, slice_view};
use crate::text::{decimal_text, same_text};
use vstd::prelude::*;
use vstd::string::*;

verus! {

/// The stored setting that an entry belongs to.
#[derive(Debug, Clone, Copy, PartialEq, Eq, Structural)]
pub enum SettingKey {
    ServerchanDomain,
    ServerchanSendkey,
    AutoStart,
    DefaultSnoozeInterval,
    WindowPosition,
}

impl SettingKey {
    /// The name under which the setting is stored.
    pub open spec fn name(self) -> Seq<char> {
        match self {
            SettingKey::ServerchanDomain => "serverchan_domain"@,
            SettingKey::ServerchanSendkey => "serverchan_sendkey"@,
            SettingKey::AutoStart => "auto_start"@,
            SettingKey::DefaultSnoozeInterval => "default_snooze_interval"@,
            SettingKey::WindowPosition => "window_position"@,
        }
    }

    /// The setting stored under a name, if there is one.
    pub open spec fn parse(s: Seq<char>) -> Option<SettingKey> {
        if s == "serverchan_domain"@ {
            Some(SettingKey::ServerchanDomain)
        } else if s == "serverchan_sendkey"@ {
            Some(SettingKey::ServerchanSendkey)
        } else if s == "auto_start"@ {
            Some(SettingKey::AutoStart)
        } else if s == "default_snooze_interval"@ {
            Some(SettingKey::DefaultSnoozeInterval)
        } else if s == "window_position"@ {
            Some(SettingKey::WindowPosition)
        } else {
            None
        }
    }

    pub fn as_str(&self) -> (s: &'static str)
        ensures
            s@ == self.name(),
    {
        match self {
            SettingKey::ServerchanDomain => "serverchan_domain",
            SettingKey::ServerchanSendkey => "serverchan_sendkey",
            SettingKey::AutoStart => "auto_start",
            SettingKey::DefaultSnoozeInterval => "default_snooze_interval",
            SettingKey::WindowPosition => "window_position",
        }
    }

    pub fn from_str(s: &str) -> (r: Option<SettingKey>)
        ensures
            r == Self::parse(s@),
    {
        if same_text(s, "serverchan_domain") {
            Some(SettingKey::ServerchanDomain)
        } else if same_text(s, "serverchan_sendkey") {
            Some(SettingKey::ServerchanSendkey)
        } else if same_text(s, "auto_start") {
            Some(SettingKey::AutoStart)
        } else if same_text(s, "default_snooze_interval") {
            Some(SettingKey::DefaultSnoozeInterval)
        } else if same_text(s, "window_position") {
            Some(SettingKey::WindowPosition)
        } else {
            None
        }
    }

    /// Every setting is found again under its own name.
    pub proof fn lemma_name_round_trip(self)
        ensures
            Self::parse(self.name()) == Some(self),
    {
        reveal_strlit("serverchan_domain");
        reveal_strlit("serverchan_sendkey");
        reveal_strlit("auto_start");
        reveal_strlit("default_snooze_interval");
        reveal_strlit("window_position");
        assert("serverchan_domain"@.len() == 17 && "serverchan_sendkey"@.len() == 18);
        assert("auto_start"@.len() == 10 && "default_snooze_interval"@.len() == 23);
        assert("window_position"@.len() == 15);
    }
}

/// The truth value that a stored entry holds: the one that its text reads
/// as, and false for text that is none.
pub open spec fn stored_flag(value: Seq<char>) -> bool {
    match json_bool(value) {
        Some(b) => b,
        None => false,
    }
}

/// The interval that a stored entry holds: the one that its text reads as,
/// and the default interval for text that is none.
pub open spec fn stored_interval(value: Seq<char>) -> i32 {
    match json_i32(value) {
        Some(n) => n,
        None => DEFAULT_SNOOZE_INTERVAL,
    }
}

/// Takes a stored entry into the settings. The entry of a string sets it to
/// what its text reads as, and clears it for text that is no string; the
/// entry of the flag and of the interval fall back to false and to the
/// default interval; the entry of the window position sets it to
/// `window_position`, which the host read from the text. An entry under an
/// unknown name changes nothing, and no entry changes another setting.
pub fn apply_setting(
    settings: &mut AppSettings,
    key: &str,
    value: &str,
    window_position: Option<WindowPosition>,
)
    ensures
        optional_text(final(settings).serverchan_domain) == (if SettingKey::parse(key@) == Some(
            SettingKey::ServerchanDomain,
        ) {
            json_string(value@)
        } else {
            optional_text(old(settings).serverchan_domain)
        }),
        optional_text(final(settings).serverchan_sendkey) == (if SettingKey::parse(key@) == Some(
            SettingKey::ServerchanSendkey,
        ) {
            json_string(value@)
        } else {
            optional_text(old(settings).serverchan_sendkey)
        }),
        final(settings).auto_start == (if SettingKey::parse(key@) == Some(SettingKey::AutoStart) {
            stored_flag(value@)
        } else {
            old(settings).auto_start
        }),
        final(settings).default_snooze_interval == (if SettingKey::parse(key@) == Some(
            SettingKey::DefaultSnoozeInterval,
        ) {
            stored_interval(value@)
        } else {
            old(settings).default_snooze_interval
        }),
        final(settings).window_position == (if SettingKey::parse(key@) == Some(
            SettingKey::WindowPosition,
        ) {
            window_position
        } else {
            old(settings).window_position
        }),
{
    match SettingKey::from_str(key) {
        Some(SettingKey::ServerchanDomain) => {
            settings.serverchan_domain = parse_json_string(value);
        },
        Some(SettingKey::ServerchanSendkey) => {
            settings.serverchan_sendkey = parse_json_string(value);
        },
        Some(SettingKey::AutoStart) => {
            settings.auto_start = match parse_json_bool(value) {
                Some(b) => b,
                None => false,
            };
        },
        Some(SettingKey::DefaultSnoozeInterval) => {
            settings.default_snooze_interval = match parse_json_i32(value) {
                Some(n) => n,
                None => DEFAULT_SNOOZE_INTERVAL,
            };
        },
        Some(SettingKey::WindowPosition) => {
            settings.window_position = window_position;
        },
        None => {},
    }
}

/// A stored entry: the setting and its value as JSON.
#[derive(Debug, Clone, PartialEq, Eq)]
pub struct SettingEntry {
    pub key: SettingKey,
    pub value: String,
}

/// A stored entry with its value as a sequence of characters.
pub struct SettingEntryView {
    pub key: SettingKey,
    pub value: Seq<char>,
}

impl View for SettingEntry {
    type V = SettingEntryView;

    open spec fn view(&self) -> SettingEntryView {
        SettingEntryView { key: self.key, value: self.value@ }
    }
}

/// A list of entries, each by its view.
pub open spec fn entry_views(entries: Seq<SettingEntry>) -> Seq<SettingEntryView> {
    entries.map_values(|e: SettingEntry| e@)
}

/// The entry of a setting that has a value, and none for one that has not.
pub open spec fn entry_of(key: SettingKey, value: Option<Seq<char>>) -> Seq<SettingEntryView> {
    match value {
        Some(v) => seq![SettingEntryView { key, value: v }],
        None => Seq::<SettingEntryView>::empty(),
    }
}

/// The entries to store for the settings, in the order in which they are
/// stored: a string that is set, the flag, the interval, and the window
/// position that is set. The strings and the window position are given as
/// the JSON that stands for them.
pub open spec fn entries_of(
    domain_json: Option<Seq<char>>,
    sendkey_json: Option<Seq<char>>,
    auto_start: bool,
    default_snooze_interval: i32,
    window_json: Option<Seq<char>>,
) -> Seq<SettingEntryView> {
    entry_of(SettingKey::ServerchanDomain, domain_json) + entry_of(
        SettingKey::ServerchanSendkey,
        sendkey_json,
    ) + seq![SettingEntryView { key: SettingKey::AutoStart, value: bool_json(auto_start) }] + seq![
        SettingEntryView {
            key: SettingKey::DefaultSnoozeInterval,
            value: decimal_text(default_snooze_interval as int),
        },
    ] + entry_of(SettingKey::WindowPosition, window_json)
}

fn push_entry(entries: &mut Vec<SettingEntry>, key: SettingKey, value: Option<&str>)
    ensures
        entry_views(final(entries)@) == entry_views(old(entries)@) + entry_of(
            key,
            slice_view(value),
        ),
{
    if let Some(v) = value {
        entries.push(SettingEntry { key, value: String::from_str(v) });
    }
    assert(entry_views(entries@) =~= entry_views(old(entries)@) + entry_of(key, slice_view(value)));
}

/// The entries to store for the settings, given the JSON of the strings and
/// of the window position that are set.
pub fn setting_entries(
    domain_json: Option<&str>,
    sendkey_json: Option<&str>,
    auto_start: bool,
    default_snooze_interval: i32,
    window_json: Option<&str>,
) -> (entries: Vec<SettingEntry>)
    ensures
        entry_views(entries@) == entries_of(
            slice_view(domain_json),
            slice_view(sendkey_json),
            auto_start,
            default_snooze_interval,
            slice_view(window_json),
        ),
{
    let mut entries: Vec<SettingEntry> = Vec::new();
    assert(entry_views(entries@) =~= Seq::<SettingEntryView>::empty());
    push_entry(&mut entries, SettingKey::ServerchanDomain, domain_json);
    push_entry(&mut entries, SettingKey::ServerchanSendkey, sendkey_json);
    let ghost strings = entries@;
    entries.push(SettingEntry { key: SettingKey::AutoStart, value: bool_to_json(auto_start) });
    entries.push(
        SettingEntry {
            key: SettingKey::DefaultSnoozeInterval,
            value: i32_to_json(default_snooze_interval),
        },
    );
    assert(entry_views(entries@) =~= entry_views(strings) + seq![
        SettingEntryView { key: SettingKey::AutoStart, value: bool_json(auto_start) },
    ] + seq![
        SettingEntryView {
            key: SettingKey::DefaultSnoozeInterval,
            value: decimal_text(default_snooze_interval as int),
        },
    ]);
    push_entry(&mut entries, SettingKey::WindowPosition, window_json);
    assert(entry_views(entries@) =~= entries_of(
        slice_view(domain_json),
        slice_view(sendkey_json),
        auto_start,
        default_snooze_interval,
        slice_view(window_json),
    ));
    entries
}

/// The JSON of an optional string.
pub open spec fn optional_json(text: Option<String>) -> Option<Seq<char>> {
    match text {
        Some(t) => Some(json_of_string(t@)),
        None => None,
    }
}

/// The entries to store for the settings. `window_json` is the JSON of the
/// window position, which the host writes where one is set. The strings are
/// written here, which never fails: there are always entries.
pub fn update_all(settings: &AppSettings, window_json: Option<&str>) -> (r: Option<
    Vec<SettingEntry>,
>)
    ensures
        r matches Some(entries) && entry_views(entries@) == entries_of(
            optional_json(settings.serverchan_domain),
            optional_json(settings.serverchan_sendkey),
            settings.auto_start,
            settings.default_snooze_interval,
            slice_view(window_json),
        ),
{
    let domain: Option<String> = match &settings.serverchan_domain {
        Some(text) => match write_json_string(text.as_str()) {
            Some(json) => Some(json),
            None => { return None; },
        },
        None => None,
    };
    let sendkey: Option<String> = match &settings.serverchan_sendkey {
        Some(text) => match write_json_string(text.as_str()) {
            Some(json) => Some(json),
            None => { return None; },
        },
        None => None,
    };
    let domain_json: Option<&str> = match &domain {
        Some(json) => Some(json.as_str()),
        None => None,
    };
    let sendkey_json: Option<&str> = match &sendkey {
        Some(json) => Some(json.as_str()),
        None => None,
    };
    Some(
        setting_entries(
            domain_json,
            sendkey_json,
            settings.auto_start,
            settings.default_snooze_interval,
            window_json,
        ),
    )
}

} // verus!
