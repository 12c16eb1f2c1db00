//! The popup windows of reminders: how they are named and counted.

use vstd::prelude::*;
use vstd::string::*;

verus! {

/// What the label of every popup window begins with.
pub open spec fn label_prefix() -> Seq<char> {
    "popup-"@
}

/// The label of the popup window of a reminder.
pub open spec fn label_of(reminder_uuid: Seq<char>) -> Seq<char> {
    label_prefix() + reminder_uuid
}

/// The address of the page that the popup window of a reminder shows.
pub open spec fn page_of(reminder_uuid: Seq<char>) -> Seq<char> {
    "/popup?uuid="@ + reminder_uuid
}

/// The label of the popup window of a reminder.
pub fn popup_label(reminder_uuid: &str) -> (label: String)
    ensures
        label@ == label_of(reminder_uuid@),
{
    let mut label = String::from_str("popup-");
    label.append(reminder_uuid);
    label
}

/// The address of the page that the popup window of a reminder shows.
pub fn popup_page(reminder_uuid: &str) -> (page: String)
    ensures
        page@ == page_of(reminder_uuid@),
{
    let mut page = String::from_str("/popup?uuid=");
    page.append(reminder_uuid);
    page
}

/// `str::starts_with` of std with a string as the pattern: whether the
/// pattern matches a prefix of the text.
#[verifier::external_body]
fn starts_with(text: &str, prefix: &str) -> (b: bool)
    ensures
        b == prefix@.is_prefix_of(text@),
{
    text.starts_with(prefix)
}

/// Number of popup labels among the first `n` labels.
pub open spec fn popups_among(labels: Seq<String>, n: int) -> int
    decreases n,
{
    if n <= 0 {
        0
    } else {
        popups_among(labels, n - 1) + if label_prefix().is_prefix_of(labels[n - 1]@) {
            1int
        } else {
            0int
        }
    }
}

/// Number of popup windows among the windows with the given labels.
pub fn get_popup_count(labels: &Vec<String>) -> (count: usize)
    ensures
        count == popups_among(labels@, labels@.len() as int),
{
    let mut count: usize = 0;
    let mut i: usize = 0;
    while i < labels.len()
        invariant
            i <= labels@.len(),
            count <= i,
            count == popups_among(labels@, i as int),
        decreases labels@.len() - i,
    {
        if starts_with(labels[i].as_str(), "popup-") {
            count += 1;
        }
        i += 1;
    }
    count
}

} // verus!
