//! The clock boundary: one reading of the wall clock, rendered in the fixed
//! reference time zone of the vault.

use vstd::prelude::*;

use crate::text::is_digit_char;

verus! {

/// Relies on chrono's `DateTime::from(SystemTime)` (total, unlike the
/// panicking `Utc::now` on a pre-epoch clock), `DateTime::with_timezone` and
/// `DateTime::format`, and on chrono-tz's `Tz` parser: one instant is read
/// from the system clock and rendered three times. The admitted arguments
/// are pinned to one zone that chrono-tz's prebuilt table holds and three
/// valid strftime strings, so the rendering cannot fail: `%Y-%m-%d` ends in
/// a dash-separated two-digit month and day, `%a` is a three-letter English
/// weekday, and `%H:%M` is a zero-padded 24-hour clock. Which instant is
/// read depends on the clock, so nothing more is promised.
#[verifier::external_body]
fn now_strings(tz_name: &str, date_format: &str, day_format: &str, time_format: &str) -> (r:
    Option<(String, String, String)>)
    requires
        tz_name@ == "America/Los_Angeles"@,
        date_format@ == "%Y-%m-%d"@,
        day_format@ == "%a"@,
        time_format@ == "%H:%M"@,
    ensures
        r is Some,
        r matches Some(t) ==> t.0@.len() >= 10,
        r matches Some(t) ==> t.0@[t.0@.len() - 3] == '-' && t.0@[t.0@.len() - 6] == '-',
        r matches Some(t) ==> is_digit_char(t.0@[t.0@.len() - 1]) && is_digit_char(
            t.0@[t.0@.len() - 2],
        ) && is_digit_char(t.0@[t.0@.len() - 4]) && is_digit_char(t.0@[t.0@.len() - 5]),
        r matches Some(t) ==> t.1@.len() == 3,
        r matches Some(t) ==> t.2@.len() == 5 && t.2@[2] == ':',
        r matches Some(t) ==> is_digit_char(t.2@[0]) && is_digit_char(t.2@[1]) && is_digit_char(
            t.2@[3],
        ) && is_digit_char(t.2@[4]),
{
    let tz: chrono_tz::Tz = match tz_name.parse() {
        Ok(tz) => tz,
        Err(_) => return None,
    };
    let now = chrono::DateTime::<chrono::Utc>::from(std::time::SystemTime::now()).with_timezone(
        &tz,
    );
    Some(
        (
            now.format(date_format).to_string(),
            now.format(day_format).to_string(),
            now.format(time_format).to_string(),
        ),
    )
}

/// The current date, weekday and time in the vault's reference time zone.
pub fn today() -> (r: (String, String, String))
    ensures
        r.0@.len() >= 10,
        r.0@[r.0@.len() - 3] == '-' && r.0@[r.0@.len() - 6] == '-',
        is_digit_char(r.0@[r.0@.len() - 1]) && is_digit_char(r.0@[r.0@.len() - 2]) && is_digit_char(
            r.0@[r.0@.len() - 4],
        ) && is_digit_char(r.0@[r.0@.len() - 5]),
        r.1@.len() == 3,
        r.2@.len() == 5 && r.2@[2] == ':',
        is_digit_char(r.2@[0]) && is_digit_char(r.2@[1]) && is_digit_char(r.2@[3]) && is_digit_char(
            r.2@[4],
        ),
{
    match now_strings("America/Los_Angeles", "%Y-%m-%d", "%a", "%H:%M") {
        Some(t) => t,
        None => vstd::pervasive::unreached(),
    }
}

} // verus!
