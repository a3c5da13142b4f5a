//! The bodies that the front end sends and receives.

use vstd::prelude::*;

use crate::domain::error::DetailsError;
use crate::ids::UserId;
use crate::text::{decimal_int, format_i64, join2};

verus! {

/// The offset from UTC, in seconds, of the time zone in which the front end
/// shows times: three hours east.
pub const TIME_ZONE: i32 = 10800;

/// A date and a time of day on the calendar.
#[derive(Clone, Copy, Debug, PartialEq, Eq, Structural)]
pub struct Civil {
    pub year: i32,
    pub month: u32,
    pub day: u32,
    pub hour: u32,
    pub minute: u32,
}

/// The year, month, day, hour and minute that chrono gives for `seconds`
/// since the Unix epoch in the time zone `offset` seconds east of UTC;
/// `None` where chrono represents no such instant or no such offset.
pub uninterp spec fn civil_fields(seconds: i64, offset: i32) -> Option<(i32, u32, u32, u32, u32)>;

/// The date and the time of day of `seconds` since the Unix epoch in the
/// time zone `offset` seconds east of UTC.
pub open spec fn civil_time(seconds: i64, offset: i32) -> Option<Civil> {
    match civil_fields(seconds, offset) {
        Some(f) => Some(Civil { year: f.0, month: f.1, day: f.2, hour: f.3, minute: f.4 }),
        None => None,
    }
}

/// Trusted: `chrono::DateTime::from_timestamp`, `FixedOffset::east_opt`,
/// `DateTime::with_timezone` and the calendar fields of the result. The
/// result depends on the arguments alone, so it is named: `civil_fields`.
#[verifier::external_body]
fn chrono_fields(seconds: i64, offset: i32) -> (r: Option<(i32, u32, u32, u32, u32)>)
    ensures
        r == civil_fields(seconds, offset),
{
    let zone = chrono::FixedOffset::east_opt(offset)?;
    let local = chrono::DateTime::from_timestamp(seconds, 0)?.with_timezone(&zone);
    Some(
        (
            chrono::Datelike::year(&local),
            chrono::Datelike::month(&local),
            chrono::Datelike::day(&local),
            chrono::Timelike::hour(&local),
            chrono::Timelike::minute(&local),
        ),
    )
}

/// The date and the time of day of `seconds` since the Unix epoch in the
/// time zone `offset` seconds east of UTC.
pub fn civil(seconds: i64, offset: i32) -> (r: Option<Civil>)
    ensures
        r == civil_time(seconds, offset),
{
    match chrono_fields(seconds, offset) {
        Some(f) => Some(Civil { year: f.0, month: f.1, day: f.2, hour: f.3, minute: f.4 }),
        None => None,
    }
}

/// A post as the front end receives it.
#[derive(Clone, Debug)]
pub struct Post {
    pub id: i64,
    pub title: String,
    pub content: String,
    pub author_id: UserId,
    /// Seconds since the Unix epoch.
    pub created_at: i64,
    pub updated_at: Option<i64>,
}

/// `label`, then day, month and year separated by dots, a space, and hour
/// and minute separated by a colon; no number is padded.
pub open spec fn stamped(label: Seq<char>, at: Civil) -> Seq<char> {
    label + decimal_int(at.day as int) + "."@ + decimal_int(at.month as int) + "."@ + decimal_int(
        at.year as int,
    ) + " "@ + decimal_int(at.hour as int) + ":"@ + decimal_int(at.minute as int)
}

/// The text of a time stamp; see `stamped`.
pub fn stamp(label: &str, at: Civil) -> (r: String)
    ensures
        r@ == stamped(label@, at),
{
    let day = format_i64(at.day as i64);
    let month = format_i64(at.month as i64);
    let year = format_i64(at.year as i64);
    let hour = format_i64(at.hour as i64);
    let minute = format_i64(at.minute as i64);
    let a = join2(label, day.as_str());
    let b = join2(a.as_str(), ".");
    let c = join2(b.as_str(), month.as_str());
    let d = join2(c.as_str(), ".");
    let e = join2(d.as_str(), year.as_str());
    let f = join2(e.as_str(), " ");
    let g = join2(f.as_str(), hour.as_str());
    let h = join2(g.as_str(), ":");
    join2(h.as_str(), minute.as_str())
}

impl Post {
    /// The line that tells when the post was created, in the front end's
    /// time zone; `None` for a time that chrono does not represent.
    pub fn get_created_at(&self) -> (r: Option<String>)
        ensures
            match r {
                Some(line) => civil_time(self.created_at, TIME_ZONE) matches Some(at) && line@
                    == stamped("Создан: "@, at),
                None => civil_time(self.created_at, TIME_ZONE) is None,
            },
    {
        match civil(self.created_at, TIME_ZONE) {
            Some(at) => Some(stamp("Создан: ", at)),
            None => None,
        }
    }

    /// The line that tells when the post was last updated, if it ever was,
    /// in the front end's time zone.
    pub fn get_update_at(&self) -> (r: Option<String>)
        ensures
            match r {
                Some(line) => self.updated_at matches Some(time) && civil_time(time, TIME_ZONE)
                    matches Some(at) && line@ == stamped("Обновлен: "@, at),
                None => self.updated_at matches Some(time) ==> civil_time(time, TIME_ZONE)
                    is None,
            },
    {
        match self.updated_at {
            Some(time) => match civil(time, TIME_ZONE) {
                Some(at) => Some(stamp("Обновлен: ", at)),
                None => None,
            },
            None => None,
        }
    }
}

/// The answer to a request for one post.
#[derive(Debug)]
pub struct PostResponse {
    pub post: Option<Post>,
}

/// A page of posts.
#[derive(Debug)]
pub struct PostPage {
    pub post: Vec<Post>,
    pub total: i32,
    pub limit: i32,
    pub offset: i32,
}

#[derive(Debug)]
pub struct RegisterRequest {
    pub username: String,
    pub email: String,
    pub password: String,
}

#[derive(Debug)]
pub struct LoginRequest {
    pub username: String,
    pub password: String,
}

/// The answer to a registration or a login.
#[derive(Debug)]
pub struct AuthResponse {
    pub token: String,
    pub uuid: UserId,
}

#[derive(Debug)]
pub struct CreatePostRequest {
    pub title: String,
    pub content: String,
}

#[derive(Debug)]
pub struct UpdatePostRequest {
    pub id: i64,
    pub title: String,
    pub content: String,
}

/// The body of an error as the front end reads it: the details must be
/// there.
#[derive(Debug)]
pub struct ErrorResponse {
    pub error: String,
    pub details: DetailsError,
}

} // verus!
