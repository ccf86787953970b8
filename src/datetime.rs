//! Dates as the store keeps them (RFC 3339 text, UTC) and as users type them
//! (`YYYY-MM-DD HH:MM`).
use chrono::{DateTime, Utc};
use vstd::prelude::*;

verus! {

/// The length of a date as users type it: `YYYY-MM-DD HH:MM`.
pub const USER_DATETIME_LENGTH: usize = 16;

/// The seconds since the Unix epoch that RFC 3339 text denotes, if it is
/// such text.
pub uninterp spec fn rfc3339_seconds(s: Seq<char>) -> Option<i64>;

/// Relies on chrono's `DateTime::parse_from_rfc3339` and `timestamp`: the
/// instant the text denotes, if it is RFC 3339.
#[verifier::external_body]
fn parse_rfc3339(s: &str) -> (r: Option<i64>)
    ensures
        r == rfc3339_seconds(s@),
{
    DateTime::parse_from_rfc3339(s).ok().map(|d| d.timestamp())
}

/// Relies on chrono's `Utc::now`: the current time in seconds since the Unix
/// epoch, which nothing constrains.
#[verifier::external_body]
pub(crate) fn now_seconds() -> i64 {
    Utc::now().timestamp()
}

pub open spec fn after_at(now: i64, datetime: i64) -> bool {
    now > datetime
}

/// Whether the time `now` is past the instant `datetime`.
pub fn is_after(now: i64, datetime: i64) -> (r: bool)
    ensures
        r == after_at(now, datetime),
{
    now > datetime
}

/// Whether the clock is past the instant `datetime` (seconds since the
/// epoch); the clock may read any time, so this holds for some reading.
pub fn after_datetime(datetime: i64) -> (r: bool)
    ensures
        exists|now: i64| r == #[trigger] after_at(now, datetime),
{
    let now = now_seconds();
    is_after(now, datetime)
}

/// The text with its first space turned into `T`.
pub open spec fn replace_first_space(s: Seq<char>) -> Seq<char>
    decreases s.len(),
{
    if s.len() == 0 {
        s
    } else if s[0] == ' ' {
        seq!['T'] + s.drop_first()
    } else {
        seq![s[0]] + replace_first_space(s.drop_first())
    }
}

/// A typed date in the store's form: `YYYY-MM-DDTHH:MM:00+00:00`.
pub open spec fn stored_form(s: Seq<char>) -> Seq<char> {
    replace_first_space(s) + ":00+00:00"@
}

proof fn lemma_replace_at(s: Seq<char>, k: int)
    requires
        0 <= k < s.len(),
        s[k] == ' ',
        forall|j: int| 0 <= j < k ==> s[j] != ' ',
    ensures
        replace_first_space(s) == s.subrange(0, k) + seq!['T'] + s.subrange(k + 1, s.len() as int),
    decreases k,
{
    if k == 0 {
        assert(s.drop_first() =~= s.subrange(1, s.len() as int));
        assert(s.subrange(0, 0) =~= Seq::<char>::empty());
        assert(seq!['T'] + s.drop_first() =~= s.subrange(0, 0) + seq!['T'] + s.subrange(1, s.len() as int));
    } else {
        let t = s.drop_first();
        lemma_replace_at(t, k - 1);
        assert(s.subrange(0, k) =~= seq![s[0]] + t.subrange(0, k - 1));
        assert(s.subrange(k + 1, s.len() as int) =~= t.subrange(k, t.len() as int));
        assert(seq![s[0]] + (t.subrange(0, k - 1) + seq!['T'] + t.subrange(k, t.len() as int)) =~= s.subrange(0, k) + seq!['T'] + s.subrange(k + 1, s.len() as int));
    }
}

proof fn lemma_replace_none(s: Seq<char>)
    requires
        forall|j: int| 0 <= j < s.len() ==> s[j] != ' ',
    ensures
        replace_first_space(s) == s,
    decreases s.len(),
{
    if s.len() > 0 {
        lemma_replace_none(s.drop_first());
        assert(seq![s[0]] + s.drop_first() =~= s);
    }
}

fn to_stored_form(s: &str) -> (r: String)
    ensures
        r@ == stored_form(s@),
{
    let n = s.unicode_len();
    let mut k: usize = 0;
    while k < n
        invariant
            n == s@.len(),
            k <= n,
            forall|j: int| 0 <= j < k ==> s@[j] != ' ',
        ensures
            k <= n,
            forall|j: int| 0 <= j < k ==> s@[j] != ' ',
            k < n ==> s@[k as int] == ' ',
        decreases n - k,
    {
        if s.get_char(k) == ' ' {
            break;
        }
        k += 1;
    }
    let replaced = if k < n {
        proof {
            lemma_replace_at(s@, k as int);
            reveal_strlit("T");
        }
        let head = s.substring_char(0, k).to_owned();
        let head = head.concat("T");
        head.concat(s.substring_char(k + 1, n))
    } else {
        proof {
            lemma_replace_none(s@);
        }
        s.to_owned()
    };
    replaced.concat(":00+00:00")
}

/// A date typed by a user, not valid RFC 3339 once put in the store's form.
#[derive(Clone, Copy, Debug, PartialEq, Eq, Structural)]
pub struct InvalidDateTime;

/// A typed date in the store's form, if that form is valid RFC 3339.
pub fn parse_user_datetime(user_datetime: String) -> (r: Result<String, InvalidDateTime>)
    ensures
        match r {
            Ok(s) => s@ == stored_form(user_datetime@) && rfc3339_seconds(s@).is_some(),
            Err(_) => rfc3339_seconds(stored_form(user_datetime@)).is_none(),
        },
{
    let stored = to_stored_form(user_datetime.as_str());
    match parse_rfc3339(stored.as_str()) {
        Some(_) => Ok(stored),
        None => Err(InvalidDateTime),
    }
}

/// A typed date in the store's form; none unless it has exactly sixteen
/// characters and gives valid RFC 3339.
pub fn parse_user_datetime_option(user_datetime: String) -> (r: Option<String>)
    ensures
        user_datetime@.len() != USER_DATETIME_LENGTH ==> r.is_none(),
        user_datetime@.len() == USER_DATETIME_LENGTH ==> match r {
            Some(s) => s@ == stored_form(user_datetime@) && rfc3339_seconds(s@).is_some(),
            None => rfc3339_seconds(stored_form(user_datetime@)).is_none(),
        },
{
    if user_datetime.as_str().unicode_len() != USER_DATETIME_LENGTH {
        None
    } else {
        match parse_user_datetime(user_datetime) {
            Ok(s) => Some(s),
            Err(_) => None,
        }
    }
}

/// The instant a stored date denotes; none when absent or not RFC 3339.
pub fn db_datetime_option(db_datetime: Option<String>) -> (r: Option<i64>)
    ensures
        r == match db_datetime {
            Some(s) => rfc3339_seconds(s@),
            None => None,
        },
{
    match db_datetime {
        Some(s) => parse_rfc3339(s.as_str()),
        None => None,
    }
}

} // verus!
