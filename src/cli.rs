//! The decisions around a run: which seed and year to use and whether the
//! date allows it.

use chrono::{Datelike, Local};
use vstd::prelude::*;
use vstd::string::{StrSliceExecFns, StringExecFns};

verus! {

/// User name that the default seed falls back on when none is known.
pub const ANONYMOUS: &'static str = "anonymous";

/// Refusal given outside January 1st when no year is forced.
pub const NOT_JANUARY_FIRST: &'static str =
    "This command can only be executed on January 1st.\nUse --force-year <YYYY> to override.";

/// A calendar date in the local time zone.
#[derive(Clone, Copy, Debug, PartialEq, Eq)]
pub struct CalendarDate {
    pub year: i32,
    pub month: u32,
    pub day: u32,
}

/// Relies on chrono's `Local::now` and its `Datelike` accessors: today's
/// date, with the month in 1..=12 and the day in 1..=31 as chrono documents.
#[verifier::external_body]
fn today() -> (r: CalendarDate)
    ensures
        1 <= r.month <= 12,
        1 <= r.day <= 31,
{
    let now = Local::now();
    CalendarDate { year: now.year(), month: now.month(), day: now.day() }
}

/// Relies on gethostname's `gethostname`: this machine's host name, made
/// valid Unicode by `to_string_lossy`.
#[verifier::external_body]
fn host_name() -> (r: String) {
    gethostname::gethostname().to_string_lossy().to_string()
}

/// The options a run is started with.
#[derive(Debug)]
pub struct Args {
    /// Year to tell the fortune of, which also lifts the January 1st rule.
    pub force_year: Option<u32>,
    /// Seed in place of `user@host`.
    pub seed: Option<String>,
    /// Print JSON rather than text.
    pub json: bool,
    /// Show only the five best luck scores.
    pub short: bool,
    /// Show the seed and the fingerprint.
    pub show_seed: bool,
    /// Date to act on, as `YYYY-MM-DD`, in place of today.
    pub date: Option<String>,
}

/// The text of an optional string.
pub open spec fn text_of(s: Option<String>) -> Option<Seq<char>> {
    match s {
        Some(t) => Some(t@),
        None => None,
    }
}

/// The seed used when none is given: `user@host`, with `anonymous` for an
/// unknown user.
pub open spec fn default_seed_of(user: Option<Seq<char>>, host: Seq<char>) -> Seq<char> {
    let name = match user {
        Some(u) => u,
        None => ANONYMOUS@,
    };
    name + seq!['@'] + host
}

/// `date` reads as January 1st: the text after its first `-` is exactly
/// `01-01`, that is, the month and the day between and after the next dashes
/// are both `01`.
pub open spec fn is_january_first_text(date: Seq<char>) -> bool {
    exists|p: int|
        0 <= p < date.len() && #[trigger] date[p] == '-' && (forall|i: int|
            0 <= i < p ==> date[i] != '-') && date.subrange(p + 1, date.len() as int) =~= seq![
            '0',
            '1',
            '-',
            '0',
            '1',
        ]
}

/// Whether a run may go on: `Ok(false)` on January 1st, `Ok(true)` (with a
/// warning owed) on another day when a year is forced, else the refusal.
pub open spec fn execution_of(january_first: bool, forced: bool) -> Result<bool, &'static str> {
    if january_first {
        Ok(false)
    } else if forced {
        Ok(true)
    } else {
        Err(NOT_JANUARY_FIRST)
    }
}

/// Builds `user@host`, with `anonymous` for an unknown user.
pub fn default_seed(user: Option<String>, host: &str) -> (r: String)
    ensures
        r@ == default_seed_of(text_of(user), host@),
{
    let mut seed = match user {
        Some(u) => u,
        None => String::from_str(ANONYMOUS),
    };
    seed.append("@");
    seed.append(host);
    proof {
        reveal_strlit("@");
    }
    seed
}

/// Whether `date` (`YYYY-MM-DD`) names January 1st.
pub fn date_is_january_first(date: &str) -> (r: bool)
    ensures
        r == is_january_first_text(date@),
{
    let len = date.unicode_len();
    let mut p: usize = 0;
    while p < len && date.get_char(p) != '-'
        invariant
            p <= len == date@.len(),
            forall|i: int| 0 <= i < p ==> date@[i] != '-',
        decreases len - p,
    {
        p = p + 1;
    }
    if p == len {
        return false;
    }
    let r = len - p == 6 && date.get_char(p + 1) == '0' && date.get_char(p + 2) == '1'
        && date.get_char(p + 3) == '-' && date.get_char(p + 4) == '0' && date.get_char(p + 5)
        == '1';
    proof {
        if is_january_first_text(date@) {
            let q = choose|q: int|
                0 <= q < date@.len() && #[trigger] date@[q] == '-' && (forall|i: int|
                    0 <= i < q ==> date@[i] != '-') && date@.subrange(q + 1, date@.len() as int)
                    =~= seq!['0', '1', '-', '0', '1'];
            assert(q == p);
            assert(date@.subrange(q + 1, date@.len() as int)[0] == '0');
            assert(date@.subrange(q + 1, date@.len() as int)[1] == '1');
            assert(date@.subrange(q + 1, date@.len() as int)[2] == '-');
            assert(date@.subrange(q + 1, date@.len() as int)[3] == '0');
            assert(date@.subrange(q + 1, date@.len() as int)[4] == '1');
        }
        if r {
            assert(date@[p as int] == '-');
        }
    }
    r
}

/// Decides whether a run may go on, given whether the day is January 1st and
/// whether a year was forced.
pub fn decide_execution(january_first: bool, forced: bool) -> (r: Result<bool, &'static str>)
    ensures
        r == execution_of(january_first, forced),
{
    if january_first {
        Ok(false)
    } else if forced {
        Ok(true)
    } else {
        Err(NOT_JANUARY_FIRST)
    }
}

impl Args {
    /// The given seed, else `user@host` with this machine's host name.
    pub fn get_seed(&self, env_user: Option<String>) -> (r: String)
        ensures
            self.seed matches Some(s) ==> r@ == s@,
            self.seed is None ==> exists|host: Seq<char>|
                r@ == #[trigger] default_seed_of(text_of(env_user), host),
    {
        match &self.seed {
            Some(s) => s.clone(),
            None => {
                let host = host_name();
                default_seed(env_user, host.as_str())
            },
        }
    }

    /// The forced year, else the current one.
    pub fn get_year(&self) -> (r: u32)
        ensures
            self.force_year matches Some(y) ==> r == y,
    {
        match self.force_year {
            Some(y) => y,
            None => {
                let now = today();
                #[verifier::truncate]
                (now.year as u32)
            },
        }
    }

    /// Whether the given date, else today, is January 1st.
    pub fn is_january_first(&self) -> (r: bool)
        ensures
            self.date matches Some(d) ==> r == is_january_first_text(d@),
    {
        match &self.date {
            Some(d) => date_is_january_first(d.as_str()),
            None => {
                let now = today();
                now.month == 1 && now.day == 1
            },
        }
    }

    /// Whether this run may go on: see `execution_of`.
    pub fn can_execute(&self) -> (r: Result<bool, &'static str>)
        ensures
            self.date matches Some(d) ==> r == execution_of(
                is_january_first_text(d@),
                self.force_year is Some,
            ),
            r == execution_of(true, self.force_year is Some) || r == execution_of(
                false,
                self.force_year is Some,
            ),
    {
        let january_first = self.is_january_first();
        decide_execution(january_first, self.force_year.is_some())
    }
}

} // verus!
