//! The clock widget: the local time written with a strftime-style pattern.
use vstd::prelude::*;

verus! {

/// Settings of the clock widget.
#[derive(Clone, Debug)]
pub struct Config {
    pub enable: bool,
    pub format: String,
}

pub open spec fn default_format() -> Seq<char> {
    "%Y/%m/%d %H:%M:%S"@
}

impl Default for Config {
    fn default() -> (r: Config)
        ensures
            r.enable,
            r.format@ == default_format(),
    {
        proof {
            reveal_strlit("%Y/%m/%d %H:%M:%S");
        }
        Config { enable: true, format: String::from_str("%Y/%m/%d %H:%M:%S") }
    }
}

/// A moment as seconds and nanoseconds since the Unix epoch, with the local
/// offset from UTC in seconds.
#[derive(Clone, Copy, Debug, PartialEq, Eq, Structural)]
pub struct LocalTime {
    pub secs: i64,
    pub nanos: u32,
    pub offset: i32,
}

/// The text chrono writes for a moment, an offset and a pattern; `None` where
/// chrono cannot represent the moment or the offset. A pattern that chrono
/// cannot read yields what was written before the faulty part.
pub uninterp spec fn formatted_time(secs: i64, nanos: u32, offset: i32, format: Seq<char>) -> Option<
    Seq<char>,
>;

/// Relies on chrono's `DateTime::format`, after `DateTime::from_timestamp`,
/// `FixedOffset::east_opt` and `with_timezone` build the local moment: the text is
/// a function of these values, and an offset of a day or more is refused.
#[verifier::external_body]
fn format_time(t: &LocalTime, format: &str) -> (r: Option<String>)
    ensures
        match r {
            Some(s) => formatted_time(t.secs, t.nanos, t.offset, format@) == Some(s@),
            None => formatted_time(t.secs, t.nanos, t.offset, format@) is None,
        },
        t.offset <= -86_400 || t.offset >= 86_400 ==> r is None,
{
    let offset = chrono::FixedOffset::east_opt(t.offset)?;
    let utc = chrono::DateTime::from_timestamp(t.secs, t.nanos)?;
    let mut text = String::new();
    let _ = utc.with_timezone(&offset).format(format).write_to(&mut text);
    Some(text)
}

/// What the clock shows for a moment and a pattern: the formatted time, or
/// nothing where the moment cannot be represented.
pub open spec fn clock_text(t: LocalTime, format: Seq<char>) -> Seq<char> {
    match formatted_time(t.secs, t.nanos, t.offset, format) {
        Some(s) => s,
        None => Seq::empty(),
    }
}

/// The clock widget.
pub struct Clock {
    pub cfg: Config,
}

impl Clock {
    pub fn new(cfg: Config) -> (r: Clock)
        ensures
            r.cfg.enable == cfg.enable,
            r.cfg.format@ == cfg.format@,
    {
        Clock { cfg }
    }

    /// The text shown at moment `now`: empty when the widget is disabled.
    pub fn view(&self, now: &LocalTime) -> (r: String)
        ensures
            r@ == if self.cfg.enable {
                clock_text(*now, self.cfg.format@)
            } else {
                Seq::empty()
            },
    {
        if !self.cfg.enable {
            return String::new();
        }
        match format_time(now, self.cfg.format.as_str()) {
            Some(s) => s,
            None => String::new(),
        }
    }
}

} // verus!
