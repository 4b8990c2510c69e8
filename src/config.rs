//! The panel's configuration: its defaults, how a document read from a file
//! fills it field by field, and which of several candidate files is used.
use vstd::prelude::*;
use crate::battery;
use crate::clock;
use crate::clock::default_format;
use crate::color;
use crate::color::{format_spec, parse_spec, Rgba};
use crate::power;
use crate::power::ActionView;

verus! {

/// The resolved configuration used for the whole life of the panel.
#[derive(Clone, Debug)]
pub struct Config {
    /// Milliseconds between two refreshes.
    pub tick_period: u64,
    pub background: Rgba,
    pub foreground: Rgba,
    pub clock: clock::Config,
    pub power: power::Config,
    pub battery: battery::Config,
}

pub struct ConfigView {
    pub tick_period: u64,
    pub background: Rgba,
    pub foreground: Rgba,
    pub clock_enable: bool,
    pub clock_format: Seq<char>,
    pub power_enable: bool,
    pub action: ActionView,
    pub battery_enable: bool,
}

impl View for Config {
    type V = ConfigView;

    open spec fn view(&self) -> ConfigView {
        ConfigView {
            tick_period: self.tick_period,
            background: self.background,
            foreground: self.foreground,
            clock_enable: self.clock.enable,
            clock_format: self.clock.format@,
            power_enable: self.power.enable,
            action: self.power.action@,
            battery_enable: self.battery.enable,
        }
    }
}

pub open spec fn black() -> Rgba {
    Rgba { r: 0, g: 0, b: 0, a: 255 }
}

pub open spec fn white() -> Rgba {
    Rgba { r: 255, g: 255, b: 255, a: 255 }
}

/// Every field's default: a refresh each half second, white on black, and all
/// three widgets on, with KDE 6 commands.
pub open spec fn default_view() -> ConfigView {
    ConfigView {
        tick_period: 500,
        background: black(),
        foreground: white(),
        clock_enable: true,
        clock_format: default_format(),
        power_enable: true,
        action: ActionView::KDE6,
        battery_enable: true,
    }
}

impl Default for Config {
    fn default() -> (r: Config)
        ensures
            r@ == default_view(),
    {
        Config {
            tick_period: 500,
            background: Rgba::black(),
            foreground: Rgba::white(),
            clock: clock::Config::default(),
            power: power::Config::default(),
            battery: battery::Config::default(),
        }
    }
}

/// A configuration document as read from a file: the fields that it sets.
#[derive(Clone, Debug)]
pub struct Document {
    pub tick_period: Option<u64>,
    pub background: Option<String>,
    pub foreground: Option<String>,
    pub clock_enable: Option<bool>,
    pub clock_format: Option<String>,
    pub power_enable: Option<bool>,
    pub power_action: Option<power::Action>,
    pub battery_enable: Option<bool>,
}

/// Why a document does not give a configuration.
#[derive(Clone, Copy, Debug, PartialEq, Eq, Structural)]
pub enum ConfigError {
    ZeroTickPeriod,
    InvalidBackground,
    InvalidForeground,
}

pub open spec fn flag_or(o: Option<bool>, d: bool) -> bool {
    match o {
        Some(b) => b,
        None => d,
    }
}

pub open spec fn color_or(o: Option<String>, d: Rgba) -> Option<Rgba> {
    match o {
        Some(s) => parse_spec(s@),
        None => Some(d),
    }
}

/// The configuration a document gives: each field it sets, and the default for each
/// field it leaves out. A zero period or a colour that does not parse rejects it.
pub open spec fn resolved(d: &Document) -> Result<ConfigView, ConfigError> {
    let dv = default_view();
    if d.tick_period == Some(0u64) {
        Err(ConfigError::ZeroTickPeriod)
    } else {
        match (color_or(d.background, dv.background), color_or(d.foreground, dv.foreground)) {
            (None, _) => Err(ConfigError::InvalidBackground),
            (_, None) => Err(ConfigError::InvalidForeground),
            (Some(bg), Some(fg)) => Ok(
                ConfigView {
                    tick_period: match d.tick_period {
                        Some(t) => t,
                        None => dv.tick_period,
                    },
                    background: bg,
                    foreground: fg,
                    clock_enable: flag_or(d.clock_enable, dv.clock_enable),
                    clock_format: match d.clock_format {
                        Some(f) => f@,
                        None => dv.clock_format,
                    },
                    power_enable: flag_or(d.power_enable, dv.power_enable),
                    action: match d.power_action {
                        Some(a) => a@,
                        None => dv.action,
                    },
                    battery_enable: flag_or(d.battery_enable, dv.battery_enable),
                },
            ),
        }
    }
}

/// A document that sets every field to the value it has in `c`.
pub open spec fn written(c: ConfigView, d: &Document) -> bool {
    &&& d.tick_period == Some(c.tick_period)
    &&& d.background matches Some(s) && s@ == format_spec(c.background)
    &&& d.foreground matches Some(s) && s@ == format_spec(c.foreground)
    &&& d.clock_enable == Some(c.clock_enable)
    &&& d.clock_format matches Some(s) && s@ == c.clock_format
    &&& d.power_enable == Some(c.power_enable)
    &&& d.power_action matches Some(a) && a@ == c.action
    &&& d.battery_enable == Some(c.battery_enable)
}

/// A candidate whose document was read and gives a configuration.
pub open spec fn accepted(o: Option<Document>) -> bool {
    o matches Some(d) && resolved(&d) is Ok
}

/// The configuration chosen from candidates in order: the first accepted one,
/// or the defaults when none is.
pub open spec fn selected(cands: Seq<Option<Document>>) -> ConfigView
    decreases cands.len(),
{
    if cands.len() == 0 {
        default_view()
    } else if accepted(cands[0]) {
        resolved(&cands[0]->Some_0)->Ok_0
    } else {
        selected(cands.drop_first())
    }
}

pub open spec fn text_of(o: Option<String>) -> Option<Seq<char>> {
    match o {
        Some(s) => Some(s@),
        None => None,
    }
}

/// The files looked at, in order: the one given, then `polarbear/config.toml` and
/// `polarbear.toml` in the configuration directory, when there is one.
pub open spec fn candidates_of(explicit: Option<Seq<char>>, dir: Option<Seq<char>>) -> Seq<
    Seq<char>,
> {
    let first = match explicit {
        Some(p) => seq![p],
        None => seq![],
    };
    match dir {
        Some(d) => first + seq![d + "/polarbear/config.toml"@, d + "/polarbear.toml"@],
        None => first,
    }
}

fn flag(o: &Option<bool>, d: bool) -> (r: bool)
    ensures
        r == flag_or(*o, d),
{
    match o {
        Some(b) => *b,
        None => d,
    }
}

fn color_field(o: &Option<String>, d: Rgba) -> (r: Option<Rgba>)
    ensures
        r == color_or(*o, d),
{
    match o {
        Some(s) => match color::deserialize(s.as_str()) {
            Ok(c) => Some(c),
            Err(_) => None,
        },
        None => Some(d),
    }
}

impl Config {
    /// The configuration a document gives, field by field over the defaults.
    pub fn from_document(d: &Document) -> (r: Result<Config, ConfigError>)
        ensures
            match r {
                Ok(c) => resolved(d) == Ok::<ConfigView, ConfigError>(c@),
                Err(e) => resolved(d) == Err::<ConfigView, ConfigError>(e),
            },
    {
        let dflt = Config::default();
        if d.tick_period == Some(0u64) {
            return Err(ConfigError::ZeroTickPeriod);
        }
        let bg = match color_field(&d.background, dflt.background) {
            Some(c) => c,
            None => return Err(ConfigError::InvalidBackground),
        };
        let fg = match color_field(&d.foreground, dflt.foreground) {
            Some(c) => c,
            None => return Err(ConfigError::InvalidForeground),
        };
        let tick_period = match d.tick_period {
            Some(t) => t,
            None => dflt.tick_period,
        };
        let format = match &d.clock_format {
            Some(f) => f.clone(),
            None => dflt.clock.format,
        };
        let action = match &d.power_action {
            Some(a) => a.duplicate(),
            None => dflt.power.action,
        };
        Ok(
            Config {
                tick_period,
                background: bg,
                foreground: fg,
                clock: clock::Config { enable: flag(&d.clock_enable, true), format },
                power: power::Config { enable: flag(&d.power_enable, true), action },
                battery: battery::Config { enable: flag(&d.battery_enable, true) },
            },
        )
    }

    /// A document that sets every field to this configuration's value.
    pub fn to_document(&self) -> (r: Document)
        ensures
            written(self@, &r),
    {
        Document {
            tick_period: Some(self.tick_period),
            background: Some(color::serialize(&self.background)),
            foreground: Some(color::serialize(&self.foreground)),
            clock_enable: Some(self.clock.enable),
            clock_format: Some(self.clock.format.clone()),
            power_enable: Some(self.power.enable),
            power_action: Some(self.power.action.duplicate()),
            battery_enable: Some(self.battery.enable),
        }
    }
}

/// The configuration from candidate documents in order (`None` for a file that
/// could not be read or parsed), with the index of the one used.
pub fn resolve_first(cands: &Vec<Option<Document>>) -> (r: (Config, Option<usize>))
    ensures
        r.0@ == selected(cands@),
        match r.1 {
            Some(i) => i < cands@.len() && accepted(cands@[i as int]) && forall|j: int|
                0 <= j < i ==> !accepted(#[trigger] cands@[j]),
            None => forall|j: int| 0 <= j < cands@.len() ==> !accepted(#[trigger] cands@[j]),
        },
{
    let mut i: usize = 0;
    proof {
        assert(cands@.subrange(0, cands@.len() as int) =~= cands@);
    }
    while i < cands.len()
        invariant
            i <= cands@.len(),
            selected(cands@) == selected(cands@.subrange(i as int, cands@.len() as int)),
            forall|j: int| 0 <= j < i ==> !accepted(#[trigger] cands@[j]),
        decreases cands@.len() - i,
    {
        let rest = Ghost(cands@.subrange(i as int, cands@.len() as int));
        if let Some(d) = &cands[i] {
            if let Ok(c) = Config::from_document(d) {
                proof {
                    assert(rest@[0] == cands@[i as int]);
                }
                return (c, Some(i));
            }
        }
        proof {
            assert(rest@.drop_first() =~= cands@.subrange(i + 1, cands@.len() as int));
        }
        i = i + 1;
    }
    proof {
        assert(cands@.subrange(i as int, cands@.len() as int).len() == 0);
    }
    (Config::default(), None)
}

/// The candidate files, in the order they are tried.
pub fn candidate_paths(explicit: &Option<String>, dir: &Option<String>) -> (r: Vec<String>)
    ensures
        r@.map_values(|s: String| s@) == candidates_of(
            text_of(*explicit),
            text_of(*dir),
        ),
{
    let mut r: Vec<String> = Vec::new();
    if let Some(p) = explicit {
        r.push(p.clone());
    }
    if let Some(d) = dir {
        proof {
            reveal_strlit("/polarbear/config.toml");
            reveal_strlit("/polarbear.toml");
        }
        r.push(d.clone().concat("/polarbear/config.toml"));
        r.push(d.clone().concat("/polarbear.toml"));
    }
    proof {
        assert(r@.map_values(|s: String| s@) =~= candidates_of(
            text_of(*explicit),
            text_of(*dir),
        ));
    }
    r
}

/// Every field that a document leaves out takes its default, whatever the
/// document sets elsewhere.
pub proof fn lemma_unset_fields_default(d: &Document)
    ensures
        resolved(d) matches Ok(c) ==> {
            let dv = default_view();
            &&& d.tick_period is None ==> c.tick_period == dv.tick_period
            &&& d.background is None ==> c.background == dv.background
            &&& d.foreground is None ==> c.foreground == dv.foreground
            &&& d.clock_enable is None ==> c.clock_enable == dv.clock_enable
            &&& d.clock_format is None ==> c.clock_format == dv.clock_format
            &&& d.power_enable is None ==> c.power_enable == dv.power_enable
            &&& d.power_action is None ==> c.action == dv.action
            &&& d.battery_enable is None ==> c.battery_enable == dv.battery_enable
        },
        (d.tick_period != Some(0u64) && d.background is None && d.foreground is None)
            ==> resolved(d) is Ok,
{
}

/// When no candidate could be read, the configuration is exactly the defaults.
pub proof fn lemma_unreadable_candidates_give_defaults(cands: Seq<Option<Document>>)
    requires
        forall|i: int| 0 <= i < cands.len() ==> cands[i] is None,
    ensures
        selected(cands) == default_view(),
    decreases cands.len(),
{
    if cands.len() > 0 {
        lemma_unreadable_candidates_give_defaults(cands.drop_first());
    }
}

/// A document written from a configuration reads back as that same configuration.
pub proof fn lemma_document_round_trip(c: ConfigView, d: &Document)
    requires
        c.tick_period > 0,
        written(c, d),
    ensures
        resolved(d) == Ok::<ConfigView, ConfigError>(c),
{
    color::lemma_color_round_trip(c.background);
    color::lemma_color_round_trip(c.foreground);
}

} // verus!
