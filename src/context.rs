use vstd::prelude::*;

use crate::config::{join_path, joined, or_keep, overlaid, Config, PersistedConfig};
use crate::datahandler::DataHandler;
use crate::text::str_eq;

verus! {

/// A setting that the command line may override with one of a fixed set of words.
#[derive(Clone, Copy, Debug, PartialEq, Eq)]
pub enum Setting {
    NoHistory,
    TempUnit,
    VisUnit,
    PressUnit,
    WindUnit,
    Cached,
}

/// Why a configuration could not be set up.
#[derive(Clone, Copy, Debug, PartialEq, Eq)]
pub enum ConfigError {
    /// The configuration file exists but does not hold a valid record.
    Corrupt,
    /// A command-line value is outside the words allowed for its setting.
    InvalidUnit(Setting),
}

/// Values given on the command line; `None` where a flag was not given.
#[derive(Clone, Debug)]
pub struct Overrides {
    pub apikey: Option<String>,
    pub loc: Option<String>,
    pub no_history: Option<String>,
    pub tempunit: Option<String>,
    pub visunit: Option<String>,
    pub pressunit: Option<String>,
    pub windunit: Option<String>,
    pub cached: Option<String>,
}

/// `--no-history`: `true` turns history off, `false` keeps it on.
pub open spec fn history_of(s: Seq<char>) -> Option<bool> {
    if s == "true"@ {
        Some(false)
    } else if s == "false"@ {
        Some(true)
    } else {
        None
    }
}

/// `--tempunit`: `C` or `F`.
pub open spec fn tempunit_of(s: Seq<char>) -> Option<char> {
    if s == "C"@ {
        Some('C')
    } else if s == "F"@ {
        Some('F')
    } else {
        None
    }
}

/// `--visunit`: `km` or `miles`.
pub open spec fn visunit_of(s: Seq<char>) -> Option<char> {
    if s == "km"@ {
        Some('k')
    } else if s == "miles"@ {
        Some('m')
    } else {
        None
    }
}

/// `--pressunit`: `hpa` or `inhg`.
pub open spec fn pressunit_of(s: Seq<char>) -> Option<char> {
    if s == "hpa"@ {
        Some('h')
    } else if s == "inhg"@ {
        Some('i')
    } else {
        None
    }
}

/// `--windunit`: `m/s`, `km/h`, `mph` or `knots`.
pub open spec fn windunit_of(s: Seq<char>) -> Option<char> {
    if s == "m/s"@ {
        Some('s')
    } else if s == "km/h"@ {
        Some('k')
    } else if s == "mph"@ {
        Some('m')
    } else if s == "knots"@ {
        Some('n')
    } else {
        None
    }
}

/// `--cached`: `yes` or `no`.
pub open spec fn cached_of(s: Seq<char>) -> Option<bool> {
    if s == "yes"@ {
        Some(true)
    } else if s == "no"@ {
        Some(false)
    } else {
        None
    }
}

/// A flag that was given with a word outside its set.
pub open spec fn rejects<T>(given: Option<String>, parse: spec_fn(Seq<char>) -> Option<T>) -> bool {
    match given {
        Some(s) => parse(s@) is None,
        None => false,
    }
}

/// The first setting, in the order of the command line's help, whose value is refused.
pub open spec fn first_invalid(o: Overrides) -> Option<Setting> {
    if rejects(o.no_history, |s| history_of(s)) {
        Some(Setting::NoHistory)
    } else if rejects(o.tempunit, |s| tempunit_of(s)) {
        Some(Setting::TempUnit)
    } else if rejects(o.visunit, |s| visunit_of(s)) {
        Some(Setting::VisUnit)
    } else if rejects(o.pressunit, |s| pressunit_of(s)) {
        Some(Setting::PressUnit)
    } else if rejects(o.windunit, |s| windunit_of(s)) {
        Some(Setting::WindUnit)
    } else if rejects(o.cached, |s| cached_of(s)) {
        Some(Setting::Cached)
    } else {
        None
    }
}

/// The setting that a valid given word selects, or `current` when the flag was not given.
pub open spec fn chosen<T>(given: Option<String>, parse: spec_fn(Seq<char>) -> Option<T>, current: T) -> T {
    match given {
        Some(s) => parse(s@).unwrap(),
        None => current,
    }
}

/// The context after applying the command-line values `o`, all of them valid.
pub open spec fn overridden(c: Context, o: Overrides) -> Context {
    Context {
        cfg: Config {
            apikey: or_keep(o.apikey, c.cfg.apikey),
            loc: or_keep(o.loc, c.cfg.loc),
            ..c.cfg
        },
        data: DataHandler {
            history: chosen(o.no_history, |s| history_of(s), c.data.history),
            tempunit: chosen(o.tempunit, |s| tempunit_of(s), c.data.tempunit),
            visunit: chosen(o.visunit, |s| visunit_of(s), c.data.visunit),
            pressunit: chosen(o.pressunit, |s| pressunit_of(s), c.data.pressunit),
            windunit: chosen(o.windunit, |s| windunit_of(s), c.data.windunit),
            cached: chosen(o.cached, |s| cached_of(s), c.data.cached),
            ..c.data
        },
        ..c
    }
}

fn parse_history(s: &str) -> (r: Option<bool>)
    ensures
        r == history_of(s@),
{
    if str_eq(s, "true") {
        Some(false)
    } else if str_eq(s, "false") {
        Some(true)
    } else {
        None
    }
}

fn parse_tempunit(s: &str) -> (r: Option<char>)
    ensures
        r == tempunit_of(s@),
{
    if str_eq(s, "C") {
        Some('C')
    } else if str_eq(s, "F") {
        Some('F')
    } else {
        None
    }
}

fn parse_visunit(s: &str) -> (r: Option<char>)
    ensures
        r == visunit_of(s@),
{
    if str_eq(s, "km") {
        Some('k')
    } else if str_eq(s, "miles") {
        Some('m')
    } else {
        None
    }
}

fn parse_pressunit(s: &str) -> (r: Option<char>)
    ensures
        r == pressunit_of(s@),
{
    if str_eq(s, "hpa") {
        Some('h')
    } else if str_eq(s, "inhg") {
        Some('i')
    } else {
        None
    }
}

fn parse_windunit(s: &str) -> (r: Option<char>)
    ensures
        r == windunit_of(s@),
{
    if str_eq(s, "m/s") {
        Some('s')
    } else if str_eq(s, "km/h") {
        Some('k')
    } else if str_eq(s, "mph") {
        Some('m')
    } else if str_eq(s, "knots") {
        Some('n')
    } else {
        None
    }
}

fn parse_cached(s: &str) -> (r: Option<bool>)
    ensures
        r == cached_of(s@),
{
    if str_eq(s, "yes") {
        Some(true)
    } else if str_eq(s, "no") {
        Some(false)
    } else {
        None
    }
}

/// Everything one run works with: the persisted record, unit preferences and run state.
#[derive(Clone, Debug)]
pub struct Context {
    pub cfg: Config,
    pub data: DataHandler,
    pub use_count: i32,
    pub exe_path: String,
    pub json_valid: bool,
}

impl Context {
    /// A context with the built-in defaults, before any file or flag is read.
    pub fn new(config_dir: &str, data_dir: &str, exe_path: &str, lastrun: &str) -> (r: Context)
        ensures
            r.cfg.config_dir@ == config_dir@,
            r.cfg.data_dir@ == data_dir@,
            r.cfg.log_file_name@ == joined(data_dir@, "log.log"@),
            r.cfg.cache_file_name@ == joined(data_dir@, "cache.json"@),
            r.cfg.apikey@ == "FOO"@,
            r.cfg.loc@ == "0000"@,
            !r.cfg.is_initialized,
            r.cfg.updated_from_api == 0,
            r.cfg.lastrun@ == lastrun@,
            r.data == DataHandler::new_spec(),
            r.use_count == 0,
            r.exe_path@ == exe_path@,
            !r.json_valid,
    {
        Context {
            cfg: Config::defaults(config_dir, data_dir, lastrun),
            data: DataHandler::new(),
            use_count: 0,
            exe_path: exe_path.to_owned(),
            json_valid: false,
        }
    }

    /// The configuration file, `conf.json` in the configuration directory.
    pub fn get_config_filename(&self) -> (r: String)
        ensures
            r@ == joined(self.cfg.config_dir@, "conf.json"@),
    {
        join_path(self.cfg.config_dir.as_str(), "conf.json")
    }

    /// The log file, `darksky-r.log` in the data directory.
    pub fn get_log_filename(&self) -> (r: String)
        ensures
            r@ == joined(self.cfg.data_dir@, "darksky-r.log"@),
    {
        join_path(self.cfg.data_dir.as_str(), "darksky-r.log")
    }

    /// The history store, `history.sqlite3` in the data directory.
    pub fn get_database_filename(&self) -> (r: String)
        ensures
            r@ == joined(self.cfg.data_dir@, "history.sqlite3"@),
    {
        join_path(self.cfg.data_dir.as_str(), "history.sqlite3")
    }

    /// Applies command-line values. Every enumerated value is checked first; if one is
    /// refused nothing at all changes.
    pub fn apply_overrides(&mut self, o: &Overrides) -> (r: Result<(), ConfigError>)
        ensures
            match first_invalid(*o) {
                Some(s) => r == Err::<(), ConfigError>(ConfigError::InvalidUnit(s)) && *final(self)
                    == *old(self),
                None => r is Ok && *final(self) == overridden(*old(self), *o),
            },
    {
        let history = match &o.no_history {
            None => None,
            Some(s) => match parse_history(s.as_str()) {
                Some(v) => Some(v),
                None => return Err(ConfigError::InvalidUnit(Setting::NoHistory)),
            },
        };
        let tempunit = match &o.tempunit {
            None => None,
            Some(s) => match parse_tempunit(s.as_str()) {
                Some(v) => Some(v),
                None => return Err(ConfigError::InvalidUnit(Setting::TempUnit)),
            },
        };
        let visunit = match &o.visunit {
            None => None,
            Some(s) => match parse_visunit(s.as_str()) {
                Some(v) => Some(v),
                None => return Err(ConfigError::InvalidUnit(Setting::VisUnit)),
            },
        };
        let pressunit = match &o.pressunit {
            None => None,
            Some(s) => match parse_pressunit(s.as_str()) {
                Some(v) => Some(v),
                None => return Err(ConfigError::InvalidUnit(Setting::PressUnit)),
            },
        };
        let windunit = match &o.windunit {
            None => None,
            Some(s) => match parse_windunit(s.as_str()) {
                Some(v) => Some(v),
                None => return Err(ConfigError::InvalidUnit(Setting::WindUnit)),
            },
        };
        let cached = match &o.cached {
            None => None,
            Some(s) => match parse_cached(s.as_str()) {
                Some(v) => Some(v),
                None => return Err(ConfigError::InvalidUnit(Setting::Cached)),
            },
        };
        if let Some(k) = &o.apikey {
            self.cfg.apikey = k.clone();
        }
        if let Some(l) = &o.loc {
            self.cfg.loc = l.clone();
        }
        if let Some(h) = history {
            self.data.history = h;
        }
        if let Some(u) = tempunit {
            self.data.tempunit = u;
        }
        if let Some(u) = visunit {
            self.data.visunit = u;
        }
        if let Some(u) = pressunit {
            self.data.pressunit = u;
        }
        if let Some(u) = windunit {
            self.data.windunit = u;
        }
        if let Some(c) = cached {
            self.data.cached = c;
        }
        Ok(())
    }

    /// Stamps the record with the time of this run.
    pub fn record_run(&mut self, now: String)
        ensures
            final(self).cfg.lastrun == now,
            final(self).cfg.config_dir == old(self).cfg.config_dir,
            final(self).cfg.data_dir == old(self).cfg.data_dir,
            final(self).cfg.log_file_name == old(self).cfg.log_file_name,
            final(self).cfg.cache_file_name == old(self).cfg.cache_file_name,
            final(self).cfg.apikey == old(self).cfg.apikey,
            final(self).cfg.loc == old(self).cfg.loc,
            final(self).cfg.is_initialized == old(self).cfg.is_initialized,
            final(self).cfg.updated_from_api == old(self).cfg.updated_from_api,
            final(self).data == old(self).data,
            final(self).use_count == old(self).use_count,
            final(self).exe_path == old(self).exe_path,
            final(self).json_valid == old(self).json_valid,
    {
        self.cfg.lastrun = now;
    }
}

/// Command-line values win over the configuration file: after the file is laid over the
/// record and valid flags are applied, each flag that was given decides its setting,
/// whatever the file held, and a setting with no flag keeps the value it had.
pub proof fn lemma_flags_win_over_file(c: Context, file: PersistedConfig, o: Overrides)
    requires
        first_invalid(o) is None,
    ensures
        ({
            let loaded = Context { cfg: overlaid(c.cfg, file), ..c };
            let r = overridden(loaded, o);
            &&& o.apikey matches Some(k) ==> r.cfg.apikey == k
            &&& o.loc matches Some(l) ==> r.cfg.loc == l
            &&& o.apikey is None ==> r.cfg.apikey == loaded.cfg.apikey
            &&& o.loc is None ==> r.cfg.loc == loaded.cfg.loc
            &&& o.tempunit matches Some(t) ==> tempunit_of(t@) == Some(r.data.tempunit)
            &&& o.tempunit is None ==> r.data.tempunit == c.data.tempunit
            &&& o.visunit matches Some(t) ==> visunit_of(t@) == Some(r.data.visunit)
            &&& o.pressunit matches Some(t) ==> pressunit_of(t@) == Some(r.data.pressunit)
            &&& o.windunit matches Some(t) ==> windunit_of(t@) == Some(r.data.windunit)
            &&& o.cached matches Some(t) ==> cached_of(t@) == Some(r.data.cached)
            &&& o.no_history matches Some(t) ==> history_of(t@) == Some(r.data.history)
        }),
{
}

} // verus!
