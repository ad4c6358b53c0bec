use vstd::prelude::*;

verus! {

/// `name` placed under the directory `dir`, with one `/` between them.
pub open spec fn joined(dir: Seq<char>, name: Seq<char>) -> Seq<char> {
    if dir.len() == 0 {
        name
    } else if dir.last() == '/' {
        dir + name
    } else {
        dir + seq!['/'] + name
    }
}

/// Puts a file name under a directory.
pub fn join_path(dir: &str, name: &str) -> (r: String)
    ensures
        r@ == joined(dir@, name@),
{
    let n = dir.unicode_len();
    if n == 0 {
        return name.to_owned();
    }
    let mut r = dir.to_owned();
    if dir.get_char(n - 1) != '/' {
        proof {
            reveal_strlit("/");
        }
        r.append("/");
    }
    r.append(name);
    r
}

/// The record kept in the configuration file between runs.
#[derive(Clone, Debug)]
pub struct Config {
    pub config_dir: String,
    pub data_dir: String,
    pub log_file_name: String,
    pub cache_file_name: String,
    pub apikey: String,
    pub loc: String,
    pub is_initialized: bool,
    pub updated_from_api: u32,
    pub lastrun: String,
}

/// What a configuration file holds; a field it lacks is `None`.
#[derive(Clone, Debug)]
pub struct PersistedConfig {
    pub config_dir: Option<String>,
    pub data_dir: Option<String>,
    pub log_file_name: Option<String>,
    pub cache_file_name: Option<String>,
    pub apikey: Option<String>,
    pub loc: Option<String>,
    pub is_initialized: Option<bool>,
    pub updated_from_api: Option<u32>,
    pub lastrun: Option<String>,
}

/// The value in `o` if there is one, else `v`.
pub open spec fn or_keep<T>(o: Option<T>, v: T) -> T {
    match o {
        Some(x) => x,
        None => v,
    }
}

fn take_or_keep(o: &Option<String>, v: &mut String)
    ensures
        *final(v) == or_keep(*o, *old(v)),
{
    match o {
        Some(x) => {
            *v = x.clone();
        },
        None => {},
    }
}

/// The record after laying the file `f` over `c`.
pub open spec fn overlaid(c: Config, f: PersistedConfig) -> Config {
    Config {
        config_dir: or_keep(f.config_dir, c.config_dir),
        data_dir: or_keep(f.data_dir, c.data_dir),
        log_file_name: or_keep(f.log_file_name, c.log_file_name),
        cache_file_name: or_keep(f.cache_file_name, c.cache_file_name),
        apikey: or_keep(f.apikey, c.apikey),
        loc: or_keep(f.loc, c.loc),
        is_initialized: or_keep(f.is_initialized, c.is_initialized),
        updated_from_api: or_keep(f.updated_from_api, c.updated_from_api),
        lastrun: or_keep(f.lastrun, c.lastrun),
    }
}

impl Config {
    /// The built-in configuration for the given directories and time of the run.
    pub fn defaults(config_dir: &str, data_dir: &str, lastrun: &str) -> (r: Config)
        ensures
            r.config_dir@ == config_dir@,
            r.data_dir@ == data_dir@,
            r.log_file_name@ == joined(data_dir@, "log.log"@),
            r.cache_file_name@ == joined(data_dir@, "cache.json"@),
            r.apikey@ == "FOO"@,
            r.loc@ == "0000"@,
            !r.is_initialized,
            r.updated_from_api == 0,
            r.lastrun@ == lastrun@,
    {
        Config {
            config_dir: config_dir.to_owned(),
            data_dir: data_dir.to_owned(),
            log_file_name: join_path(data_dir, "log.log"),
            cache_file_name: join_path(data_dir, "cache.json"),
            apikey: "FOO".to_owned(),
            loc: "0000".to_owned(),
            is_initialized: false,
            updated_from_api: 0,
            lastrun: lastrun.to_owned(),
        }
    }

    /// Lays a configuration file over this record: each field the file holds wins,
    /// each field it lacks keeps its current value.
    pub fn overlay(&mut self, file: &PersistedConfig)
        ensures
            *final(self) == overlaid(*old(self), *file),
    {
        take_or_keep(&file.config_dir, &mut self.config_dir);
        take_or_keep(&file.data_dir, &mut self.data_dir);
        take_or_keep(&file.log_file_name, &mut self.log_file_name);
        take_or_keep(&file.cache_file_name, &mut self.cache_file_name);
        take_or_keep(&file.apikey, &mut self.apikey);
        take_or_keep(&file.loc, &mut self.loc);
        take_or_keep(&file.lastrun, &mut self.lastrun);
        if let Some(b) = file.is_initialized {
            self.is_initialized = b;
        }
        if let Some(n) = file.updated_from_api {
            self.updated_from_api = n;
        }
    }

    /// The address of the forecast for this key and location, in SI units.
    pub fn forecast_url(&self) -> (r: String)
        ensures
            r@ == "https://api.darksky.net/forecast/"@ + self.apikey@ + "/"@ + self.loc@
                + "?units=si"@,
    {
        let mut r = "https://api.darksky.net/forecast/".to_owned();
        r.append(self.apikey.as_str());
        r.append("/");
        r.append(self.loc.as_str());
        r.append("?units=si");
        r
    }
}

} // verus!
