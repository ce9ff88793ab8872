use vstd::prelude::*;

verus! {

/// Colour scheme of the monitor's terminal interface.
#[derive(Clone, Copy, Debug, PartialEq, Eq, Structural)]
pub enum AppTheme {
    Default,
    MidnightGreen,
    IAmBlue,
    SolarizedDark,
}

/// Stats socket used when none is configured.
pub const STATS_SOCKET_PATH: &'static str = "/var/run/scx/root/stats";
/// Prefix of trace files when none is configured.
pub const TRACE_FILE_PREFIX: &'static str = "scxtop_trace";
/// Tick rate in milliseconds when none is configured.
pub const DEFAULT_TICK_RATE_MS: usize = 250;
/// Number of ticks a trace covers when none is configured.
pub const DEFAULT_TRACE_TICKS: usize = 5;
/// Number of worker threads when none is configured.
pub const DEFAULT_WORKER_THREADS: u16 = 4;
/// Number of warmup ticks before a trace when none is configured.
pub const DEFAULT_TRACE_TICK_WARMUP: usize = 3;

/// Settings of the monitor. Every field is optional: a field left unset
/// falls back to a default when read, and merging configs keeps the first
/// value that is set.
#[derive(Clone, Debug)]
pub struct Config {
    /// Key mappings, as pairs of key text and action text.
    pub keymap: Option<Vec<(String, String)>>,
    /// Interface theme.
    pub theme: Option<AppTheme>,
    /// Tick rate in milliseconds.
    pub tick_rate_ms: Option<usize>,
    /// Extra verbose output.
    pub debug: Option<bool>,
    /// Exclude bpf event tracking.
    pub exclude_bpf: Option<bool>,
    /// Stats unix socket path.
    pub stats_socket_path: Option<String>,
    /// Trace file prefix for perfetto traces.
    pub trace_file_prefix: Option<String>,
    /// Number of ticks for traces.
    pub trace_ticks: Option<usize>,
    /// Number of worker threads.
    pub worker_threads: Option<u16>,
    /// Number of ticks to warm up before collecting traces.
    pub trace_tick_warmup: Option<usize>,
}

/// The first of two optional values that is set.
pub open spec fn first_set<T>(a: Option<T>, b: Option<T>) -> Option<T> {
    match a {
        Some(_) => a,
        None => b,
    }
}

/// The config with no field set.
pub open spec fn spec_empty_config() -> Config {
    Config {
        keymap: None,
        theme: None,
        tick_rate_ms: None,
        debug: None,
        exclude_bpf: None,
        stats_socket_path: None,
        trace_file_prefix: None,
        trace_ticks: None,
        worker_threads: None,
        trace_tick_warmup: None,
    }
}

/// Field by field, the value of `a` where it is set, else that of `b`.
pub open spec fn spec_or(a: Config, b: Config) -> Config {
    Config {
        keymap: first_set(a.keymap, b.keymap),
        theme: first_set(a.theme, b.theme),
        tick_rate_ms: first_set(a.tick_rate_ms, b.tick_rate_ms),
        debug: first_set(a.debug, b.debug),
        exclude_bpf: first_set(a.exclude_bpf, b.exclude_bpf),
        stats_socket_path: first_set(a.stats_socket_path, b.stats_socket_path),
        trace_file_prefix: first_set(a.trace_file_prefix, b.trace_file_prefix),
        trace_ticks: first_set(a.trace_ticks, b.trace_ticks),
        worker_threads: first_set(a.worker_threads, b.worker_threads),
        trace_tick_warmup: first_set(a.trace_tick_warmup, b.trace_tick_warmup),
    }
}

/// Folds `rest` into `acc` from the left with `spec_or`.
pub open spec fn merge_into(acc: Config, rest: Seq<Config>) -> Config
    decreases rest.len(),
{
    if rest.len() == 0 {
        acc
    } else {
        merge_into(spec_or(acc, rest[0]), rest.skip(1))
    }
}

/// The merge of a sequence of configs: earlier configs take precedence.
pub open spec fn spec_merge(configs: Seq<Config>) -> Config {
    merge_into(spec_empty_config(), configs)
}

/// The value of an optional setting, or its default.
pub open spec fn or_default<T>(v: Option<T>, d: T) -> T {
    match v {
        Some(x) => x,
        None => d,
    }
}

fn first_set_of<T>(a: Option<T>, b: Option<T>) -> (r: Option<T>)
    ensures
        r == first_set(a, b),
{
    match a {
        Some(x) => Some(x),
        None => b,
    }
}

impl Config {
    /// Merges configs in order: for each field the first config that sets it wins.
    pub fn merge(configs: Vec<Config>) -> (r: Config)
        ensures
            r == spec_merge(configs@),
    {
        let mut rest = configs;
        let mut acc = Config::empty_config();
        while rest.len() > 0
            invariant
                merge_into(acc, rest@) == spec_merge(configs@),
            decreases rest.len(),
        {
            let ghost before = rest@;
            let next = rest.remove(0);
            assert(rest@ =~= before.skip(1));
            acc = acc.or(next);
        }
        acc
    }

    /// Field by field, the value of `self` where it is set, else that of `rhs`.
    pub fn or(self, rhs: Self) -> (r: Self)
        ensures
            r == spec_or(self, rhs),
    {
        Config {
            keymap: first_set_of(self.keymap, rhs.keymap),
            theme: first_set_of(self.theme, rhs.theme),
            tick_rate_ms: first_set_of(self.tick_rate_ms, rhs.tick_rate_ms),
            debug: first_set_of(self.debug, rhs.debug),
            exclude_bpf: first_set_of(self.exclude_bpf, rhs.exclude_bpf),
            stats_socket_path: first_set_of(self.stats_socket_path, rhs.stats_socket_path),
            trace_file_prefix: first_set_of(self.trace_file_prefix, rhs.trace_file_prefix),
            trace_ticks: first_set_of(self.trace_ticks, rhs.trace_ticks),
            worker_threads: first_set_of(self.worker_threads, rhs.worker_threads),
            trace_tick_warmup: first_set_of(self.trace_tick_warmup, rhs.trace_tick_warmup),
        }
    }

    /// The theme, `AppTheme::Default` when unset.
    pub fn theme(&self) -> (r: &AppTheme)
        ensures
            *r == or_default(self.theme, AppTheme::Default),
    {
        match &self.theme {
            Some(theme) => theme,
            None => &AppTheme::Default,
        }
    }

    /// Sets the theme.
    pub fn set_theme(&mut self, theme: AppTheme)
        ensures
            *final(self) == (Config { theme: Some(theme), ..*old(self) }),
    {
        self.theme = Some(theme);
    }

    /// Tick rate in milliseconds, 250 when unset.
    pub fn tick_rate_ms(&self) -> (r: usize)
        ensures
            r == or_default(self.tick_rate_ms, DEFAULT_TICK_RATE_MS),
    {
        match self.tick_rate_ms {
            Some(v) => v,
            None => DEFAULT_TICK_RATE_MS,
        }
    }

    /// Sets the tick rate in milliseconds.
    pub fn set_tick_rate_ms(&mut self, tick_rate_ms: usize)
        ensures
            *final(self) == (Config { tick_rate_ms: Some(tick_rate_ms), ..*old(self) }),
    {
        self.tick_rate_ms = Some(tick_rate_ms);
    }

    /// Extra verbose output, off when unset.
    pub fn debug(&self) -> (r: bool)
        ensures
            r == or_default(self.debug, false),
    {
        match self.debug {
            Some(v) => v,
            None => false,
        }
    }

    /// Exclude bpf event tracking, off when unset.
    pub fn exclude_bpf(&self) -> (r: bool)
        ensures
            r == or_default(self.exclude_bpf, false),
    {
        match self.exclude_bpf {
            Some(v) => v,
            None => false,
        }
    }

    /// Stats unix socket path, `STATS_SOCKET_PATH` when unset.
    pub fn stats_socket_path(&self) -> (r: &str)
        ensures
            r@ == (match self.stats_socket_path {
                Some(p) => p@,
                None => STATS_SOCKET_PATH@,
            }),
    {
        match &self.stats_socket_path {
            Some(stats_socket_path) => stats_socket_path.as_str(),
            None => STATS_SOCKET_PATH,
        }
    }

    /// Trace file prefix for perfetto traces, `TRACE_FILE_PREFIX` when unset.
    pub fn trace_file_prefix(&self) -> (r: &str)
        ensures
            r@ == (match self.trace_file_prefix {
                Some(p) => p@,
                None => TRACE_FILE_PREFIX@,
            }),
    {
        match &self.trace_file_prefix {
            Some(trace_file_prefix) => trace_file_prefix.as_str(),
            None => TRACE_FILE_PREFIX,
        }
    }

    /// Number of ticks for traces, 5 when unset.
    pub fn trace_ticks(&self) -> (r: usize)
        ensures
            r == or_default(self.trace_ticks, DEFAULT_TRACE_TICKS),
    {
        match self.trace_ticks {
            Some(v) => v,
            None => DEFAULT_TRACE_TICKS,
        }
    }

    /// Number of worker threads, 4 when unset.
    pub fn worker_threads(&self) -> (r: u16)
        ensures
            r == or_default(self.worker_threads, DEFAULT_WORKER_THREADS),
    {
        match self.worker_threads {
            Some(v) => v,
            None => DEFAULT_WORKER_THREADS,
        }
    }

    /// Number of ticks to warm up before collecting traces, 3 when unset.
    pub fn trace_tick_warmup(&self) -> (r: usize)
        ensures
            r == or_default(self.trace_tick_warmup, DEFAULT_TRACE_TICK_WARMUP),
    {
        match self.trace_tick_warmup {
            Some(v) => v,
            None => DEFAULT_TRACE_TICK_WARMUP,
        }
    }

    /// A config with nothing set.
    pub fn empty_config() -> (r: Config)
        ensures
            r == spec_empty_config(),
    {
        Config {
            keymap: None,
            theme: None,
            tick_rate_ms: None,
            debug: None,
            exclude_bpf: None,
            stats_socket_path: None,
            trace_file_prefix: None,
            trace_ticks: None,
            worker_threads: None,
            trace_tick_warmup: None,
        }
    }

    /// The default config: the tick rate, debug and bpf exclusion set to their
    /// defaults, everything else unset.
    pub fn default_config() -> (r: Config)
        ensures
            r == (Config {
                tick_rate_ms: Some(DEFAULT_TICK_RATE_MS),
                debug: Some(false),
                exclude_bpf: Some(false),
                ..spec_empty_config()
            }),
    {
        let mut config = Config::empty_config();
        config.tick_rate_ms = Some(config.tick_rate_ms());
        config.debug = Some(config.debug());
        config.exclude_bpf = Some(config.exclude_bpf());
        config
    }
}

} // verus!
