//! Options shared by every subcommand: how to reach the cjdns admin
//! interface, and how verbose the client's own logging is.

use vstd::prelude::*;

verus! {

/// How the admin interface is reached.
#[derive(PartialEq, Eq, Structural, Clone, Copy, Debug)]
pub enum EndpointType {
    /// Over UDP, at an IP address and port.
    Udp,
    /// Over a local socket or named pipe.
    Pipe,
}

/// Connection options handed to the admin client.
#[derive(Debug)]
pub struct Opts {
    pub typ: Option<EndpointType>,
    pub addr: Option<String>,
    pub port: Option<u16>,
    pub path: Option<String>,
    pub password: Option<String>,
    pub config_file_path: Option<String>,
    pub anon: bool,
}

/// A level for the client's own log output, from the quietest to the most verbose.
#[derive(PartialEq, Eq, Structural, Clone, Copy, Debug)]
pub enum LogLevel {
    Off,
    Error,
    Warn,
    Info,
    Debug,
    Trace,
}

/// How the client's own logger is set up: its filter is read from the
/// environment variable `filter_var`, `default_filter` when that is unset, and
/// its write style from `style_var`; a `level`, when present, is applied over
/// that filter.
#[derive(Debug)]
pub struct LoggerConfig {
    pub filter_var: &'static str,
    pub default_filter: &'static str,
    pub style_var: &'static str,
    pub level: Option<LogLevel>,
}

/// The options common to every subcommand, as given on the command line.
#[derive(Debug)]
pub struct CommonArgs {
    /// How many times `-v` was given.
    pub verbose: u8,
    /// How many times `-q` was given.
    pub quiet: u8,
    /// Remote IP address.
    pub address: Option<String>,
    /// Remote UDP port.
    pub port: Option<u16>,
    /// Local socket or pipe; a single hyphen asks for the default one.
    pub pipe: Option<String>,
    /// Connection password.
    pub password: Option<String>,
    /// Path of the admin config file.
    pub cjdnsadmin: Option<String>,
}

/// The pipe argument `-`, which stands for the platform's default socket.
pub open spec fn is_default_pipe(p: Seq<char>) -> bool {
    p == seq!['-']
}

/// The endpoint kind that the given arguments select: UDP when an address or a
/// port is given, else a pipe when one is given, else none (left to the config).
pub open spec fn endpoint_for(
    address: Option<String>,
    port: Option<u16>,
    pipe: Option<String>,
) -> Option<EndpointType> {
    if address is Some || port is Some {
        Some(EndpointType::Udp)
    } else if pipe is Some {
        Some(EndpointType::Pipe)
    } else {
        None
    }
}

/// The pipe path handed to the client: the given one, except that `-` means "default".
pub open spec fn pipe_path(pipe: Option<String>) -> Option<String> {
    match pipe {
        Some(p) => if is_default_pipe(p@) {
            None
        } else {
            Some(p)
        },
        None => None,
    }
}

/// The anonymous connection options that `args` describe.
pub open spec fn anon_opts(args: CommonArgs) -> Opts {
    Opts {
        typ: endpoint_for(args.address, args.port, args.pipe),
        addr: args.address,
        port: args.port,
        path: pipe_path(args.pipe),
        password: None,
        config_file_path: args.cjdnsadmin,
        anon: true,
    }
}

/// The password used for an authenticated connection: the given one, or `NONE`.
pub open spec fn auth_password(password: Option<String>) -> Seq<char> {
    match password {
        Some(p) => p@,
        None => seq!['N', 'O', 'N', 'E'],
    }
}

/// The level that `-v` and `-q` ask for, if any: `-v` info, `-vv` debug,
/// `-vvv` or more trace; otherwise `-q` error, `-qq` or more off. `-v` wins
/// over `-q`; with neither, the environment decides.
pub open spec fn level_for(verbose: u8, quiet: u8) -> Option<LogLevel> {
    if verbose > 0 {
        Some(
            if verbose == 1 {
                LogLevel::Info
            } else if verbose == 2 {
                LogLevel::Debug
            } else {
                LogLevel::Trace
            },
        )
    } else if quiet > 0 {
        Some(
            if quiet == 1 {
                LogLevel::Error
            } else {
                LogLevel::Off
            },
        )
    } else {
        None
    }
}

/// Position of a level on the scale from quietest (0) to most verbose.
pub open spec fn level_rank(l: LogLevel) -> int {
    match l {
        LogLevel::Off => 0,
        LogLevel::Error => 1,
        LogLevel::Warn => 2,
        LogLevel::Info => 3,
        LogLevel::Debug => 4,
        LogLevel::Trace => 5,
    }
}

/// Whether `p` is the single hyphen that asks for the default pipe.
fn is_hyphen(p: &String) -> (yes: bool)
    ensures
        yes == is_default_pipe(p@),
{
    let s = p.as_str();
    let n = s.unicode_len();
    if n == 1 {
        let c = s.get_char(0);
        if c == '-' {
            assert(s@ =~= seq!['-']);
            true
        } else {
            false
        }
    } else {
        false
    }
}

impl CommonArgs {
    /// The level that overrides the environment's log filter, if `-v` or `-q` was given.
    pub fn log_level(&self) -> (level: Option<LogLevel>)
        ensures
            level == level_for(self.verbose, self.quiet),
    {
        if self.verbose > 0 {
            if self.verbose == 1 {
                Some(LogLevel::Info)
            } else if self.verbose == 2 {
                Some(LogLevel::Debug)
            } else {
                Some(LogLevel::Trace)
            }
        } else if self.quiet > 0 {
            if self.quiet == 1 {
                Some(LogLevel::Error)
            } else {
                Some(LogLevel::Off)
            }
        } else {
            None
        }
    }

    /// The set-up of the client's logger: filter from `CJDNS_LOG` (`warn`
    /// when unset), style from `CJDNS_LOG_STYLE`, and the level of `-v`/`-q`
    /// over them.
    pub fn logger_config(&self) -> (config: LoggerConfig)
        ensures
            config.filter_var@ == "CJDNS_LOG"@,
            config.default_filter@ == "warn"@,
            config.style_var@ == "CJDNS_LOG_STYLE"@,
            config.level == level_for(self.verbose, self.quiet),
    {
        LoggerConfig {
            filter_var: "CJDNS_LOG",
            default_filter: "warn",
            style_var: "CJDNS_LOG_STYLE",
            level: self.log_level(),
        }
    }

    /// Options for an anonymous connection: no password, and the endpoint
    /// kind chosen from which of address, port and pipe were given.
    #[allow(clippy::wrong_self_convention)]
    pub fn as_anon(self) -> (opts: Opts)
        ensures
            opts == anon_opts(self),
            opts.addr == self.address,
            opts.port == self.port,
            opts.config_file_path == self.cjdnsadmin,
            opts.password is None,
            opts.anon,
    {
        let typ = if self.address.is_some() || self.port.is_some() {
            Some(EndpointType::Udp)
        } else if self.pipe.is_some() {
            Some(EndpointType::Pipe)
        } else {
            None
        };
        let path = match self.pipe {
            Some(p) => if is_hyphen(&p) {
                None
            } else {
                Some(p)
            },
            None => None,
        };
        Opts {
            typ,
            addr: self.address,
            port: self.port,
            path,
            password: None,
            config_file_path: self.cjdnsadmin,
            anon: true,
        }
    }

    /// Options for an authenticated connection: those of `as_anon`, with the
    /// given password (or `NONE`) and without the anonymous flag.
    pub fn with_auth(self) -> (opts: Opts)
        ensures
            opts.password is Some,
            opts.password.unwrap()@ == auth_password(self.password),
            !opts.anon,
            (Opts { password: None, anon: true, ..opts }) == anon_opts(self),
            opts.addr == self.address,
            opts.port == self.port,
            opts.config_file_path == self.cjdnsadmin,
    {
        let CommonArgs { verbose, quiet, address, port, pipe, password, cjdnsadmin } = self;
        let password = match password {
            Some(p) => p,
            None => {
                let p = String::from_str("NONE");
                proof {
                    reveal_strlit("NONE");
                }
                assert(p@ =~= seq!['N', 'O', 'N', 'E']);
                p
            },
        };
        let base = CommonArgs {
            verbose,
            quiet,
            address,
            port,
            pipe,
            password: None,
            cjdnsadmin,
        };
        let anon = base.as_anon();
        Opts { password: Some(password), anon: false, ..anon }
    }
}

/// Each additional `-v` never makes the client's logging quieter.
pub proof fn lemma_more_verbose_never_quieter(v1: u8, v2: u8, quiet: u8)
    requires
        0 < v1 <= v2,
    ensures
        level_rank(level_for(v1, quiet).unwrap()) <= level_rank(level_for(v2, quiet).unwrap()),
{
}

/// Each additional `-q` never makes the client's logging louder.
pub proof fn lemma_more_quiet_never_louder(q1: u8, q2: u8)
    requires
        0 < q1 <= q2,
    ensures
        level_rank(level_for(0, q2).unwrap()) <= level_rank(level_for(0, q1).unwrap()),
{
}

/// Once `-v` is given, `-q` has no effect, and the level is at least info.
pub proof fn lemma_verbose_overrides_quiet(verbose: u8, q1: u8, q2: u8)
    requires
        verbose > 0,
    ensures
        level_for(verbose, q1) == level_for(verbose, q2),
        level_rank(level_for(verbose, q1).unwrap()) >= level_rank(LogLevel::Info),
{
}

/// The endpoint kind is UDP exactly when an address or a port is given, and a
/// pipe exactly when a pipe but neither address nor port is given.
pub proof fn lemma_endpoint_choice(args: CommonArgs)
    ensures
        anon_opts(args).typ == Some(EndpointType::Udp) <==> (args.address is Some
            || args.port is Some),
        anon_opts(args).typ == Some(EndpointType::Pipe) <==> (args.address is None
            && args.port is None && args.pipe is Some),
        anon_opts(args).typ is None <==> (args.address is None && args.port is None
            && args.pipe is None),
{
}

/// A `-v` or `-q` on the command line always yields a level, which takes
/// precedence over the log filter of the environment; without either, the
/// environment's filter stands.
pub proof fn lemma_flags_override_environment(verbose: u8, quiet: u8)
    ensures
        level_for(verbose, quiet) is Some <==> (verbose > 0 || quiet > 0),
{
}

/// The connection options pass the given address, port and config file
/// through unchanged, whatever else is given; the pipe path is the given one
/// except that `-` asks for the default; no password is sent anonymously.
pub proof fn lemma_options_pass_arguments_through(args: CommonArgs)
    ensures
        anon_opts(args).addr == args.address,
        anon_opts(args).port == args.port,
        anon_opts(args).config_file_path == args.cjdnsadmin,
        anon_opts(args).password is None,
        anon_opts(args).anon,
        args.pipe is None ==> anon_opts(args).path is None,
        args.pipe matches Some(p) ==> (if p@ == seq!['-'] {
            anon_opts(args).path is None
        } else {
            anon_opts(args).path == Some(p)
        }),
{
}

/// The levels that the flags' help promises: `-v` info, `-vv` debug, `-vvv`
/// and more trace (whatever `-q` says); `-q` error, `-qq` and more off.
pub proof fn lemma_documented_levels(verbose: u8, quiet: u8)
    ensures
        verbose == 1 ==> level_for(verbose, quiet) == Some(LogLevel::Info),
        verbose == 2 ==> level_for(verbose, quiet) == Some(LogLevel::Debug),
        verbose >= 3 ==> level_for(verbose, quiet) == Some(LogLevel::Trace),
        verbose == 0 && quiet == 1 ==> level_for(verbose, quiet) == Some(LogLevel::Error),
        verbose == 0 && quiet >= 2 ==> level_for(verbose, quiet) == Some(LogLevel::Off),
{
}

} // verus!
