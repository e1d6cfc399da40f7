//! Command-line arguments: the flags, what each does to the configuration,
//! and the order in which they are read. Reading a configuration file is
//! left to the caller, who is told which file to read and hands back what
//! came of it.

use vstd::prelude::*;
use vstd::string::*;
use vstd::view::View as _;
use crate::chars::{equals, range_to_string, starts_with, to_chars};

verus! {

/// Whether standard output is a terminal, as `atty::is` reports it for
/// `atty::Stream::Stdout`. The body calls into `atty` and is not verified;
/// the answer depends on how the program was started, so nothing is
/// promised of it.
#[verifier::external_body]
fn stdout_is_tty() -> (tty: bool) {
    atty::is(atty::Stream::Stdout)
}

/// Why a command line was turned down.
#[derive(Debug)]
pub struct ArgError {
    details: String,
}

impl vstd::view::View for ArgError {
    type V = Seq<char>;

    closed spec fn view(&self) -> Seq<char> {
        self.details@
    }
}

impl ArgError {
    /// An error with the given message.
    pub fn new(err: &str) -> (e: ArgError)
        ensures
            e@ == err@,
    {
        ArgError { details: String::from_str(err) }
    }

    /// The message of the error.
    pub fn description(&self) -> (s: &str)
        ensures
            s@ == self@,
    {
        self.details.as_str()
    }

    /// The message of the error, as shown to the user.
    pub fn to_string(&self) -> (s: String)
        ensures
            s@ == self@,
    {
        self.details.clone()
    }
}

/// What the program is to do.
#[derive(Copy, Clone, PartialEq, Eq, Debug, Structural)]
pub enum Mode {
    /// Browse interactively.
    Run,
    /// Print the rendered page and leave.
    Print,
    /// As `Print`, because standard output is no terminal.
    NoTTY,
    /// Print the response as it came and leave.
    Raw,
    /// Print the version and leave.
    Version,
    /// Print the help text and leave.
    Help,
}

/// The settings that a session starts with.
#[derive(Debug)]
pub struct Config {
    /// The address to open first.
    pub start: String,
    /// Whether to try TLS.
    pub tls: bool,
    /// Whether to connect through Tor.
    pub tor: bool,
    /// Whether menus are drawn wide.
    pub wide: bool,
    /// What the program is to do.
    pub mode: Mode,
}

/// Settings as a mathematical value.
pub ghost struct ConfigView {
    pub start: Seq<char>,
    pub tls: bool,
    pub tor: bool,
    pub wide: bool,
    pub mode: Mode,
}

impl vstd::view::View for Config {
    type V = ConfigView;

    open spec fn view(&self) -> ConfigView {
        ConfigView {
            start: self.start@,
            tls: self.tls,
            tor: self.tor,
            wide: self.wide,
            mode: self.mode,
        }
    }
}

impl Config {
    /// Settings that start at `start`, without TLS or Tor, not wide, to
    /// browse interactively.
    pub fn new(start: &str) -> (cfg: Config)
        ensures
            cfg@ == (ConfigView {
                start: start@,
                tls: false,
                tor: false,
                wide: false,
                mode: Mode::Run,
            }),
    {
        Config { start: String::from_str(start), tls: false, tor: false, wide: false, mode: Mode::Run }
    }

    /// A copy of the settings.
    pub fn copy(&self) -> (cfg: Config)
        ensures
            cfg@ == self@,
    {
        Config {
            start: self.start.clone(),
            tls: self.tls,
            tor: self.tor,
            wide: self.wide,
            mode: self.mode,
        }
    }
}

/// What the caller of `Parser::advance` is to do next.
#[derive(Debug)]
pub enum Step {
    /// Read the configuration file of this name and hand the outcome to
    /// `Parser::loaded`, then go on with `Parser::advance`.
    Load(String),
    /// The arguments ask for the version or the help text: these are the
    /// settings, and nothing more is read.
    Exit(Config),
    /// The command line is turned down.
    Failed(ArgError),
    /// Every argument is read: `Parser::finish` gives the settings.
    End,
}

/// A step as a mathematical value.
pub ghost enum StepView {
    Load(Seq<char>),
    Exit(ConfigView),
    Failed(Seq<char>),
    End,
}

impl vstd::view::View for Step {
    type V = StepView;

    open spec fn view(&self) -> StepView {
        match *self {
            Step::Load(file) => StepView::Load(file@),
            Step::Exit(cfg) => StepView::Exit(cfg@),
            Step::Failed(err) => StepView::Failed(err@),
            Step::End => StepView::End,
        }
    }
}

/// The state of reading a command line.
pub struct Parser {
    cfg: Config,
    defaults: Config,
    tls_available: bool,
    next: usize,
    got_url: bool,
    set_tls: bool,
    set_notls: bool,
    set_tor: bool,
    set_notor: bool,
    set_cfg: bool,
    set_nocfg: bool,
}

/// The state of reading a command line, as a mathematical value.
pub ghost struct ParserView {
    /// The settings so far.
    pub cfg: ConfigView,
    /// The settings that `--no-config` goes back to.
    pub defaults: ConfigView,
    /// Whether the program can do TLS at all.
    pub tls_available: bool,
    /// The index of the next argument to read.
    pub next: int,
    /// Whether an address was given.
    pub got_url: bool,
    pub set_tls: bool,
    pub set_notls: bool,
    pub set_tor: bool,
    pub set_notor: bool,
    pub set_cfg: bool,
    pub set_nocfg: bool,
}

impl vstd::view::View for Parser {
    type V = ParserView;

    closed spec fn view(&self) -> ParserView {
        ParserView {
            cfg: self.cfg@,
            defaults: self.defaults@,
            tls_available: self.tls_available,
            next: self.next as int,
            got_url: self.got_url,
            set_tls: self.set_tls,
            set_notls: self.set_notls,
            set_tor: self.set_tor,
            set_notor: self.set_notor,
            set_cfg: self.set_cfg,
            set_nocfg: self.set_nocfg,
        }
    }
}

/// Whether `arg` is one of the three spellings of a flag.
pub open spec fn names(arg: Seq<char>, short: Seq<char>, long: Seq<char>, plain: Seq<char>) -> bool {
    arg == short || arg == long || arg == plain
}

/// The file named in an argument of the form `--config=FILE` or
/// `-config=FILE`, if the argument has that form.
pub open spec fn config_file(arg: Seq<char>) -> Option<Seq<char>> {
    if "--config="@.is_prefix_of(arg) {
        Some(arg.skip(9))
    } else if "-config="@.is_prefix_of(arg) {
        Some(arg.skip(8))
    } else {
        None
    }
}

/// What an argument is.
#[derive(Debug)]
pub enum Flag {
    Version,
    Help,
    Raw,
    Print,
    Local,
    NoConfig,
    /// `--config`, with the file's name in the next argument.
    Config,
    /// `--config=FILE`, with the file's name.
    ConfigFile(String),
    Tls,
    NoTls,
    Tor,
    NoTor,
    /// Something else that begins with a dash.
    Unknown,
    /// Anything else: the address to start at.
    Address,
}

/// What an argument is, as a mathematical value.
pub ghost enum FlagView {
    Version,
    Help,
    Raw,
    Print,
    Local,
    NoConfig,
    Config,
    ConfigFile(Seq<char>),
    Tls,
    NoTls,
    Tor,
    NoTor,
    Unknown,
    Address,
}

impl vstd::view::View for Flag {
    type V = FlagView;

    open spec fn view(&self) -> FlagView {
        match *self {
            Flag::Version => FlagView::Version,
            Flag::Help => FlagView::Help,
            Flag::Raw => FlagView::Raw,
            Flag::Print => FlagView::Print,
            Flag::Local => FlagView::Local,
            Flag::NoConfig => FlagView::NoConfig,
            Flag::Config => FlagView::Config,
            Flag::ConfigFile(file) => FlagView::ConfigFile(file@),
            Flag::Tls => FlagView::Tls,
            Flag::NoTls => FlagView::NoTls,
            Flag::Tor => FlagView::Tor,
            Flag::NoTor => FlagView::NoTor,
            Flag::Unknown => FlagView::Unknown,
            Flag::Address => FlagView::Address,
        }
    }
}

/// What the argument `arg` is: each flag has a short spelling, a long one
/// with two dashes and the long one with a single dash.
pub open spec fn flag_of(arg: Seq<char>) -> FlagView {
    if names(arg, "-v"@, "--version"@, "-version"@) {
        FlagView::Version
    } else if names(arg, "-h"@, "--help"@, "-help"@) {
        FlagView::Help
    } else if names(arg, "-r"@, "--raw"@, "-raw"@) {
        FlagView::Raw
    } else if names(arg, "-p"@, "--print"@, "-print"@) {
        FlagView::Print
    } else if names(arg, "-l"@, "--local"@, "-local"@) {
        FlagView::Local
    } else if names(arg, "-C"@, "--no-config"@, "-no-config"@) {
        FlagView::NoConfig
    } else if names(arg, "-c"@, "--config"@, "-config"@) {
        FlagView::Config
    } else if config_file(arg) is Some {
        FlagView::ConfigFile(config_file(arg)->0)
    } else if names(arg, "-s"@, "--tls"@, "-tls"@) {
        FlagView::Tls
    } else if names(arg, "-S"@, "--no-tls"@, "-no-tls"@) {
        FlagView::NoTls
    } else if names(arg, "-o"@, "--tor"@, "-tor"@) {
        FlagView::Tor
    } else if names(arg, "-O"@, "--no-tor"@, "-no-tor"@) {
        FlagView::NoTor
    } else if "-"@.is_prefix_of(arg) {
        FlagView::Unknown
    } else {
        FlagView::Address
    }
}

impl ParserView {
    /// The state before any argument is read.
    pub open spec fn start(cfg: ConfigView, defaults: ConfigView, tls_available: bool) -> ParserView {
        ParserView {
            cfg,
            defaults,
            tls_available,
            next: 0,
            got_url: false,
            set_tls: false,
            set_notls: false,
            set_tor: false,
            set_notor: false,
            set_cfg: false,
            set_nocfg: false,
        }
    }

    /// The state with other settings.
    pub open spec fn with(self, cfg: ConfigView) -> ParserView {
        ParserView { cfg, ..self }
    }

    /// The state after the argument at `next` is read, and the step that
    /// it calls for, if it calls for one.
    pub open spec fn read(self, args: Seq<Seq<char>>) -> (ParserView, Option<StepView>) {
        self.apply(flag_of(args[self.next]), args)
    }

    /// The state after the argument at `next`, which is `flag`, is taken,
    /// and the step that it calls for, if it calls for one.
    #[verifier::opaque]
    pub open spec fn apply(self, flag: FlagView, args: Seq<Seq<char>>) -> (
        ParserView,
        Option<StepView>,
    ) {
        let (p, step) = match flag {
            FlagView::Version => self.mode_flag(flag, args.len() as int),
            FlagView::Help => self.mode_flag(flag, args.len() as int),
            FlagView::Raw => self.mode_flag(flag, args.len() as int),
            FlagView::Print => self.mode_flag(flag, args.len() as int),
            FlagView::Local => self.mode_flag(flag, args.len() as int),
            FlagView::NoConfig => self.config_flag(flag, args),
            FlagView::Config => self.config_flag(flag, args),
            FlagView::ConfigFile(_) => self.config_flag(flag, args),
            FlagView::Unknown => self.unknown(args[self.next]),
            FlagView::Address => self.address(args[self.next]),
            _ => self.transport_flag(flag),
        };
        (p.past(), step)
    }

    /// The state with the argument at `next` counted as read.
    pub open spec fn past(self) -> ParserView {
        ParserView { next: self.next + 1, ..self }
    }

    /// What a flag does that says what the program is to do, or where to
    /// start.
    pub open spec fn mode_flag(self, flag: FlagView, total: int) -> (ParserView, Option<StepView>) {
        match flag {
            FlagView::Version => self.leave(Mode::Version),
            FlagView::Help => self.leave(Mode::Help),
            FlagView::Raw => self.raw(total),
            FlagView::Print => self.print(),
            _ => self.local(),
        }
    }

    /// What a flag does that is about the configuration file.
    pub open spec fn config_flag(self, flag: FlagView, args: Seq<Seq<char>>) -> (
        ParserView,
        Option<StepView>,
    ) {
        match flag {
            FlagView::NoConfig => self.no_config(),
            FlagView::ConfigFile(file) => self.config_file(file),
            _ => self.config(args),
        }
    }

    /// What a flag does that is about how to connect.
    pub open spec fn transport_flag(self, flag: FlagView) -> (ParserView, Option<StepView>) {
        match flag {
            FlagView::Tls => self.tls(),
            FlagView::NoTls => self.no_tls(),
            FlagView::Tor => self.tor(),
            _ => self.no_tor(),
        }
    }

    /// The version or the help text is asked for: the settings so far,
    /// with that mode, are final.
    pub open spec fn leave(self, mode: Mode) -> (ParserView, Option<StepView>) {
        (self, Some(StepView::Exit(ConfigView { mode, ..self.cfg })))
    }

    /// The raw response is asked for, which takes an address beside the
    /// flag: `total` is the number of arguments.
    pub open spec fn raw(self, total: int) -> (ParserView, Option<StepView>) {
        if total > 1 {
            (self.with(ConfigView { mode: Mode::Raw, ..self.cfg }), None)
        } else {
            (self, Some(StepView::Failed("--raw needs gopher-url"@)))
        }
    }

    /// The page is to be printed.
    pub open spec fn print(self) -> (ParserView, Option<StepView>) {
        (self.with(ConfigView { mode: Mode::Print, ..self.cfg }), None)
    }

    /// The start is the server on this machine.
    pub open spec fn local(self) -> (ParserView, Option<StepView>) {
        (self.with(ConfigView { start: "gopher://127.0.0.1:7070"@, ..self.cfg }), None)
    }

    /// The argument `arg` begins with a dash and is no flag.
    pub open spec fn unknown(self, arg: Seq<char>) -> (ParserView, Option<StepView>) {
        (self, Some(StepView::Failed("unknown flag: "@ + arg)))
    }

    /// No configuration file is wanted: the settings go back to the
    /// defaults, unless a file was asked for before.
    pub open spec fn no_config(self) -> (ParserView, Option<StepView>) {
        if self.set_cfg {
            (self, Some(StepView::Failed("can't mix --config and --no-config"@)))
        } else {
            (ParserView { set_nocfg: true, cfg: self.defaults, ..self }, None)
        }
    }

    /// A configuration file is asked for, named by the argument after the
    /// one at `next`, which is read with it, unless no file was wanted
    /// before or no argument is left.
    pub open spec fn config(self, args: Seq<Seq<char>>) -> (ParserView, Option<StepView>) {
        if self.set_nocfg {
            (self, Some(StepView::Failed("can't mix --config and --no-config"@)))
        } else if self.next + 1 < args.len() {
            (
                ParserView { set_cfg: true, next: self.next + 1, ..self },
                Some(StepView::Load(args[self.next + 1])),
            )
        } else {
            (ParserView { set_cfg: true, ..self }, Some(StepView::Failed("need a config file"@)))
        }
    }

    /// The configuration file `file` is asked for, unless none was wanted
    /// before.
    pub open spec fn config_file(self, file: Seq<char>) -> (ParserView, Option<StepView>) {
        if self.set_nocfg {
            (self, Some(StepView::Failed("can't mix --config and --no-config"@)))
        } else {
            (ParserView { set_cfg: true, ..self }, Some(StepView::Load(file)))
        }
    }

    /// TLS is asked for, unless it was declined before or the program
    /// cannot do it.
    pub open spec fn tls(self) -> (ParserView, Option<StepView>) {
        if self.set_notls {
            (self, Some(StepView::Failed("can't set both --tls and --no-tls"@)))
        } else {
            let q = ParserView { set_tls: true, cfg: ConfigView { tls: true, ..self.cfg }, ..self };
            if self.tls_available {
                (q, None)
            } else {
                (q, Some(StepView::Failed("phetch was compiled without TLS support"@)))
            }
        }
    }

    /// TLS is declined, unless it was asked for before.
    pub open spec fn no_tls(self) -> (ParserView, Option<StepView>) {
        if self.set_tls {
            (self, Some(StepView::Failed("can't set both --tls and --no-tls"@)))
        } else {
            (
                ParserView { set_notls: true, cfg: ConfigView { tls: false, ..self.cfg }, ..self },
                None,
            )
        }
    }

    /// Tor is asked for, unless it was declined before.
    pub open spec fn tor(self) -> (ParserView, Option<StepView>) {
        if self.set_notor {
            (self, Some(StepView::Failed("can't set both --tor and --no-tor"@)))
        } else {
            (ParserView { set_tor: true, cfg: ConfigView { tor: true, ..self.cfg }, ..self }, None)
        }
    }

    /// Tor is declined, unless it was asked for before.
    pub open spec fn no_tor(self) -> (ParserView, Option<StepView>) {
        if self.set_tor {
            (self, Some(StepView::Failed("can't set both --tor and --no-tor"@)))
        } else {
            (
                ParserView { set_notor: true, cfg: ConfigView { tor: false, ..self.cfg }, ..self },
                None,
            )
        }
    }

    /// The argument `arg` is the address to start at, unless one was given
    /// before.
    pub open spec fn address(self, arg: Seq<char>) -> (ParserView, Option<StepView>) {
        if self.got_url {
            (self, Some(StepView::Failed("unknown argument: "@ + arg)))
        } else {
            (ParserView { got_url: true, cfg: ConfigView { start: arg, ..self.cfg }, ..self }, None)
        }
    }

    /// The state after arguments are read from `next` on until one calls
    /// for a step or none is left, and that step.
    pub open spec fn advance(self, args: Seq<Seq<char>>) -> (ParserView, StepView)
        decreases args.len() - self.next,
    {
        if 0 <= self.next < args.len() {
            proof {
                lemma_apply_moves_on(self, flag_of(args[self.next]), args);
            }
            let (p, step) = self.read(args);
            if step is Some {
                (p, step->0)
            } else {
                p.advance(args)
            }
        } else {
            (self, StepView::End)
        }
    }

    /// The state after a configuration file was read, and the error if it
    /// could not be: the file's settings take the place of those so far.
    pub open spec fn loaded(self, outcome: Result<ConfigView, Seq<char>>) -> (
        ParserView,
        Option<Seq<char>>,
    ) {
        match outcome {
            Ok(cfg) => (self.with(cfg), None),
            Err(e) => (self, Some("error loading config: "@ + e)),
        }
    }

    /// Whether `r` can come of reading the command line from this state
    /// on: the arguments are read until one calls for a step; a
    /// configuration file that is asked for is read by `load`, and the
    /// reading goes on with what it answers unless that is a failure; in
    /// the end the settings are finished, given whether standard output is
    /// a terminal.
    pub open spec fn reads<F: Fn(&String) -> Result<Config, String>>(
        self,
        args: Seq<Seq<char>>,
        load: F,
        tty: bool,
        r: Result<ConfigView, Seq<char>>,
    ) -> bool
        decreases args.len() - self.next,
    {
        let (p, step) = self.advance(args);
        match step {
            StepView::Load(file) => exists|outcome: Result<ConfigView, Seq<char>>|
                answers(load, file, outcome) && match (#[trigger] p.loaded(outcome)).1 {
                    Some(e) => r == Err::<ConfigView, Seq<char>>(e),
                    None => self.next < p.next <= args.len() && p.loaded(outcome).0.reads(
                        args,
                        load,
                        tty,
                        r,
                    ),
                },
            StepView::Exit(cfg) => r == Ok::<ConfigView, Seq<char>>(cfg),
            StepView::Failed(e) => r == Err::<ConfigView, Seq<char>>(e),
            StepView::End => r == p.finish(tty),
        }
    }

    /// The settings once every argument is read. Tor and TLS together are
    /// turned down. Where standard output is no terminal the mode says so.
    pub open spec fn finish(self, tty: bool) -> Result<ConfigView, Seq<char>> {
        if self.cfg.tor && self.cfg.tls {
            Err("can't set both --tor and --tls"@)
        } else if tty {
            Ok(self.cfg)
        } else {
            Ok(ConfigView { mode: Mode::NoTTY, ..self.cfg })
        }
    }
}

/// The characters of each argument.
pub open spec fn arg_views(args: Seq<String>) -> Seq<Seq<char>> {
    Seq::new(args.len(), |i: int| args[i]@)
}

/// The outcome of `finish` as a mathematical value.
pub open spec fn outcome_view(r: Result<Config, ArgError>) -> Result<ConfigView, Seq<char>> {
    match r {
        Ok(cfg) => Ok(cfg@),
        Err(e) => Err(e@),
    }
}

/// What came of reading a configuration file, as a mathematical value.
pub open spec fn load_view(outcome: Result<Config, String>) -> Result<ConfigView, Seq<char>> {
    match outcome {
        Ok(cfg) => Ok(cfg@),
        Err(e) => Err(e@),
    }
}

/// Whether `outcome` is something that `load` can answer when it is asked
/// for the configuration file named `file`.
pub open spec fn answers<F: Fn(&String) -> Result<Config, String>>(
    load: F,
    file: Seq<char>,
    outcome: Result<ConfigView, Seq<char>>,
) -> bool {
    exists|name: String, answer: Result<Config, String>|
        name@ == file && load_view(answer) == outcome && #[trigger] call_ensures(
            load,
            (&name,),
            answer,
        )
}

/// The error that was raised, if one was, as a mathematical value.
pub open spec fn error_view(err: Option<ArgError>) -> Option<Seq<char>> {
    match err {
        Some(e) => Some(e@),
        None => None,
    }
}

/// The step that was called for, if one was, as a mathematical value.
pub open spec fn step_view(step: Option<Step>) -> Option<StepView> {
    match step {
        Some(s) => Some(s@),
        None => None,
    }
}

/// Whether `arg` is one of the three spellings of a flag.
fn is_flag(arg: &Vec<char>, short: &str, long: &str, plain: &str) -> (b: bool)
    ensures
        b == names(arg@, short@, long@, plain@),
{
    equals(arg, short) || equals(arg, long) || equals(arg, plain)
}

/// A failure with `message` followed by `arg`.
fn failed_on(message: &str, arg: &str) -> (step: Step)
    ensures
        step@ == StepView::Failed(message@ + arg@),
{
    let mut text = String::from_str(message);
    text.append(arg);
    Step::Failed(ArgError::new(text.as_str()))
}

/// A failure with `message`.
fn failed(message: &str) -> (step: Step)
    ensures
        step@ == StepView::Failed(message@),
{
    Step::Failed(ArgError::new(message))
}

/// Tells what an argument is.
pub fn classify(text: &str) -> (flag: Flag)
    ensures
        flag@ == flag_of(text@),
{
    let arg = to_chars(text);
    if is_flag(&arg, "-v", "--version", "-version") {
        Flag::Version
    } else if is_flag(&arg, "-h", "--help", "-help") {
        Flag::Help
    } else if is_flag(&arg, "-r", "--raw", "-raw") {
        Flag::Raw
    } else if is_flag(&arg, "-p", "--print", "-print") {
        Flag::Print
    } else if is_flag(&arg, "-l", "--local", "-local") {
        Flag::Local
    } else if is_flag(&arg, "-C", "--no-config", "-no-config") {
        Flag::NoConfig
    } else if is_flag(&arg, "-c", "--config", "-config") {
        Flag::Config
    } else if starts_with(&arg, "--config=") {
        proof {
            reveal_strlit("--config=");
        }
        let file = range_to_string(&arg, 9, arg.len());
        assert(file@ =~= arg@.skip(9));
        Flag::ConfigFile(file)
    } else if starts_with(&arg, "-config=") {
        proof {
            reveal_strlit("-config=");
        }
        let file = range_to_string(&arg, 8, arg.len());
        assert(file@ =~= arg@.skip(8));
        Flag::ConfigFile(file)
    } else if is_flag(&arg, "-s", "--tls", "-tls") {
        Flag::Tls
    } else if is_flag(&arg, "-S", "--no-tls", "-no-tls") {
        Flag::NoTls
    } else if is_flag(&arg, "-o", "--tor", "-tor") {
        Flag::Tor
    } else if is_flag(&arg, "-O", "--no-tor", "-no-tor") {
        Flag::NoTor
    } else if starts_with(&arg, "-") {
        Flag::Unknown
    } else {
        Flag::Address
    }
}

/// Taking an argument moves the parser on by one argument, or by two
/// where the second names a configuration file.
pub proof fn lemma_apply_moves_on(p: ParserView, flag: FlagView, args: Seq<Seq<char>>)
    requires
        0 <= p.next < args.len(),
    ensures
        p.next < p.apply(flag, args).0.next <= args.len(),
{
    match flag {
        FlagView::Version => lemma_apply_mode(p, flag, args),
        FlagView::Help => lemma_apply_mode(p, flag, args),
        FlagView::Raw => lemma_apply_mode(p, flag, args),
        FlagView::Print => lemma_apply_mode(p, flag, args),
        FlagView::Local => lemma_apply_mode(p, flag, args),
        FlagView::NoConfig => lemma_apply_config(p, flag, args),
        FlagView::Config => lemma_apply_config(p, flag, args),
        FlagView::ConfigFile(_) => lemma_apply_config(p, flag, args),
        FlagView::Tls => lemma_apply_transport(p, flag, args),
        FlagView::NoTls => lemma_apply_transport(p, flag, args),
        FlagView::Tor => lemma_apply_transport(p, flag, args),
        FlagView::NoTor => lemma_apply_transport(p, flag, args),
        FlagView::Unknown => lemma_apply_unknown(p, flag, args),
        FlagView::Address => lemma_apply_address(p, flag, args),
    }
}

/// What `apply` does with a flag that says what the program is to do.
proof fn lemma_apply_mode(p: ParserView, flag: FlagView, args: Seq<Seq<char>>)
    requires
        flag is Version || flag is Help || flag is Raw || flag is Print || flag is Local,
    ensures
        p.apply(flag, args) == (p.mode_flag(flag, args.len() as int).0.past(), p.mode_flag(flag, args.len() as int).1),
{
    reveal(ParserView::apply);
}

/// What `apply` does with a flag that is about the configuration file.
proof fn lemma_apply_config(p: ParserView, flag: FlagView, args: Seq<Seq<char>>)
    requires
        flag is NoConfig || flag is Config || flag is ConfigFile,
    ensures
        p.apply(flag, args) == (p.config_flag(flag, args).0.past(), p.config_flag(flag, args).1),
{
    reveal(ParserView::apply);
}

/// What `apply` does with a flag that is about how to connect.
proof fn lemma_apply_transport(p: ParserView, flag: FlagView, args: Seq<Seq<char>>)
    requires
        flag is Tls || flag is NoTls || flag is Tor || flag is NoTor,
    ensures
        p.apply(flag, args) == (p.transport_flag(flag).0.past(), p.transport_flag(flag).1),
{
    reveal(ParserView::apply);
}

/// What `apply` does with an unknown flag.
proof fn lemma_apply_unknown(p: ParserView, flag: FlagView, args: Seq<Seq<char>>)
    requires
        flag is Unknown,
    ensures
        p.apply(flag, args) == (p.unknown(args[p.next]).0.past(), p.unknown(args[p.next]).1),
{
    reveal(ParserView::apply);
}

/// What `apply` does with an address.
proof fn lemma_apply_address(p: ParserView, flag: FlagView, args: Seq<Seq<char>>)
    requires
        flag is Address,
    ensures
        p.apply(flag, args) == (p.address(args[p.next]).0.past(), p.address(args[p.next]).1),
{
    reveal(ParserView::apply);
}

impl Parser {
    /// A parser that has read nothing yet. `cfg` holds the settings to
    /// begin with, `defaults` those that `--no-config` goes back to, and
    /// `tls_available` says whether the program can do TLS.
    pub fn new(cfg: Config, defaults: Config, tls_available: bool) -> (parser: Parser)
        ensures
            parser@ == ParserView::start(cfg@, defaults@, tls_available),
    {
        Parser {
            cfg,
            defaults,
            tls_available,
            next: 0,
            got_url: false,
            set_tls: false,
            set_notls: false,
            set_tor: false,
            set_notor: false,
            set_cfg: false,
            set_nocfg: false,
        }
    }

    /// Reads the argument at `next`.
    fn read(&mut self, args: &Vec<String>) -> (step: Option<Step>)
        requires
            old(self)@.next < args@.len(),
        ensures
            (final(self)@, step_view(step)) == old(self)@.read(arg_views(args@)),
            final(self)@.next > old(self)@.next,
            final(self)@.next <= args@.len(),
    {
        let at = self.next;
        assert(at < args.len());
        let text = args[at].as_str();
        assert(text@ == arg_views(args@)[at as int]);
        let flag = classify(text);
        self.apply(flag, args)
    }

    /// Takes the argument at `next`, which is `flag`.
    fn apply(&mut self, flag: Flag, args: &Vec<String>) -> (step: Option<Step>)
        requires
            old(self)@.next < args@.len(),
        ensures
            (final(self)@, step_view(step)) == old(self)@.apply(flag@, arg_views(args@)),
            final(self)@.next > old(self)@.next,
            final(self)@.next <= args@.len(),
    {
        match flag {
            Flag::Version | Flag::Help | Flag::Raw | Flag::Print | Flag::Local => self.take_mode(
                flag,
                args,
            ),
            Flag::NoConfig | Flag::Config | Flag::ConfigFile(_) => self.take_config(flag, args),
            Flag::Tls | Flag::NoTls | Flag::Tor | Flag::NoTor => self.take_transport(flag, args),
            Flag::Unknown => self.take_unknown(args),
            Flag::Address => self.take_address(args),
        }
    }

    /// Takes a flag that says what the program is to do, or where to
    /// start, and counts it as read.
    fn take_mode(&mut self, flag: Flag, args: &Vec<String>) -> (step: Option<Step>)
        requires
            old(self)@.next < args@.len(),
            flag is Version || flag is Help || flag is Raw || flag is Print || flag is Local,
        ensures
            (final(self)@, step_view(step)) == old(self)@.apply(flag@, arg_views(args@)),
            final(self)@.next == old(self)@.next + 1,
    {
        proof {
            lemma_apply_mode(self@, flag@, arg_views(args@));
        }
        let step = self.apply_mode(flag, args.len());
        assert(self.next < args.len());
        self.next = self.next + 1;
        step
    }

    /// Takes a flag that is about the configuration file, and counts it as
    /// read.
    fn take_config(&mut self, flag: Flag, args: &Vec<String>) -> (step: Option<Step>)
        requires
            old(self)@.next < args@.len(),
            flag is NoConfig || flag is Config || flag is ConfigFile,
        ensures
            (final(self)@, step_view(step)) == old(self)@.apply(flag@, arg_views(args@)),
            final(self)@.next > old(self)@.next,
            final(self)@.next <= args@.len(),
    {
        proof {
            lemma_apply_config(self@, flag@, arg_views(args@));
        }
        let step = self.apply_config(flag, args);
        assert(self.next < args.len());
        self.next = self.next + 1;
        step
    }

    /// Takes a flag that is about how to connect, and counts it as read.
    fn take_transport(&mut self, flag: Flag, args: &Vec<String>) -> (step: Option<Step>)
        requires
            old(self)@.next < args@.len(),
            flag is Tls || flag is NoTls || flag is Tor || flag is NoTor,
        ensures
            (final(self)@, step_view(step)) == old(self)@.apply(flag@, arg_views(args@)),
            final(self)@.next == old(self)@.next + 1,
    {
        proof {
            lemma_apply_transport(self@, flag@, arg_views(args@));
        }
        let step = self.apply_transport(flag);
        assert(self.next < args.len());
        self.next = self.next + 1;
        step
    }

    /// Turns down the argument at `next`, which looks like a flag and is
    /// none.
    fn take_unknown(&mut self, args: &Vec<String>) -> (step: Option<Step>)
        requires
            old(self)@.next < args@.len(),
        ensures
            (final(self)@, step_view(step)) == old(self)@.apply(
                FlagView::Unknown,
                arg_views(args@),
            ),
            final(self)@.next == old(self)@.next + 1,
    {
        let at = self.next;
        assert(at < args.len());
        assert(args@[at as int]@ == arg_views(args@)[at as int]);
        proof {
            lemma_apply_unknown(self@, FlagView::Unknown, arg_views(args@));
        }
        let step = self.unknown(&args[at]);
        self.next = self.next + 1;
        step
    }

    /// Takes the argument at `next` as the address to start at.
    fn take_address(&mut self, args: &Vec<String>) -> (step: Option<Step>)
        requires
            old(self)@.next < args@.len(),
        ensures
            (final(self)@, step_view(step)) == old(self)@.apply(
                FlagView::Address,
                arg_views(args@),
            ),
            final(self)@.next == old(self)@.next + 1,
    {
        let at = self.next;
        assert(at < args.len());
        assert(args@[at as int]@ == arg_views(args@)[at as int]);
        proof {
            lemma_apply_address(self@, FlagView::Address, arg_views(args@));
        }
        let step = self.address(&args[at]);
        self.next = self.next + 1;
        step
    }

    /// Takes a flag that says what the program is to do, or where to
    /// start.
    fn apply_mode(&mut self, flag: Flag, total: usize) -> (step: Option<Step>)
        requires
            flag is Version || flag is Help || flag is Raw || flag is Print || flag is Local,
        ensures
            final(self)@.next == old(self)@.next,
            (final(self)@, step_view(step)) == old(self)@.mode_flag(flag@, total as int),
    {
        match flag {
            Flag::Version => self.leave(Mode::Version),
            Flag::Help => self.leave(Mode::Help),
            Flag::Raw => self.raw(total),
            Flag::Print => self.print(),
            _ => self.local(),
        }
    }

    /// Takes a flag that is about the configuration file.
    fn apply_config(&mut self, flag: Flag, args: &Vec<String>) -> (step: Option<Step>)
        requires
            flag is NoConfig || flag is Config || flag is ConfigFile,
            old(self)@.next < args@.len(),
        ensures
            final(self)@.next >= old(self)@.next,
            final(self)@.next < args@.len(),
            (final(self)@, step_view(step)) == old(self)@.config_flag(flag@, arg_views(args@)),
    {
        match flag {
            Flag::NoConfig => self.no_config(),
            Flag::ConfigFile(file) => self.config_file(file),
            _ => self.config(args),
        }
    }

    /// Takes a flag that is about how to connect.
    fn apply_transport(&mut self, flag: Flag) -> (step: Option<Step>)
        requires
            flag is Tls || flag is NoTls || flag is Tor || flag is NoTor,
        ensures
            final(self)@.next == old(self)@.next,
            (final(self)@, step_view(step)) == old(self)@.transport_flag(flag@),
    {
        match flag {
            Flag::Tls => self.tls(),
            Flag::NoTls => self.no_tls(),
            Flag::Tor => self.tor(),
            _ => self.no_tor(),
        }
    }

    /// Ends the reading with the settings so far and the given mode.
    fn leave(&mut self, mode: Mode) -> (step: Option<Step>)
        ensures
            (final(self)@, step_view(step)) == old(self)@.leave(mode),
    {
        let mut cfg = self.cfg.copy();
        cfg.mode = mode;
        Some(Step::Exit(cfg))
    }

    /// Asks for the raw response, if an address can have been given.
    fn raw(&mut self, total: usize) -> (step: Option<Step>)
        ensures
            (final(self)@, step_view(step)) == old(self)@.raw(total as int),
    {
        if total > 1 {
            self.cfg.mode = Mode::Raw;
            None
        } else {
            Some(failed("--raw needs gopher-url"))
        }
    }

    /// Asks for the page to be printed.
    fn print(&mut self) -> (step: Option<Step>)
        ensures
            (final(self)@, step_view(step)) == old(self)@.print(),
    {
        self.cfg.mode = Mode::Print;
        None
    }

    /// Starts at the server on this machine.
    fn local(&mut self) -> (step: Option<Step>)
        ensures
            (final(self)@, step_view(step)) == old(self)@.local(),
    {
        self.cfg.start = String::from_str("gopher://127.0.0.1:7070");
        None
    }

    /// Turns down `arg`, which begins with a dash and is no flag.
    fn unknown(&mut self, arg: &String) -> (step: Option<Step>)
        ensures
            (final(self)@, step_view(step)) == old(self)@.unknown(arg@),
    {
        Some(failed_on("unknown flag: ", arg.as_str()))
    }

    /// Goes back to the default settings.
    fn no_config(&mut self) -> (step: Option<Step>)
        ensures
            (final(self)@, step_view(step)) == old(self)@.no_config(),
    {
        if self.set_cfg {
            Some(failed("can't mix --config and --no-config"))
        } else {
            self.set_nocfg = true;
            self.cfg = self.defaults.copy();
            None
        }
    }

    /// Asks for the configuration file that the argument after this one
    /// names.
    fn config(&mut self, args: &Vec<String>) -> (step: Option<Step>)
        requires
            old(self)@.next < args@.len(),
        ensures
            (final(self)@, step_view(step)) == old(self)@.config(arg_views(args@)),
            final(self)@.next >= old(self)@.next,
            final(self)@.next < args@.len(),
    {
        if self.set_nocfg {
            Some(failed("can't mix --config and --no-config"))
        } else {
            self.set_cfg = true;
            let at = self.next;
            assert(at < args.len());
            if at + 1 < args.len() {
                self.next = at + 1;
                assert(args@[at + 1]@ == arg_views(args@)[at + 1]);
                Some(Step::Load(args[at + 1].clone()))
            } else {
                Some(failed("need a config file"))
            }
        }
    }

    /// Asks for the configuration file `file`.
    fn config_file(&mut self, file: String) -> (step: Option<Step>)
        ensures
            (final(self)@, step_view(step)) == old(self)@.config_file(file@),
    {
        if self.set_nocfg {
            Some(failed("can't mix --config and --no-config"))
        } else {
            self.set_cfg = true;
            Some(Step::Load(file))
        }
    }

    /// Turns TLS on.
    fn tls(&mut self) -> (step: Option<Step>)
        ensures
            (final(self)@, step_view(step)) == old(self)@.tls(),
    {
        if self.set_notls {
            Some(failed("can't set both --tls and --no-tls"))
        } else {
            self.set_tls = true;
            self.cfg.tls = true;
            if self.tls_available {
                None
            } else {
                Some(failed("phetch was compiled without TLS support"))
            }
        }
    }

    /// Turns TLS off.
    fn no_tls(&mut self) -> (step: Option<Step>)
        ensures
            (final(self)@, step_view(step)) == old(self)@.no_tls(),
    {
        if self.set_tls {
            Some(failed("can't set both --tls and --no-tls"))
        } else {
            self.set_notls = true;
            self.cfg.tls = false;
            None
        }
    }

    /// Turns Tor on.
    fn tor(&mut self) -> (step: Option<Step>)
        ensures
            (final(self)@, step_view(step)) == old(self)@.tor(),
    {
        if self.set_notor {
            Some(failed("can't set both --tor and --no-tor"))
        } else {
            self.set_tor = true;
            self.cfg.tor = true;
            None
        }
    }

    /// Turns Tor off.
    fn no_tor(&mut self) -> (step: Option<Step>)
        ensures
            (final(self)@, step_view(step)) == old(self)@.no_tor(),
    {
        if self.set_tor {
            Some(failed("can't set both --tor and --no-tor"))
        } else {
            self.set_notor = true;
            self.cfg.tor = false;
            None
        }
    }

    /// Takes `arg` as the address to start at.
    fn address(&mut self, arg: &String) -> (step: Option<Step>)
        ensures
            (final(self)@, step_view(step)) == old(self)@.address(arg@),
    {
        if self.got_url {
            Some(failed_on("unknown argument: ", arg.as_str()))
        } else {
            self.got_url = true;
            self.cfg.start = arg.clone();
            None
        }
    }

    /// Reads arguments until one calls for a step, or none is left.
    pub fn advance(&mut self, args: &Vec<String>) -> (step: Step)
        ensures
            (final(self)@, step@) == old(self)@.advance(arg_views(args@)),
            !(step is End) ==> old(self)@.next < final(self)@.next <= args@.len(),
    {
        while self.next < args.len()
            invariant
                self@.advance(arg_views(args@)) == old(self)@.advance(arg_views(args@)),
                old(self)@.next <= self@.next,
            decreases args.len() - self.next,
        {
            if let Some(step) = self.read(args) {
                return step;
            }
        }
        Step::End
    }

    /// Takes what came of reading the configuration file that `advance`
    /// asked for: its settings, or the reason why it could not be read.
    pub fn loaded(&mut self, outcome: Result<Config, String>) -> (err: Option<ArgError>)
        ensures
            (final(self)@, error_view(err)) == old(self)@.loaded(load_view(outcome)),
    {
        match outcome {
            Ok(cfg) => {
                self.cfg = cfg;
                None
            },
            Err(e) => {
                let mut text = String::from_str("error loading config: ");
                text.append(e.as_str());
                Some(ArgError::new(text.as_str()))
            },
        }
    }

    /// The settings once every argument is read, given whether standard
    /// output is a terminal.
    pub fn finish_with(self, tty: bool) -> (r: Result<Config, ArgError>)
        ensures
            outcome_view(r) == self@.finish(tty),
    {
        let mut cfg = self.cfg;
        if cfg.tor && cfg.tls {
            return Err(ArgError::new("can't set both --tor and --tls"));
        }
        if !tty {
            cfg.mode = Mode::NoTTY;
        }
        Ok(cfg)
    }

    /// The settings once every argument is read. Whether standard output
    /// is a terminal is found out here.
    pub fn finish(self) -> (r: Result<Config, ArgError>)
        ensures
            outcome_view(r) == self@.finish(true) || outcome_view(r) == self@.finish(false),
    {
        let tty = stdout_is_tty();
        self.finish_with(tty)
    }
}

/// Reads a whole command line, beginning with the settings `start`.
/// `load` reads the configuration files that the arguments ask for;
/// `tty` says whether standard output is a terminal.
#[verifier::loop_isolation(false)]
pub fn parse_with<F: Fn(&String) -> Result<Config, String>>(
    args: &Vec<String>,
    start: Config,
    defaults: Config,
    tls_available: bool,
    load: F,
    tty: bool,
) -> (r: Result<Config, ArgError>)
    requires
        forall|file: &String| call_requires(load, (file,)),
    ensures
        ParserView::start(start@, defaults@, tls_available).reads(
            arg_views(args@),
            load,
            tty,
            outcome_view(r),
        ),
{
    let ghost first = ParserView::start(start@, defaults@, tls_available);
    let ghost all = arg_views(args@);
    let mut parser = Parser::new(start, defaults, tls_available);
    loop
        invariant
            forall|file: &String| call_requires(load, (file,)),
            all == arg_views(args@),
            forall|r: Result<ConfigView, Seq<char>>| #[trigger]
                parser@.reads(all, load, tty, r) ==> first.reads(all, load, tty, r),
        decreases args@.len() - parser@.next,
    {
        let ghost before = parser@;
        match parser.advance(args) {
            Step::Load(file) => {
                let ghost asked = parser@;
                let outcome = load(&file);
                let ghost came = load_view(outcome);
                assert(answers(load, file@, came)) by {
                    assert(call_ensures(load, (&file,), outcome));
                }
                let failed = parser.loaded(outcome);
                assert(asked.loaded(came).0 == parser@);
                if let Some(err) = failed {
                    assert(before.reads(all, load, tty, Err::<ConfigView, Seq<char>>(err@))) by {
                        assert(asked.loaded(came).1 == Some(err@));
                    }
                    return Err(err);
                }
                assert forall|r: Result<ConfigView, Seq<char>>| #[trigger]
                    parser@.reads(all, load, tty, r) implies before.reads(all, load, tty, r) by {
                    assert(asked.loaded(came).1 is None);
                }
            },
            Step::Exit(cfg) => {
                assert(before.reads(all, load, tty, Ok::<ConfigView, Seq<char>>(cfg@)));
                return Ok(cfg);
            },
            Step::Failed(err) => {
                assert(before.reads(all, load, tty, Err::<ConfigView, Seq<char>>(err@)));
                return Err(err);
            },
            Step::End => {
                let ghost ended = parser@;
                let r = parser.finish_with(tty);
                assert(before.reads(all, load, tty, outcome_view(r))) by {
                    assert(outcome_view(r) == ended.finish(tty));
                }
                return r;
            },
        }
    }
}

/// Reads a whole command line as `parse_with` does. Whether standard
/// output is a terminal is found out here.
pub fn parse<F: Fn(&String) -> Result<Config, String>>(
    args: &Vec<String>,
    start: Config,
    defaults: Config,
    tls_available: bool,
    load: F,
) -> (r: Result<Config, ArgError>)
    requires
        forall|file: &String| call_requires(load, (file,)),
    ensures
        ParserView::start(start@, defaults@, tls_available).reads(
            arg_views(args@),
            load,
            true,
            outcome_view(r),
        ) || ParserView::start(start@, defaults@, tls_available).reads(
            arg_views(args@),
            load,
            false,
            outcome_view(r),
        ),
{
    let tty = stdout_is_tty();
    parse_with(args, start, defaults, tls_available, load, tty)
}

} // verus!
