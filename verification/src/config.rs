//! The server's configuration, and how the command line is turned into it.

use crate::text::{decimal, lemma_port_reads_back, parse_port, port_of, same_text};
use vstd::prelude::*;

verus! {

/// The strategy by which the server hands accepted connections to sessions.
#[derive(Clone, Copy, Debug, PartialEq, Eq, Structural)]
pub enum Mode {
    /// One session at a time, in the server's own control flow.
    Simple,
    /// One process per session.
    Forked,
    /// One thread per session.
    Threaded,
}

/// What a configuration holds, as mathematical values.
pub struct ConfigView {
    pub host: Seq<char>,
    pub port: u16,
    pub mode: Mode,
}

/// Where the server listens, and how it serves.
#[derive(Debug)]
pub struct Config {
    host: String,
    port: u16,
    mode: Mode,
}

impl View for Config {
    type V = ConfigView;

    closed spec fn view(&self) -> ConfigView {
        ConfigView { host: self.host@, port: self.port, mode: self.mode }
    }
}

/// The refusal of a command line whose first argument asks for help.
pub const HELP: &'static str = "Help is sily. But you should run with params [MODE] [HOST] [PORT]";

/// The refusal of a mode that is not one of the three.
pub const INVALID_MODE: &'static str =
    "not a valid mode of operation! try 'forked', 'threaded' or 'simple'";

/// The refusal of a command line without arguments.
pub const NO_PARAMS: &'static str = "Did not provide any params!";

/// The refusal of a command line that ends after the mode.
pub const NO_HOST: &'static str = "Did not provide any host!";

/// The refusal of a port that is not a number from 0 to 65535.
pub const INVALID_PORT: &'static str = "Invalid port number.";

/// The refusal of a command line that ends after the host.
pub const NO_PORT: &'static str = "Did not get a port to run on.";

/// The mode that `word` names: `simple`, `threaded` or `forked`, to the letter.
pub open spec fn mode_of(word: Seq<char>) -> Option<Mode> {
    if word == "simple"@ {
        Some(Mode::Simple)
    } else if word == "threaded"@ {
        Some(Mode::Threaded)
    } else if word == "forked"@ {
        Some(Mode::Forked)
    } else {
        None
    }
}

/// The word that names `mode` on the command line.
pub open spec fn mode_word(mode: Mode) -> Seq<char> {
    match mode {
        Mode::Simple => "simple"@,
        Mode::Threaded => "threaded"@,
        Mode::Forked => "forked"@,
    }
}

/// What a command line means. `args[0]` is the program's name and is not
/// read; mode, host and port follow in that order, and whatever comes after
/// the port is not read either. The first fault found, in that order, decides
/// the refusal.
pub open spec fn parsed(args: Seq<Seq<char>>) -> Result<ConfigView, Seq<char>> {
    if args.len() < 2 {
        Err(NO_PARAMS@)
    } else if args[1] == "h"@ {
        Err(HELP@)
    } else if mode_of(args[1]) is None {
        Err(INVALID_MODE@)
    } else if args.len() < 3 {
        Err(NO_HOST@)
    } else if args.len() < 4 {
        Err(NO_PORT@)
    } else if port_of(args[3]) is None {
        Err(INVALID_PORT@)
    } else {
        Ok(ConfigView { host: args[2], port: port_of(args[3])->0, mode: mode_of(args[1])->0 })
    }
}

/// The arguments of a command line, each as its characters.
pub open spec fn words(args: Seq<String>) -> Seq<Seq<char>> {
    args.map_values(|arg: String| arg@)
}

/// Reads a mode's name.
pub fn parse_mode(word: &str) -> (mode: Option<Mode>)
    ensures
        mode == mode_of(word@),
{
    if same_text(word, "simple") {
        Some(Mode::Simple)
    } else if same_text(word, "threaded") {
        Some(Mode::Threaded)
    } else if same_text(word, "forked") {
        Some(Mode::Forked)
    } else {
        None
    }
}

impl Config {
    /// Builds the configuration that the command line `args` asks for, or
    /// says in words what is wrong with it.
    pub fn new(args: Vec<String>) -> (result: Result<Config, &'static str>)
        ensures
            match result {
                Ok(config) => parsed(words(args@)) == Ok::<ConfigView, Seq<char>>(config@),
                Err(message) => parsed(words(args@)) == Err::<ConfigView, Seq<char>>(message@),
            },
    {
        if args.len() < 2 {
            return Err(NO_PARAMS);
        }
        if same_text(args[1].as_str(), "h") {
            return Err(HELP);
        }
        let mode = match parse_mode(args[1].as_str()) {
            Some(mode) => mode,
            None => {
                return Err(INVALID_MODE);
            },
        };
        if args.len() < 3 {
            return Err(NO_HOST);
        }
        let host = args[2].clone();
        if args.len() < 4 {
            return Err(NO_PORT);
        }
        let port = match parse_port(args[3].as_str()) {
            Some(port) => port,
            None => {
                return Err(INVALID_PORT);
            },
        };
        Ok(Config { host, port, mode })
    }

    /// The host to listen on, as it was given.
    pub fn host(&self) -> (host: &str)
        ensures
            host@ == self@.host,
    {
        return self.host.as_str();
    }

    /// The port to listen on.
    pub fn port(&self) -> (port: &u16)
        ensures
            *port == self@.port,
    {
        return &self.port;
    }

    /// The serving strategy.
    pub fn mode(&self) -> (mode: Mode)
        ensures
            mode == self@.mode,
    {
        self.mode
    }
}

/// The three words that name a mode differ from each other and from `h`, so
/// each names its own mode.
pub proof fn lemma_mode_words(mode: Mode)
    ensures
        mode_of(mode_word(mode)) == Some(mode),
        mode_word(mode) != "h"@,
{
    reveal_strlit("simple");
    reveal_strlit("threaded");
    reveal_strlit("forked");
    reveal_strlit("h");
    assert("simple"@.len() == 6);
    assert("threaded"@.len() == 8);
    assert("forked"@.len() == 6 && "forked"@[0] == 'f' && "simple"@[0] == 's');
    assert("h"@.len() == 1);
}

/// Every command line that names a mode, a host and a port is accepted, and
/// the configuration holds that mode, that host as it was written, and that
/// port. Nothing is asked of the host, and arguments after the port do not
/// matter.
pub proof fn lemma_valid_triple_is_accepted(args: Seq<Seq<char>>, mode: Mode, port: u16)
    requires
        args.len() >= 4,
        args[1] == mode_word(mode),
        port_of(args[3]) == Some(port),
    ensures
        parsed(args) == Ok::<ConfigView, Seq<char>>(ConfigView { host: args[2], port, mode }),
{
    lemma_mode_words(mode);
}

/// A port written in base ten is a port that the command line accepts.
pub proof fn lemma_written_port_is_accepted(
    program: Seq<char>,
    mode: Mode,
    host: Seq<char>,
    port: u16,
)
    ensures
        parsed(seq![program, mode_word(mode), host, decimal(port as nat)]) == Ok::<
            ConfigView,
            Seq<char>,
        >(ConfigView { host, port, mode }),
{
    lemma_port_reads_back(port);
    lemma_valid_triple_is_accepted(
        seq![program, mode_word(mode), host, decimal(port as nat)],
        mode,
        port,
    );
}

/// Every other command line is refused, with one of the six messages: one
/// that lacks an argument, asks for help, names no mode, or whose port is not
/// a number from 0 to 65535.
pub proof fn lemma_invalid_is_refused(args: Seq<Seq<char>>)
    requires
        args.len() < 4 || mode_of(args[1]) is None || port_of(args[3]) is None,
    ensures
        parsed(args) is Err,
        ({
            let message = parsed(args)->Err_0;
            ||| message == NO_PARAMS@
            ||| message == HELP@
            ||| message == INVALID_MODE@
            ||| message == NO_HOST@
            ||| message == NO_PORT@
            ||| message == INVALID_PORT@
        }),
{
}

} // verus!
