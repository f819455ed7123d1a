//! Process configuration and the command-line words that change it.

use vstd::prelude::*;
use crate::level::{get_level, level_of, LogLevel};
use crate::text::{contains, has_substring, same_text, texts};

verus! {

/// Settings shared by every component: which sensors run, how much is
/// logged, and the file that error lines are appended to.
pub struct Config {
    pub debug: bool,
    pub s1: bool,
    pub s2: bool,
    pub s3: bool,
    pub llevel: LogLevel,
    pub lfile: String,
}

/// A configuration as plain values.
pub struct ConfigView {
    pub debug: bool,
    pub s1: bool,
    pub s2: bool,
    pub s3: bool,
    pub llevel: LogLevel,
    pub lfile: Seq<char>,
}

impl View for Config {
    type V = ConfigView;

    open spec fn view(&self) -> ConfigView {
        ConfigView {
            debug: self.debug,
            s1: self.s1,
            s2: self.s2,
            s3: self.s3,
            llevel: self.llevel,
            lfile: self.lfile@,
        }
    }
}

impl ConfigView {
    /// The configuration a process starts from: every sensor enabled,
    /// debugging off, level `Info`, log file `/tmp/rserve.log`.
    pub open spec fn initial() -> ConfigView {
        ConfigView {
            debug: false,
            s1: true,
            s2: true,
            s3: true,
            llevel: LogLevel::Info,
            lfile: "/tmp/rserve.log"@,
        }
    }

    /// Whether the sensor numbered `sensor` (1, 2 or 3) is to run. No other
    /// number names a sensor.
    pub open spec fn enabled(self, sensor: int) -> bool {
        (sensor == 1 && self.s1) || (sensor == 2 && self.s2) || (sensor == 3 && self.s3)
    }

    /// The numbers of the sensors that are to run, in rising order.
    pub open spec fn enabled_list(self) -> Seq<u8> {
        (if self.s1 {
            seq![1u8]
        } else {
            seq![]
        }) + (if self.s2 {
            seq![2u8]
        } else {
            seq![]
        }) + (if self.s3 {
            seq![3u8]
        } else {
            seq![]
        })
    }
}

impl Clone for Config {
    fn clone(&self) -> (r: Self)
        ensures
            r@ == self@,
    {
        Config {
            debug: self.debug,
            s1: self.s1,
            s2: self.s2,
            s3: self.s3,
            llevel: self.llevel,
            lfile: self.lfile.clone(),
        }
    }
}

impl Config {
    pub fn new() -> (r: Self)
        ensures
            r@ == ConfigView::initial(),
    {
        Config {
            debug: false,
            s1: true,
            s2: true,
            s3: true,
            llevel: LogLevel::Info,
            lfile: String::from_str("/tmp/rserve.log"),
        }
    }

    /// Whether the sensor numbered `sensor` is to run.
    pub fn sensor_enabled(&self, sensor: u8) -> (r: bool)
        ensures
            r == self@.enabled(sensor as int),
    {
        (sensor == 1 && self.s1) || (sensor == 2 && self.s2) || (sensor == 3 && self.s3)
    }

    /// The numbers of the sensors that are to run: those to start a worker
    /// for.
    pub fn enabled_sensors(&self) -> (r: Vec<u8>)
        ensures
            r@ == self@.enabled_list(),
    {
        let mut list: Vec<u8> = Vec::new();
        if self.s1 {
            list.push(1);
        }
        if self.s2 {
            list.push(2);
        }
        if self.s3 {
            list.push(3);
        }
        assert(list@ =~= self@.enabled_list());
        list
    }
}

/// A full copy of the shared configuration, never a reference into it.
pub fn get_cfg(shared: &Config) -> (r: Config)
    ensures
        r@ == shared@,
{
    shared.clone()
}

/// Replaces the shared configuration as a whole.
pub fn set_cfg(shared: &mut Config, new_cfg: Config)
    ensures
        *final(shared) == new_cfg,
{
    *shared = new_cfg;
}

/// Why a command line was turned down.
#[derive(Debug, PartialEq, Eq)]
pub enum CliError {
    /// `-h` or `--help` asked for the usage text.
    Help,
    /// `-l` or `--level` was the last word.
    MissingLevel,
    /// The word after `-l` or `--level` names no level.
    BadLevel(String),
    /// A word that is no option.
    UnknownArg(String),
}

/// A command-line error as plain values.
pub enum CliErrorView {
    Help,
    MissingLevel,
    BadLevel(Seq<char>),
    UnknownArg(Seq<char>),
}

impl View for CliError {
    type V = CliErrorView;

    open spec fn view(&self) -> CliErrorView {
        match self {
            CliError::Help => CliErrorView::Help,
            CliError::MissingLevel => CliErrorView::MissingLevel,
            CliError::BadLevel(word) => CliErrorView::BadLevel(word@),
            CliError::UnknownArg(word) => CliErrorView::UnknownArg(word@),
        }
    }
}

/// Whether `word` is one of the options.
pub open spec fn is_option(word: Seq<char>) -> bool {
    ||| word == "-s1"@
    ||| word == "-s2"@
    ||| word == "-s3"@
    ||| word == "--debug"@
    ||| word == "-d"@
    ||| word == "--help"@
    ||| word == "-h"@
    ||| word == "--level"@
    ||| word == "-l"@
}

/// What the words from position `i` on make of `cfg`, read left to right.
///
/// The word at position 0 is passed over if it contains `rserve`: it is the
/// program's own name. `-s1`, `-s2`, `-s3` switch a sensor off. `-d` and
/// `--debug` turn debugging on and set the level to `Debug`. `-l` and
/// `--level` take the next word as the level, whatever it looks like. The
/// first word that asks for help, lacks its level, names no level or is no
/// option ends the reading with that error.
pub open spec fn read_words(cfg: ConfigView, words: Seq<Seq<char>>, i: int) -> Result<
    ConfigView,
    CliErrorView,
>
    decreases words.len() - i,
{
    if i < 0 || i >= words.len() {
        Ok(cfg)
    } else {
        let word = words[i];
        if i == 0 && contains(word, "rserve"@) {
            read_words(cfg, words, i + 1)
        } else if word == "-s1"@ {
            read_words(ConfigView { s1: false, ..cfg }, words, i + 1)
        } else if word == "-s2"@ {
            read_words(ConfigView { s2: false, ..cfg }, words, i + 1)
        } else if word == "-s3"@ {
            read_words(ConfigView { s3: false, ..cfg }, words, i + 1)
        } else if word == "--debug"@ || word == "-d"@ {
            read_words(ConfigView { debug: true, llevel: LogLevel::Debug, ..cfg }, words, i + 1)
        } else if word == "--help"@ || word == "-h"@ {
            Err(CliErrorView::Help)
        } else if word == "--level"@ || word == "-l"@ {
            if i + 1 >= words.len() {
                Err(CliErrorView::MissingLevel)
            } else {
                match level_of(words[i + 1]) {
                    Some(level) => read_words(ConfigView { llevel: level, ..cfg }, words, i + 2),
                    None => Err(CliErrorView::BadLevel(words[i + 1])),
                }
            }
        } else {
            Err(CliErrorView::UnknownArg(word))
        }
    }
}

/// A word after the first that is no option, and that no `-l` or `--level`
/// before it took as its level, is turned down, whatever it contains.
pub proof fn lemma_unknown_word_is_refused(cfg: ConfigView, words: Seq<Seq<char>>, i: int)
    requires
        0 < i < words.len(),
        !is_option(words[i]),
    ensures
        read_words(cfg, words, i) == Err::<ConfigView, CliErrorView>(
            CliErrorView::UnknownArg(words[i]),
        ),
{
}

/// Whether `word` is an option that takes the next word as its level.
pub open spec fn takes_level(word: Seq<char>) -> bool {
    word == "--level"@ || word == "-l"@
}

/// Where reading from position `i` ends well, every word from there on,
/// the one at position 0 aside, is an option or the level that the option
/// before it takes.
pub proof fn lemma_accepted_words_are_recognized(cfg: ConfigView, words: Seq<Seq<char>>, i: int)
    requires
        0 <= i,
        read_words(cfg, words, i) is Ok,
    ensures
        forall|j: int|
            i <= j < words.len() && 1 <= j ==> is_option(#[trigger] words[j]) || (i <= j - 1
                && takes_level(words[j - 1]) && level_of(words[j]) is Some),
    decreases words.len() - i,
{
    if i < words.len() {
        let word = words[i];
        if i == 0 && contains(word, "rserve"@) {
            lemma_accepted_words_are_recognized(cfg, words, i + 1);
        } else if word == "-s1"@ {
            lemma_accepted_words_are_recognized(ConfigView { s1: false, ..cfg }, words, i + 1);
        } else if word == "-s2"@ {
            lemma_accepted_words_are_recognized(ConfigView { s2: false, ..cfg }, words, i + 1);
        } else if word == "-s3"@ {
            lemma_accepted_words_are_recognized(ConfigView { s3: false, ..cfg }, words, i + 1);
        } else if word == "--debug"@ || word == "-d"@ {
            lemma_accepted_words_are_recognized(
                ConfigView { debug: true, llevel: LogLevel::Debug, ..cfg },
                words,
                i + 1,
            );
        } else if takes_level(word) {
            let level = level_of(words[i + 1])->0;
            lemma_accepted_words_are_recognized(
                ConfigView { llevel: level, ..cfg },
                words,
                i + 2,
            );
        }
    }
}

/// An argument list is taken only if every word after the first is an option
/// or the level that the option before it takes.
pub proof fn lemma_cli_takes_recognized_words_only(cfg: ConfigView, args: Seq<Seq<char>>)
    requires
        args.len() > 1,
        read_args(cfg, args) is Ok,
    ensures
        forall|j: int|
            1 <= j < args.len() ==> is_option(#[trigger] args[j]) || (takes_level(args[j - 1])
                && level_of(args[j]) is Some),
{
    lemma_accepted_words_are_recognized(cfg, args, 0);
}

/// What a whole argument list makes of `cfg`. A list of fewer than two words
/// changes nothing and is not even looked at.
pub open spec fn read_args(cfg: ConfigView, args: Seq<Seq<char>>) -> Result<
    ConfigView,
    CliErrorView,
> {
    if args.len() > 1 {
        read_words(cfg, args, 0)
    } else {
        Ok(cfg)
    }
}

/// The plain-value form of a parse result.
pub open spec fn outcome_view(r: Result<Config, CliError>) -> Result<ConfigView, CliErrorView> {
    match r {
        Ok(cfg) => Ok(cfg@),
        Err(e) => Err(e@),
    }
}

/// Applies a process's argument list to `base`. Every word after the
/// program's name has to be an option or the level that an option takes.
pub fn cli(base: &Config, args: &Vec<String>) -> (r: Result<Config, CliError>)
    ensures
        outcome_view(r) == read_args(base@, texts(args@)),
{
    let mut cfg = base.clone();
    if args.len() <= 1 {
        return Ok(cfg);
    }
    let ghost words = texts(args@);
    let mut i: usize = 0;
    while i < args.len()
        invariant
            words == texts(args@),
            i <= args.len(),
            read_words(cfg@, words, i as int) == read_args(base@, words),
        decreases args.len() - i,
    {
        let arg = args[i].as_str();
        assert(arg@ == words[i as int]);
        if i == 0 && has_substring(arg, "rserve") {
            i += 1;
        } else if same_text(arg, "-s1") {
            cfg.s1 = false;
            i += 1;
        } else if same_text(arg, "-s2") {
            cfg.s2 = false;
            i += 1;
        } else if same_text(arg, "-s3") {
            cfg.s3 = false;
            i += 1;
        } else if same_text(arg, "--debug") || same_text(arg, "-d") {
            cfg.debug = true;
            cfg.llevel = LogLevel::Debug;
            i += 1;
        } else if same_text(arg, "--help") || same_text(arg, "-h") {
            return Err(CliError::Help);
        } else if same_text(arg, "--level") || same_text(arg, "-l") {
            if i + 1 >= args.len() {
                return Err(CliError::MissingLevel);
            }
            let word = args[i + 1].as_str();
            assert(word@ == words[i + 1]);
            match get_level(word) {
                Some(level) => {
                    cfg.llevel = level;
                    i += 2;
                },
                None => {
                    return Err(CliError::BadLevel(args[i + 1].clone()));
                },
            }
        } else {
            return Err(CliError::UnknownArg(args[i].clone()));
        }
    }
    Ok(cfg)
}

} // verus!
