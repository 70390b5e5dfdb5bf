//! What a front end remembers between runs.

use std::collections::BTreeMap;

use vstd::prelude::*;
use vstd::string::*;

use crate::state::Position;
use crate::text::{
    joined, trim, trimmed, trimmed_start, trimming_drops_white_space_alone, white_space,
};

verus! {

broadcast use vstd::std_specs::btree::group_btree_axioms;

/// What a front end remembers between runs: the operator's own words for each
/// preset and title, and which camera to reach for.
#[derive(Debug, PartialEq, Eq)]
pub struct Config {
    /// The camera last connected to, in the spelling a front end takes. Absent
    /// until something has actually connected.
    pub camera: Option<String>,
    /// Preset number to label.
    pub presets: BTreeMap<u8, String>,
    /// Preset number to where that preset was last seen to point. A label can
    /// name a preset the camera has never been sent to, and a position exists
    /// for presets nobody has bothered to name.
    pub preset_positions: BTreeMap<u8, Position>,
    /// Title slot number to the text to burn into the video output.
    pub titles: BTreeMap<u8, String>,
}

impl Config {
    /// Whether nothing is remembered.
    pub open spec fn is_empty(self) -> bool {
        &&& self.camera is None
        &&& self.presets@ == Map::<u8, String>::empty()
        &&& self.preset_positions@ == Map::<u8, Position>::empty()
        &&& self.titles@ == Map::<u8, String>::empty()
    }
}

impl Default for Config {
    fn default() -> (config: Config)
        ensures
            config.is_empty(),
    {
        Config {
            camera: None,
            presets: BTreeMap::new(),
            preset_positions: BTreeMap::new(),
            titles: BTreeMap::new(),
        }
    }
}

/// Whether a text has nothing in it but white space.
pub open spec fn is_blank(text: Seq<char>) -> bool {
    trimmed(text).len() == 0
}

/// Whether `kept` holds what was written in `slots`: the slots that are not
/// blank, with their texts as they are.
pub open spec fn keeps_what_is_written(slots: Map<u8, String>, kept: Map<u8, String>) -> bool {
    &&& forall|number: u8|
        #[trigger] kept.contains_key(number) <==> slots.contains_key(number) && !is_blank(
            slots[number]@,
        )
    &&& forall|number: u8|
        #[trigger] kept.contains_key(number) ==> kept[number]@ == slots[number]@
}

/// The slots worth writing to the config file. Slots left blank are dropped
/// rather than stored empty: the file is meant to be readable by hand.
pub fn written(slots: &BTreeMap<u8, String>) -> (kept: BTreeMap<u8, String>)
    ensures
        keeps_what_is_written(slots@, kept@),
{
    let mut kept: BTreeMap<u8, String> = BTreeMap::new();
    let mut number: u16 = 0;
    while number < 256
        invariant
            number <= 256,
            forall|slot: u8|
                #[trigger] kept@.contains_key(slot) <==> slot < number && slots@.contains_key(slot)
                    && !is_blank(slots@[slot]@),
            forall|slot: u8|
                #[trigger] kept@.contains_key(slot) ==> kept@[slot]@ == slots@[slot]@,
        decreases 256 - number,
    {
        let slot: u8 = number as u8;
        if let Some(text) = slots.get(&slot) {
            if !trim(text.as_str()).is_empty() {
                kept.insert(slot, text.clone());
            }
        }
        number += 1;
    }
    kept
}

/// Writing down what was already written down changes nothing.
pub proof fn writing_twice_keeps_the_same(
    slots: Map<u8, String>,
    once: Map<u8, String>,
    twice: Map<u8, String>,
)
    requires
        keeps_what_is_written(slots, once),
        keeps_what_is_written(once, twice),
    ensures
        twice.dom() == once.dom(),
        forall|number: u8|
            #[trigger] twice.contains_key(number) ==> twice[number]@ == once[number]@,
{
    assert forall|number: u8| twice.dom().contains(number) == once.dom().contains(number) by {
        assert(twice.contains_key(number) <==> once.contains_key(number) && !is_blank(
            once[number]@,
        ));
        assert(once.contains_key(number) <==> slots.contains_key(number) && !is_blank(
            slots[number]@,
        ));
    }
    assert(twice.dom() =~= once.dom());
}

/// An error loading or saving the config file, with what the system said.
#[derive(Debug)]
pub enum ConfigError {
    /// The file exists but couldn't be read.
    Read(String),
    /// The file couldn't be written.
    Write(String),
    /// The file's contents aren't valid for this shape.
    Parse(String),
    /// The config couldn't be put into words.
    Serialize(String),
    /// No config directory is available on this platform.
    NoConfigDir,
}

/// A config error in words.
pub open spec fn config_error_words(error: ConfigError) -> Seq<char> {
    match error {
        ConfigError::Read(cause) => "failed to read config file: "@ + cause@,
        ConfigError::Write(cause) => "failed to write config file: "@ + cause@,
        ConfigError::Parse(cause) => "failed to parse config file: "@ + cause@,
        ConfigError::Serialize(cause) => "failed to serialize config: "@ + cause@,
        ConfigError::NoConfigDir => "couldn't determine a config directory for this platform"@,
    }
}

impl ConfigError {
    /// What this error says to the operator.
    pub fn message(&self) -> (text: String)
        ensures
            text@ == config_error_words(*self),
    {
        match self {
            ConfigError::Read(cause) => joined("failed to read config file: ", cause.as_str()),
            ConfigError::Write(cause) => joined("failed to write config file: ", cause.as_str()),
            ConfigError::Parse(cause) => joined("failed to parse config file: ", cause.as_str()),
            ConfigError::Serialize(cause) => joined("failed to serialize config: ", cause.as_str()),
            ConfigError::NoConfigDir => {
                "couldn't determine a config directory for this platform".to_owned()
            },
        }
    }
}

/// What came of reading the config file.
#[derive(Debug)]
pub enum Reading {
    /// It says this.
    Contents(String),
    /// There is no such file.
    Missing,
    /// It is there, but reading it failed.
    Failed(String),
}

/// Whether `config` is what a reading of the file comes to, where `parse` turns
/// its contents into a config.
pub open spec fn loads<P: FnOnce(String) -> Result<Config, String>>(
    reading: Reading,
    parse: P,
    config: Result<Config, ConfigError>,
) -> bool {
    match reading {
        Reading::Contents(contents) => match config {
            Ok(config) => call_ensures(parse, (contents,), Ok::<Config, String>(config)),
            Err(error) => error is Parse && call_ensures(
                parse,
                (contents,),
                Err::<Config, String>(error->Parse_0),
            ),
        },
        Reading::Missing => config is Ok && config->Ok_0.is_empty(),
        Reading::Failed(cause) => config == Err::<Config, ConfigError>(ConfigError::Read(cause)),
    }
}

/// The config that a reading of the file amounts to: an empty one if there is
/// no file yet. `parse` turns the file's contents into a config.
pub fn load<P>(reading: Reading, parse: P) -> (config: Result<Config, ConfigError>)
    where P: FnOnce(String) -> Result<Config, String>,

    requires
        reading matches Reading::Contents(contents) ==> call_requires(parse, (contents,)),
    ensures
        loads(reading, parse, config),
{
    match reading {
        Reading::Contents(contents) => match parse(contents) {
            Ok(config) => Ok(config),
            Err(cause) => Err(ConfigError::Parse(cause)),
        },
        Reading::Missing => Ok(Config::default()),
        Reading::Failed(cause) => Err(ConfigError::Read(cause)),
    }
}

/// Whether a config can be put into words as `contents`, and the directory for
/// them be made.
pub open spec fn ready_to_write<
    S: FnOnce(&Config) -> Result<String, String>,
    D: FnOnce() -> Result<(), String>,
>(config: &Config, serialize: S, make_directory: D, contents: String) -> bool {
    &&& call_ensures(serialize, (config,), Ok::<String, String>(contents))
    &&& call_ensures(make_directory, (), Ok::<(), String>(()))
}

/// Whether `saved` is what came of saving a config: `serialize` puts it into
/// words, `make_directory` makes the directory and `write` writes the words,
/// each only once what comes before it worked.
pub open spec fn saves<
    S: FnOnce(&Config) -> Result<String, String>,
    D: FnOnce() -> Result<(), String>,
    W: FnOnce(String) -> Result<(), String>,
>(
    config: &Config,
    serialize: S,
    make_directory: D,
    write: W,
    saved: Result<(), ConfigError>,
) -> bool {
    match saved {
        Ok(_) => exists|contents: String|
            {
                &&& ready_to_write(config, serialize, make_directory, contents)
                &&& #[trigger] call_ensures(write, (contents,), Ok::<(), String>(()))
            },
        Err(ConfigError::Serialize(cause)) => call_ensures(
            serialize,
            (config,),
            Err::<String, String>(cause),
        ),
        Err(ConfigError::Write(cause)) => {
            ||| exists|contents: String|
                {
                    &&& #[trigger] call_ensures(
                        serialize,
                        (config,),
                        Ok::<String, String>(contents),
                    )
                    &&& call_ensures(make_directory, (), Err::<(), String>(cause))
                }
            ||| exists|contents: String|
                {
                    &&& ready_to_write(config, serialize, make_directory, contents)
                    &&& #[trigger] call_ensures(write, (contents,), Err::<(), String>(cause))
                }
        },
        Err(_) => false,
    }
}

/// Saves a config: it is put into words, the directory is made, and the words
/// are written, each only if what comes before it worked.
pub fn save<S, D, W>(config: &Config, serialize: S, make_directory: D, write: W) -> (saved: Result<
    (),
    ConfigError,
>)
    where
        S: FnOnce(&Config) -> Result<String, String>,
        D: FnOnce() -> Result<(), String>,
        W: FnOnce(String) -> Result<(), String>,

    requires
        call_requires(serialize, (config,)),
        forall|contents: String| #[trigger]
            call_ensures(serialize, (config,), Ok::<String, String>(contents)) ==> call_requires(
                make_directory,
                (),
            ),
        forall|contents: String| #[trigger]
            ready_to_write(config, serialize, make_directory, contents) ==> call_requires(
                write,
                (contents,),
            ),
    ensures
        saves(config, serialize, make_directory, write, saved),
{
    match serialize(config) {
        Ok(contents) => {
            assert(call_ensures(serialize, (config,), Ok::<String, String>(contents)));
            match make_directory() {
                Ok(nothing) => {
                    assert(nothing == ());
                    assert(ready_to_write(config, serialize, make_directory, contents));
                    match write(contents) {
                        Ok(nothing) => {
                            assert(nothing == ());
                            assert(call_ensures(write, (contents,), Ok::<(), String>(())));
                            Ok(())
                        },
                        Err(cause) => {
                            assert(call_ensures(write, (contents,), Err::<(), String>(cause)));
                            Err(ConfigError::Write(cause))
                        },
                    }
                },
                Err(cause) => Err(ConfigError::Write(cause)),
            }
        },
        Err(cause) => Err(ConfigError::Serialize(cause)),
    }
}

/// Whether two sets of slots hold the same texts.
pub open spec fn same_texts(first: Map<u8, String>, second: Map<u8, String>) -> bool {
    &&& first.dom() == second.dom()
    &&& forall|number: u8|
        #[trigger] first.contains_key(number) ==> first[number]@ == second[number]@
}

impl Config {
    /// Whether two configs remember the same: the camera, every label, every
    /// position and every title.
    pub open spec fn same(self, other: Config) -> bool {
        &&& match (self.camera, other.camera) {
            (Some(mine), Some(theirs)) => mine@ == theirs@,
            (None, None) => true,
            _ => false,
        }
        &&& same_texts(self.presets@, other.presets@)
        &&& self.preset_positions@ == other.preset_positions@
        &&& same_texts(self.titles@, other.titles@)
    }
}

/// Whether `parse` undoes `serialize` for a config: whatever words it is put
/// into, they are read as what it remembers.
pub open spec fn reads_back<
    S: FnOnce(&Config) -> Result<String, String>,
    P: FnOnce(String) -> Result<Config, String>,
>(config: &Config, serialize: S, parse: P) -> bool {
    forall|contents: String, parsed: Result<Config, String>|
        {
            &&& #[trigger] call_ensures(serialize, (config,), Ok::<String, String>(contents))
            &&& #[trigger] call_ensures(parse, (contents,), parsed)
        } ==> parsed is Ok && parsed->Ok_0.same(*config)
}

/// What was saved loads back with the camera, every label, every position and
/// every title, provided that the parser undoes the serialiser: there are words
/// that the config was put into and that were written, and loading a file that
/// still says them gives nothing but what was saved.
pub proof fn a_saved_config_loads_back<
    S: FnOnce(&Config) -> Result<String, String>,
    D: FnOnce() -> Result<(), String>,
    W: FnOnce(String) -> Result<(), String>,
    P: FnOnce(String) -> Result<Config, String>,
>(config: &Config, serialize: S, make_directory: D, write: W, parse: P)
    requires
        saves(config, serialize, make_directory, write, Ok::<(), ConfigError>(())),
        reads_back(config, serialize, parse),
    ensures
        exists|contents: String|
            {
                &&& call_ensures(serialize, (config,), Ok::<String, String>(contents))
                &&& #[trigger] call_ensures(write, (contents,), Ok::<(), String>(()))
                &&& forall|loaded: Result<Config, ConfigError>| #[trigger]
                    loads(Reading::Contents(contents), parse, loaded) ==> loaded is Ok
                        && loaded->Ok_0.same(*config)
            },
{
    let contents = choose|contents: String|
        {
            &&& ready_to_write(config, serialize, make_directory, contents)
            &&& #[trigger] call_ensures(write, (contents,), Ok::<(), String>(()))
        };
    assert forall|loaded: Result<Config, ConfigError>| #[trigger]
        loads(Reading::Contents(contents), parse, loaded) implies loaded is Ok
        && loaded->Ok_0.same(*config) by {
        match loaded {
            Ok(found) => {
                assert(call_ensures(parse, (contents,), Ok::<Config, String>(found)));
            },
            Err(error) => {
                assert(call_ensures(parse, (contents,), Err::<Config, String>(error->Parse_0)));
            },
        }
    }
}

/// A parser that gives one config for a file's contents has that very config
/// loaded, and nothing else.
pub proof fn a_parsed_config_is_loaded_as_it_is<P: FnOnce(String) -> Result<Config, String>>(
    contents: String,
    parse: P,
    config: Config,
    loaded: Result<Config, ConfigError>,
)
    requires
        forall|parsed: Result<Config, String>| #[trigger]
            call_ensures(parse, (contents,), parsed) ==> parsed == Ok::<Config, String>(config),
        loads(Reading::Contents(contents), parse, loaded),
    ensures
        loaded == Ok::<Config, ConfigError>(config),
{
    match loaded {
        Ok(found) => {
            assert(call_ensures(parse, (contents,), Ok::<Config, String>(found)));
        },
        Err(error) => {
            assert(call_ensures(parse, (contents,), Err::<Config, String>(error->Parse_0)));
        },
    }
}

/// A text is blank exactly when there is nothing in it but white space.
pub proof fn a_blank_text_is_white_space_alone(text: Seq<char>)
    ensures
        is_blank(text) <==> forall|place: int|
            0 <= place < text.len() ==> white_space(#[trigger] text[place]),
{
    trimming_drops_white_space_alone(text);
    let kept = trimmed(text);
    let left = text.len() - trimmed_start(text).len();
    if kept.len() > 0 {
        assert(kept[0] == text[left]);
    }
}

/// What is written down is every slot with something in it, under its own
/// number and with its text as it is, and no other.
pub proof fn only_what_says_something_is_written(
    slots: Map<u8, String>,
    kept: Map<u8, String>,
    number: u8,
)
    requires
        keeps_what_is_written(slots, kept),
    ensures
        kept.contains_key(number) <==> slots.contains_key(number) && exists|place: int|
            0 <= place < slots[number]@.len() && !white_space(#[trigger] slots[number]@[place]),
        kept.contains_key(number) ==> kept[number]@ == slots[number]@,
{
    a_blank_text_is_white_space_alone(slots[number]@);
    assert(kept.contains_key(number) <==> slots.contains_key(number) && !is_blank(slots[number]@));
}

/// What goes wrong with the config file is told by what was being done, and in
/// the words that the system gave.
pub proof fn a_config_error_says_what_was_being_done(cause: String)
    ensures
        config_error_words(ConfigError::Read(cause)) == "failed to read config file: "@ + cause@,
        config_error_words(ConfigError::Write(cause)) == "failed to write config file: "@ + cause@,
        config_error_words(ConfigError::Parse(cause)) == "failed to parse config file: "@ + cause@,
        config_error_words(ConfigError::Serialize(cause)) == "failed to serialize config: "@
            + cause@,
        config_error_words(ConfigError::NoConfigDir)
            == "couldn't determine a config directory for this platform"@,
{
}

/// A file that is there is what its parser makes of it, one that isn't is an
/// empty config, and one that couldn't be read is an error: nothing is lost and
/// nothing is made up.
pub proof fn a_file_is_what_it_says<P: FnOnce(String) -> Result<Config, String>>(
    reading: Reading,
    parse: P,
    config: Result<Config, ConfigError>,
)
    requires
        loads(reading, parse, config),
    ensures
        reading is Missing ==> {
            &&& config is Ok
            &&& config->Ok_0.camera is None
            &&& forall|slot: u8| !(#[trigger] config->Ok_0.presets@.contains_key(slot))
            &&& forall|slot: u8| !(#[trigger] config->Ok_0.preset_positions@.contains_key(slot))
            &&& forall|slot: u8| !(#[trigger] config->Ok_0.titles@.contains_key(slot))
        },
        reading matches Reading::Failed(cause) ==> config is Err && config->Err_0
            == ConfigError::Read(cause),
        reading matches Reading::Contents(contents) ==> match config {
            Ok(found) => call_ensures(parse, (contents,), Ok::<Config, String>(found)),
            Err(ConfigError::Parse(cause)) => call_ensures(
                parse,
                (contents,),
                Err::<Config, String>(cause),
            ),
            Err(_) => false,
        },
{
}

} // verus!
