//! The bot's configuration as plain values, with its defaults.

use vstd::prelude::*;
use vstd::string::*;
use crate::audio::DEFAULT_MAX_AUDIO_DURATION_MS;

verus! {

/// Settings read at start-up. The duration is in milliseconds.
#[derive(Debug, Clone, PartialEq, Eq)]
pub struct Config {
    pub application_id: u64,
    pub token: String,
    pub audio_dir: String,
    pub command_prefix: String,
    pub sqlite_db_file: String,
    pub max_audio_file_duration_ms: u64,
    pub max_page_size: u64,
    pub enable_ephemeral_controls: bool,
}

pub fn default_enable_ephemeral_controls() -> (r: bool)
    ensures
        r,
{
    true
}

pub fn default_max_page_size() -> (r: u64)
    ensures
        r == 20,
{
    20
}

pub fn default_audio_dir() -> (r: String)
    ensures
        r@ == "./audio"@,
{
    String::from_str("./audio")
}

pub fn default_command_prefix() -> (r: String)
    ensures
        r@ == "sb:"@,
{
    String::from_str("sb:")
}

pub fn default_sqlite_db_file() -> (r: String)
    ensures
        r@ == "./bot.db3"@,
{
    String::from_str("./bot.db3")
}

pub fn default_max_audio_file_duration() -> (r: u64)
    ensures
        r == DEFAULT_MAX_AUDIO_DURATION_MS,
{
    DEFAULT_MAX_AUDIO_DURATION_MS
}

impl Default for Config {
    fn default() -> (r: Config)
        ensures
            r.application_id == 0,
            r.token@ == ""@,
            r.audio_dir@ == "./audio"@,
            r.command_prefix@ == "sb:"@,
            r.sqlite_db_file@ == "./bot.db3"@,
            r.max_audio_file_duration_ms == DEFAULT_MAX_AUDIO_DURATION_MS,
            r.max_page_size == 20,
            r.enable_ephemeral_controls,
    {
        Config {
            application_id: 0,
            token: String::from_str(""),
            audio_dir: default_audio_dir(),
            command_prefix: default_command_prefix(),
            sqlite_db_file: default_sqlite_db_file(),
            max_audio_file_duration_ms: default_max_audio_file_duration(),
            max_page_size: default_max_page_size(),
            enable_ephemeral_controls: default_enable_ephemeral_controls(),
        }
    }
}

impl Config {
    /// Judges the audio directory from what the file system says of it.
    pub fn validate_audio_dir(&self, exists: bool, is_dir: bool) -> (r: Result<(), String>)
        ensures
            r is Ok <==> exists && is_dir,
    {
        if !exists {
            let mut s = String::from_str("Audio directory does not exist - ");
            s.append(self.audio_dir.as_str());
            return Err(s);
        }
        if !is_dir {
            let mut s = String::from_str("Audio directory path is not a directory - ");
            s.append(self.audio_dir.as_str());
            return Err(s);
        }
        Ok(())
    }

    /// The complaints about the configuration, one per line: only the audio
    /// directory is checked. Where the check fails the caller stops the
    /// program; a verified function does not panic, so it hands the message
    /// back instead.
    pub fn validate(&self, audio_dir_exists: bool, audio_dir_is_dir: bool) -> (r: Result<(), String>)
        ensures
            r is Ok <==> audio_dir_exists && audio_dir_is_dir,
    {
        match self.validate_audio_dir(audio_dir_exists, audio_dir_is_dir) {
            Ok(()) => Ok(()),
            Err(e) => {
                let mut errs = e;
                errs.append("\n");
                Err(errs)
            },
        }
    }
}

} // verus!
