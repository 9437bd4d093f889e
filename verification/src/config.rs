//! The play server's own settings: its HTTP port, the patch it starts with, and how
//! many live instances it runs.
use vstd::prelude::*;

use crate::text::{chars_to_string, parse_usize, string_chars, trim_chars};

verus! {

pub const DEFAULT_REALTIME_PLAY_SERVER_PORT: u16 = 62154;

pub const DEFAULT_LIVE_INSTANCE_COUNT: usize = 16;

/// The environment variable that sets the live instance count.
pub const LIVE_INSTANCE_COUNT_ENV: &'static str = "CMRT_LIVE_INSTANCE_COUNT";

/// The live instance counts the server runs with: up to twice the track count of the
/// grid sequencer, whose chord mode spreads N tracks over two banks, and never more
/// than the shared-memory protocol addresses.
pub open spec fn is_supported_live_instance_count(count: int) -> bool {
    count == 1 || count == 2 || count == 4 || count == 6 || count == 8 || count == 14 || count
        == 16 || count == 32
}

/// The supported live instance counts, in increasing order.
pub open spec fn supported_counts() -> Seq<usize> {
    seq![1usize, 2, 4, 6, 8, 14, 16, 32]
}

/// The supported live instance counts, in increasing order.
pub fn supported_live_instance_counts() -> (counts: Vec<usize>)
    ensures
        counts@ == seq![1usize, 2, 4, 6, 8, 14, 16, 32],
        counts@ == supported_counts(),
        forall|i: int| 0 <= i < counts@.len() ==> is_supported_live_instance_count(
            #[trigger] counts@[i] as int,
        ),
        forall|count: usize| is_supported_live_instance_count(count as int) <==> counts@.contains(
            count,
        ),
{
    let counts: Vec<usize> = vec![1usize, 2, 4, 6, 8, 14, 16, 32];
    assert(counts@ =~= seq![1usize, 2, 4, 6, 8, 14, 16, 32]);
    proof {
        law_supported_counts_are_the_listed_ones();
    }
    counts
}

/// A live instance count is supported exactly when it is one of the listed counts
/// (1, 2, 4, 6, 8, 14, 16 or 32): no other count, such as 12, is.
pub proof fn law_supported_counts_are_the_listed_ones()
    ensures
        forall|count: usize| #[trigger] is_supported_live_instance_count(count as int)
            <==> supported_counts().contains(count),
        supported_counts() == seq![1usize, 2, 4, 6, 8, 14, 16, 32],
{
    assert forall|count: usize| #[trigger] is_supported_live_instance_count(count as int)
        <==> supported_counts().contains(count) by {
        let listed = supported_counts();
        if is_supported_live_instance_count(count as int) {
            let at: int = if count == 1 {
                0
            } else if count == 2 {
                1
            } else if count == 4 {
                2
            } else if count == 6 {
                3
            } else if count == 8 {
                4
            } else if count == 14 {
                5
            } else if count == 16 {
                6
            } else {
                7
            };
            assert(listed[at] == count);
        }
    }
}

pub fn is_supported_count(count: usize) -> (supported: bool)
    ensures
        supported == is_supported_live_instance_count(count as int),
{
    count == 1 || count == 2 || count == 4 || count == 6 || count == 8 || count == 14 || count
        == 16 || count == 32
}

/// Why a setting is refused.
#[derive(Clone, Debug, PartialEq, Eq)]
pub enum ConfigError {
    /// The port is 0.
    ZeroPort,
    /// The live instance count is not a decimal number; the text as given.
    NotAnInteger(String),
    /// The live instance count is not one of the supported ones.
    UnsupportedCount(usize),
    /// The main configuration names no plugin.
    EmptyPluginPath,
    /// The main configuration's sample rate is not the one the server runs at.
    UnsupportedSampleRate,
}

pub open spec fn empty_plugin_path_text() -> Seq<char> {
    "plugin_path が空です"@
}

pub open spec fn unsupported_sample_rate_text() -> Seq<char> {
    "realtime play server は sample_rate = 48000 の config のみ対応します"@
}

pub open spec fn zero_port_text() -> Seq<char> {
    "realtime_play_server_port は 1〜65535 の範囲で設定してください"@
}

pub open spec fn unsupported_count_text() -> Seq<char> {
    "CMRT_LIVE_INSTANCE_COUNT は [1, 2, 4, 6, 8, 14, 16, 32] のいずれかにしてください"@
}

pub open spec fn not_an_integer_text(value: Seq<char>) -> Seq<char> {
    "CMRT_LIVE_INSTANCE_COUNT は整数で指定してください（現在値: \""@ + value + "\"）"@
}

impl ConfigError {
    /// The message shown to the user.
    pub fn message(&self) -> (text: String)
        ensures
            text@ == (match self {
                ConfigError::ZeroPort => zero_port_text(),
                ConfigError::NotAnInteger(value) => not_an_integer_text(value@),
                ConfigError::UnsupportedCount(_) => unsupported_count_text(),
                ConfigError::EmptyPluginPath => empty_plugin_path_text(),
                ConfigError::UnsupportedSampleRate => unsupported_sample_rate_text(),
            }),
    {
        match self {
            ConfigError::ZeroPort => crate::text::owned(
                "realtime_play_server_port は 1〜65535 の範囲で設定してください",
            ),
            ConfigError::NotAnInteger(value) => {
                let mut text = crate::text::owned(
                    "CMRT_LIVE_INSTANCE_COUNT は整数で指定してください（現在値: \"",
                );
                text.append(value.as_str());
                text.append("\"）");
                text
            },
            ConfigError::UnsupportedCount(_) => crate::text::owned(
                "CMRT_LIVE_INSTANCE_COUNT は [1, 2, 4, 6, 8, 14, 16, 32] のいずれかにしてください",
            ),
            ConfigError::EmptyPluginPath => crate::text::owned("plugin_path が空です"),
            ConfigError::UnsupportedSampleRate => crate::text::owned(
                "realtime play server は sample_rate = 48000 の config のみ対応します",
            ),
        }
    }
}

/// The value of `CMRT_LIVE_INSTANCE_COUNT`, trimmed: a supported count, or why not.
pub open spec fn spec_parse_live_instance_count(value: Seq<char>) -> Result<usize, ConfigError> {
    match crate::text::spec_parse_usize(crate::text::trimmed(value)) {
        None => Err(ConfigError::NotAnInteger(arbitrary())),
        Some(count) => if is_supported_live_instance_count(count as int) {
            Ok(count)
        } else {
            Err(ConfigError::UnsupportedCount(count))
        },
    }
}

pub fn parse_live_instance_count(value: &str) -> (result: Result<usize, ConfigError>)
    ensures
        match spec_parse_live_instance_count(value@) {
            Ok(count) => result == Ok::<usize, ConfigError>(count),
            Err(ConfigError::NotAnInteger(_)) => result matches Err(ConfigError::NotAnInteger(v))
                && v@ == value@,
            Err(e) => result == Err::<usize, ConfigError>(e),
        },
{
    let chars = string_chars(value);
    let trimmed = trim_chars(&chars);
    match parse_usize(&trimmed) {
        None => Err(ConfigError::NotAnInteger(crate::text::owned(value))),
        Some(count) => if is_supported_count(count) {
            Ok(count)
        } else {
            Err(ConfigError::UnsupportedCount(count))
        },
    }
}

/// A patch path with white space around it trimmed; blank means none.
pub open spec fn spec_normalize_patch_path(patch_path: Option<Seq<char>>) -> Option<Seq<char>> {
    match patch_path {
        None => None,
        Some(p) => if crate::text::trimmed(p).len() == 0 {
            None
        } else {
            Some(crate::text::trimmed(p))
        },
    }
}

pub open spec fn option_chars(value: Option<String>) -> Option<Seq<char>> {
    match value {
        Some(v) => Some(v@),
        None => None,
    }
}

pub fn normalize_patch_path(patch_path: Option<String>) -> (normalized: Option<String>)
    ensures
        option_chars(normalized) == spec_normalize_patch_path(option_chars(patch_path)),
{
    match patch_path {
        None => None,
        Some(p) => {
            let chars = string_chars(p.as_str());
            let trimmed = trim_chars(&chars);
            if trimmed.len() == 0 {
                None
            } else {
                Some(chars_to_string(&trimmed))
            }
        },
    }
}

/// The play server's settings.
#[derive(Clone, Debug, PartialEq, Eq)]
pub struct RealtimeServerConfig {
    pub realtime_play_server_port: u16,
    pub patch_path: Option<String>,
    pub live_instance_count: usize,
}

impl RealtimeServerConfig {
    /// The settings from the configuration file's overlay: the port (the default when
    /// the file names none) and the patch path, with the default instance count.
    pub fn from_overlay(realtime_play_server_port: u16, patch_path: Option<String>) -> (result:
        Result<RealtimeServerConfig, ConfigError>)
        ensures
            realtime_play_server_port == 0 ==> result == Err::<RealtimeServerConfig, ConfigError>(
                ConfigError::ZeroPort,
            ),
            realtime_play_server_port != 0 ==> (result matches Ok(c) && c.realtime_play_server_port
                == realtime_play_server_port && option_chars(c.patch_path)
                == spec_normalize_patch_path(option_chars(patch_path)) && c.live_instance_count
                == DEFAULT_LIVE_INSTANCE_COUNT),
    {
        let config = RealtimeServerConfig {
            realtime_play_server_port,
            patch_path: normalize_patch_path(patch_path),
            live_instance_count: DEFAULT_LIVE_INSTANCE_COUNT,
        };
        match config.validate() {
            Ok(()) => Ok(config),
            Err(e) => Err(e),
        }
    }

    /// The port must be 1 to 65535 and the instance count a supported one.
    pub fn validate(&self) -> (result: Result<(), ConfigError>)
        ensures
            self.realtime_play_server_port == 0 ==> result == Err::<(), ConfigError>(
                ConfigError::ZeroPort,
            ),
            self.realtime_play_server_port != 0 && !is_supported_live_instance_count(
                self.live_instance_count as int,
            ) ==> result == Err::<(), ConfigError>(
                ConfigError::UnsupportedCount(self.live_instance_count),
            ),
            self.realtime_play_server_port != 0 && is_supported_live_instance_count(
                self.live_instance_count as int,
            ) ==> result is Ok,
    {
        if self.realtime_play_server_port == 0 {
            return Err(ConfigError::ZeroPort);
        }
        if !is_supported_count(self.live_instance_count) {
            return Err(ConfigError::UnsupportedCount(self.live_instance_count));
        }
        Ok(())
    }
}

/// Checks the main configuration against what the play server needs, then the
/// server's own settings: a plugin must be named, and the sample rate must be the
/// one the server runs at (`sample_rate_supported`, compared by the caller).
pub fn validate_realtime_play_server_config(
    plugin_path: &str,
    sample_rate_supported: bool,
    realtime: &RealtimeServerConfig,
) -> (result: Result<(), ConfigError>)
    ensures
        crate::text::trimmed(plugin_path@).len() == 0 ==> result == Err::<(), ConfigError>(
            ConfigError::EmptyPluginPath,
        ),
        crate::text::trimmed(plugin_path@).len() > 0 && !sample_rate_supported ==> result == Err::<
            (),
            ConfigError,
        >(ConfigError::UnsupportedSampleRate),
        crate::text::trimmed(plugin_path@).len() > 0 && sample_rate_supported ==> {
            &&& realtime.realtime_play_server_port == 0 ==> result == Err::<(), ConfigError>(
                ConfigError::ZeroPort,
            )
            &&& realtime.realtime_play_server_port != 0 && !is_supported_live_instance_count(
                realtime.live_instance_count as int,
            ) ==> result == Err::<(), ConfigError>(
                ConfigError::UnsupportedCount(realtime.live_instance_count),
            )
            &&& realtime.realtime_play_server_port != 0 && is_supported_live_instance_count(
                realtime.live_instance_count as int,
            ) ==> result is Ok
        },
{
    let chars = string_chars(plugin_path);
    if trim_chars(&chars).len() == 0 {
        return Err(ConfigError::EmptyPluginPath);
    }
    if !sample_rate_supported {
        return Err(ConfigError::UnsupportedSampleRate);
    }
    realtime.validate()
}

} // verus!
