//! The shared state: operational flags, presence settings, the command prefix
//! and the latency of each gateway connection.

use std::collections::HashMap;
use vstd::prelude::*;
use crate::init::Config;
use crate::text::same_text;

verus! {

/// The kind of presence activity shown to users.
#[derive(Clone, Copy, Debug, PartialEq, Eq, Structural)]
pub enum ClientActivityType {
    Playing,
    Streaming,
    Listening,
    Watching,
    Unknown,
}

impl ClientActivityType {
    /// Whether the kind is not one that a presence can show.
    pub fn is_unknown(&self) -> (r: bool)
        ensures
            r == (*self is Unknown),
    {
        match self {
            ClientActivityType::Unknown => true,
            _ => false,
        }
    }

    /// The kind named by a configuration entry: `playing`, `streaming`,
    /// `listening` or `watching`; any other name is `Unknown`.
    pub fn from_name(name: &str) -> (r: ClientActivityType)
        ensures
            r == activity_named(name@),
    {
        if same_text(name, "playing") {
            ClientActivityType::Playing
        } else if same_text(name, "streaming") {
            ClientActivityType::Streaming
        } else if same_text(name, "listening") {
            ClientActivityType::Listening
        } else if same_text(name, "watching") {
            ClientActivityType::Watching
        } else {
            ClientActivityType::Unknown
        }
    }
}

/// The activity kind that a configuration name stands for.
pub open spec fn activity_named(name: Seq<char>) -> ClientActivityType {
    if name == "playing"@ {
        ClientActivityType::Playing
    } else if name == "streaming"@ {
        ClientActivityType::Streaming
    } else if name == "listening"@ {
        ClientActivityType::Listening
    } else if name == "watching"@ {
        ClientActivityType::Watching
    } else {
        ClientActivityType::Unknown
    }
}

/// One presence: its text and its kind.
#[derive(Clone)]
pub struct Status {
    pub message: String,
    pub status_type: ClientActivityType,
}

/// The presence settings: the rotation list, the three override presences,
/// the link shown with a streaming presence and the rotation interval in
/// seconds.
pub struct StatusManager {
    pub list: Vec<Status>,
    pub continue_status: bool,
    pub dev_status: Status,
    pub maintenance_status: Status,
    pub debug_mode_status: Status,
    pub streaming_url: String,
    pub status_time: u64,
}

/// Settings of the command dispatcher.
pub struct ClientData {
    pub prefix: String,
}

/// The mode the command handler runs in, fixed when the state is built.
#[derive(Clone, Copy, Debug, PartialEq, Eq, Structural)]
pub enum HandlerStatus {
    InDev,
    DebugMode,
    ProdMode,
}

impl HandlerStatus {
    /// The mode's number: 0 in development, 1 in debug, 2 in production.
    pub fn as_i32(&self) -> (r: i32)
        ensures
            r == match *self {
                HandlerStatus::InDev => 0i32,
                HandlerStatus::DebugMode => 1i32,
                HandlerStatus::ProdMode => 2i32,
            },
    {
        match self {
            HandlerStatus::InDev => 0,
            HandlerStatus::DebugMode => 1,
            HandlerStatus::ProdMode => 2,
        }
    }

    /// Whether the mode traces the commands it runs (development and debug).
    pub fn is_dev(&self) -> (r: bool)
        ensures
            r == !(*self is ProdMode),
    {
        match self {
            HandlerStatus::InDev | HandlerStatus::DebugMode => true,
            _ => false,
        }
    }

    /// The mode that the flags select: development first, then debug, else
    /// production.
    pub fn from_flags(dev: bool, debug: bool) -> (r: HandlerStatus)
        ensures
            r == mode_for(dev, debug),
    {
        if dev {
            HandlerStatus::InDev
        } else if debug {
            HandlerStatus::DebugMode
        } else {
            HandlerStatus::ProdMode
        }
    }
}

/// The mode that the flags select: development first, then debug, else
/// production.
pub open spec fn mode_for(dev: bool, debug: bool) -> HandlerStatus {
    if dev {
        HandlerStatus::InDev
    } else if debug {
        HandlerStatus::DebugMode
    } else {
        HandlerStatus::ProdMode
    }
}

/// The last round-trip time measured on a connection, in nanoseconds (zero
/// while none is known), and whether a high-latency warning stands for it.
#[derive(Clone, Copy, Debug, PartialEq, Eq, Structural)]
pub struct Latency {
    pub ping_ns: u64,
    pub warned: bool,
}

/// Why a configuration cannot start the process.
#[derive(Clone, Copy, Debug, PartialEq, Eq, Structural)]
pub enum ConfigError {
    /// The presence rotation list is empty.
    EmptyStatusList,
    /// The rotation interval is negative.
    NegativeStatusTime,
}

/// The state that the tasks share.
pub struct Storage {
    pub maintenance: bool,
    pub dev: bool,
    pub debug: bool,
    pub status: StatusManager,
    pub client: ClientData,
    pub handler_state: HandlerStatus,
    pub latency: HashMap<u64, Latency>,
    /// When the process started, in microseconds since the Unix epoch.
    pub process_start_us: i64,
}

/// The error that a configuration is refused with, if any.
pub open spec fn config_error(config: Config) -> Option<ConfigError> {
    if config.params.status@.len() == 0 {
        Some(ConfigError::EmptyStatusList)
    } else if config.params.status_time < 0 {
        Some(ConfigError::NegativeStatusTime)
    } else {
        None
    }
}

/// `s` is the presence that configuration entry `c` describes.
pub open spec fn status_from_entry(s: Status, c: crate::init::Status) -> bool {
    s.message@ == c.message@ && s.status_type == activity_named(c.status_type@)
}

/// `s` holds what `config` sets, with no override flag raised but the
/// development one that the configuration gives, the fixed override presences
/// and streaming link, and no latency known yet.
pub open spec fn built_from(s: Storage, config: Config) -> bool {
    &&& !s.maintenance
    &&& s.dev == config.client.dev
    &&& !s.debug
    &&& s.handler_state == mode_for(config.client.dev, false)
    &&& s.client.prefix@ == config.params.prefix@
    &&& s.status.list@.len() == config.params.status@.len()
    &&& forall|i: int|
        0 <= i < s.status.list@.len() ==> status_from_entry(
            #[trigger] s.status.list@[i],
            config.params.status@[i],
        )
    &&& s.status.continue_status == config.params.auto_status
    &&& s.status.status_time == config.params.status_time as u64
    &&& s.status.dev_status.status_type == ClientActivityType::Watching
    &&& s.status.dev_status.message@ == "⚙️ Mode développeur"@
    &&& s.status.maintenance_status.status_type == ClientActivityType::Watching
    &&& s.status.maintenance_status.message@ == "🚧 Mode maintenance"@
    &&& s.status.debug_mode_status.status_type == ClientActivityType::Watching
    &&& s.status.debug_mode_status.message@ == "🔧 Mode debug"@
    &&& s.status.streaming_url@ == "https://www.twitch.tv/sedorriku_"@
    &&& s.latency@ == Map::<u64, Latency>::empty()
    &&& s.wf()
}

/// Relies on `chrono::Utc::now` and `DateTime::timestamp_micros`: the current
/// time in microseconds since the Unix epoch. Nothing is known of its value.
#[verifier::external_body]
fn now_micros() -> (r: i64) {
    chrono::Utc::now().timestamp_micros()
}

impl Storage {
    /// The rotation list is never empty.
    pub open spec fn wf(&self) -> bool {
        self.status.list@.len() >= 1
    }

    /// Builds the state from the configuration, with `process_start_us` as the
    /// start time. Refuses an empty presence list and a negative interval.
    pub fn from_config(config: &Config, process_start_us: i64) -> (r: Result<Storage, ConfigError>)
        ensures
            match r {
                Ok(s) => config_error(*config) is None && built_from(s, *config)
                    && s.process_start_us == process_start_us,
                Err(e) => config_error(*config) == Some(e),
            },
    {
        if config.params.status.len() == 0 {
            return Err(ConfigError::EmptyStatusList);
        }
        if config.params.status_time < 0 {
            return Err(ConfigError::NegativeStatusTime);
        }
        let mut list: Vec<Status> = Vec::new();
        let n = config.params.status.len();
        let mut i: usize = 0;
        while i < n
            invariant
                n == config.params.status@.len(),
                i <= n,
                list@.len() == i,
                forall|j: int|
                    0 <= j < i ==> status_from_entry(#[trigger] list@[j], config.params.status@[j]),
            decreases n - i,
        {
            let entry = &config.params.status[i];
            let s = Status {
                message: entry.message.clone(),
                status_type: ClientActivityType::from_name(entry.status_type.as_str()),
            };
            list.push(s);
            i = i + 1;
        }
        let dev = config.client.dev;
        Ok(Storage {
            maintenance: false,
            dev,
            debug: false,
            status: StatusManager {
                list,
                continue_status: config.params.auto_status,
                dev_status: Status {
                    message: String::from_str("⚙️ Mode développeur"),
                    status_type: ClientActivityType::Watching,
                },
                maintenance_status: Status {
                    message: String::from_str("🚧 Mode maintenance"),
                    status_type: ClientActivityType::Watching,
                },
                debug_mode_status: Status {
                    message: String::from_str("🔧 Mode debug"),
                    status_type: ClientActivityType::Watching,
                },
                streaming_url: String::from_str("https://www.twitch.tv/sedorriku_"),
                status_time: config.params.status_time as u64,
            },
            client: ClientData { prefix: config.params.prefix.clone() },
            handler_state: HandlerStatus::from_flags(dev, false),
            latency: HashMap::new(),
            process_start_us,
        })
    }

    /// Builds the state from the configuration, started now.
    pub fn new(config: &Config) -> (r: Result<Storage, ConfigError>)
        ensures
            match r {
                Ok(s) => config_error(*config) is None && built_from(s, *config),
                Err(e) => config_error(*config) == Some(e),
            },
    {
        let start = now_micros();
        Storage::from_config(config, start)
    }

    /// Publishes a whole new latency map in one step; nothing else changes.
    pub fn replace_latency(&mut self, latency: HashMap<u64, Latency>)
        ensures
            final(self).latency@ == latency@,
            final(self).maintenance == old(self).maintenance,
            final(self).dev == old(self).dev,
            final(self).debug == old(self).debug,
            final(self).status == old(self).status,
            final(self).client == old(self).client,
            final(self).handler_state == old(self).handler_state,
            final(self).process_start_us == old(self).process_start_us,
    {
        self.latency = latency;
    }
}

} // verus!
