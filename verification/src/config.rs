//! Runtime configuration: where songs and data live, which player variant
//! runs, and the tunables of the engine's collaborators.

use vstd::prelude::*;

verus! {

/// The engine's configuration.
#[derive(Debug, PartialEq, Eq)]
pub struct Config {
    /// Directory holding the song files.
    pub song_path: String,
    /// Directory holding the engine's data.
    pub data_path: String,
    /// Whether to skip refreshing the collection at startup.
    pub no_collection_update: bool,
    /// Whether playback is streamed to remote display clients instead of
    /// rendered locally.
    pub use_web_player: bool,
    /// Port of the control interface.
    pub port: u16,
    /// Port preemption signals are broadcast on for remote players.
    pub port_ws: u16,
    /// The format template file names are parsed against.
    pub song_format: String,
}

impl Config {
    /// This configuration with any supplied argument overriding the
    /// matching field, all others kept.
    pub fn with_args(
        self,
        song_path: Option<String>,
        data_path: Option<String>,
        no_collection_update: Option<bool>,
        use_web_player: Option<bool>,
        port: Option<u16>,
        port_ws: Option<u16>,
    ) -> (r: Config)
        ensures
            r.song_path == (match song_path {
                Some(p) => p,
                None => self.song_path,
            }),
            r.data_path == (match data_path {
                Some(p) => p,
                None => self.data_path,
            }),
            r.no_collection_update == (match no_collection_update {
                Some(b) => b,
                None => self.no_collection_update,
            }),
            r.use_web_player == (match use_web_player {
                Some(b) => b,
                None => self.use_web_player,
            }),
            r.port == (match port {
                Some(p) => p,
                None => self.port,
            }),
            r.port_ws == (match port_ws {
                Some(p) => p,
                None => self.port_ws,
            }),
            r.song_format == self.song_format,
    {
        let mut config = self;
        if let Some(p) = song_path {
            config.song_path = p;
        }
        if let Some(p) = data_path {
            config.data_path = p;
        }
        if let Some(b) = no_collection_update {
            config.no_collection_update = b;
        }
        if let Some(b) = use_web_player {
            config.use_web_player = b;
        }
        if let Some(p) = port {
            config.port = p;
        }
        if let Some(p) = port_ws {
            config.port_ws = p;
        }
        config
    }
}

impl Clone for Config {
    /// An exact copy: every field of the clone reads the same.
    fn clone(&self) -> (r: Config)
        ensures
            r.song_path@ == self.song_path@,
            r.data_path@ == self.data_path@,
            r.no_collection_update == self.no_collection_update,
            r.use_web_player == self.use_web_player,
            r.port == self.port,
            r.port_ws == self.port_ws,
            r.song_format@ == self.song_format@,
    {
        Config {
            song_path: self.song_path.clone(),
            data_path: self.data_path.clone(),
            no_collection_update: self.no_collection_update,
            use_web_player: self.use_web_player,
            port: self.port,
            port_ws: self.port_ws,
            song_format: self.song_format.clone(),
        }
    }
}

impl Default for Config {
    /// The stock configuration: local playback, the standard ports, and the
    /// standard file-name format; the caller supplies real directories.
    fn default() -> (r: Config)
        ensures
            r.song_path@ == Seq::<char>::empty(),
            r.data_path@ == Seq::<char>::empty(),
            !r.no_collection_update,
            !r.use_web_player,
            r.port == 8080,
            r.port_ws == 9000,
            r.song_format@ == "[*] - [Artist] - [Title]"@,
    {
        Config {
            song_path: String::new(),
            data_path: String::new(),
            no_collection_update: false,
            use_web_player: false,
            port: 8080,
            port_ws: 9000,
            song_format: "[*] - [Artist] - [Title]".to_owned(),
        }
    }
}

} // verus!
