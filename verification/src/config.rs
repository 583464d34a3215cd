//! Relay settings: the topic, the two clusters, and the command-line
//! overrides layered on top of the configuration file.

use vstd::prelude::*;

verus! {

/// Where the source consumer starts reading when its group has no
/// committed offset yet.
#[derive(Clone, Copy, PartialEq, Eq, Structural, Debug)]
pub enum StartOffset {
    Earliest,
    Latest,
}

/// The start offset selected by an `auto_offset_reset` setting:
/// `"earliest"` selects the earliest offset; `"latest"` and every
/// unrecognized string alike select the latest.
pub open spec fn offset_reset_of(s: Seq<char>) -> StartOffset {
    if s == "earliest"@ {
        StartOffset::Earliest
    } else {
        StartOffset::Latest
    }
}

/// Settings for the source cluster: where to connect, which consumer
/// group to track offsets under, and how to start when the group has no
/// committed offset.
pub struct KafkaSrc {
    pub brokers: Vec<String>,
    pub group_id: String,
    pub auto_offset_reset: String,
    pub enable_auto_commit: bool,
}

/// Settings for the destination cluster.
pub struct KafkaDst {
    pub brokers: Vec<String>,
}

/// The resolved relay configuration: one topic, mirrored from the source
/// cluster to the same-named topic on the destination cluster.
pub struct AppConfig {
    pub topic: String,
    pub src: KafkaSrc,
    pub dst: KafkaDst,
}

/// Command-line arguments: the configuration file to load, and an
/// optional topic override that wins over the file's `topic`.
pub struct Cli {
    pub cfg_file_path: String,
    pub topic: Option<String>,
}

/// Maps an `auto_offset_reset` setting to the start offset the relay
/// uses: `"earliest"` gives [`StartOffset::Earliest`]; anything else,
/// `"latest"` and unrecognized strings alike, gives
/// [`StartOffset::Latest`].
pub fn parse_offset_reset(s: &String) -> (r: StartOffset)
    ensures
        r == offset_reset_of(s@),
{
    let earliest: String = "earliest".to_owned();
    if *s == earliest {
        StartOffset::Earliest
    } else {
        StartOffset::Latest
    }
}

impl AppConfig {
    /// Layers the command-line arguments over this configuration: a topic
    /// given on the command line replaces the file's topic; everything
    /// else is kept as loaded.
    pub fn apply_cli(self, cli: Cli) -> (r: AppConfig)
        ensures
            r.topic == (match cli.topic {
                Some(t) => t,
                None => self.topic,
            }),
            r.src == self.src,
            r.dst == self.dst,
    {
        match cli.topic {
            Some(t) => AppConfig { topic: t, src: self.src, dst: self.dst },
            None => self,
        }
    }

    /// The start offset that this configuration selects for the source
    /// consumer.
    pub fn start_offset(&self) -> (r: StartOffset)
        ensures
            r == offset_reset_of(self.src.auto_offset_reset@),
    {
        parse_offset_reset(&self.src.auto_offset_reset)
    }
}

} // verus!
