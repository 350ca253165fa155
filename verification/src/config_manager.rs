//! The daemon's configuration, as the configuration loader produces it.

use vstd::prelude::*;
use crate::text::clone_texts;
use crate::text::texts;

verus! {

/// What the daemon is configured with. The intervals are in milliseconds.
#[derive(Debug, PartialEq, Eq)]
pub struct Config {
    pub api_key: String,
    pub service_url: String,
    pub process_polling_interval_ms: u64,
    pub batch_submission_interval_ms: u64,
    pub targets: Vec<String>,
}

/// The mathematical content of a [`Config`].
pub struct ConfigData {
    pub api_key: Seq<char>,
    pub service_url: Seq<char>,
    pub process_polling_interval_ms: u64,
    pub batch_submission_interval_ms: u64,
    pub targets: Seq<Seq<char>>,
}

impl View for Config {
    type V = ConfigData;

    open spec fn view(&self) -> ConfigData {
        ConfigData {
            api_key: self.api_key@,
            service_url: self.service_url@,
            process_polling_interval_ms: self.process_polling_interval_ms,
            batch_submission_interval_ms: self.batch_submission_interval_ms,
            targets: texts(self.targets@),
        }
    }
}

impl Clone for Config {
    fn clone(&self) -> (r: Config)
        ensures
            r@ == self@,
    {
        Config {
            api_key: self.api_key.clone(),
            service_url: self.service_url.clone(),
            process_polling_interval_ms: self.process_polling_interval_ms,
            batch_submission_interval_ms: self.batch_submission_interval_ms,
            targets: clone_texts(&self.targets),
        }
    }
}

} // verus!
