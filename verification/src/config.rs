//! The configuration consumed by the update loop: an API token, a polling
//! interval, and an ordered list of records to keep pointed at the current
//! public IP. Loading it from disk is the driver's business; only the shape
//! and its validity are modelled here.

use vstd::prelude::*;

verus! {

/// One DNS record to keep updated. `record_id` addresses the update call;
/// `zone_id` is the key for zone-name resolution. `ttl` absent means the
/// update body carries `null` and the provider keeps its own value.
pub struct RecordConfig {
    pub record_id: String,
    pub name: String,
    pub ttl: Option<u64>,
    pub record_type: String,
    pub zone_id: String,
}

/// Mathematical model of a `RecordConfig`.
pub struct RecordConfigV {
    pub record_id: Seq<char>,
    pub name: Seq<char>,
    pub ttl: Option<u64>,
    pub record_type: Seq<char>,
    pub zone_id: Seq<char>,
}

impl View for RecordConfig {
    type V = RecordConfigV;

    open spec fn view(&self) -> RecordConfigV {
        RecordConfigV {
            record_id: self.record_id@,
            name: self.name@,
            ttl: self.ttl,
            record_type: self.record_type@,
            zone_id: self.zone_id@,
        }
    }
}

/// The whole configuration, immutable for the process lifetime.
pub struct Config {
    pub api_token: String,
    pub interval_secs: u64,
    pub records: Vec<RecordConfig>,
}

/// Mathematical model of a `Config`.
pub struct ConfigV {
    pub api_token: Seq<char>,
    pub interval_secs: u64,
    pub records: Seq<RecordConfigV>,
}

impl View for Config {
    type V = ConfigV;

    open spec fn view(&self) -> ConfigV {
        ConfigV {
            api_token: self.api_token@,
            interval_secs: self.interval_secs,
            records: self.records@.map_values(|r: RecordConfig| r@),
        }
    }
}

/// A usable configuration: the polling interval is at least one second.
pub open spec fn config_wf(c: ConfigV) -> bool {
    c.interval_secs >= 1
}

} // verus!
