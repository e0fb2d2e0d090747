//! The update loop as a state machine. The machine holds the configuration,
//! the last known IP, the zone-name cache and a phase; the driver performs
//! one directive (an HTTP call, a sleep), feeds the resulting event back
//! into `step`, and emits the returned log events. Every transition is
//! specified by `step_spec`.

use vstd::prelude::*;
use crate::cache::ZoneCache;
use crate::config::{Config, ConfigV, config_wf};
use crate::errors::{ApiError, ApiErrorV, IpError};
use crate::ip::{is_ip, is_ip_literal};
use crate::json::{build_update_body, update_body_spec};
use crate::text::push_char;
use crate::zones::{RecordEntry, RecordEntryV, ZoneInfo, ZoneInfoV};

verus! {

/// What the driver reports back to the machine.
pub enum Event {
    /// The probe returned a body (not yet known to be an IP literal).
    ProbeOk { body: String },
    /// The probe failed at the transport level.
    ProbeFailed,
    /// The zone-details call answered: its status, the zone name if the
    /// body parsed, and the raw body for diagnostics.
    ZoneFetched { status: u16, zone_name: Option<String>, body: String },
    /// The zone-details call failed at the transport level.
    ZoneFetchFailed,
    /// The record update call answered.
    UpdateResponded { status: u16, body: String },
    /// The record update call failed at the transport level.
    UpdateFailed,
    /// The interval sleep elapsed.
    SleepDone,
    /// The zone listing answered; `None` for transport or parse failure.
    ZonesFetched { zones: Option<Vec<ZoneInfo>> },
    /// The per-zone record listing answered; `None` as above.
    ZoneRecordsFetched { records: Option<Vec<RecordEntry>> },
}

/// Mathematical model of an `Event`.
pub enum EventV {
    ProbeOk { body: Seq<char> },
    ProbeFailed,
    ZoneFetched { status: u16, zone_name: Option<Seq<char>>, body: Seq<char> },
    ZoneFetchFailed,
    UpdateResponded { status: u16, body: Seq<char> },
    UpdateFailed,
    SleepDone,
    ZonesFetched { zones: Option<Seq<ZoneInfoV>> },
    ZoneRecordsFetched { records: Option<Seq<RecordEntryV>> },
}

/// The view of a vector of zones.
pub open spec fn zones_view(v: Seq<ZoneInfo>) -> Seq<ZoneInfoV> {
    v.map_values(|z: ZoneInfo| z@)
}

/// The view of a vector of record entries.
pub open spec fn records_view(v: Seq<RecordEntry>) -> Seq<RecordEntryV> {
    v.map_values(|r: RecordEntry| r@)
}

impl View for Event {
    type V = EventV;

    open spec fn view(&self) -> EventV {
        match self {
            Event::ProbeOk { body } => EventV::ProbeOk { body: body@ },
            Event::ProbeFailed => EventV::ProbeFailed,
            Event::ZoneFetched { status, zone_name, body } => EventV::ZoneFetched {
                status: *status,
                zone_name: match zone_name {
                    Some(n) => Some(n@),
                    None => None,
                },
                body: body@,
            },
            Event::ZoneFetchFailed => EventV::ZoneFetchFailed,
            Event::UpdateResponded { status, body } => EventV::UpdateResponded {
                status: *status,
                body: body@,
            },
            Event::UpdateFailed => EventV::UpdateFailed,
            Event::SleepDone => EventV::SleepDone,
            Event::ZonesFetched { zones } => EventV::ZonesFetched {
                zones: match zones {
                    Some(v) => Some(zones_view(v@)),
                    None => None,
                },
            },
            Event::ZoneRecordsFetched { records } => EventV::ZoneRecordsFetched {
                records: match records {
                    Some(v) => Some(records_view(v@)),
                    None => None,
                },
            },
        }
    }
}

/// What the machine asks the driver to do next.
pub enum Directive {
    /// Fetch the current public IP.
    Probe,
    /// Fetch the details of one zone.
    FetchZone { zone_id: String },
    /// Send the update for one record: a PUT addressed by the record id,
    /// carrying the given JSON body.
    PutRecord { record_id: String, body: String },
    /// List all zones.
    FetchZones,
    /// List all records of one zone.
    FetchZoneRecords { zone_id: String },
    /// Wait for the polling interval.
    Sleep { secs: u64 },
    /// Discovery is finished: exit.
    Stop,
}

/// Mathematical model of a `Directive`.
pub enum DirectiveV {
    Probe,
    FetchZone { zone_id: Seq<char> },
    PutRecord { record_id: Seq<char>, body: Seq<char> },
    FetchZones,
    FetchZoneRecords { zone_id: Seq<char> },
    Sleep { secs: u64 },
    Stop,
}

impl View for Directive {
    type V = DirectiveV;

    open spec fn view(&self) -> DirectiveV {
        match self {
            Directive::Probe => DirectiveV::Probe,
            Directive::FetchZone { zone_id } => DirectiveV::FetchZone { zone_id: zone_id@ },
            Directive::PutRecord { record_id, body } => DirectiveV::PutRecord {
                record_id: record_id@,
                body: body@,
            },
            Directive::FetchZones => DirectiveV::FetchZones,
            Directive::FetchZoneRecords { zone_id } => DirectiveV::FetchZoneRecords {
                zone_id: zone_id@,
            },
            Directive::Sleep { secs } => DirectiveV::Sleep { secs: *secs },
            Directive::Stop => DirectiveV::Stop,
        }
    }
}

/// A log line, as structured data; the driver formats and emits it.
pub enum LogEvent {
    /// Info: the probed IP differs from the last known one.
    IpChanged { old_ip: String, new_ip: String },
    /// Error: the probe failed or its body was not an IP literal.
    ProbeError { error: IpError },
    /// Info: a record was updated; carries the fully qualified name.
    RecordUpdated { fqdn: String, ip: String },
    /// Error: a record's update attempt failed.
    RecordUpdateFailed { name: String, error: ApiError },
    /// Debug: a zone id was not in the cache.
    CacheMiss { zone_id: String },
    /// Warn: discovery found no zones.
    NoZones,
    /// Info: discovery describes one zone.
    ZoneSeen { zone: ZoneInfo },
    /// Info: discovery describes one record of the current zone.
    RecordSeen { entry: RecordEntry },
    /// Warn: discovery found a zone without records.
    NoRecordsInZone { zone_name: String },
    /// Error: discovery aborted on a failed call.
    DiscoveryFailed { error: ApiError },
}

/// Mathematical model of a `LogEvent`.
pub enum LogEventV {
    IpChanged { old_ip: Seq<char>, new_ip: Seq<char> },
    ProbeError { error: IpError },
    RecordUpdated { fqdn: Seq<char>, ip: Seq<char> },
    RecordUpdateFailed { name: Seq<char>, error: ApiErrorV },
    CacheMiss { zone_id: Seq<char> },
    NoZones,
    ZoneSeen { zone: ZoneInfoV },
    RecordSeen { entry: RecordEntryV },
    NoRecordsInZone { zone_name: Seq<char> },
    DiscoveryFailed { error: ApiErrorV },
}

impl View for LogEvent {
    type V = LogEventV;

    open spec fn view(&self) -> LogEventV {
        match self {
            LogEvent::IpChanged { old_ip, new_ip } => LogEventV::IpChanged {
                old_ip: old_ip@,
                new_ip: new_ip@,
            },
            LogEvent::ProbeError { error } => LogEventV::ProbeError { error: *error },
            LogEvent::RecordUpdated { fqdn, ip } => LogEventV::RecordUpdated {
                fqdn: fqdn@,
                ip: ip@,
            },
            LogEvent::RecordUpdateFailed { name, error } => LogEventV::RecordUpdateFailed {
                name: name@,
                error: error@,
            },
            LogEvent::CacheMiss { zone_id } => LogEventV::CacheMiss { zone_id: zone_id@ },
            LogEvent::NoZones => LogEventV::NoZones,
            LogEvent::ZoneSeen { zone } => LogEventV::ZoneSeen { zone: zone@ },
            LogEvent::RecordSeen { entry } => LogEventV::RecordSeen { entry: entry@ },
            LogEvent::NoRecordsInZone { zone_name } => LogEventV::NoRecordsInZone {
                zone_name: zone_name@,
            },
            LogEvent::DiscoveryFailed { error } => LogEventV::DiscoveryFailed { error: error@ },
        }
    }
}

/// The view of a list of log events.
pub open spec fn logs_view(v: Seq<LogEvent>) -> Seq<LogEventV> {
    v.map_values(|e: LogEvent| e@)
}

/// The machine's phase: what it waits for.
pub enum Phase {
    /// Waiting for the probe's answer.
    Probing,
    /// A change to `ip` is being applied; waiting for the zone details
    /// needed by record number `idx`.
    Resolving { ip: String, idx: usize },
    /// A change to `ip` is being applied; waiting for the update answer
    /// for record number `idx`, whose zone resolved to `zone_name`.
    Updating { ip: String, idx: usize, zone_name: String },
    /// Waiting for the interval sleep.
    Sleeping,
    /// Discovery mode: waiting for the zone listing.
    Discovering,
    /// Discovery mode: waiting for the records of zone number `idx`.
    Listing { zones: Vec<ZoneInfo>, idx: usize },
    /// Discovery mode: done.
    Finished,
}

/// Mathematical model of a `Phase`.
#[verifier::ext_equal]
pub enum PhaseV {
    Probing,
    Resolving { ip: Seq<char>, idx: int },
    Updating { ip: Seq<char>, idx: int, zone_name: Seq<char> },
    Sleeping,
    Discovering,
    Listing { zones: Seq<ZoneInfoV>, idx: int },
    Finished,
}

impl View for Phase {
    type V = PhaseV;

    open spec fn view(&self) -> PhaseV {
        match self {
            Phase::Probing => PhaseV::Probing,
            Phase::Resolving { ip, idx } => PhaseV::Resolving { ip: ip@, idx: *idx as int },
            Phase::Updating { ip, idx, zone_name } => PhaseV::Updating {
                ip: ip@,
                idx: *idx as int,
                zone_name: zone_name@,
            },
            Phase::Sleeping => PhaseV::Sleeping,
            Phase::Discovering => PhaseV::Discovering,
            Phase::Listing { zones, idx } => PhaseV::Listing {
                zones: zones_view(zones@),
                idx: *idx as int,
            },
            Phase::Finished => PhaseV::Finished,
        }
    }
}

/// The whole machine.
pub struct Machine {
    config: Config,
    last_ip: String,
    cache: ZoneCache,
    phase: Phase,
}

/// Mathematical model of a `Machine`.
#[verifier::ext_equal]
pub struct MachineV {
    pub config: ConfigV,
    pub last_ip: Seq<char>,
    pub cache: Map<Seq<char>, Seq<char>>,
    pub phase: PhaseV,
}

impl View for Machine {
    type V = MachineV;

    closed spec fn view(&self) -> MachineV {
        MachineV {
            config: self.config@,
            last_ip: self.last_ip@,
            cache: self.cache@,
            phase: self.phase@,
        }
    }
}

/// The machine's well-formedness: the configuration is valid; polling
/// phases exist only with configured records, discovery phases only
/// without; a pass's record index is in range and its IP is a literal;
/// an `Updating` phase carries exactly the cached name of its record's
/// zone.
pub open spec fn machine_wf(m: MachineV) -> bool {
    &&& config_wf(m.config)
    &&& match m.phase {
        PhaseV::Probing => m.config.records.len() > 0,
        PhaseV::Sleeping => m.config.records.len() > 0,
        PhaseV::Resolving { ip, idx } => m.config.records.len() > 0 && 0 <= idx
            < m.config.records.len() && is_ip_literal(ip) && !m.cache.contains_key(
            m.config.records[idx].zone_id,
        ),
        PhaseV::Updating { ip, idx, zone_name } => m.config.records.len() > 0 && 0 <= idx
            < m.config.records.len() && is_ip_literal(ip) && m.cache.contains_key(
            m.config.records[idx].zone_id,
        ) && m.cache[m.config.records[idx].zone_id] == zone_name,
        PhaseV::Discovering => m.config.records.len() == 0,
        PhaseV::Listing { zones, idx } => m.config.records.len() == 0 && 0 <= idx < zones.len(),
        PhaseV::Finished => m.config.records.len() == 0,
    }
}

/// Which events answer which phase.
pub open spec fn event_fits(p: PhaseV, e: EventV) -> bool {
    match p {
        PhaseV::Probing => e is ProbeOk || e is ProbeFailed,
        PhaseV::Resolving { .. } => e is ZoneFetched || e is ZoneFetchFailed,
        PhaseV::Updating { .. } => e is UpdateResponded || e is UpdateFailed,
        PhaseV::Sleeping => e is SleepDone,
        PhaseV::Discovering => e is ZonesFetched,
        PhaseV::Listing { .. } => e is ZoneRecordsFetched,
        PhaseV::Finished => false,
    }
}

/// The result of one transition: the next machine, the directive handed to
/// the driver, and the log events to emit, in order.
#[verifier::ext_equal]
pub struct StepV {
    pub m: MachineV,
    pub directive: DirectiveV,
    pub logs: Seq<LogEventV>,
}

/// A fully qualified name: record name, dot, zone name.
pub open spec fn fqdn_spec(name: Seq<char>, zone: Seq<char>) -> Seq<char> {
    name + seq!['.'] + zone
}

/// The closed taxonomy of DNS API answers, applied to record updates and
/// zone-details calls alike: success is exactly status 200; the enumerated
/// statuses map to their errors; anything else is `UnknownStatus` carrying
/// the raw body.
pub open spec fn classify_api_status(status: u16, body: Seq<char>) -> Result<(), ApiErrorV> {
    if status == 200 {
        Result::Ok(())
    } else if status == 401 {
        Result::Err(ApiErrorV::Unauthorized)
    } else if status == 403 {
        Result::Err(ApiErrorV::Forbidden)
    } else if status == 404 {
        Result::Err(ApiErrorV::NotFound)
    } else if status == 409 {
        Result::Err(ApiErrorV::Conflict)
    } else if status == 422 {
        Result::Err(ApiErrorV::UnprocessableEntity)
    } else {
        Result::Err(ApiErrorV::UnknownStatus(status, body))
    }
}

/// The view of a classification result.
pub open spec fn result_view(r: Result<(), ApiError>) -> Result<(), ApiErrorV> {
    match r {
        Result::Ok(()) => Result::Ok(()),
        Result::Err(e) => Result::Err(e@),
    }
}

/// Classifies the HTTP answer of a DNS API call.
pub fn classify_api(status: u16, body: String) -> (r: Result<(), ApiError>)
    ensures
        result_view(r) == classify_api_status(status, body@),
{
    if status == 200 {
        Ok(())
    } else if status == 401 {
        Err(ApiError::Unauthorized)
    } else if status == 403 {
        Err(ApiError::Forbidden)
    } else if status == 404 {
        Err(ApiError::NotFound)
    } else if status == 409 {
        Err(ApiError::Conflict)
    } else if status == 422 {
        Err(ApiError::UnprocessableEntity)
    } else {
        Err(ApiError::UnknownStatus(status, body))
    }
}

/// A zone-details answer counts as success on any 2xx status.
pub open spec fn is_success_status(status: u16) -> bool {
    200 <= status < 300
}

/// Starts work on record number `idx` of a pass applying `ip`, or, when
/// all records are done, advances the last known IP to `ip` and goes to
/// sleep. A cached zone goes straight to the update call; an uncached one
/// asks for the zone details first.
pub open spec fn begin_record(m: MachineV, ip: Seq<char>, idx: int) -> StepV {
    if idx >= m.config.records.len() {
        StepV {
            m: MachineV { last_ip: ip, phase: PhaseV::Sleeping, ..m },
            directive: DirectiveV::Sleep { secs: m.config.interval_secs },
            logs: seq![],
        }
    } else {
        let r = m.config.records[idx];
        if m.cache.contains_key(r.zone_id) {
            StepV {
                m: MachineV {
                    phase: PhaseV::Updating { ip, idx, zone_name: m.cache[r.zone_id] },
                    ..m
                },
                directive: DirectiveV::PutRecord {
                    record_id: r.record_id,
                    body: update_body_spec(r, ip),
                },
                logs: seq![],
            }
        } else {
            StepV {
                m: MachineV { phase: PhaseV::Resolving { ip, idx }, ..m },
                directive: DirectiveV::FetchZone { zone_id: r.zone_id },
                logs: seq![LogEventV::CacheMiss { zone_id: r.zone_id }],
            }
        }
    }
}

/// Record number `idx` has its outcome; log it and move to the next.
pub open spec fn after_outcome(m: MachineV, ip: Seq<char>, idx: int, head: Seq<LogEventV>) -> StepV {
    let nxt = begin_record(m, ip, idx + 1);
    StepV { m: nxt.m, directive: nxt.directive, logs: head + nxt.logs }
}

/// What discovery logs for a zone's record listing: a warning when it is
/// empty, otherwise one line per record.
pub open spec fn listing_logs(zone: ZoneInfoV, records: Seq<RecordEntryV>) -> Seq<LogEventV> {
    if records.len() == 0 {
        seq![LogEventV::NoRecordsInZone { zone_name: zone.name }]
    } else {
        records.map_values(|r: RecordEntryV| LogEventV::RecordSeen { entry: r })
    }
}

/// The machine's transition function.
pub open spec fn step_spec(m: MachineV, e: EventV) -> StepV {
    match (m.phase, e) {
        (PhaseV::Probing, EventV::ProbeOk { body }) => {
            if !is_ip_literal(body) {
                StepV {
                    m: MachineV { phase: PhaseV::Sleeping, ..m },
                    directive: DirectiveV::Sleep { secs: m.config.interval_secs },
                    logs: seq![LogEventV::ProbeError { error: IpError::InvalidIp }],
                }
            } else if body == m.last_ip {
                StepV {
                    m: MachineV { phase: PhaseV::Sleeping, ..m },
                    directive: DirectiveV::Sleep { secs: m.config.interval_secs },
                    logs: seq![],
                }
            } else {
                let started = begin_record(m, body, 0);
                StepV {
                    m: started.m,
                    directive: started.directive,
                    logs: seq![
                        LogEventV::IpChanged { old_ip: m.last_ip, new_ip: body },
                    ] + started.logs,
                }
            }
        },
        (PhaseV::Probing, EventV::ProbeFailed) => StepV {
            m: MachineV { phase: PhaseV::Sleeping, ..m },
            directive: DirectiveV::Sleep { secs: m.config.interval_secs },
            logs: seq![LogEventV::ProbeError { error: IpError::RequestError }],
        },
        (PhaseV::Resolving { ip, idx }, EventV::ZoneFetched { status, zone_name, body }) => {
            if is_success_status(status) {
                match zone_name {
                    Some(zn) => {
                        let m2 = MachineV {
                            cache: m.cache.insert(m.config.records[idx].zone_id, zn),
                            ..m
                        };
                        begin_record(m2, ip, idx)
                    },
                    None => after_outcome(
                        m,
                        ip,
                        idx,
                        seq![
                            LogEventV::RecordUpdateFailed {
                                name: m.config.records[idx].name,
                                error: ApiErrorV::RequestError,
                            },
                        ],
                    ),
                }
            } else {
                after_outcome(
                    m,
                    ip,
                    idx,
                    seq![
                        LogEventV::RecordUpdateFailed {
                            name: m.config.records[idx].name,
                            error: classify_api_status(status, body)->Err_0,
                        },
                    ],
                )
            }
        },
        (PhaseV::Resolving { ip, idx }, EventV::ZoneFetchFailed) => after_outcome(
            m,
            ip,
            idx,
            seq![
                LogEventV::RecordUpdateFailed {
                    name: m.config.records[idx].name,
                    error: ApiErrorV::RequestError,
                },
            ],
        ),
        (PhaseV::Updating { ip, idx, zone_name }, EventV::UpdateResponded { status, body }) => {
            match classify_api_status(status, body) {
                Result::Ok(()) => after_outcome(
                    m,
                    ip,
                    idx,
                    seq![
                        LogEventV::RecordUpdated {
                            fqdn: fqdn_spec(m.config.records[idx].name, zone_name),
                            ip: ip,
                        },
                    ],
                ),
                Result::Err(err) => after_outcome(
                    m,
                    ip,
                    idx,
                    seq![
                        LogEventV::RecordUpdateFailed {
                            name: m.config.records[idx].name,
                            error: err,
                        },
                    ],
                ),
            }
        },
        (PhaseV::Updating { ip, idx, zone_name }, EventV::UpdateFailed) => after_outcome(
            m,
            ip,
            idx,
            seq![
                LogEventV::RecordUpdateFailed {
                    name: m.config.records[idx].name,
                    error: ApiErrorV::RequestError,
                },
            ],
        ),
        (PhaseV::Sleeping, EventV::SleepDone) => StepV {
            m: MachineV { phase: PhaseV::Probing, ..m },
            directive: DirectiveV::Probe,
            logs: seq![],
        },
        (PhaseV::Discovering, EventV::ZonesFetched { zones }) => {
            match zones {
                None => StepV {
                    m: MachineV { phase: PhaseV::Finished, ..m },
                    directive: DirectiveV::Stop,
                    logs: seq![LogEventV::DiscoveryFailed { error: ApiErrorV::RequestError }],
                },
                Some(zs) => {
                    if zs.len() == 0 {
                        StepV {
                            m: MachineV { phase: PhaseV::Finished, ..m },
                            directive: DirectiveV::Stop,
                            logs: seq![LogEventV::NoZones],
                        }
                    } else {
                        StepV {
                            m: MachineV { phase: PhaseV::Listing { zones: zs, idx: 0 }, ..m },
                            directive: DirectiveV::FetchZoneRecords { zone_id: zs[0].id },
                            logs: seq![LogEventV::ZoneSeen { zone: zs[0] }],
                        }
                    }
                },
            }
        },
        (PhaseV::Listing { zones, idx }, EventV::ZoneRecordsFetched { records }) => {
            match records {
                None => StepV {
                    m: MachineV { phase: PhaseV::Finished, ..m },
                    directive: DirectiveV::Stop,
                    logs: seq![LogEventV::DiscoveryFailed { error: ApiErrorV::RequestError }],
                },
                Some(rs) => {
                    let head = listing_logs(zones[idx], rs);
                    if idx + 1 < zones.len() {
                        StepV {
                            m: MachineV { phase: PhaseV::Listing { zones, idx: idx + 1 }, ..m },
                            directive: DirectiveV::FetchZoneRecords { zone_id: zones[idx + 1].id },
                            logs: head + seq![LogEventV::ZoneSeen { zone: zones[idx + 1] }],
                        }
                    } else {
                        StepV {
                            m: MachineV { phase: PhaseV::Finished, ..m },
                            directive: DirectiveV::Stop,
                            logs: head,
                        }
                    }
                },
            }
        },
        _ => StepV { m, directive: DirectiveV::Stop, logs: seq![] },
    }
}

impl Machine {
    /// The machine's invariant: its model is well-formed and the cache's
    /// representation is sound.
    pub closed spec fn inv(&self) -> bool {
        machine_wf(self@) && self.cache.wf()
    }

    /// Builds the machine from a configuration. With no records configured
    /// it starts in discovery mode and asks for the zone listing; with
    /// records it starts the polling loop and asks for a probe.
    pub fn new(config: Config) -> (r: (Machine, Directive))
        requires
            config_wf(config@),
        ensures
            r.0.inv(),
            r.0@.config == config@,
            r.0@.last_ip == Seq::<char>::empty(),
            r.0@.cache == Map::<Seq<char>, Seq<char>>::empty(),
            config@.records.len() == 0 ==> r.0@.phase == PhaseV::Discovering && r.1@
                == DirectiveV::FetchZones,
            config@.records.len() > 0 ==> r.0@.phase == PhaseV::Probing && r.1@
                == DirectiveV::Probe,
    {
        if config.records.len() == 0 {
            let m = Machine {
                config,
                last_ip: String::new(),
                cache: ZoneCache::new(),
                phase: Phase::Discovering,
            };
            (m, Directive::FetchZones)
        } else {
            let m = Machine {
                config,
                last_ip: String::new(),
                cache: ZoneCache::new(),
                phase: Phase::Probing,
            };
            (m, Directive::Probe)
        }
    }

    /// Starts work on record `idx` of a pass applying `ip`.
    fn begin_record_at(&mut self, ip: String, idx: usize) -> (r: (Directive, Vec<LogEvent>))
        requires
            old(self).inv(),
            idx <= old(self)@.config.records.len(),
            is_ip_literal(ip@),
            old(self)@.config.records.len() > 0,
        ensures
            final(self).inv(),
            ({
                let t = begin_record(old(self)@, ip@, idx as int);
                final(self)@ == t.m && r.0@ == t.directive && logs_view(r.1@) == t.logs
            }),
    {
        let ghost t = begin_record(old(self)@, ip@, idx as int);
        if idx == self.config.records.len() {
            self.last_ip = ip;
            self.phase = Phase::Sleeping;
            let r = (Directive::Sleep { secs: self.config.interval_secs }, Vec::<LogEvent>::new());
            proof {
                assert(self@ =~= t.m);
                assert(logs_view(r.1@) =~= t.logs);
            }
            r
        } else {
            let cached = self.cache.lookup(self.config.records[idx].zone_id.as_str());
            match cached {
                Some(zone_name) => {
                    let body = build_update_body(&self.config.records[idx], ip.as_str());
                    let record_id = self.config.records[idx].record_id.clone();
                    self.phase = Phase::Updating { ip, idx, zone_name };
                    let r = (Directive::PutRecord { record_id, body }, Vec::<LogEvent>::new());
                    proof {
                        assert(self@ =~= t.m);
                        assert(logs_view(r.1@) =~= t.logs);
                    }
                    r
                },
                None => {
                    let zone_id = self.config.records[idx].zone_id.clone();
                    let mut logs = Vec::<LogEvent>::new();
                    logs.push(
                        LogEvent::CacheMiss { zone_id: self.config.records[idx].zone_id.clone() },
                    );
                    self.phase = Phase::Resolving { ip, idx };
                    let r = (Directive::FetchZone { zone_id }, logs);
                    proof {
                        assert(self@ =~= t.m);
                        assert(logs_view(r.1@) =~= t.logs);
                    }
                    r
                },
            }
        }
    }

    /// Logs record `idx`'s outcome and moves to the next record.
    fn record_done(&mut self, ip: String, idx: usize, outcome: LogEvent) -> (r: (
        Directive,
        Vec<LogEvent>,
    ))
        requires
            old(self).inv(),
            idx < old(self)@.config.records.len(),
            is_ip_literal(ip@),
        ensures
            final(self).inv(),
            ({
                let t = after_outcome(old(self)@, ip@, idx as int, seq![outcome@]);
                final(self)@ == t.m && r.0@ == t.directive && logs_view(r.1@) == t.logs
            }),
    {
        let n = self.config.records.len();
        proof {
            assert(n == old(self)@.config.records.len());
        }
        let mut logs = Vec::<LogEvent>::new();
        logs.push(outcome);
        let (d, mut rest) = self.begin_record_at(ip, idx + 1);
        logs.append(&mut rest);
        proof {
            assert(logs_view(logs@) =~= after_outcome(
                old(self)@,
                ip@,
                idx as int,
                seq![outcome@],
            ).logs);
        }
        (d, logs)
    }

    /// Performs one transition: consumes the event answering the current
    /// phase and returns the next directive together with the log events
    /// to emit, exactly as `step_spec` describes.
    pub fn step(&mut self, event: Event) -> (r: (Directive, Vec<LogEvent>))
        requires
            old(self).inv(),
            event_fits(old(self)@.phase, event@),
        ensures
            final(self).inv(),
            ({
                let t = step_spec(old(self)@, event@);
                final(self)@ == t.m && r.0@ == t.directive && logs_view(r.1@) == t.logs
            }),
    {
        let mut ph = Phase::Probing;
        core::mem::swap(&mut self.phase, &mut ph);
        match (ph, event) {
            (Phase::Probing, Event::ProbeOk { body }) => {
                if !is_ip(body.as_str()) {
                    self.phase = Phase::Sleeping;
                    let mut logs = Vec::<LogEvent>::new();
                    logs.push(LogEvent::ProbeError { error: IpError::InvalidIp });
                    let r = (Directive::Sleep { secs: self.config.interval_secs }, logs);
                    proof {
                        assert(self@ =~= step_spec(old(self)@, event@).m);
                        assert(logs_view(r.1@) =~= step_spec(old(self)@, event@).logs);
                    }
                    r
                } else if body == self.last_ip {
                    self.phase = Phase::Sleeping;
                    let r = (
                        Directive::Sleep { secs: self.config.interval_secs },
                        Vec::<LogEvent>::new(),
                    );
                    proof {
                        assert(self@ =~= step_spec(old(self)@, event@).m);
                        assert(logs_view(r.1@) =~= step_spec(old(self)@, event@).logs);
                    }
                    r
                } else {
                    let mut logs = Vec::<LogEvent>::new();
                    logs.push(
                        LogEvent::IpChanged { old_ip: self.last_ip.clone(), new_ip: body.clone() },
                    );
                    let (d, mut rest) = self.begin_record_at(body, 0);
                    logs.append(&mut rest);
                    proof {
                        assert(logs_view(logs@) =~= step_spec(old(self)@, event@).logs);
                    }
                    (d, logs)
                }
            },
            (Phase::Probing, Event::ProbeFailed) => {
                self.phase = Phase::Sleeping;
                let mut logs = Vec::<LogEvent>::new();
                logs.push(LogEvent::ProbeError { error: IpError::RequestError });
                let r = (Directive::Sleep { secs: self.config.interval_secs }, logs);
                proof {
                    assert(self@ =~= step_spec(old(self)@, event@).m);
                    assert(logs_view(r.1@) =~= step_spec(old(self)@, event@).logs);
                }
                r
            },
            (Phase::Resolving { ip, idx }, Event::ZoneFetched { status, zone_name, body }) => {
                if 200 <= status && status < 300 {
                    match zone_name {
                        Some(zn) => {
                            self.cache.insert(
                                self.config.records[idx].zone_id.as_str(),
                                zn.as_str(),
                            );
                            let r = self.begin_record_at(ip, idx);
                            proof {
                                assert(self@ =~= step_spec(old(self)@, event@).m);
                                assert(logs_view(r.1@) =~= step_spec(old(self)@, event@).logs);
                            }
                            r
                        },
                        None => {
                            let name = self.config.records[idx].name.clone();
                            self.record_done(
                                ip,
                                idx,
                                LogEvent::RecordUpdateFailed {
                                    name,
                                    error: ApiError::RequestError,
                                },
                            )
                        },
                    }
                } else {
                    let name = self.config.records[idx].name.clone();
                    match classify_api(status, body) {
                        Err(err) => self.record_done(
                            ip,
                            idx,
                            LogEvent::RecordUpdateFailed { name, error: err },
                        ),
                        Ok(()) => {
                            // A non-2xx status is never 200, so the
                            // classification cannot report success.
                            proof {
                                assert(false);
                            }
                            (Directive::Stop, Vec::<LogEvent>::new())
                        },
                    }
                }
            },
            (Phase::Resolving { ip, idx }, Event::ZoneFetchFailed) => {
                let name = self.config.records[idx].name.clone();
                self.record_done(
                    ip,
                    idx,
                    LogEvent::RecordUpdateFailed { name, error: ApiError::RequestError },
                )
            },
            (Phase::Updating { ip, idx, zone_name }, Event::UpdateResponded { status, body }) => {
                match classify_api(status, body) {
                    Ok(()) => {
                        let mut fq = self.config.records[idx].name.clone();
                        push_char(&mut fq, '.');
                        fq.append(zone_name.as_str());
                        proof {
                            assert(fq@ =~= fqdn_spec(
                                old(self)@.config.records[idx as int].name,
                                zone_name@,
                            ));
                        }
                        let ip_text = ip.clone();
                        self.record_done(ip, idx, LogEvent::RecordUpdated { fqdn: fq, ip: ip_text })
                    },
                    Err(err) => {
                        let name = self.config.records[idx].name.clone();
                        self.record_done(ip, idx, LogEvent::RecordUpdateFailed { name, error: err })
                    },
                }
            },
            (Phase::Updating { ip, idx, zone_name: _ }, Event::UpdateFailed) => {
                let name = self.config.records[idx].name.clone();
                self.record_done(
                    ip,
                    idx,
                    LogEvent::RecordUpdateFailed { name, error: ApiError::RequestError },
                )
            },
            (Phase::Sleeping, Event::SleepDone) => {
                self.phase = Phase::Probing;
                let r = (Directive::Probe, Vec::<LogEvent>::new());
                proof {
                    assert(self@ =~= step_spec(old(self)@, event@).m);
                    assert(logs_view(r.1@) =~= step_spec(old(self)@, event@).logs);
                }
                r
            },
            (Phase::Discovering, Event::ZonesFetched { zones }) => {
                match zones {
                    None => {
                        self.phase = Phase::Finished;
                        let mut logs = Vec::<LogEvent>::new();
                        logs.push(LogEvent::DiscoveryFailed { error: ApiError::RequestError });
                        let r = (Directive::Stop, logs);
                        proof {
                            assert(self@ =~= step_spec(old(self)@, event@).m);
                            assert(logs_view(r.1@) =~= step_spec(old(self)@, event@).logs);
                        }
                        r
                    },
                    Some(zs) => {
                        if zs.len() == 0 {
                            self.phase = Phase::Finished;
                            let mut logs = Vec::<LogEvent>::new();
                            logs.push(LogEvent::NoZones);
                            let r = (Directive::Stop, logs);
                            proof {
                                assert(self@ =~= step_spec(old(self)@, event@).m);
                                assert(logs_view(r.1@) =~= step_spec(old(self)@, event@).logs);
                            }
                            r
                        } else {
                            let zone_id = zs[0].id.clone();
                            let mut logs = Vec::<LogEvent>::new();
                            logs.push(LogEvent::ZoneSeen { zone: zs[0].duplicate() });
                            self.phase = Phase::Listing { zones: zs, idx: 0 };
                            let r = (Directive::FetchZoneRecords { zone_id }, logs);
                            proof {
                                assert(self@ =~= step_spec(old(self)@, event@).m);
                                assert(logs_view(r.1@) =~= step_spec(old(self)@, event@).logs);
                            }
                            r
                        }
                    },
                }
            },
            (Phase::Listing { zones, idx }, Event::ZoneRecordsFetched { records }) => {
                match records {
                    None => {
                        self.phase = Phase::Finished;
                        let mut logs = Vec::<LogEvent>::new();
                        logs.push(LogEvent::DiscoveryFailed { error: ApiError::RequestError });
                        let r = (Directive::Stop, logs);
                        proof {
                            assert(self@ =~= step_spec(old(self)@, event@).m);
                            assert(logs_view(r.1@) =~= step_spec(old(self)@, event@).logs);
                        }
                        r
                    },
                    Some(rs) => {
                        let mut logs = Vec::<LogEvent>::new();
                        if rs.len() == 0 {
                            logs.push(LogEvent::NoRecordsInZone { zone_name: zones[idx].name.clone() });
                        } else {
                            let mut j: usize = 0;
                            while j < rs.len()
                                invariant
                                    j <= rs@.len(),
                                    logs@.len() == j,
                                    forall|k: int|
                                        0 <= k < j ==> logs@[k]@ == (LogEventV::RecordSeen {
                                            entry: rs@[k]@,
                                        }),
                                decreases rs@.len() - j,
                            {
                                logs.push(LogEvent::RecordSeen { entry: rs[j].duplicate() });
                                j = j + 1;
                            }
                        }
                        proof {
                            assert(logs_view(logs@) =~= listing_logs(
                                zones_view(zones@)[idx as int],
                                records_view(rs@),
                            ));
                        }
                        let nz = zones.len();
                        proof {
                            assert((idx as int) < zones_view(zones@).len());
                        }
                        if idx + 1 < nz {
                            let zone_id = zones[idx + 1].id.clone();
                            logs.push(LogEvent::ZoneSeen { zone: zones[idx + 1].duplicate() });
                            self.phase = Phase::Listing { zones, idx: idx + 1 };
                            let r = (Directive::FetchZoneRecords { zone_id }, logs);
                            proof {
                                assert(self@ =~= step_spec(old(self)@, event@).m);
                                assert(logs_view(r.1@) =~= step_spec(old(self)@, event@).logs);
                            }
                            r
                        } else {
                            self.phase = Phase::Finished;
                            let r = (Directive::Stop, logs);
                            proof {
                                assert(self@ =~= step_spec(old(self)@, event@).m);
                                assert(logs_view(r.1@) =~= step_spec(old(self)@, event@).logs);
                            }
                            r
                        }
                    },
                }
            },
            (other_phase, _) => {
                proof {
                    assert(false);
                }
                self.phase = other_phase;
                (Directive::Stop, Vec::<LogEvent>::new())
            },
        }
    }
}

} // verus!
