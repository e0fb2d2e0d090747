use dyndns::config::{Config, RecordConfig};
use dyndns::errors::{ApiError, IpError};
use dyndns::machine::{classify_api, Directive, Event, LogEvent, Machine};
use dyndns::zones::{RecordEntry, ZoneInfo};

fn record(record_id: &str, name: &str, zone_id: &str) -> RecordConfig {
    RecordConfig {
        record_id: record_id.to_string(),
        name: name.to_string(),
        ttl: Some(300),
        record_type: "A".to_string(),
        zone_id: zone_id.to_string(),
    }
}

fn config(records: Vec<RecordConfig>) -> Config {
    Config { api_token: "token".to_string(), interval_secs: 60, records }
}

fn zone(id: &str, name: &str) -> ZoneInfo {
    ZoneInfo {
        id: id.to_string(),
        name: name.to_string(),
        ns: vec!["ns1.example.com".to_string()],
        owner: "owner".to_string(),
        status: "verified".to_string(),
        ttl: 86400,
        records_count: 2,
        is_secondary_dns: false,
    }
}

fn ok_zone(name: &str) -> Event {
    Event::ZoneFetched { status: 200, zone_name: Some(name.to_string()), body: String::new() }
}

#[test]
fn empty_records_runs_discovery_once_and_stops() {
    let (mut m, d) = Machine::new(config(vec![]));
    assert!(matches!(d, Directive::FetchZones));
    let zones = vec![zone("z1", "example.com"), zone("z2", "example.org")];
    let (d, logs) = m.step(Event::ZonesFetched { zones: Some(zones) });
    assert!(matches!(logs[0], LogEvent::ZoneSeen { .. }));
    match d {
        Directive::FetchZoneRecords { zone_id } => assert_eq!(zone_id, "z1"),
        other => panic!("expected a record listing, got {:?}", directive_name(&other)),
    }
    let entries = vec![RecordEntry {
        record_type: "A".to_string(),
        id: "r1".to_string(),
        name: "www".to_string(),
        value: "1.2.3.4".to_string(),
    }];
    let (d, logs) = m.step(Event::ZoneRecordsFetched { records: Some(entries) });
    assert!(matches!(logs[0], LogEvent::RecordSeen { .. }));
    assert!(matches!(logs[1], LogEvent::ZoneSeen { .. }));
    match d {
        Directive::FetchZoneRecords { zone_id } => assert_eq!(zone_id, "z2"),
        other => panic!("expected a record listing, got {:?}", directive_name(&other)),
    }
    let (d, logs) = m.step(Event::ZoneRecordsFetched { records: Some(vec![]) });
    assert!(matches!(logs[0], LogEvent::NoRecordsInZone { .. }));
    assert!(matches!(d, Directive::Stop));
}

#[test]
fn empty_zone_listing_warns_and_stops() {
    let (mut m, d) = Machine::new(config(vec![]));
    assert!(matches!(d, Directive::FetchZones));
    let (d, logs) = m.step(Event::ZonesFetched { zones: Some(vec![]) });
    assert!(matches!(logs[0], LogEvent::NoZones));
    assert!(matches!(d, Directive::Stop));
}

#[test]
fn failed_zone_listing_logs_and_stops() {
    let (mut m, _) = Machine::new(config(vec![]));
    let (d, logs) = m.step(Event::ZonesFetched { zones: None });
    assert!(matches!(
        logs[0],
        LogEvent::DiscoveryFailed { error: ApiError::RequestError }
    ));
    assert!(matches!(d, Directive::Stop));
}

#[test]
fn first_probe_counts_as_change() {
    let (mut m, d) = Machine::new(config(vec![record("r1", "www", "z1")]));
    assert!(matches!(d, Directive::Probe));
    let (d, logs) = m.step(Event::ProbeOk { body: "1.2.3.4".to_string() });
    match &logs[0] {
        LogEvent::IpChanged { old_ip, new_ip } => {
            assert_eq!(old_ip, "");
            assert_eq!(new_ip, "1.2.3.4");
        },
        _ => panic!("expected a change log"),
    }
    match d {
        Directive::FetchZone { zone_id } => assert_eq!(zone_id, "z1"),
        _ => panic!("expected a zone lookup for the first record"),
    }
}

#[test]
fn invalid_probe_body_skips_cycle() {
    let (mut m, _) = Machine::new(config(vec![record("r1", "www", "z1")]));
    let (d, logs) = m.step(Event::ProbeOk { body: "not an ip".to_string() });
    assert!(matches!(
        logs[0],
        LogEvent::ProbeError { error: IpError::InvalidIp }
    ));
    assert!(matches!(d, Directive::Sleep { secs: 60 }));
}

#[test]
fn probe_failure_skips_cycle() {
    let (mut m, _) = Machine::new(config(vec![record("r1", "www", "z1")]));
    let (d, logs) = m.step(Event::ProbeFailed);
    assert!(matches!(
        logs[0],
        LogEvent::ProbeError { error: IpError::RequestError }
    ));
    assert!(matches!(d, Directive::Sleep { secs: 60 }));
}

#[test]
fn success_logs_fully_qualified_name() {
    let (mut m, _) = Machine::new(config(vec![record("r1", "www", "z1")]));
    let (d, _) = m.step(Event::ProbeOk { body: "1.2.3.4".to_string() });
    assert!(matches!(d, Directive::FetchZone { .. }));
    let (d, _) = m.step(ok_zone("example.com"));
    match &d {
        Directive::PutRecord { record_id, body } => {
            assert_eq!(record_id, "r1");
            assert!(body.contains("\"value\":\"1.2.3.4\""));
        },
        _ => panic!("expected the update call"),
    }
    let (d, logs) = m.step(Event::UpdateResponded { status: 200, body: String::new() });
    match &logs[0] {
        LogEvent::RecordUpdated { fqdn, ip } => {
            assert_eq!(fqdn, "www.example.com");
            assert_eq!(ip, "1.2.3.4");
        },
        _ => panic!("expected the success log"),
    }
    assert!(matches!(d, Directive::Sleep { secs: 60 }));
}

#[test]
fn zone_names_are_resolved_once_per_run() {
    let records = vec![record("r1", "www", "z1"), record("r2", "mail", "z1")];
    let (mut m, _) = Machine::new(config(records));
    let mut lookups = 0;
    let (mut d, _) = m.step(Event::ProbeOk { body: "1.2.3.4".to_string() });
    loop {
        match d {
            Directive::FetchZone { .. } => {
                lookups += 1;
                let (d2, _) = m.step(ok_zone("example.com"));
                d = d2;
            },
            Directive::PutRecord { .. } => {
                let (d2, _) = m.step(Event::UpdateResponded { status: 200, body: String::new() });
                d = d2;
            },
            Directive::Sleep { .. } => break,
            other => panic!("unexpected directive {:?}", directive_name(&other)),
        }
    }
    assert_eq!(lookups, 1);
    // The next pass, after an IP change, still answers the zone from the
    // cache: no lookup at all.
    let (d, _) = m.step(Event::SleepDone);
    assert!(matches!(d, Directive::Probe));
    let (mut d, _) = m.step(Event::ProbeOk { body: "5.6.7.8".to_string() });
    loop {
        match d {
            Directive::FetchZone { .. } => panic!("zone was already resolved in this run"),
            Directive::PutRecord { .. } => {
                let (d2, _) = m.step(Event::UpdateResponded { status: 200, body: String::new() });
                d = d2;
            },
            Directive::Sleep { .. } => break,
            other => panic!("unexpected directive {:?}", directive_name(&other)),
        }
    }
}

#[test]
fn unauthorized_update_still_advances_last_known_ip() {
    let records = vec![record("r1", "www", "z1"), record("r2", "mail", "z1")];
    let (mut m, _) = Machine::new(config(records));
    let (d, _) = m.step(Event::ProbeOk { body: "1.2.3.4".to_string() });
    assert!(matches!(d, Directive::FetchZone { .. }));
    let (d, _) = m.step(ok_zone("example.com"));
    assert!(matches!(d, Directive::PutRecord { .. }));
    // The first record is rejected with 401.
    let (d, logs) = m.step(Event::UpdateResponded { status: 401, body: String::new() });
    assert!(matches!(
        &logs[0],
        LogEvent::RecordUpdateFailed { error: ApiError::Unauthorized, .. }
    ));
    // The second record is still attempted.
    match &d {
        Directive::PutRecord { record_id, .. } => assert_eq!(record_id, "r2"),
        _ => panic!("the second record must still be attempted"),
    }
    let (d, _) = m.step(Event::UpdateResponded { status: 200, body: String::new() });
    assert!(matches!(d, Directive::Sleep { .. }));
    // The pass completed, so the IP advanced: probing the same value again
    // is no change.
    let (d, _) = m.step(Event::SleepDone);
    assert!(matches!(d, Directive::Probe));
    let (d, logs) = m.step(Event::ProbeOk { body: "1.2.3.4".to_string() });
    assert!(logs.is_empty());
    assert!(matches!(d, Directive::Sleep { .. }));
}

#[test]
fn three_records_with_middle_conflict_are_independent() {
    let records = vec![
        record("r1", "a", "z1"),
        record("r2", "b", "z1"),
        record("r3", "c", "z1"),
    ];
    let (mut m, _) = Machine::new(config(records));
    let (d, _) = m.step(Event::ProbeOk { body: "9.9.9.9".to_string() });
    assert!(matches!(d, Directive::FetchZone { .. }));
    let (d, _) = m.step(ok_zone("example.com"));
    match &d {
        Directive::PutRecord { record_id, .. } => assert_eq!(record_id, "r1"),
        _ => panic!("expected the first update"),
    }
    let (d, logs) = m.step(Event::UpdateResponded { status: 200, body: String::new() });
    assert!(matches!(&logs[0], LogEvent::RecordUpdated { .. }));
    match &d {
        Directive::PutRecord { record_id, .. } => assert_eq!(record_id, "r2"),
        _ => panic!("expected the second update"),
    }
    let (d, logs) = m.step(Event::UpdateResponded { status: 409, body: String::new() });
    assert!(matches!(
        &logs[0],
        LogEvent::RecordUpdateFailed { error: ApiError::Conflict, .. }
    ));
    match &d {
        Directive::PutRecord { record_id, .. } => assert_eq!(record_id, "r3"),
        _ => panic!("the third record must still be attempted"),
    }
    let (d, logs) = m.step(Event::UpdateResponded { status: 200, body: String::new() });
    assert!(matches!(&logs[0], LogEvent::RecordUpdated { .. }));
    assert!(matches!(d, Directive::Sleep { .. }));
}

#[test]
fn failed_zone_resolution_short_circuits_the_record() {
    let records = vec![record("r1", "www", "z1"), record("r2", "mail", "z2")];
    let (mut m, _) = Machine::new(config(records));
    let (d, _) = m.step(Event::ProbeOk { body: "1.2.3.4".to_string() });
    assert!(matches!(d, Directive::FetchZone { .. }));
    // Zone details answer with an unexpected status: the record's outcome
    // is that failure, and no update is sent for it.
    let (d, logs) = m.step(Event::ZoneFetched {
        status: 500,
        zone_name: None,
        body: "boom".to_string(),
    });
    match &logs[0] {
        LogEvent::RecordUpdateFailed { name, error } => {
            assert_eq!(name, "www");
            match error {
                ApiError::UnknownStatus(code, body) => {
                    assert_eq!(*code, 500);
                    assert_eq!(body, "boom");
                },
                _ => panic!("expected the raw status to be kept"),
            }
        },
        _ => panic!("expected the record to fail"),
    }
    // The next record proceeds with its own zone.
    match &d {
        Directive::FetchZone { zone_id } => assert_eq!(zone_id, "z2"),
        _ => panic!("the second record must still be attempted"),
    }
    // A transport failure on the zone lookup is the record's outcome too.
    let (d, logs) = m.step(Event::ZoneFetchFailed);
    assert!(matches!(
        &logs[0],
        LogEvent::RecordUpdateFailed { error: ApiError::RequestError, .. }
    ));
    assert!(matches!(d, Directive::Sleep { .. }));
    // A later pass retries the zones that never resolved.
    let (d, _) = m.step(Event::SleepDone);
    assert!(matches!(d, Directive::Probe));
    let (d, _) = m.step(Event::ProbeOk { body: "5.6.7.8".to_string() });
    assert!(matches!(d, Directive::FetchZone { .. }));
}

#[test]
fn zone_details_errors_follow_the_taxonomy() {
    let records = vec![record("r1", "www", "z1"), record("r2", "mail", "z2")];
    let (mut m, _) = Machine::new(config(records));
    let (d, _) = m.step(Event::ProbeOk { body: "1.2.3.4".to_string() });
    assert!(matches!(d, Directive::FetchZone { .. }));
    // 401 on the zone-details call classifies as Unauthorized, like any
    // other DNS API answer.
    let (d, logs) = m.step(Event::ZoneFetched {
        status: 401,
        zone_name: None,
        body: String::new(),
    });
    match &logs[0] {
        LogEvent::RecordUpdateFailed { name, error } => {
            assert_eq!(name, "www");
            assert!(matches!(error, ApiError::Unauthorized));
        },
        _ => panic!("expected the record to fail as Unauthorized"),
    }
    // 404 likewise.
    match &d {
        Directive::FetchZone { zone_id } => assert_eq!(zone_id, "z2"),
        _ => panic!("the second record must still be attempted"),
    }
    let (d, logs) = m.step(Event::ZoneFetched {
        status: 404,
        zone_name: None,
        body: String::new(),
    });
    assert!(matches!(
        &logs[0],
        LogEvent::RecordUpdateFailed { error: ApiError::NotFound, .. }
    ));
    assert!(matches!(d, Directive::Sleep { .. }));
}

#[test]
fn unchanged_ip_does_nothing() {
    let (mut m, _) = Machine::new(config(vec![record("r1", "www", "z1")]));
    let (d, _) = m.step(Event::ProbeOk { body: "1.2.3.4".to_string() });
    assert!(matches!(d, Directive::FetchZone { .. }));
    let (d, _) = m.step(ok_zone("example.com"));
    assert!(matches!(d, Directive::PutRecord { .. }));
    let (d, _) = m.step(Event::UpdateFailed);
    assert!(matches!(d, Directive::Sleep { .. }));
    // Even though the update failed, the pass completed and the IP is now
    // known; the same probe value leads straight back to sleep.
    let (d, _) = m.step(Event::SleepDone);
    assert!(matches!(d, Directive::Probe));
    let (d, logs) = m.step(Event::ProbeOk { body: "1.2.3.4".to_string() });
    assert!(logs.is_empty());
    assert!(matches!(d, Directive::Sleep { .. }));
}

#[test]
fn ipv6_probe_body_counts_as_change() {
    let (mut m, _) = Machine::new(config(vec![record("r1", "www", "z1")]));
    let (d, logs) = m.step(Event::ProbeOk { body: "2001:db8::1".to_string() });
    assert!(matches!(&logs[0], LogEvent::IpChanged { .. }));
    assert!(matches!(d, Directive::FetchZone { .. }));
}

#[test]
fn probe_failure_does_not_advance_last_known_ip() {
    let (mut m, _) = Machine::new(config(vec![record("r1", "www", "z1")]));
    let (d, _) = m.step(Event::ProbeFailed);
    assert!(matches!(d, Directive::Sleep { .. }));
    let (d, _) = m.step(Event::SleepDone);
    assert!(matches!(d, Directive::Probe));
    // The last known IP is still empty, so the first successful probe is a
    // change even after earlier failures.
    let (d, logs) = m.step(Event::ProbeOk { body: "1.2.3.4".to_string() });
    match &logs[0] {
        LogEvent::IpChanged { old_ip, new_ip } => {
            assert_eq!(old_ip, "");
            assert_eq!(new_ip, "1.2.3.4");
        },
        _ => panic!("expected a change log"),
    }
    assert!(matches!(d, Directive::FetchZone { .. }));
}

#[test]
fn every_enumerated_status_maps_to_its_error() {
    assert!(classify_api(200, String::new()).is_ok());
    assert!(matches!(
        classify_api(401, String::new()),
        Err(ApiError::Unauthorized)
    ));
    assert!(matches!(
        classify_api(403, String::new()),
        Err(ApiError::Forbidden)
    ));
    assert!(matches!(
        classify_api(404, String::new()),
        Err(ApiError::NotFound)
    ));
    assert!(matches!(
        classify_api(409, String::new()),
        Err(ApiError::Conflict)
    ));
    assert!(matches!(
        classify_api(422, String::new()),
        Err(ApiError::UnprocessableEntity)
    ));
    match classify_api(503, "oops".to_string()) {
        Err(ApiError::UnknownStatus(code, body)) => {
            assert_eq!(code, 503);
            assert_eq!(body, "oops");
        },
        _ => panic!("an unlisted status must keep its code and body"),
    }
}

fn directive_name(d: &Directive) -> &'static str {
    match d {
        Directive::Probe => "Probe",
        Directive::FetchZone { .. } => "FetchZone",
        Directive::PutRecord { .. } => "PutRecord",
        Directive::FetchZones => "FetchZones",
        Directive::FetchZoneRecords { .. } => "FetchZoneRecords",
        Directive::Sleep { .. } => "Sleep",
        Directive::Stop => "Stop",
    }
}
