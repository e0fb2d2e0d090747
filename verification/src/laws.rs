//! Laws of the update loop, proved of `step_spec` and of whole event
//! traces.

use vstd::prelude::*;
use crate::config::RecordConfigV;
use crate::ip::{is_ip_literal, lemma_ip_literal_nonempty};
use crate::json::update_body_spec;
use crate::machine::{
    classify_api_status, event_fits, fqdn_spec, is_success_status, machine_wf, step_spec,
    DirectiveV, EventV, LogEventV, MachineV, PhaseV,
};

verus! {

/// The IP a record pass is applying, if one is under way.
pub open spec fn pending_ip(p: PhaseV) -> Option<Seq<char>> {
    match p {
        PhaseV::Resolving { ip, .. } => Some(ip),
        PhaseV::Updating { ip, .. } => Some(ip),
        _ => None,
    }
}

/// The pass position: the IP being applied and the record index worked on.
pub open spec fn pass_state(p: PhaseV) -> Option<(Seq<char>, int)> {
    match p {
        PhaseV::Resolving { ip, idx } => Some((ip, idx)),
        PhaseV::Updating { ip, idx, .. } => Some((ip, idx)),
        _ => None,
    }
}

/// The machine after a whole sequence of events.
pub open spec fn run_spec(m: MachineV, evs: Seq<EventV>) -> MachineV
    decreases evs.len(),
{
    if evs.len() == 0 {
        m
    } else {
        run_spec(step_spec(m, evs[0]).m, evs.drop_first())
    }
}

/// Each event of the sequence answers the phase the machine is in when it
/// arrives.
pub open spec fn trace_fits(m: MachineV, evs: Seq<EventV>) -> bool
    decreases evs.len(),
{
    evs.len() == 0 || (event_fits(m.phase, evs[0]) && trace_fits(
        step_spec(m, evs[0]).m,
        evs.drop_first(),
    ))
}

/// Some probe in the sequence returned exactly `v`.
pub open spec fn probed(evs: Seq<EventV>, v: Seq<char>) -> bool {
    exists|i: int| 0 <= i < evs.len() && evs[i] == (EventV::ProbeOk { body: v })
}

/// Well-formedness is preserved by every fitting transition.
pub proof fn lemma_step_preserves_wf(m: MachineV, e: EventV)
    requires
        machine_wf(m),
        event_fits(m.phase, e),
    ensures
        machine_wf(step_spec(m, e).m),
{
}

/// A machine without configured records stays in discovery: no transition
/// reaches a polling phase, and none asks for a probe, a zone resolution,
/// a record update or a sleep.
pub proof fn lemma_discovery_never_polls(m: MachineV, e: EventV)
    requires
        machine_wf(m),
        event_fits(m.phase, e),
        m.config.records.len() == 0,
    ensures
        !(step_spec(m, e).m.phase is Probing),
        !(step_spec(m, e).m.phase is Sleeping),
        !(step_spec(m, e).m.phase is Resolving),
        !(step_spec(m, e).m.phase is Updating),
        !(step_spec(m, e).directive is Probe),
        !(step_spec(m, e).directive is FetchZone),
        !(step_spec(m, e).directive is PutRecord),
        !(step_spec(m, e).directive is Sleep),
{
    lemma_step_preserves_wf(m, e);
}

/// Over any fitting trace, a machine without configured records never
/// reaches a polling phase: discovery is the whole of its run.
pub proof fn lemma_discovery_trace_never_polls(m: MachineV, evs: Seq<EventV>)
    requires
        machine_wf(m),
        trace_fits(m, evs),
        m.config.records.len() == 0,
    ensures
        ({
            let m2 = run_spec(m, evs);
            &&& machine_wf(m2)
            &&& !(m2.phase is Probing)
            &&& !(m2.phase is Sleeping)
            &&& !(m2.phase is Resolving)
            &&& !(m2.phase is Updating)
        }),
    decreases evs.len(),
{
    if evs.len() > 0 {
        lemma_step_preserves_wf(m, evs[0]);
        lemma_discovery_trace_never_polls(step_spec(m, evs[0]).m, evs.drop_first());
    }
}

/// The cache only grows, and a name once cached never changes.
pub proof fn lemma_cache_monotone(m: MachineV, e: EventV)
    requires
        machine_wf(m),
        event_fits(m.phase, e),
    ensures
        forall|z: Seq<char>|
            m.cache.contains_key(z) ==> #[trigger] step_spec(m, e).m.cache.contains_key(z)
                && step_spec(m, e).m.cache[z] == m.cache[z],
{
}

/// A zone lookup is only ever issued for a zone id that is not cached:
/// together with monotonicity, each zone id is fetched at most once per
/// run.
pub proof fn lemma_no_refetch(m: MachineV, e: EventV)
    requires
        machine_wf(m),
        event_fits(m.phase, e),
    ensures
        step_spec(m, e).directive matches DirectiveV::FetchZone { zone_id } ==> !m.cache.contains_key(zone_id),
{
}

/// In one transition the last known IP either stands, or advances to the
/// IP of the pass that just completed; and a pass can only be opened by a
/// probe that returned its IP as a valid literal.
pub proof fn lemma_step_ip(m: MachineV, e: EventV)
    requires
        machine_wf(m),
        event_fits(m.phase, e),
    ensures
        step_spec(m, e).m.last_ip == m.last_ip || pending_ip(m.phase) == Some(
            step_spec(m, e).m.last_ip,
        ),
        pending_ip(step_spec(m, e).m.phase) is Some ==> pending_ip(step_spec(m, e).m.phase)
            == pending_ip(m.phase) || (e matches EventV::ProbeOk { body } && pending_ip(
            step_spec(m, e).m.phase,
        ) == Some(body) && is_ip_literal(body)),
        pending_ip(m.phase) matches Some(v) ==> is_ip_literal(v),
{
}

/// Over any fitting trace, the last known IP is either still the starting
/// one, or a value some probe returned (as a valid IP literal), or the IP
/// of a pass already under way at the start; and the same holds of any
/// pass still open at the end.
pub proof fn lemma_ip_provenance(m: MachineV, evs: Seq<EventV>)
    requires
        machine_wf(m),
        trace_fits(m, evs),
    ensures
        ({
            let m2 = run_spec(m, evs);
            &&& machine_wf(m2)
            &&& (m2.last_ip == m.last_ip || (probed(evs, m2.last_ip) && is_ip_literal(m2.last_ip))
                || pending_ip(m.phase) == Some(m2.last_ip))
            &&& (pending_ip(m2.phase) matches Some(v) ==> (probed(evs, v) && is_ip_literal(v))
                || pending_ip(m.phase) == Some(v))
        }),
    decreases evs.len(),
{
    if evs.len() > 0 {
        let s = step_spec(m, evs[0]);
        lemma_step_preserves_wf(m, evs[0]);
        lemma_step_ip(m, evs[0]);
        lemma_ip_provenance(s.m, evs.drop_first());
        assert forall|v: Seq<char>| #[trigger] probed(evs.drop_first(), v) implies probed(
            evs,
            v,
        ) by {
            let i = choose|i: int|
                0 <= i < evs.drop_first().len() && evs.drop_first()[i] == (EventV::ProbeOk {
                    body: v,
                });
            assert(evs[i + 1] == (EventV::ProbeOk { body: v }));
        }
        match evs[0] {
            EventV::ProbeOk { body } => {
                assert(probed(evs, body));
            },
            _ => {},
        }
    }
}

/// The last known IP never advances except to a value some probe returned
/// as a valid IP literal: stated of a machine with no pass under way, as
/// built by `Machine::new`.
pub proof fn lemma_last_ip_only_probed(m: MachineV, evs: Seq<EventV>)
    requires
        machine_wf(m),
        trace_fits(m, evs),
        pending_ip(m.phase) is None,
    ensures
        run_spec(m, evs).last_ip == m.last_ip || (probed(evs, run_spec(m, evs).last_ip)
            && is_ip_literal(run_spec(m, evs).last_ip)),
{
    lemma_ip_provenance(m, evs);
}

/// With an empty last known IP, the first successful probe of a valid
/// literal counts as a change: the machine logs the change and starts the
/// pass at record number zero, with an attempt (a zone lookup or the
/// update itself) for that record.
pub proof fn lemma_first_probe_is_change(m: MachineV, body: Seq<char>)
    requires
        machine_wf(m),
        m.phase is Probing,
        m.last_ip == Seq::<char>::empty(),
        is_ip_literal(body),
    ensures
        ({
            let s = step_spec(m, EventV::ProbeOk { body });
            &&& s.logs.len() > 0
            &&& s.logs[0] == (LogEventV::IpChanged { old_ip: m.last_ip, new_ip: body })
            &&& pass_state(s.m.phase) == Some((body, 0int))
            &&& record_attempt(s.directive, m.config.records[0], body)
        }),
{
    lemma_ip_literal_nonempty(body);
}

/// A pass under way moves forward whatever the record's outcome: the
/// record under work either proceeds from resolution to its update, or is
/// finished and the pass moves to the next record; when the last record's
/// outcome arrives, the pass closes, the last known IP advances to the
/// pass's IP — regardless of any failures — and the machine sleeps.
pub proof fn lemma_pass_progress(m: MachineV, e: EventV, ip: Seq<char>, idx: int)
    requires
        machine_wf(m),
        event_fits(m.phase, e),
        pass_state(m.phase) == Some((ip, idx)),
    ensures
        ({
            let s = step_spec(m, e);
            &&& (pass_state(s.m.phase) matches Some(p2) ==> p2.0 == ip && idx <= p2.1 <= idx + 1)
            &&& (pass_state(s.m.phase) is None ==> s.m.phase is Sleeping && idx + 1
                == m.config.records.len() && s.m.last_ip == ip)
            &&& (m.phase is Updating ==> !(pass_state(s.m.phase) == Some((ip, idx))))
            &&& (s.m.last_ip == m.last_ip || (idx + 1 == m.config.records.len() && s.m.last_ip
                == ip))
        }),
{
}

/// The directive is an attempt at the given record of a pass applying
/// `ip`: its zone lookup, or its update carrying the exact body.
pub open spec fn record_attempt(d: DirectiveV, r: RecordConfigV, ip: Seq<char>) -> bool {
    ||| d matches DirectiveV::FetchZone { zone_id } && zone_id == r.zone_id
    ||| d matches DirectiveV::PutRecord { record_id, body } && record_id == r.record_id && body
        == update_body_spec(r, ip)
}

/// Whenever a transition brings the pass to a record position it was not
/// already at — opening a pass at record zero, or moving to the next
/// record — the directive issued is an attempt at exactly that record.
/// With `lemma_pass_progress` (positions advance one at a time and the
/// pass closes only past the last record), every configured record gets
/// its attempt in every pass, whatever the other records' outcomes.
pub proof fn lemma_pass_entry_attempts(m: MachineV, e: EventV)
    requires
        machine_wf(m),
        event_fits(m.phase, e),
    ensures
        ({
            let s = step_spec(m, e);
            match pass_state(s.m.phase) {
                Some(p2) => pass_state(m.phase) == Some(p2) || record_attempt(
                    s.directive,
                    m.config.records[p2.1],
                    p2.0,
                ),
                None => true,
            }
        }),
{
}

/// The outcome of a record update is decided by the HTTP status alone: 200
/// logs the success line with the fully qualified name and the applied IP;
/// any other status logs the failure with its classified error — 401, for
/// one, as `Unauthorized`.
/// A zone-details answer outside the 2xx range is the record's outcome,
/// classified by the same closed taxonomy as the update call: 401 as
/// `Unauthorized`, 403 as `Forbidden`, 404 as `NotFound`, 409 as
/// `Conflict`, 422 as `UnprocessableEntity`, anything else as
/// `UnknownStatus` with the raw body.
pub proof fn lemma_zone_details_outcome(
    m: MachineV,
    ip: Seq<char>,
    idx: int,
    status: u16,
    zone_name: Option<Seq<char>>,
    body: Seq<char>,
)
    requires
        machine_wf(m),
        m.phase == (PhaseV::Resolving { ip, idx }),
        !is_success_status(status),
    ensures
        ({
            let s = step_spec(m, EventV::ZoneFetched { status, zone_name, body });
            &&& s.logs.len() > 0
            &&& s.logs[0] == (LogEventV::RecordUpdateFailed {
                name: m.config.records[idx].name,
                error: classify_api_status(status, body)->Err_0,
            })
        }),
{
}

pub proof fn lemma_update_outcome(
    m: MachineV,
    ip: Seq<char>,
    idx: int,
    zone_name: Seq<char>,
    status: u16,
    body: Seq<char>,
)
    requires
        machine_wf(m),
        m.phase == (PhaseV::Updating { ip, idx, zone_name }),
    ensures
        ({
            let s = step_spec(m, EventV::UpdateResponded { status, body });
            &&& s.logs.len() > 0
            &&& (status == 200 ==> s.logs[0] == (LogEventV::RecordUpdated {
                fqdn: fqdn_spec(m.config.records[idx].name, zone_name),
                ip: ip,
            }))
            &&& (status != 200 ==> s.logs[0] == (LogEventV::RecordUpdateFailed {
                name: m.config.records[idx].name,
                error: classify_api_status(status, body)->Err_0,
            }))
        }),
{
}

} // verus!
