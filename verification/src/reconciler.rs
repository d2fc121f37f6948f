use vstd::prelude::*;
use vstd::string::StringExecFns;

use crate::config::{ApiModel, CloudflareAPI};
use crate::errors::CycleError;
use crate::provider::{
    list_url, list_url_model, select_record, selected_model, update_body, update_body_model,
    update_url, update_url_model,
};
use crate::record::{CloudflareResp, RespModel};
use crate::textutil::{trim_spec, trim_whitespace};

verus! {

/// Mathematical view of one cycle's report.
pub ghost struct OutcomeModel {
    pub public_ip: Seq<char>,
    pub record_content: Seq<char>,
    pub updated: bool,
}

/// The transient report of one reconciliation pass: the observed public
/// IP, the content the record held before the pass, and whether an
/// update was performed.
#[derive(Debug)]
pub struct CycleOutcome {
    pub public_ip: String,
    pub record_content: String,
    pub updated: bool,
}

impl View for CycleOutcome {
    type V = OutcomeModel;

    open spec fn view(&self) -> OutcomeModel {
        OutcomeModel {
            public_ip: self.public_ip@,
            record_content: self.record_content@,
            updated: self.updated,
        }
    }
}

/// Mathematical view of the cycle's control state.
pub ghost enum CycleStateModel {
    ResolvingIp { endpoints: Seq<Seq<char>>, next: int },
    FetchingRecord { public_ip: Seq<char> },
    Updating { public_ip: Seq<char>, record_content: Seq<char> },
    Done { outcome: OutcomeModel },
    Failed { error: CycleError },
}

/// The cycle's control state.  One cycle walks
/// `ResolvingIp -> FetchingRecord -> (Updating | Done)`, ending in
/// `Done` or, when a step aborts, in `Failed`.
#[derive(Debug)]
pub enum CycleState {
    /// Probing the public-IP endpoints in order; `next` is the index of
    /// the endpoint whose answer is awaited.
    ResolvingIp { endpoints: Vec<String>, next: usize },
    /// The public IP is known; the provider's record is being fetched.
    FetchingRecord { public_ip: String },
    /// The record content differed; an update is in flight.
    Updating { public_ip: String, record_content: String },
    /// The cycle finished; `outcome` reports what happened.
    Done { outcome: CycleOutcome },
    /// The cycle aborted with an error.
    Failed { error: CycleError },
}

impl View for CycleState {
    type V = CycleStateModel;

    open spec fn view(&self) -> CycleStateModel {
        match self {
            CycleState::ResolvingIp { endpoints, next } => CycleStateModel::ResolvingIp {
                endpoints: endpoints.deep_view(),
                next: *next as int,
            },
            CycleState::FetchingRecord { public_ip } => CycleStateModel::FetchingRecord {
                public_ip: public_ip@,
            },
            CycleState::Updating { public_ip, record_content } => CycleStateModel::Updating {
                public_ip: public_ip@,
                record_content: record_content@,
            },
            CycleState::Done { outcome } => CycleStateModel::Done { outcome: outcome@ },
            CycleState::Failed { error } => CycleStateModel::Failed { error: *error },
        }
    }
}

/// Mathematical view of an observed response.
pub ghost enum CycleEventModel {
    ProbeSucceeded(Seq<char>),
    ProbeFailed,
    FetchSucceeded(RespModel),
    FetchFailed(CycleError),
    UpdateSucceeded(RespModel),
    UpdateFailed(CycleError),
}

/// What the embedding program observed while carrying out the last
/// action: the raw body of a probe, the decoded envelope of a fetch or
/// an update, or the error that kept a response from arriving.
#[derive(Debug)]
pub enum CycleEvent {
    ProbeSucceeded(String),
    ProbeFailed,
    FetchSucceeded(CloudflareResp),
    FetchFailed(CycleError),
    UpdateSucceeded(CloudflareResp),
    UpdateFailed(CycleError),
}

impl View for CycleEvent {
    type V = CycleEventModel;

    open spec fn view(&self) -> CycleEventModel {
        match self {
            CycleEvent::ProbeSucceeded(body) => CycleEventModel::ProbeSucceeded(body@),
            CycleEvent::ProbeFailed => CycleEventModel::ProbeFailed,
            CycleEvent::FetchSucceeded(resp) => CycleEventModel::FetchSucceeded(resp@),
            CycleEvent::FetchFailed(error) => CycleEventModel::FetchFailed(*error),
            CycleEvent::UpdateSucceeded(resp) => CycleEventModel::UpdateSucceeded(resp@),
            CycleEvent::UpdateFailed(error) => CycleEventModel::UpdateFailed(*error),
        }
    }
}

/// Mathematical view of the next outward step.
pub ghost enum CycleActionModel {
    Probe { url: Seq<char> },
    Fetch { url: Seq<char> },
    Patch { url: Seq<char>, body: Seq<char> },
    Finish,
}

/// The one outward step the embedding program must carry out next:
/// a plain GET of a probe URL, an authenticated GET of the record
/// query URL, an authenticated PATCH with the given body, or nothing
/// because the cycle is over.
#[derive(Debug)]
pub enum CycleAction {
    Probe { url: String },
    Fetch { url: String },
    Patch { url: String, body: String },
    Finish,
}

impl View for CycleAction {
    type V = CycleActionModel;

    open spec fn view(&self) -> CycleActionModel {
        match self {
            CycleAction::Probe { url } => CycleActionModel::Probe { url: url@ },
            CycleAction::Fetch { url } => CycleActionModel::Fetch { url: url@ },
            CycleAction::Patch { url, body } => CycleActionModel::Patch {
                url: url@,
                body: body@,
            },
            CycleAction::Finish => CycleActionModel::Finish,
        }
    }
}

/// A state from which the cycle takes no further step.
pub open spec fn is_terminal(s: CycleStateModel) -> bool {
    s is Done || s is Failed
}

/// Internal consistency of a cycle state: while probing, the index
/// always points at one of the endpoints.
pub open spec fn state_inv(s: CycleStateModel) -> bool {
    match s {
        CycleStateModel::ResolvingIp { endpoints, next } => 0 <= next < endpoints.len(),
        _ => true,
    }
}

/// Which events can answer which state's pending action.
pub open spec fn event_fits(s: CycleStateModel, e: CycleEventModel) -> bool {
    match s {
        CycleStateModel::ResolvingIp { .. } => e is ProbeSucceeded || e is ProbeFailed,
        CycleStateModel::FetchingRecord { .. } => e is FetchSucceeded || e is FetchFailed,
        CycleStateModel::Updating { .. } => e is UpdateSucceeded || e is UpdateFailed,
        _ => false,
    }
}

/// The transition function of one reconciliation cycle, as a
/// mathematical function of the configuration, the control state and
/// the observed event.
pub open spec fn cycle_step_model(
    config: ApiModel,
    state: CycleStateModel,
    event: CycleEventModel,
) -> (CycleStateModel, CycleActionModel) {
    match state {
        CycleStateModel::ResolvingIp { endpoints, next } => match event {
            CycleEventModel::ProbeSucceeded(body) => (
                CycleStateModel::FetchingRecord { public_ip: trim_spec(body) },
                CycleActionModel::Fetch {
                    url: list_url_model(config.zone_id, config.dns_record_name),
                },
            ),
            CycleEventModel::ProbeFailed => if next + 1 < endpoints.len() {
                (
                    CycleStateModel::ResolvingIp { endpoints, next: next + 1 },
                    CycleActionModel::Probe { url: endpoints[next + 1] },
                )
            } else {
                (
                    CycleStateModel::Failed { error: CycleError::NoPublicIPAvailable },
                    CycleActionModel::Finish,
                )
            },
            _ => (state, CycleActionModel::Finish),
        },
        CycleStateModel::FetchingRecord { public_ip } => match event {
            CycleEventModel::FetchSucceeded(resp) => {
                let record = selected_model(resp);
                if record.content == public_ip {
                    (
                        CycleStateModel::Done {
                            outcome: OutcomeModel {
                                public_ip,
                                record_content: record.content,
                                updated: false,
                            },
                        },
                        CycleActionModel::Finish,
                    )
                } else {
                    (
                        CycleStateModel::Updating { public_ip, record_content: record.content },
                        CycleActionModel::Patch {
                            url: update_url_model(config.zone_id, record.id),
                            body: update_body_model(public_ip),
                        },
                    )
                }
            },
            CycleEventModel::FetchFailed(error) => (
                CycleStateModel::Failed { error },
                CycleActionModel::Finish,
            ),
            _ => (state, CycleActionModel::Finish),
        },
        CycleStateModel::Updating { public_ip, record_content } => match event {
            CycleEventModel::UpdateSucceeded(resp) => if resp.success && resp.errors.len() == 0 {
                (
                    CycleStateModel::Done {
                        outcome: OutcomeModel { public_ip, record_content, updated: true },
                    },
                    CycleActionModel::Finish,
                )
            } else {
                (
                    CycleStateModel::Failed { error: CycleError::ProviderError },
                    CycleActionModel::Finish,
                )
            },
            CycleEventModel::UpdateFailed(error) => (
                CycleStateModel::Failed { error },
                CycleActionModel::Finish,
            ),
            _ => (state, CycleActionModel::Finish),
        },
        _ => (state, CycleActionModel::Finish),
    }
}

/// The fixed fallback chain of "what is my IP" endpoints, in priority
/// order.
pub fn default_endpoints() -> (r: Vec<String>)
    ensures
        r@.len() == 3,
        r@[0]@ == "http://icanhazip.com"@,
        r@[1]@ == "http://myexternalip.com/raw"@,
        r@[2]@ == "http://ifconfig.me/ip"@,
{
    let mut endpoints: Vec<String> = Vec::new();
    endpoints.push(String::from_str("http://icanhazip.com"));
    endpoints.push(String::from_str("http://myexternalip.com/raw"));
    endpoints.push(String::from_str("http://ifconfig.me/ip"));
    endpoints
}

/// Starts one cycle: the state awaits the first endpoint's answer and
/// the caller is told to probe it.
pub fn cycle_start(endpoints: Vec<String>) -> (r: (CycleState, CycleAction))
    requires
        endpoints@.len() > 0,
    ensures
        r.0@ == (CycleStateModel::ResolvingIp { endpoints: endpoints.deep_view(), next: 0 }),
        r.1@ == (CycleActionModel::Probe { url: endpoints.deep_view()[0] }),
        state_inv(r.0@),
{
    let url = endpoints[0].clone();
    (CycleState::ResolvingIp { endpoints, next: 0 }, CycleAction::Probe { url })
}

/// Advances one cycle by one transition.  The caller hands in what it
/// observed for the pending action and receives the next state together
/// with the next action; the behaviour is exactly `cycle_step_model`.
pub fn cycle_step(config: &CloudflareAPI, state: CycleState, event: CycleEvent) -> (r: (
    CycleState,
    CycleAction,
))
    requires
        state_inv(state@),
        event_fits(state@, event@),
    ensures
        r.0@ == cycle_step_model(config@, state@, event@).0,
        r.1@ == cycle_step_model(config@, state@, event@).1,
        state_inv(r.0@),
{
    match state {
        CycleState::ResolvingIp { endpoints, next } => match event {
            CycleEvent::ProbeSucceeded(body) => {
                let public_ip = trim_whitespace(body.as_str());
                (
                    CycleState::FetchingRecord { public_ip },
                    CycleAction::Fetch { url: list_url(config) },
                )
            },
            CycleEvent::ProbeFailed => {
                let n = endpoints.len();
                proof {
                    assert(endpoints.deep_view().len() == endpoints@.len());
                }
                if next + 1 < n {
                    let url = endpoints[next + 1].clone();
                    (
                        CycleState::ResolvingIp { endpoints, next: next + 1 },
                        CycleAction::Probe { url },
                    )
                } else {
                    (
                        CycleState::Failed { error: CycleError::NoPublicIPAvailable },
                        CycleAction::Finish,
                    )
                }
            },
            _ => vstd::pervasive::unreached(),
        },
        CycleState::FetchingRecord { public_ip } => match event {
            CycleEvent::FetchSucceeded(resp) => {
                let record = select_record(&resp);
                if record.content == public_ip {
                    (
                        CycleState::Done {
                            outcome: CycleOutcome {
                                public_ip,
                                record_content: record.content,
                                updated: false,
                            },
                        },
                        CycleAction::Finish,
                    )
                } else {
                    let url = update_url(config, record.id.as_str());
                    let body = update_body(public_ip.as_str());
                    (
                        CycleState::Updating { public_ip, record_content: record.content },
                        CycleAction::Patch { url, body },
                    )
                }
            },
            CycleEvent::FetchFailed(error) => (
                CycleState::Failed { error },
                CycleAction::Finish,
            ),
            _ => vstd::pervasive::unreached(),
        },
        CycleState::Updating { public_ip, record_content } => match event {
            CycleEvent::UpdateSucceeded(resp) => {
                if resp.success && resp.errors.len() == 0 {
                    (
                        CycleState::Done {
                            outcome: CycleOutcome { public_ip, record_content, updated: true },
                        },
                        CycleAction::Finish,
                    )
                } else {
                    (
                        CycleState::Failed { error: CycleError::ProviderError },
                        CycleAction::Finish,
                    )
                }
            },
            CycleEvent::UpdateFailed(error) => (
                CycleState::Failed { error },
                CycleAction::Finish,
            ),
            _ => vstd::pervasive::unreached(),
        },
        _ => vstd::pervasive::unreached(),
    }
}

/// Law: when the observed public IP equals the stored record content,
/// the cycle performs no update; it ends at once as a no-op whose
/// report carries the observed IP and `updated == false`.
pub proof fn lemma_no_update_when_ip_matches(
    config: ApiModel,
    public_ip: Seq<char>,
    resp: RespModel,
)
    requires
        selected_model(resp).content == public_ip,
    ensures
        !(cycle_step_model(
            config,
            CycleStateModel::FetchingRecord { public_ip },
            CycleEventModel::FetchSucceeded(resp),
        ).1 is Patch),
        cycle_step_model(
            config,
            CycleStateModel::FetchingRecord { public_ip },
            CycleEventModel::FetchSucceeded(resp),
        ).0 == (CycleStateModel::Done {
            outcome: OutcomeModel { public_ip, record_content: public_ip, updated: false },
        }),
{
}

/// Law: when the observed public IP differs from the stored record
/// content, the cycle issues an update whose target URL names the
/// fetched record's identifier and whose body carries the observed IP
/// as the new content.
pub proof fn lemma_update_on_drift(config: ApiModel, public_ip: Seq<char>, resp: RespModel)
    requires
        selected_model(resp).content != public_ip,
    ensures
        cycle_step_model(
            config,
            CycleStateModel::FetchingRecord { public_ip },
            CycleEventModel::FetchSucceeded(resp),
        ).1 == (CycleActionModel::Patch {
            url: update_url_model(config.zone_id, selected_model(resp).id),
            body: update_body_model(public_ip),
        }),
        cycle_step_model(
            config,
            CycleStateModel::FetchingRecord { public_ip },
            CycleEventModel::FetchSucceeded(resp),
        ).0 == (CycleStateModel::Updating {
            public_ip,
            record_content: selected_model(resp).content,
        }),
{
}

/// Law: an update is only ever issued from the comparison step, on a
/// fetched envelope whose selected record content differs from the
/// observed IP, and it moves the cycle past the comparison step.
pub proof fn lemma_patch_only_on_drift(
    config: ApiModel,
    state: CycleStateModel,
    event: CycleEventModel,
)
    ensures
        cycle_step_model(config, state, event).1 is Patch ==> {
            &&& state matches CycleStateModel::FetchingRecord { public_ip }
            &&& event matches CycleEventModel::FetchSucceeded(resp)
                && selected_model(resp).content != public_ip
            &&& cycle_step_model(config, state, event).0 is Updating
        },
{
}

/// Law: a usable probe answer resolves the public IP immediately, as
/// the whitespace-trimmed response body; the next action fetches the
/// record, so no endpoint after the successful one is ever probed.
pub proof fn lemma_first_success_short_circuits(
    config: ApiModel,
    endpoints: Seq<Seq<char>>,
    next: int,
    body: Seq<char>,
)
    ensures
        cycle_step_model(
            config,
            CycleStateModel::ResolvingIp { endpoints, next },
            CycleEventModel::ProbeSucceeded(body),
        ).0 == (CycleStateModel::FetchingRecord { public_ip: trim_spec(body) }),
        cycle_step_model(
            config,
            CycleStateModel::ResolvingIp { endpoints, next },
            CycleEventModel::ProbeSucceeded(body),
        ).1 is Fetch,
{
}

/// Law: when the last endpoint of the chain has failed, the cycle
/// fails with `NoPublicIPAvailable`; a failure earlier in the chain
/// only advances to the next endpoint.
pub proof fn lemma_exhaustion_fails(config: ApiModel, endpoints: Seq<Seq<char>>, next: int)
    requires
        0 <= next < endpoints.len(),
    ensures
        next + 1 == endpoints.len() ==> cycle_step_model(
            config,
            CycleStateModel::ResolvingIp { endpoints, next },
            CycleEventModel::ProbeFailed,
        ).0 == (CycleStateModel::Failed { error: CycleError::NoPublicIPAvailable }),
        next + 1 < endpoints.len() ==> cycle_step_model(
            config,
            CycleStateModel::ResolvingIp { endpoints, next },
            CycleEventModel::ProbeFailed,
        ) == (
            (CycleStateModel::ResolvingIp { endpoints, next: next + 1 }),
            (CycleActionModel::Probe { url: endpoints[next + 1] }),
        ),
{
}

/// The state a cycle rests in after consuming `events` in order,
/// starting from `state`; a terminal state absorbs whatever follows.
pub open spec fn run_model(
    config: ApiModel,
    state: CycleStateModel,
    events: Seq<CycleEventModel>,
) -> CycleStateModel
    decreases events.len(),
{
    if events.len() == 0 || is_terminal(state) {
        state
    } else {
        run_model(config, cycle_step_model(config, state, events[0]).0, events.drop_first())
    }
}

proof fn lemma_run_append(
    config: ApiModel,
    state: CycleStateModel,
    first: Seq<CycleEventModel>,
    rest: Seq<CycleEventModel>,
)
    ensures
        run_model(config, state, first + rest) == run_model(
            config,
            run_model(config, state, first),
            rest,
        ),
    decreases first.len(),
{
    if first.len() == 0 {
        assert(first + rest =~= rest);
    } else if is_terminal(state) {
        assert(run_model(config, state, first + rest) == state);
    } else {
        let next = cycle_step_model(config, state, first[0]).0;
        assert((first + rest).drop_first() =~= first.drop_first() + rest);
        lemma_run_append(config, next, first.drop_first(), rest);
    }
}

proof fn lemma_probe_failures_advance(
    config: ApiModel,
    endpoints: Seq<Seq<char>>,
    start: int,
    failures: int,
)
    requires
        0 <= start,
        0 <= failures,
        start + failures < endpoints.len(),
    ensures
        run_model(
            config,
            CycleStateModel::ResolvingIp { endpoints, next: start },
            Seq::new(failures as nat, |t: int| CycleEventModel::ProbeFailed),
        ) == (CycleStateModel::ResolvingIp { endpoints, next: start + failures }),
    decreases failures,
{
    let events = Seq::new(failures as nat, |t: int| CycleEventModel::ProbeFailed);
    if failures == 0 {
    } else {
        let next = cycle_step_model(config, CycleStateModel::ResolvingIp { endpoints, next: start }, events[0]).0;
        assert(next == (CycleStateModel::ResolvingIp { endpoints, next: start + 1 }));
        assert(events.drop_first() =~= Seq::new((failures - 1) as nat, |t: int| CycleEventModel::ProbeFailed));
        lemma_probe_failures_advance(config, endpoints, start + 1, failures - 1);
    }
}

/// Law: when the first `k` endpoints fail and the following endpoint
/// answers, the whole resolution ends with the trimmed answer of that
/// endpoint: the cycle moves on to fetching the record, and no
/// endpoint after the successful one is ever consulted.
pub proof fn lemma_resolver_first_success(
    config: ApiModel,
    endpoints: Seq<Seq<char>>,
    k: int,
    body: Seq<char>,
)
    requires
        0 <= k < endpoints.len(),
    ensures
        run_model(
            config,
            CycleStateModel::ResolvingIp { endpoints, next: 0 },
            Seq::new(k as nat, |t: int| CycleEventModel::ProbeFailed).push(
                CycleEventModel::ProbeSucceeded(body),
            ),
        ) == (CycleStateModel::FetchingRecord { public_ip: trim_spec(body) }),
{
    let failures = Seq::new(k as nat, |t: int| CycleEventModel::ProbeFailed);
    let success = seq![CycleEventModel::ProbeSucceeded(body)];
    assert(failures.push(CycleEventModel::ProbeSucceeded(body)) =~= failures + success);
    lemma_run_append(
        config,
        CycleStateModel::ResolvingIp { endpoints, next: 0 },
        failures,
        success,
    );
    lemma_probe_failures_advance(config, endpoints, 0, k);
    let mid = CycleStateModel::ResolvingIp { endpoints, next: k };
    let stepped = cycle_step_model(config, mid, success[0]).0;
    assert(stepped == (CycleStateModel::FetchingRecord { public_ip: trim_spec(body) }));
    assert(run_model(config, mid, success) == run_model(config, stepped, success.drop_first()));
    assert(success.drop_first().len() == 0);
    assert(run_model(config, stepped, success.drop_first()) == stepped);
}

/// Law: when every endpoint of the chain fails, the resolution fails
/// with `NoPublicIPAvailable`.
pub proof fn lemma_resolver_exhaustion(config: ApiModel, endpoints: Seq<Seq<char>>)
    requires
        endpoints.len() > 0,
    ensures
        run_model(
            config,
            CycleStateModel::ResolvingIp { endpoints, next: 0 },
            Seq::new(endpoints.len(), |t: int| CycleEventModel::ProbeFailed),
        ) == (CycleStateModel::Failed { error: CycleError::NoPublicIPAvailable }),
{
    let n = endpoints.len() as int;
    let all = Seq::new(endpoints.len(), |t: int| CycleEventModel::ProbeFailed);
    let most = Seq::new((n - 1) as nat, |t: int| CycleEventModel::ProbeFailed);
    let last = seq![CycleEventModel::ProbeFailed];
    assert(all =~= most + last);
    lemma_run_append(config, CycleStateModel::ResolvingIp { endpoints, next: 0 }, most, last);
    lemma_probe_failures_advance(config, endpoints, 0, n - 1);
    let mid = CycleStateModel::ResolvingIp { endpoints, next: n - 1 };
    let stepped = cycle_step_model(config, mid, last[0]).0;
    assert(stepped == (CycleStateModel::Failed { error: CycleError::NoPublicIPAvailable }));
    assert(run_model(config, mid, last) == run_model(config, stepped, last.drop_first()));
    assert(last.drop_first().len() == 0);
    assert(run_model(config, stepped, last.drop_first()) == stepped);
}

/// Law: a whole cycle in which some endpoint answers with the IP the
/// record already holds ends in `Done` as a no-op: the report carries
/// that IP and `updated == false`.
pub proof fn lemma_whole_cycle_noop(
    config: ApiModel,
    endpoints: Seq<Seq<char>>,
    k: int,
    body: Seq<char>,
    resp: RespModel,
)
    requires
        0 <= k < endpoints.len(),
        selected_model(resp).content == trim_spec(body),
    ensures
        run_model(
            config,
            CycleStateModel::ResolvingIp { endpoints, next: 0 },
            Seq::new(k as nat, |t: int| CycleEventModel::ProbeFailed).push(
                CycleEventModel::ProbeSucceeded(body),
            ).push(CycleEventModel::FetchSucceeded(resp)),
        ) == (CycleStateModel::Done {
            outcome: OutcomeModel {
                public_ip: trim_spec(body),
                record_content: trim_spec(body),
                updated: false,
            },
        }),
{
    let resolution = Seq::new(k as nat, |t: int| CycleEventModel::ProbeFailed).push(
        CycleEventModel::ProbeSucceeded(body),
    );
    let fetch = seq![CycleEventModel::FetchSucceeded(resp)];
    assert(resolution.push(CycleEventModel::FetchSucceeded(resp)) =~= resolution + fetch);
    lemma_run_append(config, CycleStateModel::ResolvingIp { endpoints, next: 0 }, resolution, fetch);
    lemma_resolver_first_success(config, endpoints, k, body);
    let mid = CycleStateModel::FetchingRecord { public_ip: trim_spec(body) };
    let stepped = cycle_step_model(config, mid, fetch[0]).0;
    assert(run_model(config, mid, fetch) == run_model(config, stepped, fetch.drop_first()));
    assert(fetch.drop_first().len() == 0);
}

/// Law: a whole cycle in which some endpoint answers with an IP the
/// record does not hold, and whose update the provider acknowledges,
/// ends in `Done` with `updated == true`; the report carries the new
/// IP and the content the record held before.
pub proof fn lemma_whole_cycle_update(
    config: ApiModel,
    endpoints: Seq<Seq<char>>,
    k: int,
    body: Seq<char>,
    resp: RespModel,
    ack: RespModel,
)
    requires
        0 <= k < endpoints.len(),
        selected_model(resp).content != trim_spec(body),
        ack.success,
        ack.errors.len() == 0,
    ensures
        run_model(
            config,
            CycleStateModel::ResolvingIp { endpoints, next: 0 },
            Seq::new(k as nat, |t: int| CycleEventModel::ProbeFailed).push(
                CycleEventModel::ProbeSucceeded(body),
            ).push(CycleEventModel::FetchSucceeded(resp)).push(
                CycleEventModel::UpdateSucceeded(ack),
            ),
        ) == (CycleStateModel::Done {
            outcome: OutcomeModel {
                public_ip: trim_spec(body),
                record_content: selected_model(resp).content,
                updated: true,
            },
        }),
{
    let resolution = Seq::new(k as nat, |t: int| CycleEventModel::ProbeFailed).push(
        CycleEventModel::ProbeSucceeded(body),
    );
    let fetch = seq![CycleEventModel::FetchSucceeded(resp)];
    let update = seq![CycleEventModel::UpdateSucceeded(ack)];
    let start = CycleStateModel::ResolvingIp { endpoints, next: 0 };
    assert(resolution.push(CycleEventModel::FetchSucceeded(resp)).push(
        CycleEventModel::UpdateSucceeded(ack),
    ) =~= resolution + fetch + update);
    lemma_run_append(config, start, resolution + fetch, update);
    lemma_run_append(config, start, resolution, fetch);
    lemma_resolver_first_success(config, endpoints, k, body);
    let fetching = CycleStateModel::FetchingRecord { public_ip: trim_spec(body) };
    let updating = cycle_step_model(config, fetching, fetch[0]).0;
    assert(run_model(config, fetching, fetch) == run_model(config, updating, fetch.drop_first()));
    assert(fetch.drop_first().len() == 0);
    assert(updating == (CycleStateModel::Updating {
        public_ip: trim_spec(body),
        record_content: selected_model(resp).content,
    }));
    let done = cycle_step_model(config, updating, update[0]).0;
    assert(run_model(config, updating, update) == run_model(config, done, update.drop_first()));
    assert(update.drop_first().len() == 0);
}

/// How many updates a run of one cycle issues, starting in `state` and
/// observing `events` in order, stopping early if the cycle ends.
pub open spec fn patch_count(
    config: ApiModel,
    state: CycleStateModel,
    events: Seq<CycleEventModel>,
) -> nat
    decreases events.len(),
{
    if events.len() == 0 || is_terminal(state) {
        0
    } else {
        let step = cycle_step_model(config, state, events[0]);
        (if step.1 is Patch {
            1nat
        } else {
            0nat
        }) + patch_count(config, step.0, events.drop_first())
    }
}

proof fn lemma_probe_failures_no_patch(
    config: ApiModel,
    endpoints: Seq<Seq<char>>,
    start: int,
    failures: int,
    rest: Seq<CycleEventModel>,
)
    requires
        0 <= start,
        0 <= failures,
        start + failures < endpoints.len(),
    ensures
        patch_count(
            config,
            CycleStateModel::ResolvingIp { endpoints, next: start },
            Seq::new(failures as nat, |t: int| CycleEventModel::ProbeFailed) + rest,
        ) == patch_count(
            config,
            CycleStateModel::ResolvingIp { endpoints, next: start + failures },
            rest,
        ),
    decreases failures,
{
    let events = Seq::new(failures as nat, |t: int| CycleEventModel::ProbeFailed) + rest;
    if failures == 0 {
        assert(events =~= rest);
    } else {
        let state = CycleStateModel::ResolvingIp { endpoints, next: start };
        let step = cycle_step_model(config, state, events[0]);
        assert(!(step.1 is Patch));
        assert(step.0 == (CycleStateModel::ResolvingIp { endpoints, next: start + 1 }));
        assert(events.drop_first() =~= Seq::new(
            (failures - 1) as nat,
            |t: int| CycleEventModel::ProbeFailed,
        ) + rest);
        lemma_probe_failures_no_patch(config, endpoints, start + 1, failures - 1, rest);
    }
}

/// Law: a cycle in which some endpoint resolves an IP the record does
/// not hold, the fetch succeeds and the update is answered — however
/// it is answered — issues exactly one update.
pub proof fn lemma_drift_cycle_updates_exactly_once(
    config: ApiModel,
    endpoints: Seq<Seq<char>>,
    k: int,
    body: Seq<char>,
    resp: RespModel,
    ack: RespModel,
)
    requires
        0 <= k < endpoints.len(),
        selected_model(resp).content != trim_spec(body),
    ensures
        patch_count(
            config,
            CycleStateModel::ResolvingIp { endpoints, next: 0 },
            Seq::new(k as nat, |t: int| CycleEventModel::ProbeFailed).push(
                CycleEventModel::ProbeSucceeded(body),
            ).push(CycleEventModel::FetchSucceeded(resp)).push(
                CycleEventModel::UpdateSucceeded(ack),
            ),
        ) == 1,
{
    let tail = seq![
        CycleEventModel::ProbeSucceeded(body),
        CycleEventModel::FetchSucceeded(resp),
        CycleEventModel::UpdateSucceeded(ack),
    ];
    let events = Seq::new(k as nat, |t: int| CycleEventModel::ProbeFailed).push(
        CycleEventModel::ProbeSucceeded(body),
    ).push(CycleEventModel::FetchSucceeded(resp)).push(CycleEventModel::UpdateSucceeded(ack));
    assert(events =~= Seq::new(k as nat, |t: int| CycleEventModel::ProbeFailed) + tail);
    lemma_probe_failures_no_patch(config, endpoints, 0, k, tail);
    let reached = CycleStateModel::ResolvingIp { endpoints, next: k };
    let probe_step = cycle_step_model(config, reached, tail[0]);
    assert(!(probe_step.1 is Patch));
    assert(probe_step.0 == (CycleStateModel::FetchingRecord { public_ip: trim_spec(body) }));
    let tail1 = tail.drop_first();
    assert(patch_count(config, reached, tail) == patch_count(config, probe_step.0, tail1));
    let fetch_step = cycle_step_model(config, probe_step.0, tail1[0]);
    assert(fetch_step.1 is Patch);
    assert(past_compare(fetch_step.0));
    let tail2 = tail1.drop_first();
    assert(patch_count(config, probe_step.0, tail1) == 1 + patch_count(
        config,
        fetch_step.0,
        tail2,
    ));
    lemma_no_patch_past_compare(config, fetch_step.0, tail2);
}

/// A state lying past the comparison step.
pub open spec fn past_compare(s: CycleStateModel) -> bool {
    s is Updating || s is Done || s is Failed
}

proof fn lemma_no_patch_past_compare(
    config: ApiModel,
    state: CycleStateModel,
    events: Seq<CycleEventModel>,
)
    requires
        past_compare(state),
    ensures
        patch_count(config, state, events) == 0,
    decreases events.len(),
{
    if events.len() == 0 || is_terminal(state) {
    } else {
        let step = cycle_step_model(config, state, events[0]);
        assert(!(step.1 is Patch));
        assert(past_compare(step.0));
        lemma_no_patch_past_compare(config, step.0, events.drop_first());
    }
}

/// Law: however one cycle unfolds — whatever the configuration, the
/// starting state and the observed responses — it issues at most one
/// update.
pub proof fn lemma_at_most_one_update(
    config: ApiModel,
    state: CycleStateModel,
    events: Seq<CycleEventModel>,
)
    ensures
        patch_count(config, state, events) <= 1,
    decreases events.len(),
{
    if events.len() == 0 || is_terminal(state) {
    } else {
        let step = cycle_step_model(config, state, events[0]);
        if step.1 is Patch {
            assert(past_compare(step.0));
            lemma_no_patch_past_compare(config, step.0, events.drop_first());
        } else {
            lemma_at_most_one_update(config, step.0, events.drop_first());
        }
    }
}

/// Whether the cycle has come to rest in `Done` or `Failed`.
pub fn cycle_over(state: &CycleState) -> (r: bool)
    ensures
        r == is_terminal(state@),
{
    match state {
        CycleState::Done { .. } => true,
        CycleState::Failed { .. } => true,
        _ => false,
    }
}

} // verus!
