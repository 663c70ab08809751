//! Folding one probe's endpoint observations into a single outcome. A probe
//! tries an ordered list of health endpoints; the first HTTP success wins. A
//! success whose body is not a health payload still counts as reachable and
//! yields a minimal degraded-but-healthy response. When every endpoint
//! fails, the most specific failure is reported: a timeout over a refused
//! connection, and that over anything else.

use vstd::prelude::*;
use crate::status::{DatabaseStatus, HealthCheckError, HealthResponse};
use crate::text::spec_digits;
use crate::text::u32_to_string;

verus! {

/// What one endpoint's request came back with, as the caller observed it:
/// an HTTP success with a parsed health payload, an HTTP success without
/// one, a non-success status code, or a failure to talk at all (rendered by
/// the caller where it carries text).
#[derive(Debug)]
pub enum EndpointObservation {
    JsonHealth(HealthResponse),
    PlainSuccess,
    HttpFailure(u16),
    Timeout,
    ConnectFailed(String),
    RequestFailed(String),
}

/// An observation that counts as reaching the server.
pub open spec fn is_success(o: EndpointObservation) -> bool {
    o is JsonHealth || o is PlainSuccess
}

/// How specific a failed observation is: a timeout says the most, a refused
/// connection less, anything else the least. Successes rank lowest of all.
pub open spec fn failure_rank(o: EndpointObservation) -> int {
    match o {
        EndpointObservation::Timeout => 3,
        EndpointObservation::ConnectFailed(_) => 2,
        EndpointObservation::HttpFailure(_) => 1,
        EndpointObservation::RequestFailed(_) => 1,
        _ => 0,
    }
}

/// `i` is the first observation that reached the server.
pub open spec fn first_success_at(obs: Seq<EndpointObservation>, i: int) -> bool {
    &&& 0 <= i < obs.len()
    &&& is_success(obs[i])
    &&& forall|k: int| 0 <= k < i ==> !is_success(obs[k])
}

/// `i` is the most specific failure, the earliest one among equals.
pub open spec fn best_failure_at(obs: Seq<EndpointObservation>, i: int) -> bool {
    &&& 0 <= i < obs.len()
    &&& forall|k: int| 0 <= k < obs.len() ==> failure_rank(obs[k]) <= failure_rank(obs[i])
    &&& forall|k: int| 0 <= k < i ==> failure_rank(obs[k]) < failure_rank(obs[i])
}

/// The minimal response reported when the server answered but sent no
/// health payload: up, database assumed connected at its default location.
pub open spec fn is_degraded_response(h: HealthResponse, ts: String) -> bool {
    &&& h.status@ == "UP"@
    &&& h.database.connected
    &&& h.database.url@ == "jdbc:h2:file:./data/db"@
    &&& h.database.error is None
    &&& h.timestamp == ts
    &&& h.uptime == 0
}

/// What a successful observation turns into.
pub open spec fn success_yields(o: EndpointObservation, ts: String, h: HealthResponse) -> bool {
    match o {
        EndpointObservation::JsonHealth(hr) => h == hr,
        EndpointObservation::PlainSuccess => is_degraded_response(h, ts),
        _ => false,
    }
}

/// What a failed observation turns into.
pub open spec fn error_matches_observation(o: EndpointObservation, e: HealthCheckError) -> bool {
    match o {
        EndpointObservation::Timeout => e is TimeoutError,
        EndpointObservation::ConnectFailed(m) => e matches HealthCheckError::NetworkError(s)
            && s@ == "Connection failed: "@ + m@,
        EndpointObservation::RequestFailed(m) => e matches HealthCheckError::NetworkError(s)
            && s@ == "Request failed: "@ + m@,
        EndpointObservation::HttpFailure(code) => e matches HealthCheckError::InvalidResponse(s)
            && s@ == "Health endpoint returned status: "@ + spec_digits(code as nat),
        _ => false,
    }
}

/// The rank of one observation, as [`failure_rank`] lays down.
fn rank(o: &EndpointObservation) -> (r: u8)
    ensures
        r as int == failure_rank(*o),
{
    match o {
        EndpointObservation::Timeout => 3,
        EndpointObservation::ConnectFailed(_) => 2,
        EndpointObservation::HttpFailure(_) => 1,
        EndpointObservation::RequestFailed(_) => 1,
        _ => 0,
    }
}

/// The error one failed observation is reported as.
fn error_for(o: EndpointObservation) -> (e: HealthCheckError)
    requires
        !is_success(o),
    ensures
        error_matches_observation(o, e),
{
    match o {
        EndpointObservation::Timeout => HealthCheckError::TimeoutError,
        EndpointObservation::ConnectFailed(m) => HealthCheckError::NetworkError(
            String::from_str("Connection failed: ").concat(m.as_str()),
        ),
        EndpointObservation::RequestFailed(m) => HealthCheckError::NetworkError(
            String::from_str("Request failed: ").concat(m.as_str()),
        ),
        EndpointObservation::HttpFailure(code) => {
            let digits = u32_to_string(code as u32);
            HealthCheckError::InvalidResponse(
                String::from_str("Health endpoint returned status: ").concat(digits.as_str()),
            )
        },
        EndpointObservation::JsonHealth(_) => HealthCheckError::UnknownError(String::new()),
        EndpointObservation::PlainSuccess => HealthCheckError::UnknownError(String::new()),
    }
}

/// The position of the first observation that reached the server, if any.
fn find_first_success(obs: &Vec<EndpointObservation>) -> (r: Option<usize>)
    ensures
        match r {
            Some(i) => first_success_at(obs@, i as int),
            None => forall|k: int| 0 <= k < obs@.len() ==> !is_success(obs@[k]),
        },
{
    let n = obs.len();
    let mut i: usize = 0;
    while i < n
        invariant
            i <= n,
            n == obs@.len(),
            forall|k: int| 0 <= k < i ==> !is_success(obs@[k]),
        decreases n - i,
    {
        let hit = match &obs[i] {
            EndpointObservation::JsonHealth(_) => true,
            EndpointObservation::PlainSuccess => true,
            _ => false,
        };
        if hit {
            return Some(i);
        }
        i = i + 1;
    }
    None
}

/// Folds the ordered endpoint observations of one probe into its outcome.
/// The first success decides, a payload-less success degrades gracefully,
/// and with no success at all the most specific failure is returned; with
/// nothing tried, an unknown error says so.
pub fn aggregate_probe(obs: Vec<EndpointObservation>, timestamp: String) -> (r: Result<
    HealthResponse,
    HealthCheckError,
>)
    ensures
        (r is Ok) <==> (exists|i: int| first_success_at(obs@, i)),
        r matches Ok(h) ==> exists|i: int|
            #[trigger] first_success_at(obs@, i) && success_yields(obs@[i], timestamp, h),
        obs@.len() == 0 ==> (r matches Err(e) && e matches HealthCheckError::UnknownError(s)
            && s@ == "No endpoints tried"@),
        (r is Err && obs@.len() > 0) ==> (forall|k: int|
            0 <= k < obs@.len() ==> !is_success(obs@[k])),
        (r is Err && obs@.len() > 0) ==> (r matches Err(e) && exists|i: int|
            #[trigger] best_failure_at(obs@, i) && error_matches_observation(obs@[i], e)),
{
    let n = obs.len();
    if n == 0 {
        return Err(HealthCheckError::UnknownError(String::from_str("No endpoints tried")));
    }
    let first = find_first_success(&obs);
    match first {
        Some(idx) => {
            assert(first_success_at(obs@, idx as int));
            let mut obs = obs;
            let chosen = obs.remove(idx);
            match chosen {
                EndpointObservation::JsonHealth(h) => Ok(h),
                EndpointObservation::PlainSuccess => {
                    let h = HealthResponse {
                        status: String::from_str("UP"),
                        database: DatabaseStatus {
                            connected: true,
                            url: String::from_str("jdbc:h2:file:./data/db"),
                            error: None,
                        },
                        timestamp,
                        uptime: 0,
                    };
                    Ok(h)
                },
                _ => {
                    proof {
                        assert(false);
                    }
                    Err(HealthCheckError::UnknownError(String::new()))
                },
            }
        },
        None => {
            assert(forall|k: int| 0 <= k < obs@.len() ==> !is_success(obs@[k]));
            assert(forall|k: int| !first_success_at(obs@, k));
            let mut best: usize = 0;
            let mut best_rank: u8 = rank(&obs[0]);
            let mut j: usize = 1;
            while j < n
                invariant
                    1 <= j <= n,
                    n == obs@.len(),
                    best < j,
                    best_rank as int == failure_rank(obs@[best as int]),
                    forall|k: int| 0 <= k < j ==> failure_rank(obs@[k]) <= best_rank as int,
                    forall|k: int| 0 <= k < best ==> failure_rank(obs@[k]) < best_rank as int,
                decreases n - j,
            {
                let rj = rank(&obs[j]);
                if rj > best_rank {
                    best = j;
                    best_rank = rj;
                }
                j = j + 1;
            }
            assert(best_failure_at(obs@, best as int));
            let mut obs = obs;
            let chosen = obs.remove(best);
            let e = error_for(chosen);
            Err(e)
        },
    }
}

} // verus!
