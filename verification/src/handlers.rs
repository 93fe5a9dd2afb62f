//! The gateway dispatcher's decision logic: routing, and one decision
//! function per handler.
//!
//! Reading the request body, parsing it, and talking to the publishing
//! backend happen outside this crate; each handler decision here takes the
//! parse outcome as a plain value and returns either the payload to forward
//! or the failure to surface, so the decision is verified for every outcome
//! the edge can hand in.

use vstd::prelude::*;
use vstd::string::*;
use crate::channel_state::ChannelState;
use crate::device_auth::{authenticate, digest_seq, AuthOutcome, KeyManager};
use crate::types::{BundleData, GatewayError, SensorData, SwitchAuth};

verus! {

/// Character-for-character string equality.
fn str_eq(a: &str, b: &str) -> (r: bool)
    ensures
        r == (a@ == b@),
{
    let a_len = a.unicode_len();
    let b_len = b.unicode_len();
    if a_len != b_len {
        return false;
    }
    let mut i: usize = 0;
    while i < a_len
        invariant
            i <= a_len,
            a_len == a@.len(),
            a_len == b@.len(),
            forall|j: int| 0 <= j < i ==> a@[j] == b@[j],
        decreases a_len - i,
    {
        if a.get_char(i) != b.get_char(i) {
            return false;
        }
        i += 1;
    }
    proof {
        assert(a@ =~= b@);
    }
    true
}

/// The handler a request is routed to; exactly one per method and path.
#[derive(Clone, Copy, Debug, PartialEq, Eq, Structural)]
pub enum Route {
    Status,
    SensorData,
    BundleData,
    SwitchChannel,
    CurrentChannel,
    NotFound,
}

/// Which handler serves a method and path.
pub open spec fn spec_route(method: Seq<char>, path: Seq<char>) -> Route {
    if method == "POST"@ && path == "/sensor_data"@ {
        Route::SensorData
    } else if method == "POST"@ && path == "/bundle_data"@ {
        Route::BundleData
    } else if method == "POST"@ && path == "/switch_channel"@ {
        Route::SwitchChannel
    } else if method == "GET"@ && path == "/current_channel"@ {
        Route::CurrentChannel
    } else if method == "GET"@ && path == "/status"@ {
        Route::Status
    } else {
        Route::NotFound
    }
}

/// Routes a request by method and path; unmatched requests get `NotFound`.
pub fn route(method: &str, path: &str) -> (r: Route)
    ensures
        r == spec_route(method@, path@),
{
    let is_post = str_eq(method, "POST");
    let is_get = str_eq(method, "GET");
    if is_post && str_eq(path, "/sensor_data") {
        Route::SensorData
    } else if is_post && str_eq(path, "/bundle_data") {
        Route::BundleData
    } else if is_post && str_eq(path, "/switch_channel") {
        Route::SwitchChannel
    } else if is_get && str_eq(path, "/current_channel") {
        Route::CurrentChannel
    } else if is_get && str_eq(path, "/status") {
        Route::Status
    } else {
        Route::NotFound
    }
}

/// The acknowledgment body of the status handler.
pub fn status_body() -> (r: String)
    ensures
        r@ == "OK"@,
{
    String::from_str("OK")
}

/// Decides a single-reading submission. A body that did not parse is
/// malformed; an unauthorized or missing device rejects the reading; an
/// authorized one yields the reading to forward, its device overwritten with
/// the digest, its timestamp overwritten with the gateway's receipt time, and
/// its measurements untouched.
pub fn handle_sensor_data(parsed: Option<SensorData>, keystore: &KeyManager, now: u64) -> (r:
    Result<SensorData, GatewayError>)
    ensures
        parsed is None ==> r == Err::<SensorData, GatewayError>(GatewayError::MalformedPayload),
        parsed matches Some(d) ==> {
            &&& keystore.spec_authorized(d.device@) ==> (r matches Ok(out) && out.device@
                == digest_seq(d.device@) && out.timestamp == now && out.sensors == d.sensors)
            &&& !keystore.spec_authorized(d.device@) ==> r == Err::<SensorData, GatewayError>(
                GatewayError::Unauthorized,
            )
        },
{
    match parsed {
        None => Err(GatewayError::MalformedPayload),
        Some(data) => {
            match authenticate(Some(&data.device), keystore) {
                AuthOutcome::Authorized(digest) => Ok(
                    SensorData { device: digest, timestamp: now, sensors: data.sensors },
                ),
                _ => Err(GatewayError::Unauthorized),
            }
        },
    }
}

/// Every reading in the bundle has an authorized device.
pub open spec fn all_authorized(bundle: Seq<SensorData>, keystore: KeyManager) -> bool {
    forall|i: int| 0 <= i < bundle.len() ==> keystore.spec_authorized(bundle[i].device@)
}

/// `out` is `bundle` with every device anonymized, every timestamp
/// overwritten with the receipt time `now`, and the measurements kept.
pub open spec fn anonymized_bundle(
    bundle: Seq<SensorData>,
    out: Seq<SensorData>,
    now: u64,
) -> bool {
    &&& out.len() == bundle.len()
    &&& forall|i: int|
        0 <= i < bundle.len() ==> {
            &&& (#[trigger] out[i]).device@ == digest_seq(bundle[i].device@)
            &&& out[i].timestamp == now
            &&& out[i].sensors == bundle[i].sensors
        }
}

/// Decides a bundle submission, all-or-nothing: if any reading's device fails
/// authentication the whole bundle is rejected and nothing is forwarded; only
/// when every reading passes does the handler yield the bundle to forward,
/// every device anonymized, every timestamp overwritten with the gateway's
/// receipt time, and the measurements untouched.
pub fn handle_bundle_data(parsed: Option<BundleData>, keystore: &KeyManager, now: u64) -> (r:
    Result<BundleData, GatewayError>)
    ensures
        parsed is None ==> r == Err::<BundleData, GatewayError>(GatewayError::MalformedPayload),
        parsed matches Some(b) ==> {
            &&& all_authorized(b.bundle@, *keystore) ==> (r matches Ok(out) && anonymized_bundle(
                b.bundle@,
                out.bundle@,
                now,
            ))
            &&& !all_authorized(b.bundle@, *keystore) ==> r == Err::<BundleData, GatewayError>(
                GatewayError::Unauthorized,
            )
        },
{
    match parsed {
        None => Err(GatewayError::MalformedPayload),
        Some(bundle_data) => {
            let n = bundle_data.bundle.len();
            let mut out: Vec<SensorData> = Vec::new();
            let mut i: usize = 0;
            while i < n
                invariant
                    parsed == Some(bundle_data),
                    i <= n,
                    n == bundle_data.bundle@.len(),
                    out@.len() == i,
                    forall|j: int|
                        0 <= j < i ==> keystore.spec_authorized(bundle_data.bundle@[j].device@),
                    anonymized_bundle(bundle_data.bundle@.take(i as int), out@, now),
                decreases n - i,
            {
                let reading = &bundle_data.bundle[i];
                match authenticate(Some(&reading.device), keystore) {
                    AuthOutcome::Authorized(digest) => {
                        out.push(
                            SensorData {
                                device: digest,
                                timestamp: now,
                                sensors: reading.sensors.clone(),
                            },
                        );
                    },
                    _ => {
                        proof {
                            assert(!keystore.spec_authorized(
                                bundle_data.bundle@[i as int].device@,
                            ));
                            assert(!all_authorized(bundle_data.bundle@, *keystore));
                        }
                        return Err(GatewayError::Unauthorized);
                    },
                }
                i += 1;
            }
            proof {
                assert(bundle_data.bundle@.take(n as int) =~= bundle_data.bundle@);
            }
            Ok(BundleData { bundle: out })
        },
    }
}

/// Decides a channel-switch request up to the backend call: a body that did
/// not parse is malformed, an unlisted device is rejected, and only an
/// authorized one clears the gateway to open a new session.
pub fn handle_switch_auth(parsed: Option<SwitchAuth>, keystore: &KeyManager) -> (r: Result<
    (),
    GatewayError,
>)
    ensures
        parsed is None ==> r == Err::<(), GatewayError>(GatewayError::MalformedPayload),
        parsed matches Some(auth) ==> {
            &&& keystore.spec_authorized(auth.device@) ==> r is Ok
            &&& !keystore.spec_authorized(auth.device@) ==> r == Err::<(), GatewayError>(
                GatewayError::Unauthorized,
            )
        },
{
    match parsed {
        None => Err(GatewayError::MalformedPayload),
        Some(auth) => {
            match authenticate(Some(&auth.device), keystore) {
                AuthOutcome::Authorized(_) => Ok(()),
                _ => Err(GatewayError::Unauthorized),
            }
        },
    }
}

/// The number of characters before the first `&` of a query string: the
/// length of its first `&`-separated pair.
pub open spec fn pair_len(q: Seq<char>) -> nat
    decreases q.len(),
{
    if q.len() == 0 || q[0] == '&' {
        0
    } else {
        1 + pair_len(q.drop_first())
    }
}

/// The first pair runs up to the first `&`, or to the end when there is none.
proof fn lemma_pair_len(q: Seq<char>)
    ensures
        pair_len(q) <= q.len(),
        forall|j: int| 0 <= j < pair_len(q) ==> q[j] != '&',
        pair_len(q) < q.len() ==> q[pair_len(q) as int] == '&',
    decreases q.len(),
{
    if q.len() > 0 && q[0] != '&' {
        lemma_pair_len(q.drop_first());
        assert forall|j: int| 0 <= j < pair_len(q) implies q[j] != '&' by {
            if j > 0 {
                assert(q.drop_first()[j - 1] == q[j]);
            }
        }
        if pair_len(q) < q.len() {
            assert(q.drop_first()[pair_len(q.drop_first()) as int] == q[pair_len(q) as int]);
        }
    }
}

/// `s` begins with `prefix`.
pub open spec fn starts_with(s: Seq<char>, prefix: Seq<char>) -> bool {
    s.len() >= prefix.len() && s.take(prefix.len() as int) == prefix
}

/// The value of the first `device` parameter of a query string, if any: the
/// remainder of the first `&`-separated pair that begins with `device=`.
pub open spec fn spec_device_param(q: Seq<char>) -> Option<Seq<char>>
    decreases q.len(),
    via spec_device_param_decreases
{
    let p = pair_len(q) as int;
    let pair = q.take(p);
    if starts_with(pair, "device="@) {
        Some(pair.skip("device="@.len() as int))
    } else if p == q.len() {
        None::<Seq<char>>
    } else {
        spec_device_param(q.skip(p + 1))
    }
}

#[via_fn]
proof fn spec_device_param_decreases(q: Seq<char>) {
    lemma_pair_len(q);
}

/// Extracts the device identity from a query string: the value of its first
/// `device` parameter, when one is present.
pub fn device_param(query: &str) -> (r: Option<String>)
    ensures
        r matches Some(v) ==> spec_device_param(query@) == Some(v@),
        r is None ==> spec_device_param(query@) is None,
{
    proof {
        reveal_strlit("device=");
        assert(query@.skip(0) =~= query@);
    }
    let q_len = query.unicode_len();
    let mut start: usize = 0;
    loop
        invariant
            start <= q_len,
            q_len == query@.len(),
            spec_device_param(query@) == spec_device_param(query@.skip(start as int)),
        decreases q_len - start,
    {
        let ghost rest = query@.skip(start as int);
        let mut end: usize = start;
        while end < q_len && query.get_char(end) != '&'
            invariant
                start <= end <= q_len,
                q_len == query@.len(),
                forall|j: int| start <= j < end ==> query@[j] != '&',
            decreases q_len - end,
        {
            end += 1;
        }
        proof {
            lemma_pair_len(rest);
            assert(forall|j: int| 0 <= j < rest.len() ==> rest[j] == query@[start + j]);
            let p = pair_len(rest) as int;
            if p < end - start {
                assert(query@[start + p] != '&');
                assert(rest[p] == '&');
            }
            if p > end - start {
                assert(rest[end - start] != '&');
                if end < q_len {
                    assert(rest[end - start] == query@[end as int]);
                } else {
                    assert(rest.len() == end - start);
                }
            }
            assert(p == end - start);
            assert(rest.take((end - start) as int) =~= query@.subrange(start as int, end as int));
        }
        if end - start >= 7 {
            let head = query.substring_char(start, start + 7);
            proof {
                assert(head@ =~= rest.take((end - start) as int).take(7));
            }
            if str_eq(head, "device=") {
                let value = query.substring_char(start + 7, end);
                proof {
                    assert(rest.take((end - start) as int).skip(7) =~= value@);
                }
                return Some(value.to_owned());
            }
        }
        proof {
            reveal_strlit("device=");
            assert(!starts_with(rest.take((end - start) as int), "device="@));
        }
        if end == q_len {
            proof {
                assert(rest.len() == end - start);
            }
            return None;
        }
        proof {
            assert(rest.skip((end - start + 1) as int) =~= query@.skip((end + 1) as int));
            assert(spec_device_param(rest) == spec_device_param(
                rest.skip((end - start + 1) as int),
            ));
        }
        start = end + 1;
    }
}

/// The identity a current-channel query is judged by: the one in the body
/// when there is one, else the query-string fallback. The body wins when both
/// are present.
pub open spec fn spec_effective_identity(
    body_device: Option<String>,
    query_device: Option<String>,
) -> Option<Seq<char>> {
    match body_device {
        Some(b) => Some(b@),
        None => match query_device {
            Some(q) => Some(q@),
            None => None,
        },
    }
}

/// Decides a current-channel query. The identity is taken from the body,
/// else from the query string; a request that supplies none at all is
/// rejected the same way as an unlisted one, and an authorized identity is
/// answered with the current session identifier.
pub fn handle_current_channel(
    body_device: Option<String>,
    query_device: Option<String>,
    keystore: &KeyManager,
    state: &ChannelState,
) -> (r: Result<String, GatewayError>)
    ensures
        spec_effective_identity(body_device, query_device) is None ==> r == Err::<
            String,
            GatewayError,
        >(GatewayError::Unauthorized),
        spec_effective_identity(body_device, query_device) matches Some(id) ==> {
            &&& keystore.spec_authorized(id) ==> (r matches Ok(c) && c == state.channel_id)
            &&& !keystore.spec_authorized(id) ==> r == Err::<String, GatewayError>(
                GatewayError::Unauthorized,
            )
        },
{
    let effective: Option<String> = match body_device {
        Some(b) => Some(b),
        None => query_device,
    };
    match authenticate(effective.as_ref(), keystore) {
        AuthOutcome::Authorized(_) => Ok(state.current_id()),
        _ => Err(GatewayError::Unauthorized),
    }
}

} // verus!
