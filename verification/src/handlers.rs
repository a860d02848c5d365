//! The REST handlers' decision layer.
//!
//! Each handler splits into a pure decision — preset lookup, identifier and
//! lifetime validation, the ownership check, and the exact value to create
//! or patch — and the orchestrator call the surrounding process performs
//! with that value. Every handler but create reads the Ephemeron first and
//! refuses callers whose token subject is not the recorded creator.
use vstd::prelude::*;

use crate::auth::Claims;
use crate::children::labels_view;
use crate::clock::now_unix;
use crate::config::lookup;
use crate::config::spec_lookup;
use crate::controller::UpstreamError;
use crate::resource::Ephemeron;
use crate::resource::EphemeronMeta;
use crate::resource::EphemeronService;
use crate::resource::EphemeronSpecView;
use crate::resource::EphemeronSpec;
use crate::resource::EphemeronView;
use crate::resource::keys_unique;
use crate::resource::ServiceView;
use crate::text::decimal_string;
use crate::text::spec_decimal;
use crate::text::str_eq;

verus! {

/// The largest request body the API accepts, in bytes.
pub const MAX_BODY_BYTES: u64 = 1024 * 1024;

/// The annotation naming the token subject that created an Ephemeron.
pub open spec fn created_by_key() -> Seq<char> {
    "ephemerons.qualified.io/created-by"@
}

/// The pod label naming the creator's group, set when the token carries one.
pub open spec fn group_label_key() -> Seq<char> {
    "ephemerons.qualified.io/group"@
}

/// A failure of a REST handler.
#[derive(Debug, Clone, PartialEq)]
pub enum Error {
    /// No preset of the requested name is configured.
    PresetLookup(String),
    /// The requested lifetime cannot be represented.
    InvalidLifetime(u32),
    /// Creating the resource failed upstream.
    CreateResource(UpstreamError),
    /// Patching the resource lifetime failed upstream.
    PatchLifetime(UpstreamError),
    /// Reading the resource failed upstream.
    GetResource(UpstreamError),
    /// Deleting the resource failed upstream.
    DeleteResource(UpstreamError),
    /// The caller's token subject is not the recorded creator.
    Forbidden,
}

/// The status an upstream failure is forwarded with: a structured API error
/// keeps its code when it is a representable status, anything else is a
/// server error.
pub open spec fn spec_upstream_status(u: UpstreamError) -> u16 {
    match u {
        UpstreamError::Api { code, .. } => if 100 <= code && code <= 999 {
            code
        } else {
            400
        },
        UpstreamError::Other => 500,
    }
}

/// The status an upstream failure is forwarded with.
fn upstream_status(u: &UpstreamError) -> (r: u16)
    ensures
        r == spec_upstream_status(*u),
{
    match u {
        UpstreamError::Api { code, .. } => {
            if 100 <= *code && *code <= 999 {
                *code
            } else {
                400
            }
        },
        UpstreamError::Other => 500,
    }
}

impl Error {
    /// The HTTP status this failure is reported with.
    pub fn status_code(&self) -> (r: u16)
        ensures
            self matches Error::PresetLookup(_) ==> r == 404,
            self matches Error::InvalidLifetime(_) ==> r == 400,
            *self == Error::Forbidden ==> r == 403,
            self matches Error::CreateResource(u) ==> r == spec_upstream_status(*u),
            self matches Error::PatchLifetime(u) ==> r == spec_upstream_status(*u),
            self matches Error::GetResource(u) ==> r == spec_upstream_status(*u),
            self matches Error::DeleteResource(u) ==> r == spec_upstream_status(*u),
    {
        match self {
            Error::PresetLookup(_) => 404,
            Error::InvalidLifetime(_) => 400,
            Error::Forbidden => 403,
            Error::CreateResource(u) => upstream_status(u),
            Error::PatchLifetime(u) => upstream_status(u),
            Error::GetResource(u) => upstream_status(u),
            Error::DeleteResource(u) => upstream_status(u),
        }
    }

    /// The body this failure is reported with: a message for every failure
    /// but a deletion's, which forwards the bare status.
    pub fn message(&self) -> (r: Option<String>)
        ensures
            self matches Error::PresetLookup(p) ==> (r matches Some(m) && m@ == "preset "@ + p@
                + " not found"@),
            self matches Error::InvalidLifetime(n) ==> (r matches Some(m) && m@ == "lifetime "@
                + spec_decimal(n as int) + " is invalid"@),
            *self == Error::Forbidden ==> (r matches Some(m) && m@ == "Forbidden"@),
            self matches Error::CreateResource(u) ==> upstream_message_matches(*u, r),
            self matches Error::PatchLifetime(u) ==> upstream_message_matches(*u, r),
            self matches Error::GetResource(u) ==> upstream_message_matches(*u, r),
            self matches Error::DeleteResource(_) ==> r is None,
    {
        match self {
            Error::PresetLookup(p) => {
                let mut m = "preset ".to_owned();
                m.append(p.as_str());
                m.append(" not found");
                Some(m)
            },
            Error::InvalidLifetime(n) => {
                let mut m = "lifetime ".to_owned();
                let d = decimal_string(*n);
                m.append(d.as_str());
                m.append(" is invalid");
                Some(m)
            },
            Error::Forbidden => Some("Forbidden".to_owned()),
            Error::CreateResource(u) => Some(upstream_message(u)),
            Error::PatchLifetime(u) => Some(upstream_message(u)),
            Error::GetResource(u) => Some(upstream_message(u)),
            Error::DeleteResource(_) => None,
        }
    }
}

/// A structured upstream failure is forwarded with its own message,
/// anything else opaquely.
pub open spec fn upstream_message_matches(u: UpstreamError, r: Option<String>) -> bool {
    match u {
        UpstreamError::Api { message, .. } => r matches Some(m) && m == message,
        UpstreamError::Other => r matches Some(m) && m@ == "Internal Server Error"@,
    }
}

/// The message an upstream failure is forwarded with.
fn upstream_message(u: &UpstreamError) -> (r: String)
    ensures
        upstream_message_matches(*u, Some(r)),
{
    match u {
        UpstreamError::Api { message, .. } => message.clone(),
        UpstreamError::Other => "Internal Server Error".to_owned(),
    }
}

/// Payload for creating a service from a preset.
#[derive(Debug, Clone, PartialEq)]
pub struct PresetPayload {
    /// The name of the preset to use.
    pub preset: String,
    /// The minutes to expire the service after.
    pub lifetime_minutes: u32,
}

/// Payload for extending the lifetime.
#[derive(Debug, Clone, Copy, PartialEq)]
pub struct PatchPayload {
    /// The new minutes to expire after, from now.
    pub lifetime_minutes: u32,
}

/// The answer to a successful create.
#[derive(Debug, Clone, PartialEq)]
pub struct Created {
    /// The generated id of the Ephemeron.
    pub id: String,
    /// The instant it expires, seconds since the Unix epoch.
    pub expiration_time: i64,
}

/// The answer to a successful read.
#[derive(Debug, Clone, PartialEq)]
pub struct HostInfo {
    /// The externally resolvable host, once available.
    pub host: Option<String>,
    /// The instant the Ephemeron expires.
    pub expiration_time: i64,
    /// Whether a TLS secret is configured.
    pub tls: bool,
}

/// The answer to a successful lifetime extension.
#[derive(Debug, Clone, Copy, PartialEq)]
pub struct Expiration {
    /// The new expiration instant.
    pub expiration_time: i64,
}

/// The caller owns the Ephemeron: the `created-by` annotation is present and
/// reads exactly the token subject.
pub open spec fn spec_has_access(e: EphemeronView, sub: Seq<char>) -> bool {
    e.metadata.created_by matches Some(b) && b@ == sub
}

/// Whether the token subject is the recorded creator of the Ephemeron.
pub fn has_access(eph: &Ephemeron, sub: &str) -> (r: bool)
    ensures
        r == spec_has_access(eph@, sub@),
{
    match &eph.metadata.created_by {
        Some(b) => str_eq(b.as_str(), sub),
        None => false,
    }
}

/// The requested expiry fits an epoch-seconds instant.
pub open spec fn spec_expiry_ok(now: i64, minutes: u32) -> bool {
    now + (minutes as int) * 60 <= i64::MAX
}

/// The requested expiry: `now` plus the lifetime in seconds.
pub open spec fn spec_expiry(now: i64, minutes: u32) -> int {
    now + (minutes as int) * 60
}

/// The expiration instant for a lifetime in minutes from `now`; an instant
/// that cannot be represented is rejected.
fn expiry_time(now: i64, minutes: u32) -> (r: Result<i64, Error>)
    ensures
        spec_expiry_ok(now, minutes) ==> (r matches Ok(e) && e == spec_expiry(now, minutes)),
        !spec_expiry_ok(now, minutes) ==> r == Err::<i64, Error>(Error::InvalidLifetime(minutes)),
{
    let secs: i64 = (minutes as i64) * 60;
    match now.checked_add(secs) {
        Some(e) => Ok(e),
        None => Err(Error::InvalidLifetime(minutes)),
    }
}

/// Relies on xid::new for a fresh globally unique id; its string form is 20
/// characters of base32hex, and nothing further is promised of it.
#[verifier::external_body]
fn fresh_id() -> (r: String)
    ensures
        r@.len() == 20,
{
    xid::new().to_string()
}

/// The caller's pod labels with the group label merged in: any entry under
/// the group key is replaced by the claim's group. Distinct keys stay
/// distinct, as they would under a map insert.
fn insert_group_label(labels: &Vec<(String, String)>, gid: &String) -> (r: Vec<(String, String)>)
    ensures
        labels_view(r@) == labels_view(labels@).filter(
            |kv: (Seq<char>, Seq<char>)| kv.0 != group_label_key(),
        ) + seq![(group_label_key(), gid@)],
        keys_unique(labels@) ==> keys_unique(r@),
{
    let mut r: Vec<(String, String)> = Vec::new();
    let n: usize = labels.len();
    let mut i: usize = 0;
    proof {
        reveal(Seq::filter);
    }
    while i < n
        invariant
            n == labels@.len(),
            i <= n,
            labels_view(r@) == labels_view(labels@.subrange(0, i as int)).filter(
                |kv: (Seq<char>, Seq<char>)| kv.0 != group_label_key(),
            ),
            forall|a: int|
                0 <= a < r@.len() ==> exists|b: int|
                    0 <= b < i && (#[trigger] r@[a]).0@ == labels@[b].0@,
            forall|a: int| 0 <= a < r@.len() ==> (#[trigger] r@[a]).0@ != group_label_key(),
            keys_unique(labels@) ==> keys_unique(r@),
        decreases n - i,
    {
        let pair = &labels[i];
        let is_group = str_eq(pair.0.as_str(), "ephemerons.qualified.io/group");
        proof {
            reveal(Seq::filter);
            let pred = |kv: (Seq<char>, Seq<char>)| kv.0 != group_label_key();
            let next = labels_view(labels@.subrange(0, i + 1));
            assert(next.drop_last() =~= labels_view(labels@.subrange(0, i as int)));
            assert(next.last() == (labels@[i as int].0@, labels@[i as int].1@));
        }
        if !is_group {
            let ghost old_r = r@;
            r.push((pair.0.clone(), pair.1.clone()));
            proof {
                let pred = |kv: (Seq<char>, Seq<char>)| kv.0 != group_label_key();
                assert(labels_view(r@) =~= labels_view(labels@.subrange(0, i + 1)).filter(pred));
                assert(r@[old_r.len() as int].0@ == labels@[i as int].0@);
                assert forall|a: int| 0 <= a < r@.len() implies exists|b: int|
                    0 <= b < i + 1 && (#[trigger] r@[a]).0@ == labels@[b].0@ by {
                    if a < old_r.len() {
                        let b0 = choose|b: int| 0 <= b < i && old_r[a].0@ == labels@[b].0@;
                        assert(r@[a] == old_r[a]);
                        assert(r@[a].0@ == labels@[b0].0@);
                    } else {
                        assert(r@[a].0@ == labels@[i as int].0@);
                    }
                }
                if keys_unique(labels@) {
                    assert forall|a: int, b: int| 0 <= a < b < r@.len() implies (
                    #[trigger] r@[a]).0@ != (#[trigger] r@[b]).0@ by {
                        if b < old_r.len() {
                            assert(old_r[a].0@ != old_r[b].0@);
                        } else {
                            let b0 = choose|bb: int|
                                0 <= bb < i && old_r[a].0@ == labels@[bb].0@;
                            assert(labels@[b0].0@ != labels@[i as int].0@);
                        }
                    }
                }
            }
        } else {
            proof {
                let pred = |kv: (Seq<char>, Seq<char>)| kv.0 != group_label_key();
                assert(labels_view(r@) =~= labels_view(labels@.subrange(0, i + 1)).filter(pred));
            }
        }
        i = i + 1;
    }
    let ghost old_r = r@;
    r.push(("ephemerons.qualified.io/group".to_owned(), gid.clone()));
    proof {
        assert(labels@.subrange(0, n as int) =~= labels@);
        assert(labels_view(r@) =~= labels_view(labels@).filter(
            |kv: (Seq<char>, Seq<char>)| kv.0 != group_label_key(),
        ) + seq![(group_label_key(), gid@)]);
        if keys_unique(labels@) {
            assert(r@[old_r.len() as int].0@ == group_label_key());
            assert forall|a: int, b: int| 0 <= a < b < r@.len() implies (#[trigger] r@[a]).0@
                != (#[trigger] r@[b]).0@ by {
                if b < old_r.len() {
                    assert(old_r[a].0@ != old_r[b].0@);
                } else {
                    assert(old_r[a].0@ != group_label_key());
                }
            }
        }
    }
    r
}

/// The Ephemeron a create request yields, field by field: fresh metadata
/// carrying only the creator annotation, the chosen expiry, and the preset
/// as the service — with the group label merged into the pod labels when
/// the token carries a group.
pub open spec fn created_ephemeron_matches(
    e: EphemeronView,
    preset: EphemeronService,
    claims: Claims,
    id: String,
    expiration_time: int,
) -> bool {
    &&& e.metadata.name == id
    &&& e.metadata.uid is None
    &&& e.metadata.generation is None
    &&& e.metadata.host is None
    &&& e.metadata.created_by matches Some(cb) && cb == claims.sub
    &&& e.status is None
    &&& e.spec.expiration_time == expiration_time
    &&& (match claims.gid {
        None => e.spec.service == preset@,
        Some(g) => {
            &&& e.spec.service == (ServiceView { pod_labels: e.spec.service.pod_labels, ..preset@ })
            &&& labels_view(e.spec.service.pod_labels) == labels_view(preset@.pod_labels).filter(
                |kv: (Seq<char>, Seq<char>)| kv.0 != group_label_key(),
            ) + seq![(group_label_key(), g@)]
        },
    })
}

/// Decide a create request at the instant `now`, with the generated `id`.
///
/// An unknown preset is rejected by name; a lifetime whose expiry cannot be
/// represented is rejected; otherwise the Ephemeron to submit and the
/// answer to return are built, and the creator annotation is set to the
/// token subject.
pub fn create_at(
    presets: &Vec<(String, EphemeronService)>,
    claims: &Claims,
    payload: &PresetPayload,
    id: String,
    now: i64,
) -> (r: Result<(Ephemeron, Created), Error>)
    requires
        keys_unique(presets@),
    ensures
        spec_lookup(presets@, payload.preset@) is None ==> (r matches Err(
            Error::PresetLookup(p),
        ) && p == payload.preset),
        (spec_lookup(presets@, payload.preset@) is Some && !spec_expiry_ok(
            now,
            payload.lifetime_minutes,
        )) ==> r == Err::<(Ephemeron, Created), Error>(
            Error::InvalidLifetime(payload.lifetime_minutes),
        ),
        spec_lookup(presets@, payload.preset@) matches Some(preset) ==> spec_expiry_ok(
            now,
            payload.lifetime_minutes,
        ) ==> (r matches Ok((eph, created)) && created_ephemeron_matches(
            eph@,
            preset,
            *claims,
            id,
            spec_expiry(now, payload.lifetime_minutes),
        ) && created.id == id && created.expiration_time == eph@.spec.expiration_time),
        spec_lookup(presets@, payload.preset@) matches Some(preset) ==> spec_expiry_ok(
            now,
            payload.lifetime_minutes,
        ) ==> preset@.wf() ==> (r matches Ok((eph, c2)) && eph@.spec.service.wf()),
{
    let preset = match lookup(presets, payload.preset.as_str()) {
        None => {
            return Err(Error::PresetLookup(payload.preset.clone()));
        },
        Some(p) => p,
    };
    let expiration_time = match expiry_time(now, payload.lifetime_minutes) {
        Err(e) => {
            return Err(e);
        },
        Ok(e) => e,
    };
    let mut service = preset.clone();
    match &claims.gid {
        Some(g) => {
            let merged = insert_group_label(&service.pod_labels, g);
            service.pod_labels = merged;
        },
        None => {},
    }
    let eph = Ephemeron {
        metadata: EphemeronMeta {
            name: id.clone(),
            uid: None,
            generation: None,
            created_by: Some(claims.sub.clone()),
            host: None,
        },
        spec: EphemeronSpec { expiration_time, service },
        status: None,
    };
    let created = Created { id, expiration_time };
    Ok((eph, created))
}

/// Decide a create request now, with a fresh id.
///
/// The lookup outcome does not depend on the clock or the id; a created
/// Ephemeron always carries the token subject as its creator, a twenty-
/// character generated name, and the preset — with the group label when the
/// token carries a group — as its service.
pub fn create(
    presets: &Vec<(String, EphemeronService)>,
    claims: &Claims,
    payload: &PresetPayload,
) -> (r: Result<(Ephemeron, Created), Error>)
    requires
        keys_unique(presets@),
    ensures
        spec_lookup(presets@, payload.preset@) is None <==> (r matches Err(
            Error::PresetLookup(p),
        ) && p == payload.preset),
        r matches Err(Error::InvalidLifetime(m)) ==> m == payload.lifetime_minutes
            && spec_lookup(presets@, payload.preset@) is Some,
        r matches Ok((eph, created)) ==> (spec_lookup(presets@, payload.preset@) matches Some(
            preset,
        ) && created_ephemeron_matches(
            eph@,
            preset,
            *claims,
            eph.metadata.name,
            eph@.spec.expiration_time as int,
        ) && created.id == eph.metadata.name && created.expiration_time
            == eph@.spec.expiration_time && eph@.metadata.name@.len() == 20),
        spec_lookup(presets@, payload.preset@) matches Some(preset) ==> preset@.wf() ==> (r
            matches Ok((eph, c2)) ==> eph@.spec.service.wf()),
{
    let id = fresh_id();
    let now = now_unix();
    create_at(presets, claims, payload, id, now)
}

/// Decide a lifetime extension at the instant `now`: the new expiration
/// instant to merge-patch into `spec.expirationTime`. Nothing else of the
/// resource is touched — `apply_lifetime_patch` is the patch applied, and
/// `lemma_patch_touches_only_expiry` states that it leaves the metadata,
/// the creator annotation, the service and the status untouched. A caller
/// who is not the creator is refused.
pub fn patch_at(eph: &Ephemeron, claims: &Claims, payload: &PatchPayload, now: i64) -> (r: Result<
    i64,
    Error,
>)
    ensures
        !spec_has_access(eph@, claims.sub@) <==> r == Err::<i64, Error>(Error::Forbidden),
        (spec_has_access(eph@, claims.sub@) && !spec_expiry_ok(now, payload.lifetime_minutes))
            ==> r == Err::<i64, Error>(Error::InvalidLifetime(payload.lifetime_minutes)),
        (spec_has_access(eph@, claims.sub@) && spec_expiry_ok(now, payload.lifetime_minutes)) ==> (
        r matches Ok(e) && e == spec_expiry(now, payload.lifetime_minutes)),
{
    if !has_access(eph, claims.sub.as_str()) {
        return Err(Error::Forbidden);
    }
    expiry_time(now, payload.lifetime_minutes)
}

/// Decide a lifetime extension now. A caller who is not the creator is
/// refused; for the creator, the patched expiry is `now` plus the lifetime.
pub fn patch(eph: &Ephemeron, claims: &Claims, payload: &PatchPayload) -> (r: Result<i64, Error>)
    ensures
        !spec_has_access(eph@, claims.sub@) <==> r == Err::<i64, Error>(Error::Forbidden),
        r matches Err(Error::InvalidLifetime(m)) ==> m == payload.lifetime_minutes,
{
    let now = now_unix();
    patch_at(eph, claims, payload, now)
}

/// A lifetime extension applied: the merge patch carries nothing but
/// `spec.expirationTime`, so only that field changes.
pub open spec fn apply_lifetime_patch(e: EphemeronView, expiration_time: i64) -> EphemeronView {
    EphemeronView {
        spec: EphemeronSpecView { expiration_time, ..e.spec },
        ..e
    }
}

/// A lifetime patch touches only the expiration instant: the metadata —
/// the creator annotation in particular — the workload descriptor and the
/// status are exactly those of the unpatched Ephemeron.
pub proof fn lemma_patch_touches_only_expiry(e: EphemeronView, expiration_time: i64)
    ensures
        apply_lifetime_patch(e, expiration_time).spec.expiration_time == expiration_time,
        apply_lifetime_patch(e, expiration_time).metadata == e.metadata,
        apply_lifetime_patch(e, expiration_time).metadata.created_by == e.metadata.created_by,
        apply_lifetime_patch(e, expiration_time).spec.service == e.spec.service,
        apply_lifetime_patch(e, expiration_time).status == e.status,
{
}

/// Answer a read: the host annotation, the expiry, and whether TLS is
/// configured. A caller who is not the creator is refused.
pub fn get(eph: &Ephemeron, claims: &Claims) -> (r: Result<HostInfo, Error>)
    ensures
        !spec_has_access(eph@, claims.sub@) <==> r == Err::<HostInfo, Error>(Error::Forbidden),
        spec_has_access(eph@, claims.sub@) ==> (r matches Ok(h) && h.host == eph.metadata.host
            && h.expiration_time == eph.spec.expiration_time && h.tls == (
        eph@.spec.service.tls_secret_name is Some)),
{
    if !has_access(eph, claims.sub.as_str()) {
        return Err(Error::Forbidden);
    }
    Ok(
        HostInfo {
            host: crate::resource::clone_opt_string(&eph.metadata.host),
            expiration_time: eph.spec.expiration_time,
            tls: eph.has_tls(),
        },
    )
}

/// Decide a delete: the creator may delete, with background propagation so
/// the children cascade; anyone else is refused.
pub fn delete(eph: &Ephemeron, claims: &Claims) -> (r: Result<(), Error>)
    ensures
        !spec_has_access(eph@, claims.sub@) <==> r == Err::<(), Error>(Error::Forbidden),
        spec_has_access(eph@, claims.sub@) <==> r is Ok,
{
    if !has_access(eph, claims.sub.as_str()) {
        return Err(Error::Forbidden);
    }
    Ok(())
}

/// A request the router could not dispatch to a handler.
#[derive(Debug, Clone, Copy, PartialEq)]
pub enum Rejection {
    /// No route matched.
    NotFound,
    /// The authorization filter refused the request.
    Unauthorized,
    /// The body did not deserialize.
    BodyDeserialize,
    /// The body exceeded the size limit.
    PayloadTooLarge,
    /// The route exists but not for this method.
    MethodNotAllowed,
    /// Anything else.
    Other,
}

/// The status and message a rejection is answered with.
pub fn rejection_response(rej: &Rejection) -> (r: (u16, &'static str))
    ensures
        *rej == Rejection::NotFound ==> r.0 == 404 && r.1@ == "Not Found"@,
        *rej == Rejection::Unauthorized ==> r.0 == 401 && r.1@ == "Unauthorized"@,
        *rej == Rejection::BodyDeserialize ==> r.0 == 400 && r.1@ == "Bad Request"@,
        *rej == Rejection::PayloadTooLarge ==> r.0 == 413 && r.1@ == "Payload Too Large"@,
        *rej == Rejection::MethodNotAllowed ==> r.0 == 405 && r.1@ == "Method Not Allowed"@,
        *rej == Rejection::Other ==> r.0 == 500 && r.1@ == "Internal Server Error"@,
{
    match rej {
        Rejection::NotFound => (404, "Not Found"),
        Rejection::Unauthorized => (401, "Unauthorized"),
        Rejection::BodyDeserialize => (400, "Bad Request"),
        Rejection::PayloadTooLarge => (413, "Payload Too Large"),
        Rejection::MethodNotAllowed => (405, "Method Not Allowed"),
        Rejection::Other => (500, "Internal Server Error"),
    }
}

/// A freshly created Ephemeron already satisfies the availability
/// invariant: it has no status, so it is not available, and its host
/// annotation is absent.
pub proof fn lemma_created_host_invariant(
    e: EphemeronView,
    preset: EphemeronService,
    claims: Claims,
    id: String,
    expiration_time: int,
)
    requires
        created_ephemeron_matches(e, preset, claims, id, expiration_time),
    ensures
        e.host_tracks_available(),
{
}

} // verus!
