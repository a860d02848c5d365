//! Tests of the token issuer, the authorization filter, and the REST
//! handler decisions, including the concrete scenarios of the access model.
use ephemeron::auth::Error as AuthError;
use ephemeron::auth::TokenRequest;
use ephemeron::auth::token;
use ephemeron::auth::token_at;
use ephemeron::auth::is_valid_id;
use ephemeron::controller::UpstreamError;
use ephemeron::filter::Error as FilterError;
use ephemeron::filter::authorize;
use ephemeron::filter::bearer_token;
use ephemeron::filter::decode_jwt;
use ephemeron::handlers::Error as ApiError;
use ephemeron::handlers::PatchPayload;
use ephemeron::handlers::PresetPayload;
use ephemeron::handlers::Rejection;
use ephemeron::handlers::create_at;
use ephemeron::handlers::delete;
use ephemeron::handlers::get;
use ephemeron::handlers::has_access;
use ephemeron::handlers::patch_at;
use ephemeron::handlers::rejection_response;
use ephemeron::resource::EphemeronService;

const SECRET: &[u8] = b"test-secret";

fn apps() -> Vec<(String, String)> {
    vec![("a".to_owned(), "k".to_owned())]
}

fn request(app: &str, key: &str, uid: &str, gid: Option<&str>) -> TokenRequest {
    TokenRequest {
        app: app.to_owned(),
        key: key.to_owned(),
        uid: uid.to_owned(),
        gid: gid.map(|g| g.to_owned()),
    }
}

fn echo_preset() -> EphemeronService {
    EphemeronService {
        image: "nginx".to_owned(),
        command: None,
        working_dir: None,
        port: 80,
        tls_secret_name: None,
        ingress_annotations: Vec::new(),
        readiness_probe: Some(ephemeron::resource::HttpGetProbe {
            path: "/".to_owned(),
            initial_delay_seconds: None,
            period_seconds: None,
            timeout_seconds: None,
        }),
        image_pull_policy: None,
        resources: None,
        env: None,
        pod_labels: Vec::new(),
    }
}

fn presets() -> Vec<(String, EphemeronService)> {
    vec![("echo".to_owned(), echo_preset())]
}

fn claims_for(sub: &str, gid: Option<&str>) -> ephemeron::auth::Claims {
    ephemeron::auth::Claims { sub: sub.to_owned(), exp: 0, gid: gid.map(|g| g.to_owned()) }
}

#[test]
fn token_round_trips_claims() {
    let resp = token(&apps(), &request("a", "k", "u1", Some("g1")), SECRET).expect("valid request");
    let claims = decode_jwt(&resp.token, SECRET).expect("token decodes");
    assert_eq!(claims.sub, "u1.a");
    assert_eq!(claims.gid, Some("g1.a".to_owned()));
    assert!(claims.exp > 0);
}

#[test]
fn token_expiry_is_five_minutes() {
    let now = chrono::Utc::now().timestamp();
    let resp = token_at(&apps(), &request("a", "k", "u1", None), SECRET, now).expect("valid");
    let claims = decode_jwt(&resp.token, SECRET).expect("decodes");
    assert_eq!(claims.exp, (now + 300) as u64);
    assert_eq!(claims.gid, None);
}

#[test]
fn token_rejects_unknown_app_and_wrong_key() {
    assert_eq!(token(&apps(), &request("b", "k", "u1", None), SECRET), Err(AuthError::AppLookup));
    assert_eq!(
        token(&apps(), &request("a", "wrong", "u1", None), SECRET),
        Err(AuthError::InvalidKey)
    );
    assert_eq!(AuthError::AppLookup.status_code(), 401);
    assert_eq!(AuthError::InvalidKey.status_code(), 401);
    assert_eq!(AuthError::AppLookup.message(), "Unauthorized");
    assert_eq!(AuthError::InvalidKey.message(), "Unauthorized");
}

#[test]
fn token_rejects_bad_identifiers() {
    assert_eq!(
        token(&apps(), &request("a", "k", "u!", None), SECRET),
        Err(AuthError::InvalidUserId)
    );
    assert_eq!(token(&apps(), &request("a", "k", "", None), SECRET), Err(AuthError::InvalidUserId));
    assert_eq!(
        token(&apps(), &request("a", "k", "u1", Some("g*")), SECRET),
        Err(AuthError::InvalidGroupId)
    );
    assert_eq!(AuthError::InvalidUserId.status_code(), 400);
    assert_eq!(AuthError::InvalidGroupId.status_code(), 400);
    assert_eq!(AuthError::InvalidUserId.message(), "Invalid uid");
    assert_eq!(AuthError::InvalidGroupId.message(), "Invalid gid");
}

#[test]
fn token_id_length_boundary() {
    // app "a": id, dot and app must fit in 63 characters, so ids of 61
    // characters pass and 62 fail.
    let just_fits = "u".repeat(61);
    let too_long = "u".repeat(62);
    assert!(token(&apps(), &request("a", "k", &just_fits, None), SECRET).is_ok());
    assert_eq!(
        token(&apps(), &request("a", "k", &too_long, None), SECRET),
        Err(AuthError::InvalidUserId)
    );
}

#[test]
fn valid_id_boundaries() {
    assert!(is_valid_id("abc123XYZ", 9));
    assert!(!is_valid_id("abc123XYZ", 8));
    assert!(!is_valid_id("", 8));
    assert!(!is_valid_id("a-b", 8));
    assert!(!is_valid_id("a b", 8));
    assert!(!is_valid_id("café", 8));
}

#[test]
fn bearer_prefix_is_required() {
    assert_eq!(bearer_token("Bearer tok"), Some("tok"));
    assert_eq!(bearer_token("Bearer "), Some(""));
    assert_eq!(bearer_token("bearer tok"), None);
    assert_eq!(bearer_token("Token tok"), None);
    assert_eq!(bearer_token(""), None);
    assert_eq!(FilterError::MissingBearerPrefix.status_code(), 401);
}

#[test]
fn authorize_accepts_issued_token() {
    let resp = token(&apps(), &request("a", "k", "u1", None), SECRET).expect("valid");
    let header = format!("Bearer {}", resp.token);
    let claims = authorize(&header, SECRET).expect("authorized");
    assert_eq!(claims.sub, "u1.a");

    assert_eq!(authorize("nope", SECRET), Err(FilterError::MissingBearerPrefix));
    assert_eq!(authorize("Bearer garbage", SECRET), Err(FilterError::DecodeToken));
    let other = authorize(&header, b"other-secret");
    assert_eq!(other, Err(FilterError::DecodeToken));
}

#[test]
fn create_happy_path() {
    let claims = claims_for("u1.a", None);
    let payload = PresetPayload { preset: "echo".to_owned(), lifetime_minutes: 5 };
    let now = 1_000;
    let (eph, created) =
        create_at(&presets(), &claims, &payload, "x1".to_owned(), now).expect("created");
    assert_eq!(created.id, "x1");
    assert_eq!(created.expiration_time, now + 5 * 60);
    assert_eq!(eph.spec.expiration_time, now + 5 * 60);
    assert_eq!(eph.metadata.name, "x1");
    assert_eq!(eph.metadata.created_by, Some("u1.a".to_owned()));
    assert_eq!(eph.metadata.host, None);
    assert!(eph.status.is_none());
    assert_eq!(eph.spec.service, echo_preset());
}

#[test]
fn create_inserts_group_label() {
    let claims = claims_for("u1.a", Some("g1.a"));
    let payload = PresetPayload { preset: "echo".to_owned(), lifetime_minutes: 5 };
    let (eph, _) = create_at(&presets(), &claims, &payload, "x1".to_owned(), 0).expect("created");
    assert_eq!(
        eph.spec.service.pod_labels,
        vec![("ephemerons.qualified.io/group".to_owned(), "g1.a".to_owned())]
    );
}

#[test]
fn create_preset_miss_is_reported_by_name() {
    let claims = claims_for("u1.a", None);
    let payload = PresetPayload { preset: "nope".to_owned(), lifetime_minutes: 1 };
    let err = create_at(&presets(), &claims, &payload, "x1".to_owned(), 0).unwrap_err();
    assert_eq!(err, ApiError::PresetLookup("nope".to_owned()));
    assert_eq!(err.status_code(), 404);
    assert_eq!(err.message(), Some("preset nope not found".to_owned()));
}

#[test]
fn create_zero_lifetime_is_already_expired() {
    let claims = claims_for("u1.a", None);
    let payload = PresetPayload { preset: "echo".to_owned(), lifetime_minutes: 0 };
    let now = 5_000;
    let (eph, created) =
        create_at(&presets(), &claims, &payload, "x1".to_owned(), now).expect("accepted");
    assert_eq!(created.expiration_time, now);
    assert_eq!(eph.spec.expiration_time, now);
}

#[test]
fn create_rejects_unrepresentable_lifetime() {
    let claims = claims_for("u1.a", None);
    let payload = PresetPayload { preset: "echo".to_owned(), lifetime_minutes: u32::MAX };
    let err =
        create_at(&presets(), &claims, &payload, "x1".to_owned(), i64::MAX - 10).unwrap_err();
    assert_eq!(err, ApiError::InvalidLifetime(u32::MAX));
    assert_eq!(err.status_code(), 400);
    assert_eq!(err.message(), Some("lifetime 4294967295 is invalid".to_owned()));
}

#[test]
fn ownership_forbids_other_subjects() {
    let claims = claims_for("u1.a", None);
    let payload = PresetPayload { preset: "echo".to_owned(), lifetime_minutes: 5 };
    let (eph, _) = create_at(&presets(), &claims, &payload, "x".to_owned(), 0).expect("created");

    let intruder = claims_for("u2.a", None);
    assert!(has_access(&eph, "u1.a"));
    assert!(!has_access(&eph, "u2.a"));
    assert_eq!(get(&eph, &intruder), Err(ApiError::Forbidden));
    assert_eq!(patch_at(&eph, &intruder, &PatchPayload { lifetime_minutes: 1 }, 0), Err(ApiError::Forbidden));
    assert_eq!(delete(&eph, &intruder), Err(ApiError::Forbidden));
    assert_eq!(ApiError::Forbidden.status_code(), 403);
    assert_eq!(ApiError::Forbidden.message(), Some("Forbidden".to_owned()));
}

#[test]
fn get_reports_host_expiry_and_tls() {
    let claims = claims_for("u1.a", None);
    let payload = PresetPayload { preset: "echo".to_owned(), lifetime_minutes: 5 };
    let (mut eph, _) = create_at(&presets(), &claims, &payload, "x".to_owned(), 100).expect("ok");
    let info = get(&eph, &claims).expect("owner reads");
    assert_eq!(info.host, None);
    assert_eq!(info.expiration_time, 400);
    assert!(!info.tls);

    eph.metadata.host = Some("x.example.com".to_owned());
    eph.spec.service.tls_secret_name = Some("cert".to_owned());
    let info = get(&eph, &claims).expect("owner reads");
    assert_eq!(info.host, Some("x.example.com".to_owned()));
    assert!(info.tls);
}

#[test]
fn patch_extends_lifetime_from_now() {
    let claims = claims_for("u1.a", None);
    let payload = PresetPayload { preset: "echo".to_owned(), lifetime_minutes: 5 };
    let (eph, _) = create_at(&presets(), &claims, &payload, "x".to_owned(), 100).expect("ok");
    let new_exp = patch_at(&eph, &claims, &PatchPayload { lifetime_minutes: 10 }, 700)
        .expect("owner patches");
    assert_eq!(new_exp, 700 + 10 * 60);
    // The creator annotation is untouched by the patch value: only the
    // expiration instant is carried.
    assert_eq!(eph.metadata.created_by, Some("u1.a".to_owned()));
}

#[test]
fn delete_allows_owner() {
    let claims = claims_for("u1.a", None);
    let payload = PresetPayload { preset: "echo".to_owned(), lifetime_minutes: 5 };
    let (eph, _) = create_at(&presets(), &claims, &payload, "x".to_owned(), 0).expect("ok");
    assert_eq!(delete(&eph, &claims), Ok(()));
}

#[test]
fn upstream_errors_forward_their_status() {
    let api = ApiError::GetResource(UpstreamError::Api { code: 404, message: "not found".to_owned() });
    assert_eq!(api.status_code(), 404);
    assert_eq!(api.message(), Some("not found".to_owned()));

    let odd = ApiError::CreateResource(UpstreamError::Api { code: 42, message: "odd".to_owned() });
    assert_eq!(odd.status_code(), 400);

    let other = ApiError::PatchLifetime(UpstreamError::Other);
    assert_eq!(other.status_code(), 500);
    assert_eq!(other.message(), Some("Internal Server Error".to_owned()));

    let del = ApiError::DeleteResource(UpstreamError::Api { code: 409, message: "conflict".to_owned() });
    assert_eq!(del.status_code(), 409);
    assert_eq!(del.message(), None);
}

#[test]
fn rejections_map_to_status_and_message() {
    assert_eq!(rejection_response(&Rejection::NotFound), (404, "Not Found"));
    assert_eq!(rejection_response(&Rejection::Unauthorized), (401, "Unauthorized"));
    assert_eq!(rejection_response(&Rejection::BodyDeserialize), (400, "Bad Request"));
    assert_eq!(rejection_response(&Rejection::PayloadTooLarge), (413, "Payload Too Large"));
    assert_eq!(rejection_response(&Rejection::MethodNotAllowed), (405, "Method Not Allowed"));
    assert_eq!(rejection_response(&Rejection::Other), (500, "Internal Server Error"));
}
