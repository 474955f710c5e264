use alerts::alert::{AlertCadence, AlertMetric};
use alerts::form::{parse_edit_form, parse_new_alert_form, EditAction, FormError};
use alerts::id::Id;
use alerts::json::alert_json;
use alerts::link::LinkProps;
use alerts::monitor::{
    check_for_duplicate_monitor, clone_methods, create_monitor, make_default_title, methods_eq,
    update_monitor, AlertHeuristics, AlertMethod, Monitor, MonitorError, MonitorThreshold,
};
use alerts::routes::{
    alerts_location, edit_action, match_edit_path, match_new_alert_path, new_alert_action,
    authorize_request, edit_route, new_alert_route, parse_path_ids, redirect_to_alerts,
    respond_after_create, respond_after_update, AuthChecks, RouteError, RouteResponse,
};
use alerts::variance::Variance;

fn id_of(s: &str) -> Id {
    Id::parse(s.as_bytes()).unwrap()
}

const REPO: &str = "00112233445566778899aabbccddeeff";
const MODEL: &str = "ffeeddccbbaa99887766554433221100";
const MONITOR: &str = "0123456789abcdef0123456789abcdef";

fn threshold(metric: AlertMetric, mantissa: u64, scale: u32) -> MonitorThreshold {
    MonitorThreshold { metric, variance: Variance { mantissa, scale } }
}

fn monitor(title: &str, cadence: AlertCadence, t: MonitorThreshold) -> Monitor {
    Monitor {
        id: id_of(MONITOR),
        model_id: id_of(MODEL),
        cadence,
        methods: vec![AlertMethod::Email(String::from("team@example.com"))],
        threshold: t,
        title: String::from(title),
    }
}

#[test]
fn id_parse_and_render_round_trip() {
    let id = id_of(MONITOR);
    assert_eq!(id.to_hex(), MONITOR.as_bytes().to_vec());
    assert_eq!(id.bytes[0], 0x01);
    assert_eq!(id.bytes[15], 0xef);
}

#[test]
fn id_parse_rejects_bad_text() {
    assert!(Id::parse(b"0123").is_none());
    assert!(Id::parse(b"0123456789ABCDEF0123456789ABCDEF").is_none());
    assert!(Id::parse(b"0123456789abcdef0123456789abcdeg").is_none());
    assert!(Id::parse(b"").is_none());
}

#[test]
fn id_equality_compares_bytes() {
    assert!(id_of(MONITOR) == id_of(MONITOR));
    assert!(!(id_of(MONITOR) == id_of(MODEL)));
    let copy = id_of(MONITOR).duplicate();
    assert!(copy == id_of(MONITOR));
}

#[test]
fn cadence_tokens() {
    assert!(AlertCadence::parse(b"hourly") == Some(AlertCadence::Hourly));
    assert!(AlertCadence::parse(b"daily") == Some(AlertCadence::Daily));
    assert!(AlertCadence::parse(b"weekly") == Some(AlertCadence::Weekly));
    assert!(AlertCadence::parse(b"monthly") == Some(AlertCadence::Monthly));
    assert!(AlertCadence::parse(b"Hourly").is_none());
    assert!(AlertCadence::parse(b"").is_none());
    assert_eq!(AlertCadence::Weekly.token(), b"weekly".to_vec());
    assert_eq!(AlertCadence::Daily.title_word(), "Daily");
}

#[test]
fn metric_tokens() {
    assert!(AlertMetric::parse(b"accuracy") == Some(AlertMetric::Accuracy));
    assert!(AlertMetric::parse(b"mean_squared_error") == Some(AlertMetric::MeanSquaredError));
    assert!(
        AlertMetric::parse(b"root_mean_squared_error") == Some(AlertMetric::RootMeanSquaredError)
    );
    assert!(AlertMetric::parse(b"mse").is_none());
    assert_eq!(AlertMetric::MeanSquaredError.title_word(), "Mean Squared Error");
}

#[test]
fn variance_parses_and_normalizes() {
    assert!(Variance::parse(b"0.25") == Some(Variance { mantissa: 25, scale: 2 }));
    assert!(Variance::parse(b"0.10") == Some(Variance { mantissa: 1, scale: 1 }));
    assert!(Variance::parse(b"5") == Some(Variance { mantissa: 5, scale: 0 }));
    assert!(Variance::parse(b"007") == Some(Variance { mantissa: 7, scale: 0 }));
    assert!(Variance::parse(b"0.0") == Some(Variance { mantissa: 0, scale: 0 }));
    assert!(Variance::parse(b"123.45") == Some(Variance { mantissa: 12345, scale: 2 }));
}

#[test]
fn variance_rejects_bad_text() {
    assert!(Variance::parse(b"").is_none());
    assert!(Variance::parse(b"5.").is_none());
    assert!(Variance::parse(b".5").is_none());
    assert!(Variance::parse(b"1.2.3").is_none());
    assert!(Variance::parse(b"-1").is_none());
    assert!(Variance::parse(b"1e3").is_none());
    assert!(Variance::parse(b"1234567890123456789").is_none());
    assert!(Variance::parse(b"12345678901234567.8").is_some());
}

#[test]
fn variance_renders_decimals() {
    assert_eq!(Variance { mantissa: 25, scale: 2 }.render(), b"0.25".to_vec());
    assert_eq!(Variance { mantissa: 1, scale: 1 }.render(), b"0.1".to_vec());
    assert_eq!(Variance { mantissa: 5, scale: 0 }.render(), b"5".to_vec());
    assert_eq!(Variance { mantissa: 1, scale: 3 }.render(), b"0.001".to_vec());
    assert_eq!(Variance { mantissa: 12345, scale: 2 }.render(), b"123.45".to_vec());
    assert_eq!(Variance { mantissa: 0, scale: 0 }.render(), b"0".to_vec());
}

#[test]
fn new_alert_form_parses() {
    let alert = parse_new_alert_form(b"cadence=hourly&metric=accuracy&threshold=0.1").unwrap();
    assert!(alert.cadence == AlertCadence::Hourly);
    assert!(alert.threshold.metric == AlertMetric::Accuracy);
    assert!(alert.threshold.variance == Variance { mantissa: 1, scale: 1 });
}

#[test]
fn new_alert_form_percent_decoding() {
    let alert = parse_new_alert_form(b"cadence=hourly&metric=accuracy&threshold=0%2E25").unwrap();
    assert!(alert.threshold.variance == Variance { mantissa: 25, scale: 2 });
    let spaced = parse_new_alert_form(b"cadence=hourly&metric=accuracy&threshold=0.1+");
    assert!(spaced == Err(FormError::InvalidThreshold));
}

#[test]
fn new_alert_form_field_order_and_duplicates() {
    let alert =
        parse_new_alert_form(b"threshold=2&cadence=daily&metric=mean_squared_error").unwrap();
    assert!(alert.cadence == AlertCadence::Daily);
    let first =
        parse_new_alert_form(b"cadence=hourly&cadence=daily&metric=accuracy&threshold=1").unwrap();
    assert!(first.cadence == AlertCadence::Hourly);
}

#[test]
fn new_alert_form_errors() {
    assert!(parse_new_alert_form(b"metric=accuracy&threshold=0.1") == Err(FormError::Malformed));
    assert!(
        parse_new_alert_form(b"cadence=hourly&metric=accuracy&threshold=0%ZZ1")
            == Err(FormError::Malformed)
    );
    assert!(
        parse_new_alert_form(b"cadence=yearly&metric=accuracy&threshold=0.1")
            == Err(FormError::InvalidCadence)
    );
    assert!(
        parse_new_alert_form(b"cadence=hourly&metric=precision&threshold=0.1")
            == Err(FormError::InvalidMetric)
    );
    assert!(
        parse_new_alert_form(b"cadence=hourly&metric=accuracy&threshold=x")
            == Err(FormError::InvalidThreshold)
    );
}

#[test]
fn edit_form_delete() {
    assert!(parse_edit_form(b"action=delete") == Ok(EditAction::Delete));
    assert!(parse_edit_form(b"action=delete&cadence=hourly") == Ok(EditAction::Delete));
}

#[test]
fn edit_form_update() {
    let action =
        parse_edit_form(b"action=update_alert&cadence=weekly&metric=accuracy&threshold=0.5")
            .unwrap();
    match action {
        EditAction::UpdateAlert(alert) => {
            assert!(alert.cadence == AlertCadence::Weekly);
            assert!(alert.threshold.variance == Variance { mantissa: 5, scale: 1 });
        }
        EditAction::Delete => panic!("expected an update"),
    }
}

#[test]
fn edit_form_errors() {
    assert!(parse_edit_form(b"cadence=hourly") == Err(FormError::Malformed));
    assert!(parse_edit_form(b"action=rename") == Err(FormError::Malformed));
    assert!(
        parse_edit_form(b"action=update_alert&metric=accuracy&threshold=1")
            == Err(FormError::Malformed)
    );
    assert!(
        parse_edit_form(b"action=update_alert&cadence=hourly&metric=accuracy&threshold=oops")
            == Err(FormError::InvalidThreshold)
    );
}

#[test]
fn create_monitor_keeps_given_title() {
    let t = threshold(AlertMetric::Accuracy, 1, 1);
    let methods = vec![AlertMethod::Email(String::from("team@example.com"))];
    let m = create_monitor(
        &Vec::new(),
        id_of(MONITOR),
        id_of(MODEL),
        AlertCadence::Hourly,
        &methods,
        t,
        "My alert",
    )
    .unwrap();
    assert_eq!(m.title, "My alert");
    assert!(m.cadence == AlertCadence::Hourly);
    assert!(m.threshold == t);
    assert!(m.id == id_of(MONITOR));
    assert!(m.model_id == id_of(MODEL));
    assert!(methods_eq(&m.methods, &methods));
}

#[test]
fn create_monitor_defaults_blank_title() {
    let t = threshold(AlertMetric::RootMeanSquaredError, 25, 2);
    let m = create_monitor(
        &Vec::new(),
        id_of(MONITOR),
        id_of(MODEL),
        AlertCadence::Monthly,
        &Vec::new(),
        t,
        "",
    )
    .unwrap();
    assert_eq!(m.title, "Monthly Root Mean Squared Error");
    assert_eq!(make_default_title(AlertCadence::Hourly, AlertMetric::Accuracy), "Hourly Accuracy");
}

#[test]
fn create_monitor_rejects_duplicates() {
    let t = threshold(AlertMetric::Accuracy, 1, 1);
    let existing = vec![monitor("Hourly Accuracy", AlertCadence::Hourly, t)];
    let methods = vec![AlertMethod::Email(String::from("team@example.com"))];
    let r = create_monitor(
        &existing,
        id_of(REPO),
        id_of(MODEL),
        AlertCadence::Hourly,
        &methods,
        t,
        "",
    );
    assert!(matches!(r, Err(MonitorError::IdenticalAlertExists)));
    assert_eq!(MonitorError::IdenticalAlertExists.message(), "Identical alert already exists");
    let other = create_monitor(
        &existing,
        id_of(REPO),
        id_of(MODEL),
        AlertCadence::Daily,
        &methods,
        t,
        "",
    );
    assert!(other.is_ok());
}

#[test]
fn duplicate_check_ignores_identifier() {
    let t = threshold(AlertMetric::Accuracy, 1, 1);
    let stored = monitor("Hourly Accuracy", AlertCadence::Hourly, t);
    let mut candidate = monitor("Hourly Accuracy", AlertCadence::Hourly, t);
    candidate.id = id_of(REPO);
    let existing = vec![stored];
    assert!(check_for_duplicate_monitor(&existing, &candidate));
    candidate.title = String::from("Another");
    assert!(!check_for_duplicate_monitor(&existing, &candidate));
}

#[test]
fn update_monitor_overlays_fields() {
    let t = threshold(AlertMetric::Accuracy, 1, 1);
    let stored = monitor("Hourly Accuracy", AlertCadence::Hourly, t);
    let existing = vec![monitor("Hourly Accuracy", AlertCadence::Hourly, t)];
    let new_threshold = threshold(AlertMetric::Accuracy, 2, 1);
    let methods = vec![AlertMethod::Webhook(String::from("https://example.com/hook"))];
    let m = update_monitor(
        &stored,
        &existing,
        AlertCadence::Daily,
        &methods,
        new_threshold,
        "Tighter",
    )
    .unwrap();
    assert!(m.id == stored.id);
    assert!(m.model_id == stored.model_id);
    assert!(m.cadence == AlertCadence::Daily);
    assert!(m.threshold == new_threshold);
    assert_eq!(m.title, "Tighter");
    assert!(methods_eq(&m.methods, &methods));
}

#[test]
fn update_monitor_defaults_title_from_stored_record() {
    let t = threshold(AlertMetric::MeanSquaredError, 1, 1);
    let stored = monitor("Old title", AlertCadence::Weekly, t);
    let m = update_monitor(
        &stored,
        &Vec::new(),
        AlertCadence::Daily,
        &Vec::new(),
        threshold(AlertMetric::Accuracy, 3, 0),
        "",
    )
    .unwrap();
    assert_eq!(m.title, "Weekly Mean Squared Error");
}

#[test]
fn unchanged_update_is_a_duplicate() {
    let t = threshold(AlertMetric::Accuracy, 1, 1);
    let stored = monitor("Hourly Accuracy", AlertCadence::Hourly, t);
    let existing = vec![monitor("Hourly Accuracy", AlertCadence::Hourly, t)];
    let methods = vec![AlertMethod::Email(String::from("team@example.com"))];
    let r = update_monitor(&stored, &existing, AlertCadence::Hourly, &methods, t, "Hourly Accuracy");
    assert!(matches!(r, Err(MonitorError::IdenticalAlertExists)));
}

#[test]
fn methods_compare_by_contents() {
    let a = vec![AlertMethod::Email(String::from("a@example.com"))];
    let b = vec![AlertMethod::Email(String::from("a@example.com"))];
    let c = vec![AlertMethod::Webhook(String::from("a@example.com"))];
    assert!(methods_eq(&a, &b));
    assert!(!methods_eq(&a, &c));
    assert!(!methods_eq(&a, &Vec::new()));
    let copied = clone_methods(&a);
    assert!(methods_eq(&copied, &a));
}

fn segs(parts: &[&str]) -> Vec<Vec<u8>> {
    parts.iter().map(|p| p.as_bytes().to_vec()).collect()
}

#[test]
fn new_alert_path_matches() {
    let r = match_new_alert_path(&segs(&[
        "repos",
        REPO,
        "models",
        MODEL,
        "production_alerts",
        "new",
    ]))
    .unwrap();
    assert_eq!(r.0, REPO.as_bytes().to_vec());
    assert_eq!(r.1, MODEL.as_bytes().to_vec());
    assert!(match_new_alert_path(&segs(&["repos", REPO, "models", MODEL, "production_alerts"]))
        .is_none());
    assert!(match_new_alert_path(&segs(&[
        "repos",
        REPO,
        "models",
        MODEL,
        "production_alerts",
        "edit",
    ]))
    .is_none());
}

#[test]
fn edit_path_matches() {
    let r = match_edit_path(&segs(&[
        "repos",
        REPO,
        "models",
        MODEL,
        "production_alerts",
        MONITOR,
        "edit",
    ]))
    .unwrap();
    assert_eq!(r.2, MONITOR.as_bytes().to_vec());
    assert!(match_edit_path(&segs(&[
        "repos",
        REPO,
        "models",
        MODEL,
        "production_alerts",
        MONITOR,
        "new",
    ]))
    .is_none());
}

#[test]
fn path_ids_decide_the_failure_status() {
    match parse_path_ids(b"not-an-id", MODEL.as_bytes()) {
        Err(resp) => assert_eq!(resp.status_code(), 404),
        Ok(_) => panic!("expected a failure"),
    }
    match parse_path_ids(REPO.as_bytes(), b"not-an-id") {
        Err(resp) => assert_eq!(resp.status_code(), 400),
        Ok(_) => panic!("expected a failure"),
    }
    let ids = parse_path_ids(REPO.as_bytes(), MODEL.as_bytes()).unwrap();
    assert!(ids.0 == id_of(REPO));
    assert!(ids.1 == id_of(MODEL));
}

#[test]
fn location_of_the_listing_page() {
    let loc = alerts_location(b"r1", b"m1");
    assert_eq!(loc, b"/repos/r1/models/m1/production_alerts/".to_vec());
}

#[test]
fn successful_actions_redirect_with_303() {
    let r = redirect_to_alerts(REPO.as_bytes(), MODEL.as_bytes());
    assert_eq!(r.status_code(), 303);
    match r {
        RouteResponse::SeeOther(loc) => {
            let expected =
                format!("/repos/{}/models/{}/production_alerts/", REPO, MODEL);
            assert_eq!(loc, expected.into_bytes());
        }
        _ => panic!("expected a redirect"),
    }
}

#[test]
fn failed_create_answers_400_with_a_message() {
    let r = respond_after_create(false, b"r", b"m");
    assert_eq!(r.status_code(), 400);
    match r {
        RouteResponse::ErrorPage(msg) => {
            assert_eq!(msg, "There was an error creating your alert.")
        }
        _ => panic!("expected the error page"),
    }
    let ok = respond_after_create(true, b"r", b"m");
    assert_eq!(ok.status_code(), 303);
}

#[test]
fn failed_update_answers_400_with_a_message() {
    let r = respond_after_update(false, b"r", b"m");
    assert_eq!(r.status_code(), 400);
    match r {
        RouteResponse::ErrorPage(msg) => {
            assert_eq!(msg, "There was an error editing your alert.")
        }
        _ => panic!("expected the error page"),
    }
}

#[test]
fn status_codes_of_the_auth_responses() {
    assert_eq!(RouteResponse::ServiceUnavailable.status_code(), 503);
    assert_eq!(RouteResponse::RedirectToLogin.status_code(), 303);
    assert_eq!(RouteResponse::NotFound.status_code(), 404);
    assert_eq!(RouteResponse::BadRequest.status_code(), 400);
}

#[test]
fn handler_actions_answer_400_for_bad_bodies() {
    match new_alert_action(b"cadence=hourly") {
        Err(resp) => {
            assert_eq!(resp.status_code(), 400);
            assert!(matches!(resp, RouteResponse::BadRequest));
        }
        Ok(_) => panic!("expected a 400 response"),
    }
    match new_alert_action(b"cadence=never&metric=accuracy&threshold=1") {
        Err(RouteResponse::ErrorPage(msg)) => assert_eq!(msg, "The cadence is not valid."),
        _ => panic!("expected the error page"),
    }
    match new_alert_action(b"cadence=hourly&metric=f2&threshold=1") {
        Err(RouteResponse::ErrorPage(msg)) => assert_eq!(msg, "The metric is not valid."),
        _ => panic!("expected the error page"),
    }
    match edit_action(b"action=update_alert&cadence=hourly&metric=accuracy&threshold=z") {
        Err(resp) => {
            assert_eq!(resp.status_code(), 400);
            match resp {
                RouteResponse::ErrorPage(msg) => {
                    assert_eq!(msg, "The threshold is not a valid number.")
                }
                _ => panic!("expected the error page"),
            }
        }
        Ok(_) => panic!("expected the error page"),
    }
    match edit_action(b"action=delete") {
        Ok(a) => assert!(a == EditAction::Delete),
        Err(_) => panic!("expected the delete action"),
    }
}

#[test]
fn a_path_off_the_route_fails_the_request() {
    let good = segs(&["repos", REPO, "models", MODEL, "production_alerts", "new"]);
    assert!(new_alert_route(&good).is_ok());
    let bad = segs(&["repos", REPO, "models", MODEL, "settings"]);
    assert!(new_alert_route(&bad) == Err(RouteError::UnexpectedPath));
    assert!(edit_route(&bad) == Err(RouteError::UnexpectedPath));
    assert_eq!(RouteError::UnexpectedPath.message(), "unexpected path");
    let edit = segs(&["repos", REPO, "models", MODEL, "production_alerts", MONITOR, "edit"]);
    assert!(edit_route(&edit).is_ok());
}

#[test]
fn the_authorization_chain_decides_each_failure() {
    let all = AuthChecks {
        store_available: true,
        signed_in: true,
        may_see_repo: true,
        may_see_model: true,
    };
    let ids = authorize_request(all, REPO.as_bytes(), MODEL.as_bytes()).unwrap();
    assert!(ids.0 == id_of(REPO));
    assert!(ids.1 == id_of(MODEL));
    let cases: [(AuthChecks, &[u8], &[u8], u16); 6] = [
        (AuthChecks { store_available: false, ..all }, REPO.as_bytes(), MODEL.as_bytes(), 503),
        (AuthChecks { signed_in: false, ..all }, REPO.as_bytes(), MODEL.as_bytes(), 303),
        (all, b"bogus", MODEL.as_bytes(), 404),
        (AuthChecks { may_see_repo: false, ..all }, REPO.as_bytes(), MODEL.as_bytes(), 404),
        (all, REPO.as_bytes(), b"bogus", 400),
        (AuthChecks { may_see_model: false, ..all }, REPO.as_bytes(), MODEL.as_bytes(), 404),
    ];
    for (checks, repo, model, status) in cases {
        match authorize_request(checks, repo, model) {
            Err(resp) => assert_eq!(resp.status_code(), status),
            Ok(_) => panic!("expected a failing check"),
        }
    }
    // A check later in the chain does not mask one before it.
    match authorize_request(
        AuthChecks { signed_in: false, may_see_model: false, ..all },
        REPO.as_bytes(),
        MODEL.as_bytes(),
    ) {
        Err(resp) => assert_eq!(resp.status_code(), 303),
        Ok(_) => panic!("expected a failing check"),
    }
}

#[test]
fn posting_a_duplicate_returns_400_with_an_error() {
    let alert = parse_new_alert_form(b"cadence=hourly&metric=accuracy&threshold=0.1").unwrap();
    let existing = vec![monitor("Hourly Accuracy", AlertCadence::Hourly, alert.threshold)];
    let methods = vec![AlertMethod::Email(String::from("team@example.com"))];
    let created = create_monitor(
        &existing,
        id_of(MONITOR),
        id_of(MODEL),
        alert.cadence,
        &methods,
        alert.threshold,
        "",
    );
    assert!(created.is_err());
    let resp = respond_after_create(created.is_ok(), REPO.as_bytes(), MODEL.as_bytes());
    assert_eq!(resp.status_code(), 400);
}

#[test]
fn posting_delete_redirects_with_303() {
    let action = edit_action(b"action=delete").unwrap();
    assert!(action == EditAction::Delete);
    let resp = redirect_to_alerts(REPO.as_bytes(), MODEL.as_bytes());
    assert_eq!(resp.status_code(), 303);
}

#[test]
fn alert_json_text() {
    let alert = AlertHeuristics {
        cadence: AlertCadence::Hourly,
        threshold: threshold(AlertMetric::Accuracy, 25, 2),
    };
    assert_eq!(
        alert_json(&alert),
        b"{\"cadence\":\"hourly\",\"threshold\":{\"metric\":\"accuracy\",\"variance\":0.25}}"
            .to_vec()
    );
    let whole = AlertHeuristics {
        cadence: AlertCadence::Monthly,
        threshold: threshold(AlertMetric::MeanSquaredError, 3, 0),
    };
    assert_eq!(
        alert_json(&whole),
        b"{\"cadence\":\"monthly\",\"threshold\":{\"metric\":\"mean_squared_error\",\"variance\":3}}"
            .to_vec()
    );
}

#[test]
fn link_class_prefixes_the_base_class() {
    let plain = LinkProps {
        href: String::from("/"),
        class: None,
        title: None,
        target: None,
    };
    assert_eq!(plain.class_attribute(), "link");
    let styled = LinkProps {
        href: String::from("/"),
        class: Some(String::from("primary")),
        title: Some(String::from("home")),
        target: Some(String::from("_blank")),
    };
    assert_eq!(styled.class_attribute(), "link primary");
}

#[test]
fn variance_render_then_parse_round_trips() {
    for v in [
        Variance { mantissa: 25, scale: 2 },
        Variance { mantissa: 1, scale: 1 },
        Variance { mantissa: 5, scale: 0 },
        Variance { mantissa: 1, scale: 17 },
        Variance { mantissa: 999999999999999999, scale: 4 },
    ] {
        let text = v.render();
        assert!(Variance::parse(&text) == Some(v));
    }
}

#[test]
fn empty_and_odd_bodies_are_malformed() {
    assert!(parse_new_alert_form(b"") == Err(FormError::Malformed));
    assert!(parse_new_alert_form(b"&&&") == Err(FormError::Malformed));
    assert!(parse_edit_form(b"") == Err(FormError::Malformed));
    assert!(parse_new_alert_form(b"cadence&metric&threshold") == Err(FormError::InvalidCadence));
}

#[test]
fn keys_are_percent_decoded_too() {
    let alert = parse_new_alert_form(b"%63adence=hourly&metric=accuracy&threshold=1").unwrap();
    assert!(alert.cadence == AlertCadence::Hourly);
}
