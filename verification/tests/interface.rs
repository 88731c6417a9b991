use waffle::db::github::Repository;
use waffle::erust::state::{AppState, WaffleState};
use waffle::erust::uiux::auth::{login_with_js, register_with_js, AuthView, AuthWidget};
use waffle::erust::uiux::hcaptcha::CaptchaSlot;
use waffle::erust::uiux::javascript_interop::{
    classify_response, handle_jsrust_response, parse_json, send_action_message, user_from_json,
    Json, ResponseKind, User as BridgeUser,
};
use waffle::erust::uiux::search::SearchWidget;
use waffle::erust::uiux::supabase::{login, register, SupabaseResponse};
use waffle::erust::uiux::user::User;

fn named(full_name: &str) -> Repository {
    Repository { full_name: Some(full_name.to_string()), ..Default::default() }
}

#[test]
fn waffle_state_starts_at_init() {
    let state = WaffleState::new();
    assert_eq!(state.app_state, AppState::Init);
    assert!(state.filtered_repos.is_empty());
    assert_eq!(state.log, "");
    assert!(!state.is_ready());
}

#[test]
fn waffle_state_follows_the_records() {
    let mut state = WaffleState::new();
    state.set_ready(vec![named("a"), named("b")]);
    assert_eq!(state.app_state, AppState::Ready);
    assert!(state.is_ready());
    assert_eq!(state.filtered_repos.len(), 2);
    state.set_syncing();
    assert_eq!(state.app_state, AppState::Syncing);
    assert_eq!(state.filtered_repos.len(), 2);
    state.set_ready(vec![]);
    assert_eq!(state.app_state, AppState::Empty);
    assert!(state.filtered_repos.is_empty());
    state.set_ready(vec![named("c")]);
    state.set_empty();
    assert_eq!(state.app_state, AppState::Empty);
    assert!(state.filtered_repos.is_empty());
    let copy = state.clone();
    assert_eq!(copy.app_state, AppState::Empty);
}

#[test]
fn waffle_state_logs_errors() {
    let mut state = WaffleState::new();
    state.set_ready(vec![named("a")]);
    state.log("started");
    state.set_error("boom".to_string());
    assert_eq!(state.app_state, AppState::Error("boom".to_string()));
    assert_ne!(state.app_state, AppState::Error("other".to_string()));
    assert!(state.filtered_repos.is_empty());
    assert_eq!(state.log, "started\nError: boom\n");
    assert_eq!(state.app_state.clone(), AppState::Error("boom".to_string()));
}

#[test]
fn user_setters_and_logout() {
    let mut user = User::new();
    assert!(!user.is_logged_in());
    user.set_id("1".to_string());
    user.set_email("a@b.c".to_string());
    user.set_username("ab".to_string());
    user.authenticate();
    assert!(user.is_logged_in());
    let copy = user.clone();
    assert_eq!(copy.id.as_deref(), Some("1"));
    assert_eq!(copy.email.as_deref(), Some("a@b.c"));
    assert_eq!(copy.username.as_deref(), Some("ab"));
    assert!(copy.is_authenticated);
    user.logout();
    assert!(user.id.is_none() && user.email.is_none() && user.username.is_none());
    assert!(!user.is_logged_in());
    let blank = User::default();
    assert!(blank.id.is_none() && !blank.is_authenticated);
}

#[test]
fn captcha_slot_holds_one_token() {
    let mut slot = CaptchaSlot::new();
    assert!(!slot.has_token());
    assert_eq!(slot.get_captcha_token(), None);
    slot.pass_captcha_token("one".to_string());
    slot.pass_captcha_token("two".to_string());
    assert!(slot.has_token());
    assert_eq!(slot.get_captcha_token().as_deref(), Some("two"));
    assert_eq!(slot.take_captcha_token().as_deref(), Some("two"));
    assert_eq!(slot.take_captcha_token(), None);
    slot.pass_captcha_token("three".to_string());
    slot.clear_captcha_token();
    assert!(!slot.has_token());
}

#[test]
fn action_messages_carry_their_fields() {
    let m = send_action_message("logout", "", "", "");
    assert_eq!((m.action.as_str(), m.email.as_str()), ("logout", ""));
    let m = register_with_js("a@b.c", "pw", "tok");
    assert_eq!(m.action, "register");
    assert_eq!(m.email, "a@b.c");
    assert_eq!(m.password, "pw");
    assert_eq!(m.captcha_token, "tok");
    let m = login_with_js("a@b.c", "pw", "tok");
    assert_eq!(m.action, "login");
    assert_eq!(m.captcha_token, "tok");
    assert_eq!(register("e", "p", "t").action, "register");
    let m = login("e", "p", "t");
    assert_eq!((m.action.as_str(), m.email.as_str(), m.password.as_str()), ("login", "e", "p"));
    let answer: SupabaseResponse<u8> = SupabaseResponse { success: true, data: Some(1), error: None };
    assert!(answer.success && answer.data == Some(1) && answer.error.is_none());
}

#[test]
fn auth_widget_opens_on_the_right_view() {
    let form = AuthWidget::new(true);
    assert_eq!(form.view, AuthView::Login);
    assert!(form.is_registered);
    let form = AuthWidget::new(false);
    assert_eq!(form.view, AuthView::Register);
    assert!(!form.is_registered);
    assert_eq!(form.email, "");
    assert_eq!(form.password, "");
    assert_eq!(form.confirm_password, "");
    assert!(form.captcha_token.is_none());
    assert!(form.error.is_none());
}

#[test]
fn login_needs_every_field_and_a_token() {
    let mut slot = CaptchaSlot::new();
    let mut form = AuthWidget::new(true);
    assert!(form.submit_login(&mut slot).is_none());
    assert_eq!(form.error.as_deref(), Some("All fields and captcha are required"));
    form.email = "a@b.c".to_string();
    form.password = "pw".to_string();
    form.error = None;
    assert!(form.submit_login(&mut slot).is_none());
    assert_eq!(form.error.as_deref(), Some("All fields and captcha are required"));
    slot.pass_captcha_token("tok".to_string());
    form.password.clear();
    assert!(form.submit_login(&mut slot).is_none());
    assert!(slot.has_token());
    form.password = "pw".to_string();
    form.error = None;
    let m = form.submit_login(&mut slot).unwrap();
    assert_eq!(m.action, "login");
    assert_eq!(m.email, "a@b.c");
    assert_eq!(m.password, "pw");
    assert_eq!(m.captcha_token, "tok");
    assert!(!slot.has_token());
    assert!(form.error.is_none());
}

#[test]
fn register_checks_fields_then_passwords() {
    let mut slot = CaptchaSlot::new();
    slot.pass_captcha_token("tok".to_string());
    let mut form = AuthWidget::new(false);
    form.email = "a@b.c".to_string();
    form.password = "pw".to_string();
    assert!(form.submit_register(&mut slot).is_none());
    assert_eq!(form.error.as_deref(), Some("All fields and captcha are required"));
    form.confirm_password = "other".to_string();
    assert!(form.submit_register(&mut slot).is_none());
    assert_eq!(form.error.as_deref(), Some("Passwords do not match"));
    assert!(slot.has_token());
    assert!(!form.is_processing());
    form.confirm_password = "pw".to_string();
    let m = form.submit_register(&mut slot).unwrap();
    assert_eq!(m.action, "register");
    assert_eq!(m.email, "a@b.c");
    assert_eq!(m.password, "pw");
    assert_eq!(m.captcha_token, "tok");
    assert_eq!(form.error.as_deref(), Some("Processing registration..."));
    assert!(form.is_processing());
    assert!(!slot.has_token());
    assert!(form.submit_register(&mut slot).is_none());
    assert_eq!(form.error.as_deref(), Some("All fields and captcha are required"));
}

#[test]
fn reset_and_view_switches() {
    let mut form = AuthWidget::new(true);
    form.request_reset();
    assert_eq!(form.error.as_deref(), Some("Email is required"));
    form.email = "a@b.c".to_string();
    form.request_reset();
    assert_eq!(form.error.as_deref(), Some("(Stub) Would call Supabase password reset here"));
    form.switch_to(AuthView::Help);
    assert_eq!(form.view, AuthView::Help);
    assert!(form.error.is_none());
    assert_eq!(form.email, "a@b.c");
    form.switch_to(AuthView::Register);
    assert_eq!(form.view, AuthView::Register);
}

#[test]
fn search_widget_marks_loading_and_takes_results() {
    let mut field = SearchWidget::new();
    assert_eq!(field.query, "");
    assert!(field.results.is_empty() && !field.loading);
    field.query = "tokio".to_string();
    let request = field.search("Rust");
    assert!(field.loading);
    assert_eq!(request.language, "Rust");
    assert_eq!(request.query, "tokio");
    field.update_results_from_ctx(&None);
    assert!(field.loading && field.results.is_empty());
    field.update_results_from_ctx(&Some(vec![named("a"), named("b")]));
    assert!(!field.loading);
    assert_eq!(field.results.len(), 2);
    assert_eq!(field.results[1].full_name.as_deref(), Some("b"));
    assert_eq!(field.query, "tokio");
}

#[test]
fn json_is_read_into_members_in_order() {
    assert_eq!(parse_json("null"), Json::Null);
    assert_eq!(parse_json("true"), Json::Bool(true));
    assert_eq!(parse_json("12.5"), Json::Number("12.5".to_string()));
    assert_eq!(parse_json("-3"), Json::Number("-3".to_string()));
    assert_eq!(parse_json("\"a\\nb\""), Json::String("a\nb".to_string()));
    assert_eq!(
        parse_json("[1, \"x\", [false]]"),
        Json::Array(vec![
            Json::Number("1".to_string()),
            Json::String("x".to_string()),
            Json::Array(vec![Json::Bool(false)]),
        ])
    );
    assert_eq!(
        parse_json("{\"a\": {\"b\": null}, \"c\": true}"),
        Json::Object(vec![
            ("a".to_string(), Json::Object(vec![("b".to_string(), Json::Null)])),
            ("c".to_string(), Json::Bool(true)),
        ])
    );
    assert_eq!(parse_json("{\"a\": 1, \"a\": 2}"), Json::Object(vec![("a".to_string(), Json::Number("2".to_string()))]));
}

#[test]
fn text_that_is_not_json_reads_as_null() {
    assert_eq!(parse_json(""), Json::Null);
    assert_eq!(parse_json("{"), Json::Null);
    assert_eq!(parse_json("undefined"), Json::Null);
    assert_eq!(parse_json("{\"a\": 1} trailing"), Json::Null);
}

#[test]
fn json_lookup() {
    let j = parse_json("{\"success\": true, \"n\": 1, \"s\": \"x\"}");
    assert_eq!(j.get("success"), Some(&Json::Bool(true)));
    assert_eq!(j.get("success").unwrap().as_bool(), Some(true));
    assert_eq!(j.get("n").unwrap().as_bool(), None);
    assert_eq!(j.get("s").unwrap().as_str(), Some("x"));
    assert_eq!(j.get("n").unwrap().as_str(), None);
    assert_eq!(j.get("missing"), None);
    assert_eq!(Json::Array(vec![]).get("success"), None);
    assert_eq!(Json::Null.get("x"), None);
    let twice = Json::Object(vec![
        ("k".to_string(), Json::Bool(true)),
        ("k".to_string(), Json::Bool(false)),
    ]);
    assert_eq!(twice.get("k"), Some(&Json::Bool(true)));
}

#[test]
fn user_needs_id_and_email_as_texts() {
    let user = user_from_json(&parse_json("{\"id\": \"u1\", \"email\": \"a@b.c\", \"x\": 1}"));
    assert_eq!(user, Some(BridgeUser { id: "u1".to_string(), email: "a@b.c".to_string() }));
    assert_eq!(user_from_json(&parse_json("{\"id\": \"u1\"}")), None);
    assert_eq!(user_from_json(&parse_json("{\"id\": 1, \"email\": \"a@b.c\"}")), None);
    assert_eq!(user_from_json(&parse_json("{\"id\": \"u1\", \"email\": null}")), None);
    assert_eq!(user_from_json(&Json::Null), None);
}

#[test]
fn user_is_read_from_an_array_of_two_texts() {
    let user = user_from_json(&parse_json("[\"u1\", \"a@b.c\"]"));
    assert_eq!(user, Some(BridgeUser { id: "u1".to_string(), email: "a@b.c".to_string() }));
    assert_eq!(user_from_json(&parse_json("[\"u1\"]")), None);
    assert_eq!(user_from_json(&parse_json("[\"u1\", \"a@b.c\", \"x\"]")), None);
    assert_eq!(user_from_json(&parse_json("[\"u1\", 2]")), None);
    assert_eq!(user_from_json(&parse_json("[null, \"a@b.c\"]")), None);
    assert_eq!(user_from_json(&parse_json("[]")), None);
    assert_eq!(user_from_json(&parse_json("\"u1\"")), None);
    assert_eq!(
        handle_jsrust_response(
            "{\"success\": true, \"data\": {\"session\": {\"user\": [\"u1\", \"a@b.c\"]}}}"
        ),
        ResponseKind::LoginSucceeded(BridgeUser { id: "u1".to_string(), email: "a@b.c".to_string() })
    );
}

#[test]
fn successful_login_is_recognised() {
    let text = "{\"success\": true, \"data\": {\"session\": {\"user\": {\"id\": \"u1\", \"email\": \"a@b.c\", \"role\": \"authenticated\"}}}}";
    assert_eq!(
        handle_jsrust_response(text),
        ResponseKind::LoginSucceeded(BridgeUser { id: "u1".to_string(), email: "a@b.c".to_string() })
    );
    assert_eq!(classify_response(&parse_json(text)), handle_jsrust_response(text));
}

#[test]
fn failed_login_is_recognised() {
    assert_eq!(
        handle_jsrust_response("{\"success\": false, \"error\": \"Invalid login credentials\"}"),
        ResponseKind::LoginFailed(Some("Invalid login credentials".to_string()))
    );
    assert_eq!(
        handle_jsrust_response("{\"success\": false, \"error\": {\"code\": 400}}"),
        ResponseKind::LoginFailed(None)
    );
    assert_eq!(
        handle_jsrust_response("{\"success\": false, \"error\": null}"),
        ResponseKind::LoginFailed(None)
    );
}

#[test]
fn other_answers_are_unhandled() {
    for text in [
        "not json",
        "null",
        "{}",
        "{\"success\": \"yes\"}",
        "{\"success\": true}",
        "{\"success\": true, \"data\": {}}",
        "{\"success\": true, \"data\": {\"session\": {}}}",
        "{\"success\": true, \"data\": {\"session\": {\"user\": {\"id\": \"u1\"}}}}",
        "{\"success\": true, \"data\": {\"session\": null}, \"error\": \"x\"}",
        "{\"success\": false}",
        "{\"success\": false, \"data\": {\"session\": {\"user\": {\"id\": \"u\", \"email\": \"e\"}}}}",
        "{\"error\": \"x\"}",
        "[true]",
    ] {
        assert_eq!(handle_jsrust_response(text), ResponseKind::Unhandled, "{}", text);
    }
}
