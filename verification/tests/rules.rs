use phthonus::error::{AppError, ErrorCode};
use phthonus::middlewares::{add_version, logging_route};
use phthonus::routes::json::json;
use phthonus::routes::user::{
    register, registry, user_routes, RegisterData, RegisterPayload, UserResigtry, UserResigtryRes,
};
use phthonus::routes::{
    fallback, hello, routes, Handler, Method, Middleware, RouteResponse, Router, Version,
    VersionRejection,
};
use phthonus::server::{app, resolve_port};
use phthonus::tower_compat::message::ResponseHead;
use phthonus::utils::jwt::Claims;
use phthonus::utils::validator::{is_email, Validate, ValidatedForm, ValidatedJson};

#[test]
fn error_codes_have_their_numbers() {
    assert_eq!(ErrorCode::Normal.code(), 200);
    assert_eq!(ErrorCode::InternalError.code(), 1000);
    assert_eq!(ErrorCode::AuthorizeFailed.code(), 1002);
    assert_eq!(ErrorCode::UserConflict.code(), 1003);
    assert_eq!(ErrorCode::ParameterIncorrect.code(), 1004);
}

#[test]
fn error_codes_are_found_again_from_their_numbers() {
    for code in [
        ErrorCode::Normal,
        ErrorCode::InternalError,
        ErrorCode::AuthorizeFailed,
        ErrorCode::UserConflict,
        ErrorCode::ParameterIncorrect,
    ] {
        assert_eq!(ErrorCode::from_code(code.code()), Some(code));
    }
    assert_eq!(ErrorCode::from_code(1001), None);
    assert_eq!(ErrorCode::from_code(0), None);
    assert_eq!(ErrorCode::from_code(u16::MAX), None);
}

#[test]
fn error_codes_have_their_texts() {
    assert_eq!(ErrorCode::Normal.message(), "");
    assert_eq!(ErrorCode::InternalError.message(), "服务器内部错误");
    assert_eq!(ErrorCode::AuthorizeFailed.message(), "用户名或密码错误");
    assert_eq!(ErrorCode::UserConflict.message(), "该用户已经存在");
    assert_eq!(ErrorCode::ParameterIncorrect.message(), "请求参数错误");
}

#[test]
fn internal_errors_are_not_told() {
    for error in [AppError::Any("disk full".to_string()), AppError::Jwt("bad key".to_string())] {
        let res = error.into_response();
        assert_eq!(res.status, 500);
        assert_eq!(res.code, ErrorCode::InternalError);
        assert_eq!(res.message, "服务器内部错误");
        assert_eq!(res.error, "internal server error");
    }
}

#[test]
fn rejections_are_told_as_they_are() {
    let res = AppError::AxumFormRejection("missing field `a`".to_string()).into_response();
    assert_eq!((res.status, res.code), (400, ErrorCode::ParameterIncorrect));
    assert_eq!(res.error, "missing field `a`");
    let res = AppError::AxumJsonRejection("expected `,`\nat line 2".to_string()).into_response();
    assert_eq!((res.status, res.code), (400, ErrorCode::ParameterIncorrect));
    assert_eq!(res.error, "expected `,`\nat line 2");
    assert_eq!(res.message, "请求参数错误");
}

#[test]
fn validation_errors_are_listed_on_one_line() {
    let res = AppError::ValidationError("username: a\npassword: b\n".to_string()).into_response();
    assert_eq!((res.status, res.code), (400, ErrorCode::ParameterIncorrect));
    assert_eq!(res.error, "Input validation error: [username: a, password: b, ]");
    let res = AppError::ValidationError(String::new()).into_response();
    assert_eq!(res.error, "Input validation error: []");
}

#[test]
fn route_errors_have_their_statuses() {
    let res = AppError::InvalidToken("expired".to_string()).into_response();
    assert_eq!((res.status, res.code), (400, ErrorCode::AuthorizeFailed));
    assert_eq!(res.error, "Invalid token");
    let res = AppError::AuthorizeFailed("wrong password".to_string()).into_response();
    assert_eq!((res.status, res.code), (401, ErrorCode::AuthorizeFailed));
    assert_eq!(res.error, "wrong password");
    assert_eq!(res.message, "用户名或密码错误");
    let res = AppError::UserConflict("xfy exists".to_string()).into_response();
    assert_eq!((res.status, res.code), (409, ErrorCode::UserConflict));
    assert_eq!(res.error, "xfy exists");
    assert_eq!(res.message, "该用户已经存在");
}

fn pattern() -> regex::Regex {
    regex::Regex::new(r"^[a-zA-Z0-9_.+-]+@[a-zA-Z0-9-]+\.[a-zA-Z0-9-.]+$")
        .expect("the pattern is valid")
}

fn matches_pattern(text: &str) -> bool {
    pattern().is_match(text)
}

#[test]
fn addresses_are_told_from_other_texts() {
    for good in ["a@b.c", "xfy@xfy.plus", "a.b+c_d-e@ex-ample.co.uk", "A@B.C", "1@2.3", "a@b..", "a@b.-"] {
        assert!(is_email(good), "{good}");
        assert!(matches_pattern(good), "{good}");
    }
    for bad in [
        "", "@", "a@", "@b.c", "a@b", "a@b.", "a@.c", "a@@b.c", "a b@c.d", "a@b c.d", "a@b.c d",
        "a@b_c.d", "a@b.c_d", "é@b.c", "a@é.c", "a@b.é", "a@b.c\n", "\na@b.c", "a@b.c@d.e", "ab.c",
        "a@b+c.d",
    ] {
        assert!(!is_email(bad), "{bad}");
        assert!(!matches_pattern(bad), "{bad}");
    }
}

#[test]
fn addresses_agree_with_the_pattern_on_short_texts() {
    let pattern = pattern();
    let alphabet = ['a', '7', '@', '.', '-', '_', 'é'];
    let mut texts: Vec<String> = vec![String::new()];
    for _ in 0..5 {
        let mut longer = Vec::new();
        for text in &texts {
            for c in alphabet {
                let mut next = text.clone();
                next.push(c);
                longer.push(next);
            }
        }
        for text in &longer {
            assert_eq!(is_email(text), pattern.is_match(text), "{text:?}");
        }
        texts = longer;
    }
}

fn payload(username: &str, password: &str) -> RegisterPayload {
    RegisterPayload {
        username: username.to_string(),
        email: "not checked".to_string(),
        password: password.to_string(),
    }
}

#[test]
fn register_payload_rules() {
    assert!(payload("xfy", "secret").validate().is_ok());
    let errors = payload("", "secret").validate().expect_err("the name is empty");
    assert_eq!(errors.to_text(), "username: cannot be empyt");
    let errors = payload("xfy", "").validate().expect_err("the password is empty");
    assert_eq!(errors.to_text(), "password: cannot be empyt");
    let errors = payload("", "").validate().expect_err("both are empty");
    assert_eq!(errors.errors.len(), 2);
    assert_eq!(errors.to_text(), "username: cannot be empyt\npassword: cannot be empyt");
}

fn user(username: &str, email: &str, password: &str) -> UserResigtry {
    UserResigtry {
        username: username.to_string(),
        email: email.to_string(),
        password: password.to_string(),
    }
}

#[test]
fn registry_rules() {
    assert!(user("xfy", "xfy@xfy.plus", "123456").validate().is_ok());
    assert!(user("x", "a@b.c", &"p".repeat(100)).validate().is_ok());
    assert!(user("x", "a@b.c", &"密".repeat(100)).validate().is_ok());
    let errors = user("x", "a@b.c", &"p".repeat(101)).validate().expect_err("too long");
    assert_eq!(errors.to_text(), "password: Can not be empty");
    let errors = user("x", "a@b.c", "12345").validate().expect_err("too short");
    assert_eq!(errors.to_text(), "password: Can not be empty");
    let errors = user("", "nobody", "").validate().expect_err("all three");
    assert_eq!(
        errors.to_text(),
        "username: Can not be empty\nemail: 邮箱格式不正确\npassword: Can not be empty"
    );
}

#[test]
fn extractors_accept_what_keeps_its_rules() {
    let ValidatedJson(value) =
        ValidatedJson::from_request(Ok(payload("xfy", "secret"))).expect("the payload is valid");
    assert_eq!(value.username, "xfy");
    let ValidatedForm(value) =
        ValidatedForm::from_request(Ok(payload("abc", "secret"))).expect("the payload is valid");
    assert_eq!(value.username, "abc");
}

#[test]
fn extractors_reject_what_was_not_read() {
    let out = ValidatedJson::<RegisterPayload>::from_request(Err("EOF while parsing".to_string()));
    match out {
        Err(AppError::AxumJsonRejection(why)) => assert_eq!(why, "EOF while parsing"),
        _ => panic!("the body was not read"),
    }
    let out = ValidatedForm::<RegisterPayload>::from_request(Err("missing field".to_string()));
    match out {
        Err(AppError::AxumFormRejection(why)) => assert_eq!(why, "missing field"),
        _ => panic!("the form was not read"),
    }
}

#[test]
fn extractors_reject_what_breaks_a_rule() {
    let out = ValidatedJson::from_request(Ok(payload("", "")));
    let error = match out {
        Err(error) => error,
        Ok(_) => panic!("the payload breaks two rules"),
    };
    match &error {
        AppError::ValidationError(text) => {
            assert_eq!(text, "username: cannot be empyt\npassword: cannot be empyt")
        }
        _ => panic!("the payload breaks two rules"),
    }
    let res = error.into_response();
    assert_eq!(res.status, 400);
    assert_eq!(
        res.error,
        "Input validation error: [username: cannot be empyt, password: cannot be empyt]"
    );
    let out = ValidatedForm::from_request(Ok(payload("xfy", "")));
    assert!(matches!(out, Err(AppError::ValidationError(_))));
}

#[test]
fn claims_end_seven_days_after_issue() {
    let claims = Claims::issue("xfy", 1_700_000_000).expect("a day of our time");
    assert_eq!(claims.iat, 1_700_000_000);
    assert_eq!(claims.exp, 1_700_604_800);
    assert_eq!(claims.sub, "xfy");
    let claims = Claims::issue("", 0).expect("the first second of 1970");
    assert_eq!((claims.iat, claims.exp), (0, 604_800));
    let claims = Claims::issue("old", -1).expect("the last second of 1969");
    assert_eq!((claims.iat, claims.exp), (-1, 604_799));
}

#[test]
fn claims_at_the_ends_of_the_calendar() {
    let last_start = (95_026_236 - 7) * 86_400 + 86_399;
    let claims = Claims::issue("late", last_start).expect("ends on the last day");
    assert_eq!(claims.exp, 95_026_236 * 86_400 + 86_399);
    assert_eq!(claims.exp, 8_210_266_876_799);
    assert!(Claims::issue("late", last_start + 1).is_none());
    let first_start = -96_465_292 * 86_400;
    let claims = Claims::issue("early", first_start).expect("begins on the first day");
    assert_eq!(claims.exp, first_start + 604_800);
    assert!(Claims::issue("early", first_start - 1).is_none());
    assert!(Claims::issue("never", i64::MAX).is_none());
    assert!(Claims::issue("never", i64::MIN).is_none());
}

fn table(router: &Router) -> Vec<(String, Vec<Method>, Handler, Vec<Middleware>)> {
    router
        .routes
        .iter()
        .map(|r| (r.path.clone(), r.methods.clone(), r.handler, r.layers.clone()))
        .collect()
}

#[test]
fn user_routes_hold_the_registry() {
    let router = user_routes();
    assert_eq!(
        table(&router),
        vec![("/regist".to_string(), vec![Method::Post], Handler::Registry, vec![])]
    );
    assert!(router.fallback.is_none());
}

#[test]
fn the_route_table() {
    let both = vec![Method::Get, Method::Post];
    let inner =
        vec![Middleware::Timeout(15), Middleware::AddVersion, Middleware::Trace];
    let router = routes();
    assert_eq!(
        table(&router),
        vec![
            ("/".to_string(), both.clone(), Handler::Hello, inner.clone()),
            ("/json".to_string(), both.clone(), Handler::Json, inner.clone()),
            ("/text".to_string(), both.clone(), Handler::Text, inner.clone()),
            ("/user/regist".to_string(), vec![Method::Post], Handler::Registry, inner.clone()),
        ]
    );
    let fallback = router.fallback.expect("the table has a fallback");
    assert_eq!(fallback.handler, Handler::NotFound);
    assert_eq!(fallback.layers, vec![Middleware::Trace]);
    let served = app();
    assert_eq!(table(&served), table(&routes()));
    assert_eq!(served.fallback.expect("taken over").handler, Handler::NotFound);
}

#[test]
fn router_operations() {
    let sub = Router::new()
        .route("/a", vec![Method::Get], Handler::Hello)
        .fallback(Handler::Text)
        .layer(Middleware::AddVersion);
    assert_eq!(sub.fallback.as_ref().expect("set").layers, vec![Middleware::AddVersion]);
    let router = Router::new()
        .route("/b", vec![Method::Post], Handler::Json)
        .layer(Middleware::Timeout(3))
        .nest("/sub", sub)
        .route("/c", vec![], Handler::Text);
    assert_eq!(
        table(&router),
        vec![
            ("/b".to_string(), vec![Method::Post], Handler::Json, vec![Middleware::Timeout(3)]),
            ("/sub/a".to_string(), vec![Method::Get], Handler::Hello, vec![Middleware::AddVersion]),
            ("/c".to_string(), vec![], Handler::Text, vec![]),
        ]
    );
    assert!(router.fallback.is_none());
    let with_fallback = Router::new().fallback(Handler::NotFound);
    let merged = router.merge(with_fallback);
    assert_eq!(merged.routes.len(), 3);
    assert_eq!(merged.fallback.as_ref().expect("taken over").handler, Handler::NotFound);
    let kept = merged.merge(Router::new().fallback(Handler::Hello));
    assert_eq!(kept.fallback.expect("kept").handler, Handler::NotFound);
    let logged = logging_route(Router::new().route("/", vec![Method::Get], Handler::Hello));
    assert_eq!(logged.routes[0].layers, vec![Middleware::Trace]);
}

#[test]
fn simple_routes_answer() {
    assert_eq!(hello("phthonus"), "hello phthonus");
    assert_eq!(hello(""), "hello ");
    assert_eq!(fallback("/nowhere"), (404, "Not found".to_string()));
    let envelope = json().ok().expect("the route cannot fail");
    assert_eq!(envelope.code, ErrorCode::Normal);
    assert!(envelope.message.is_none());
    assert_eq!(envelope.data.name, "xfy");
    assert_eq!(envelope.status(), 200);
}

#[test]
fn envelopes_start_out_normal() {
    let envelope: RouteResponse<RegisterData> = RouteResponse::default();
    assert_eq!(envelope.code, ErrorCode::Normal);
    assert!(envelope.message.is_none());
    assert_eq!(envelope.data.username, "");
    let envelope: RouteResponse<UserResigtryRes> = RouteResponse::default();
    assert_eq!(envelope.data.token, "");
    let envelope = RouteResponse::ok(5u8);
    assert_eq!((envelope.code, envelope.data), (ErrorCode::Normal, 5u8));
}

#[test]
fn register_answers_with_the_name() {
    let envelope = register(ValidatedJson(payload("xfy", "secret"))).ok().expect("cannot fail");
    assert_eq!(envelope.code, ErrorCode::Normal);
    assert!(envelope.message.is_none());
    assert_eq!(envelope.data.username, "xfy");
}

#[test]
fn registry_answers_with_the_stored_user() {
    let envelope = registry(
        user("xfy", "xfy@xfy.plus", "plain text"),
        "$hashed$".to_string(),
        "header.claims.signature".to_string(),
    )
    .ok()
    .expect("cannot fail");
    assert_eq!(envelope.code, ErrorCode::Normal);
    assert_eq!(envelope.data.username, "xfy");
    assert_eq!(envelope.data.email, "xfy@xfy.plus");
    assert_eq!(envelope.data.password, "$hashed$");
    assert_eq!(envelope.data.token, "header.claims.signature");
}

#[test]
fn versions_are_read_from_the_path() {
    assert_eq!(Version::from_request_parts(Some("v1")), Ok(Version::V1));
    assert_eq!(Version::from_request_parts(Some("v2")), Ok(Version::V2));
    assert_eq!(Version::from_request_parts(Some("v3")), Ok(Version::V3));
    assert_eq!(Version::from_request_parts(Some("v4")), Err(VersionRejection::Unknown));
    assert_eq!(Version::from_request_parts(Some("V1")), Err(VersionRejection::Unknown));
    assert_eq!(Version::from_request_parts(Some("")), Err(VersionRejection::Unknown));
    assert_eq!(Version::from_request_parts(Some("v1 ")), Err(VersionRejection::Unknown));
    assert_eq!(Version::from_request_parts(None), Err(VersionRejection::Missing));
    assert_eq!(
        VersionRejection::Missing.into_response(),
        (404, "version param missing".to_string())
    );
    assert_eq!(VersionRejection::Unknown.into_response(), (404, "unknown version".to_string()));
}

#[test]
fn the_port_is_read_or_defaulted() {
    assert_eq!(resolve_port(Some("8080"), 4000), 8080);
    assert_eq!(resolve_port(Some("+80"), 4000), 80);
    assert_eq!(resolve_port(Some("0080"), 4000), 80);
    assert_eq!(resolve_port(Some("0"), 4000), 0);
    assert_eq!(resolve_port(Some("65535"), 4000), 65535);
    assert_eq!(resolve_port(Some("00000000000000000000065535"), 4000), 65535);
    for bad in ["65536", "99999999999999999999", "", "+", "-", "-1", "-0", "++1", " 80", "80 ", "8_0", "0x50", "８０", "80\n", "1e3"] {
        assert_eq!(resolve_port(Some(bad), 4000), 4000, "{bad:?}");
    }
    assert_eq!(resolve_port(None, 4000), 4000);
    assert_eq!(resolve_port(None, 0), 0);
}

#[test]
fn version_headers_go_behind_the_others() {
    let mut head = ResponseHead::new(200);
    head.append("Content-Type", "text/plain");
    head.append("Server", "proxy");
    add_version(&mut head, "phthonus", "0.1.0");
    assert_eq!(head.status, 200);
    let lines: Vec<(&str, &str)> =
        head.headers.iter().map(|(n, v)| (n.as_str(), v.as_str())).collect();
    assert_eq!(
        lines,
        vec![
            ("Content-Type", "text/plain"),
            ("Server", "proxy"),
            ("Server", "phthonus"),
            ("Phthonus-Version", "0.1.0"),
        ]
    );
}

#[test]
fn the_route_table_of_the_web_front() {
    let router = phthonus::web::routes();
    assert_eq!(
        table(&router),
        vec![(
            "/".to_string(),
            vec![Method::Get, Method::Post],
            Handler::Hello,
            vec![
                Middleware::Compression,
                Middleware::Timeout(15),
                Middleware::Cors,
                Middleware::AddVersion,
                Middleware::Trace,
            ],
        )]
    );
    let fallback = router.fallback.expect("the table has a fallback");
    assert_eq!(fallback.handler, Handler::NotFound);
    assert_eq!(fallback.layers, vec![Middleware::Trace]);
}
