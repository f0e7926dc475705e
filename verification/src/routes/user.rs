//! User routes.

use crate::error::ErrorCode;
use crate::routes::{Handler, Method, RouteResponse, RouteResult, RouteView, Router, RouterView};
use crate::utils::validator::{
    email_shaped, is_email, FieldError, Validate, ValidatedJson, ValidationErrors,
};
use vstd::prelude::*;

verus! {

/// What a client sends to register.
#[derive(Debug)]
pub struct RegisterPayload {
    pub username: String,
    pub email: String,
    pub password: String,
}

/// What a client is told after registering.
#[derive(Debug)]
pub struct RegisterData {
    pub username: String,
}

impl Default for RegisterData {
    fn default() -> (data: Self)
        ensures
            data.username@ == Seq::<char>::empty(),
    {
        RegisterData { username: String::new() }
    }
}

/// The broken rule, if `text` is shorter than `min` characters, or longer
/// than `max` where there is such a bound.
pub open spec fn length_rule(
    field: Seq<char>,
    text: Seq<char>,
    min: int,
    max: Option<int>,
    message: Seq<char>,
) -> Seq<(Seq<char>, Seq<char>)> {
    if min <= text.len() && (max matches Some(most) ==> text.len() <= most) {
        Seq::empty()
    } else {
        seq![(field, message)]
    }
}

/// A bound as a number of characters.
pub open spec fn bound_of(max: Option<usize>) -> Option<int> {
    match max {
        Some(most) => Some(most as int),
        None => None,
    }
}

/// The broken rule, if `text` does not have the shape of an e-mail address.
pub open spec fn email_rule(field: Seq<char>, text: Seq<char>, message: Seq<char>) -> Seq<
    (Seq<char>, Seq<char>),
> {
    if email_shaped(text) {
        Seq::empty()
    } else {
        seq![(field, message)]
    }
}

/// Holds the length of `text` against its bounds and notes the rule as
/// broken in `errors` where it is.
fn check_length(
    errors: &mut Vec<FieldError>,
    field: &str,
    text: &str,
    min: usize,
    max: Option<usize>,
    message: &str,
)
    ensures
        views_of(final(errors)@) == views_of(old(errors)@) + length_rule(
            field@,
            text@,
            min as int,
            bound_of(max),
            message@,
        ),
{
    let len = text.unicode_len();
    let too_long = match max {
        Some(most) => len > most,
        None => false,
    };
    if len < min || too_long {
        errors.push(FieldError { field: String::from_str(field), message: String::from_str(message) });
    }
}

/// The broken rules of a list as plain values.
pub open spec fn views_of(errors: Seq<FieldError>) -> Seq<(Seq<char>, Seq<char>)> {
    Seq::new(errors.len(), |i: int| (errors[i].field@, errors[i].message@))
}

/// Ends a check: no error where no rule was broken.
fn checked(errors: Vec<FieldError>) -> (out: Result<(), ValidationErrors>)
    ensures
        match out {
            Ok(_) => errors@.len() == 0,
            Err(e) => e@ == views_of(errors@) && errors@.len() > 0,
        },
{
    if errors.len() == 0 {
        Ok(())
    } else {
        Err(ValidationErrors { errors })
    }
}

impl Validate for RegisterPayload {
    /// Name and password must not be empty.
    open spec fn violations(&self) -> Seq<(Seq<char>, Seq<char>)> {
        length_rule("username"@, self.username@, 1, None, "cannot be empyt"@)
            + length_rule("password"@, self.password@, 1, None, "cannot be empyt"@)
    }

    fn validate(&self) -> (checked: Result<(), ValidationErrors>) {
        let mut errors: Vec<FieldError> = Vec::new();
        check_length(&mut errors, "username", self.username.as_str(), 1, None, "cannot be empyt");
        check_length(&mut errors, "password", self.password.as_str(), 1, None, "cannot be empyt");
        checked(errors)
    }
}

/// Registers a user: answers with the name that was sent.
pub fn register(user: ValidatedJson<RegisterPayload>) -> (res: RouteResult<RegisterData>)
    ensures
        res matches Ok(envelope) && envelope.code == ErrorCode::Normal && envelope.message is None
            && envelope.data.username == user.0.username,
{
    Ok(RouteResponse::ok(RegisterData { username: user.0.username }))
}

/// What a client sends to the registry.
#[derive(Debug)]
pub struct UserResigtry {
    pub username: String,
    pub email: String,
    pub password: String,
}

/// What the registry answers: the user as stored, and the user's token.
#[derive(Debug)]
pub struct UserResigtryRes {
    pub username: String,
    pub email: String,
    pub password: String,
    pub token: String,
}

impl Default for UserResigtryRes {
    fn default() -> (res: Self)
        ensures
            res.username@ == Seq::<char>::empty(),
            res.email@ == Seq::<char>::empty(),
            res.password@ == Seq::<char>::empty(),
            res.token@ == Seq::<char>::empty(),
    {
        UserResigtryRes {
            username: String::new(),
            email: String::new(),
            password: String::new(),
            token: String::new(),
        }
    }
}

impl Validate for UserResigtry {
    /// The name must not be empty, the address must have the shape of one,
    /// and the password must have six to a hundred characters.
    open spec fn violations(&self) -> Seq<(Seq<char>, Seq<char>)> {
        length_rule("username"@, self.username@, 1, None, "Can not be empty"@)
            + email_rule("email"@, self.email@, "邮箱格式不正确"@) + length_rule(
            "password"@,
            self.password@,
            6,
            Some(100),
            "Can not be empty"@,
        )
    }

    fn validate(&self) -> (checked: Result<(), ValidationErrors>) {
        let mut errors: Vec<FieldError> = Vec::new();
        check_length(&mut errors, "username", self.username.as_str(), 1, None, "Can not be empty");
        if !is_email(self.email.as_str()) {
            errors.push(
                FieldError {
                    field: String::from_str("email"),
                    message: String::from_str("邮箱格式不正确"),
                },
            );
        }
        check_length(&mut errors, "password", self.password.as_str(), 6, Some(100), "Can not be empty");
        assert(views_of(errors@) =~= self.violations());
        checked(errors)
    }
}

/// The registry's answer for a user whose password was hashed to `hashed`
/// and who was issued `token`.
pub fn registry(user_param: UserResigtry, hashed: String, token: String) -> (res: RouteResult<
    UserResigtryRes,
>)
    ensures
        res matches Ok(envelope) && envelope.code == ErrorCode::Normal && envelope.message is None
            && envelope.data.username == user_param.username && envelope.data.email
            == user_param.email && envelope.data.password == hashed && envelope.data.token
            == token,
{
    let UserResigtry { email, password: _, username } = user_param;
    Ok(RouteResponse::ok(UserResigtryRes { username, email, password: hashed, token }))
}

/// The table of the user routes: the registry answers `POST /regist`.
pub open spec fn spec_user_routes() -> RouterView {
    RouterView::empty().route("/regist"@, seq![Method::Post], Handler::Registry)
}

/// The table of the user routes.
pub fn user_routes() -> (router: Router)
    ensures
        router@ == spec_user_routes(),
        router@.routes == seq![
            RouteView {
                path: "/regist"@,
                methods: seq![Method::Post],
                handler: Handler::Registry,
                layers: Seq::empty(),
            },
        ],
        router@.fallback is None,
{
    let mut methods: Vec<Method> = Vec::new();
    methods.push(Method::Post);
    let router = Router::new().route("/regist", methods, Handler::Registry);
    assert(router@.routes =~= seq![
        RouteView {
            path: "/regist"@,
            methods: seq![Method::Post],
            handler: Handler::Registry,
            layers: Seq::empty(),
        },
    ]);
    router
}

} // verus!
