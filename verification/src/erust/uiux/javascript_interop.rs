//! Messages to the hosting page and the reading of its answers.

use vstd::prelude::*;

verus! {

/// A request to the hosting page: what to do, and for whom.
#[derive(Debug)]
pub struct ActionMessage {
    pub action: String,
    pub email: String,
    pub password: String,
    pub captcha_token: String,
}

/// True when the message carries exactly these four texts.
pub open spec fn carries(
    message: ActionMessage,
    action: Seq<char>,
    email: Seq<char>,
    password: Seq<char>,
    captcha_token: Seq<char>,
) -> bool {
    &&& message.action@ == action
    &&& message.email@ == email
    &&& message.password@ == password
    &&& message.captcha_token@ == captcha_token
}

/// Builds the message that asks the hosting page for `action`.
pub fn send_action_message(action: &str, email: &str, password: &str, captcha_token: &str) -> (message:
    ActionMessage)
    ensures
        carries(message, action@, email@, password@, captcha_token@),
{
    ActionMessage {
        action: String::from_str(action),
        email: String::from_str(email),
        password: String::from_str(password),
        captcha_token: String::from_str(captcha_token),
    }
}

/// A JSON value.
#[derive(Debug, PartialEq, Eq)]
pub enum Json {
    Null,
    Bool(bool),
    /// A number, in its JSON notation.
    Number(String),
    String(String),
    Array(Vec<Json>),
    /// An object: its members, each a name with a value.
    Object(Vec<(String, Json)>),
}

/// A JSON value as a mathematical value.
pub enum JsonView {
    Null,
    Bool(bool),
    Number(Seq<char>),
    String(Seq<char>),
    Array(Seq<JsonView>),
    Object(Seq<(Seq<char>, JsonView)>),
}

/// What a JSON value holds.
pub open spec fn model(j: Json) -> JsonView
    decreases j,
{
    match j {
        Json::Null => JsonView::Null,
        Json::Bool(b) => JsonView::Bool(b),
        Json::Number(n) => JsonView::Number(n@),
        Json::String(s) => JsonView::String(s@),
        Json::Array(items) => JsonView::Array(
            Seq::new(
                items@.len(),
                |i: int|
                    if 0 <= i < items@.len() {
                        model(items@[i])
                    } else {
                        JsonView::Null
                    },
            ),
        ),
        Json::Object(members) => JsonView::Object(
            Seq::new(
                members@.len(),
                |i: int|
                    if 0 <= i < members@.len() {
                        (members@[i].0@, model(members@[i].1))
                    } else {
                        (Seq::empty(), JsonView::Null)
                    },
            ),
        ),
    }
}

impl DeepView for Json {
    type V = JsonView;

    open spec fn deep_view(&self) -> JsonView {
        model(*self)
    }
}

impl View for Json {
    type V = JsonView;

    open spec fn view(&self) -> JsonView {
        model(*self)
    }
}

/// `serde_json::Value`, carried as an opaque value: nothing is known of
/// what it holds but through `held`.
#[verifier::external_type_specification]
#[verifier::external_body]
pub struct ExValue(serde_json::Value);

/// The JSON value that a text denotes, as `serde_json::from_str` reads it;
/// `None` for a text that is not JSON.
pub uninterp spec fn parsed(text: Seq<char>) -> Option<JsonView>;

/// What a `serde_json::Value` holds: its variant, and inside it the number
/// in its notation, the characters of a string, the items of an array in
/// order, and the members of an object in the order of the value's map.
pub uninterp spec fn held(value: serde_json::Value) -> JsonView;

/// Calls `serde_json::from_str` for a `serde_json::Value` and drops the
/// error. Trusted: whether a value comes, and what it holds, depends on the
/// characters of the text alone.
#[verifier::external_body]
fn read_value(text: &str) -> (value: Option<serde_json::Value>)
    ensures
        match value {
            Some(v) => parsed(text@) == Some(held(v)),
            None => parsed(text@) is None,
        },
{
    serde_json::from_str::<serde_json::Value>(text).ok()
}

/// Copies a `serde_json::Value` into a `Json`, variant by variant; a number
/// is written out with `Number::to_string`. Trusted: the copy holds what
/// the value holds.
#[verifier::external_body]
fn to_json(value: &serde_json::Value) -> (j: Json)
    ensures
        j@ == held(*value),
{
    match value {
        serde_json::Value::Null => Json::Null,
        serde_json::Value::Bool(b) => Json::Bool(*b),
        serde_json::Value::Number(n) => Json::Number(n.to_string()),
        serde_json::Value::String(s) => Json::String(s.clone()),
        serde_json::Value::Array(a) => Json::Array(a.iter().map(to_json).collect()),
        serde_json::Value::Object(o) => Json::Object(
            o.iter().map(|(k, v)| (k.clone(), to_json(v))).collect(),
        ),
    }
}

/// The JSON value of an answer's text; null for a text that is not JSON.
pub open spec fn json_of(text: Seq<char>) -> JsonView {
    match parsed(text) {
        Some(j) => j,
        None => JsonView::Null,
    }
}

/// Reads the text of an answer as JSON. A text that is not JSON reads as
/// null.
pub fn parse_json(text: &str) -> (j: Json)
    ensures
        j@ == json_of(text@),
{
    match read_value(text) {
        Some(value) => to_json(&value),
        None => Json::Null,
    }
}

/// The value of the first member called `key` among `members`.
pub open spec fn member_among(members: Seq<(Seq<char>, JsonView)>, key: Seq<char>) -> Option<
    JsonView,
>
    decreases members.len(),
{
    if members.len() == 0 {
        None
    } else if members[0].0 == key {
        Some(members[0].1)
    } else {
        member_among(members.drop_first(), key)
    }
}

/// The member called `key` of an object; `None` for a value that is not an
/// object or has no such member.
pub open spec fn member(j: JsonView, key: Seq<char>) -> Option<JsonView> {
    match j {
        JsonView::Object(members) => member_among(members, key),
        _ => None,
    }
}

/// The truth value of a JSON boolean.
pub open spec fn bool_of(j: Option<JsonView>) -> Option<bool> {
    match j {
        Some(JsonView::Bool(b)) => Some(b),
        _ => None,
    }
}

/// The characters of a JSON string.
pub open spec fn text_of(j: Option<JsonView>) -> Option<Seq<char>> {
    match j {
        Some(JsonView::String(s)) => Some(s),
        _ => None,
    }
}

impl Json {
    /// The member called `key` of an object; `None` for a value that is
    /// not an object or has no such member.
    pub fn get(&self, key: &str) -> (found: Option<&Json>)
        ensures
            found.deep_view() == member(self@, key@),
    {
        match self {
            Json::Object(members) => {
                let wanted = String::from_str(key);
                let ghost all = self@->Object_0;
                let mut i: usize = 0;
                assert(all.skip(0) =~= all);
                while i < members.len()
                    invariant
                        i <= members.len(),
                        wanted@ == key@,
                        member(self@, key@) == member_among(all, key@),
                        all.len() == members@.len(),
                        forall|k: int|
                            0 <= k < members@.len() ==> all[k] == (
                                members@[k].0@,
                                model(members@[k].1),
                            ),
                        member_among(all, key@) == member_among(all.skip(i as int), key@),
                    decreases members.len() - i,
                {
                    let ghost rest = all.skip(i as int);
                    assert(rest[0] == all[i as int]);
                    assert(rest.drop_first() =~= all.skip(i + 1));
                    if members[i].0 == wanted {
                        assert(member_among(rest, key@) == Some(model(members@[i as int].1)));
                        return Some(&members[i].1);
                    }
                    i += 1;
                }
                assert(all.skip(members.len() as int).len() == 0);
                None
            },
            _ => None,
        }
    }

    /// The truth value of a boolean; `None` for any other value.
    pub fn as_bool(&self) -> (b: Option<bool>)
        ensures
            b == bool_of(Some(self@)),
    {
        match self {
            Json::Bool(b) => Some(*b),
            _ => None,
        }
    }

    /// The characters of a string; `None` for any other value.
    pub fn as_str(&self) -> (s: Option<&str>)
        ensures
            s.deep_view() == text_of(Some(self@)),
    {
        match self {
            Json::String(s) => Some(s.as_str()),
            _ => None,
        }
    }
}

/// The user that a sign-in answer names.
#[derive(Debug, PartialEq, Eq)]
pub struct User {
    pub id: String,
    pub email: String,
}

/// A `User` as mathematical values.
pub struct UserView {
    pub id: Seq<char>,
    pub email: Seq<char>,
}

impl DeepView for User {
    type V = UserView;

    open spec fn deep_view(&self) -> UserView {
        UserView { id: self.id@, email: self.email@ }
    }
}

impl View for User {
    type V = UserView;

    open spec fn view(&self) -> UserView {
        self.deep_view()
    }
}

/// What an answer of the hosting page amounts to.
#[derive(Debug, PartialEq, Eq)]
pub enum ResponseKind {
    /// A sign-in succeeded, for this user.
    LoginSucceeded(User),
    /// A sign-in failed; the reason, where the answer gives it as a text.
    LoginFailed(Option<String>),
    /// Anything else; the host logs it.
    Unhandled,
}

/// A `ResponseKind` as a mathematical value.
pub enum ResponseKindView {
    LoginSucceeded(UserView),
    LoginFailed(Option<Seq<char>>),
    Unhandled,
}

impl DeepView for ResponseKind {
    type V = ResponseKindView;

    open spec fn deep_view(&self) -> ResponseKindView {
        match self {
            ResponseKind::LoginSucceeded(user) => ResponseKindView::LoginSucceeded(user@),
            ResponseKind::LoginFailed(reason) => ResponseKindView::LoginFailed(reason.deep_view()),
            ResponseKind::Unhandled => ResponseKindView::Unhandled,
        }
    }
}

impl View for ResponseKind {
    type V = ResponseKindView;

    open spec fn view(&self) -> ResponseKindView {
        self.deep_view()
    }
}

/// The user that a JSON value describes. An object describes the user of
/// its members `id` and `email`, both texts. An array of exactly two texts
/// describes the user with the first as `id` and the second as `email`.
/// Any other value describes none.
pub open spec fn user_of(j: JsonView) -> Option<UserView> {
    match j {
        JsonView::Object(_) => match (
            text_of(member(j, "id"@)),
            text_of(member(j, "email"@)),
        ) {
            (Some(id), Some(email)) => Some(UserView { id, email }),
            _ => None,
        },
        JsonView::Array(items) => if items.len() == 2 {
            match (text_of(Some(items[0])), text_of(Some(items[1]))) {
                (Some(id), Some(email)) => Some(UserView { id, email }),
                _ => None,
            }
        } else {
            None
        },
        _ => None,
    }
}

/// The member `key` of an optional value.
pub open spec fn inside(j: Option<JsonView>, key: Seq<char>) -> Option<JsonView> {
    match j {
        Some(value) => member(value, key),
        None => None,
    }
}

/// The user of a sign-in answer: what stands under `data`, `session`,
/// `user`, where that describes a user.
pub open spec fn login_user_of(answer: JsonView) -> Option<UserView> {
    match inside(inside(member(answer, "data"@), "session"@), "user"@) {
        Some(user) => user_of(user),
        None => None,
    }
}

/// What an answer amounts to. With `success` true and a user under `data`,
/// `session`, `user`, a sign-in succeeded. With `success` false and a member
/// `error`, a sign-in failed. Every other answer is unhandled.
pub open spec fn classified(answer: JsonView) -> ResponseKindView {
    match bool_of(member(answer, "success"@)) {
        Some(true) => match login_user_of(answer) {
            Some(user) => ResponseKindView::LoginSucceeded(user),
            None => ResponseKindView::Unhandled,
        },
        Some(false) => match member(answer, "error"@) {
            Some(error) => ResponseKindView::LoginFailed(text_of(Some(error))),
            None => ResponseKindView::Unhandled,
        },
        None => ResponseKindView::Unhandled,
    }
}

/// Reads a user from a JSON value: from an object with the texts `id` and
/// `email`, or from an array of exactly two texts, the id first.
pub fn user_from_json(j: &Json) -> (user: Option<User>)
    ensures
        user.deep_view() == user_of(j@),
{
    let (id, email) = match j {
        Json::Object(_) => {
            let id = match j.get("id") {
                Some(value) => value.as_str(),
                None => None,
            };
            let email = match j.get("email") {
                Some(value) => value.as_str(),
                None => None,
            };
            (id, email)
        },
        Json::Array(items) => {
            if items.len() == 2 {
                assert(j@->Array_0[0] == model(items@[0]));
                assert(j@->Array_0[1] == model(items@[1]));
                (items[0].as_str(), items[1].as_str())
            } else {
                (None, None)
            }
        },
        _ => (None, None),
    };
    match (id, email) {
        (Some(id), Some(email)) => Some(
            User { id: String::from_str(id), email: String::from_str(email) },
        ),
        _ => None,
    }
}

/// Reads the user of a sign-in answer.
fn login_user(answer: &Json) -> (user: Option<User>)
    ensures
        user.deep_view() == login_user_of(answer@),
{
    let data = answer.get("data");
    let session = match data {
        Some(value) => value.get("session"),
        None => None,
    };
    let user = match session {
        Some(value) => value.get("user"),
        None => None,
    };
    match user {
        Some(value) => user_from_json(value),
        None => None,
    }
}

/// Decides what an answer of the hosting page amounts to.
pub fn classify_response(answer: &Json) -> (kind: ResponseKind)
    ensures
        kind@ == classified(answer@),
{
    let success = match answer.get("success") {
        Some(value) => value.as_bool(),
        None => None,
    };
    match success {
        Some(true) => match login_user(answer) {
            Some(user) => ResponseKind::LoginSucceeded(user),
            None => ResponseKind::Unhandled,
        },
        Some(false) => match answer.get("error") {
            Some(error) => {
                let reason = match error.as_str() {
                    Some(text) => Some(String::from_str(text)),
                    None => None,
                };
                ResponseKind::LoginFailed(reason)
            },
            None => ResponseKind::Unhandled,
        },
        None => ResponseKind::Unhandled,
    }
}

/// Takes the text of an answer of the hosting page, reads it as JSON, and
/// decides what it amounts to. A text that is not JSON reads as null, and
/// is unhandled.
pub fn handle_jsrust_response(text: &str) -> (kind: ResponseKind)
    ensures
        kind@ == classified(json_of(text@)),
{
    let answer = parse_json(text);
    classify_response(&answer)
}

} // verus!
