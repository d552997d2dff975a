//! Sign-in through the OAuth provider: the address the browser is sent to, the
//! steps of the callback, and the cookies that open and close a session.
//!
//! The two requests to the provider are made by the caller; each function here
//! decides what follows from what came back.

use crate::http::{plain_reply, redirect_reply, Reply, ReplyView, Status};
use crate::models::{
    optional_text, CallbackQuery, DiscordTokenResponse, DiscordUser, DiscordUserView,
};
use crate::session::{encode_session, encoded_session, session_json, SESSION_COOKIE};
use crate::text::has_prefix;
use vstd::prelude::*;
use vstd::string::*;
use vstd::utf8::*;

verus! {

/// Where the provider exchanges an authorization code for a token.
pub const TOKEN_URL: &'static str = "https://discord.com/api/oauth2/token";

/// Where the provider tells whose token it is.
pub const USER_URL: &'static str = "https://discord.com/api/users/@me";

/// Bytes that percent-encoding leaves as they are: letters, digits, `-`, `.`,
/// `_` and `~`.
pub open spec fn is_unreserved(b: u8) -> bool {
    (0x30 <= b <= 0x39) || (0x41 <= b <= 0x5a) || (0x61 <= b <= 0x7a) || b == 0x2d || b == 0x2e
        || b == 0x5f || b == 0x7e
}

/// The uppercase hexadecimal digit for a value below 16.
pub open spec fn hex_digit(d: u8) -> char {
    if d < 10 {
        ((0x30 + d) as u8) as char
    } else {
        ((0x41 - 10 + d) as u8) as char
    }
}

/// One byte, percent-encoded.
pub open spec fn percent_encoded_byte(b: u8) -> Seq<char> {
    if is_unreserved(b) {
        seq![b as char]
    } else {
        seq!['%', hex_digit(b / 16), hex_digit(b % 16)]
    }
}

/// A byte string, percent-encoded byte by byte.
pub open spec fn percent_encoded(bytes: Seq<u8>) -> Seq<char>
    decreases bytes.len(),
{
    if bytes.len() == 0 {
        Seq::empty()
    } else {
        percent_encoded(bytes.drop_last()) + percent_encoded_byte(bytes.last())
    }
}

/// `urlencoding::encode`: every byte of the UTF-8 text except letters, digits,
/// `-`, `.`, `_` and `~` becomes `%` and two uppercase hexadecimal digits.
#[verifier::external_body]
fn percent_encode(text: &str) -> (encoded: String)
    ensures
        encoded@ == percent_encoded(text.spec_bytes()),
{
    urlencoding::encode(text).into_owned()
}

/// The provider's authorization page for this client.
pub open spec fn authorize_url(client_id: Seq<char>, redirect_uri: Seq<char>) -> Seq<char> {
    "https://discord.com/api/oauth2/authorize?client_id="@ + client_id + "&redirect_uri="@
        + percent_encoded(encode_utf8(redirect_uri)) + "&response_type=code&scope=identify"@
}

/// What starting a sign-in answers.
pub open spec fn discord_redirect_spec(client_id: Seq<char>, redirect_uri: Seq<char>) -> ReplyView {
    if client_id.len() == 0 || redirect_uri.len() == 0 {
        plain_reply(Status::InternalServerError, "Discord Env Missing"@)
    } else {
        redirect_reply(Status::TemporaryRedirect, authorize_url(client_id, redirect_uri))
    }
}

/// Starts a sign-in: sends the browser to the provider's authorization page,
/// or reports that the client is not configured.
pub fn discord_redirect(client_id: &str, redirect_uri: &str) -> (reply: Reply)
    ensures
        reply@ == discord_redirect_spec(client_id@, redirect_uri@),
{
    if client_id.is_empty() || redirect_uri.is_empty() {
        return Reply::plain(Status::InternalServerError, "Discord Env Missing");
    }
    let mut url = String::from_str("https://discord.com/api/oauth2/authorize?client_id=");
    url.append(client_id);
    url.append("&redirect_uri=");
    let encoded = percent_encode(redirect_uri);
    url.append(encoded.as_str());
    url.append("&response_type=code&scope=identify");
    Reply::redirect(Status::TemporaryRedirect, url)
}

/// The form that exchanges an authorization code for a token.
#[derive(Debug)]
pub struct TokenRequest {
    pub url: String,
    pub content_type: String,
    pub form: Vec<(String, String)>,
}

/// The request that asks the provider whose token it is.
#[derive(Debug)]
pub struct UserRequest {
    pub url: String,
    pub authorization: String,
}

/// What the callback does next: one of the two requests to the provider, or
/// the final reply.
#[derive(Debug)]
pub enum CallbackStep {
    ExchangeCode(TokenRequest),
    FetchUser(UserRequest),
    Done(Reply),
}

/// Mathematical view of a [`CallbackStep`].
pub enum CallbackStepView {
    ExchangeCode { url: Seq<char>, content_type: Seq<char>, form: Seq<(Seq<char>, Seq<char>)> },
    FetchUser { url: Seq<char>, authorization: Seq<char> },
    Done(ReplyView),
}

impl View for CallbackStep {
    type V = CallbackStepView;

    open spec fn view(&self) -> CallbackStepView {
        match self {
            CallbackStep::ExchangeCode(request) => CallbackStepView::ExchangeCode {
                url: request.url@,
                content_type: request.content_type@,
                form: request.form@.map_values(|pair: (String, String)| (pair.0@, pair.1@)),
            },
            CallbackStep::FetchUser(request) => CallbackStepView::FetchUser {
                url: request.url@,
                authorization: request.authorization@,
            },
            CallbackStep::Done(reply) => CallbackStepView::Done(reply@),
        }
    }
}

/// The fields of the token exchange, in the order in which they are sent.
pub open spec fn token_form(
    client_id: Seq<char>,
    client_secret: Seq<char>,
    code: Seq<char>,
    redirect_uri: Seq<char>,
) -> Seq<(Seq<char>, Seq<char>)> {
    seq![
        ("client_id"@, client_id),
        ("client_secret"@, client_secret),
        ("grant_type"@, "authorization_code"@),
        ("code"@, code),
        ("redirect_uri"@, redirect_uri),
    ]
}

/// First step of the callback.
pub open spec fn discord_callback_spec(
    code: Option<Seq<char>>,
    client_id: Seq<char>,
    client_secret: Seq<char>,
    redirect_uri: Seq<char>,
) -> CallbackStepView {
    match code {
        None => CallbackStepView::Done(plain_reply(Status::BadRequest, "No code"@)),
        Some(code) => CallbackStepView::ExchangeCode {
            url: TOKEN_URL@,
            content_type: "application/x-www-form-urlencoded"@,
            form: token_form(client_id, client_secret, code, redirect_uri),
        },
    }
}

/// Receives the provider's callback: without a code the request is refused,
/// with one the code is to be exchanged for a token.
pub fn discord_callback(
    query: &CallbackQuery,
    client_id: &str,
    client_secret: &str,
    redirect_uri: &str,
) -> (step: CallbackStep)
    ensures
        step@ == discord_callback_spec(
            optional_text(query.code),
            client_id@,
            client_secret@,
            redirect_uri@,
        ),
{
    match &query.code {
        None => CallbackStep::Done(Reply::plain(Status::BadRequest, "No code")),
        Some(code) => {
            let mut form: Vec<(String, String)> = Vec::new();
            form.push((String::from_str("client_id"), client_id.to_owned()));
            form.push((String::from_str("client_secret"), client_secret.to_owned()));
            form.push((String::from_str("grant_type"), String::from_str("authorization_code")));
            form.push((String::from_str("code"), code.clone()));
            form.push((String::from_str("redirect_uri"), redirect_uri.to_owned()));
            let request = TokenRequest {
                url: String::from_str(TOKEN_URL),
                content_type: String::from_str("application/x-www-form-urlencoded"),
                form,
            };
            let step = CallbackStep::ExchangeCode(request);
            assert(step@->ExchangeCode_form =~= token_form(
                client_id@,
                client_secret@,
                code@,
                redirect_uri@,
            ));
            step
        },
    }
}

/// Second step of the callback, given the token if the exchange produced one.
pub open spec fn token_received_spec(access_token: Option<Seq<char>>) -> CallbackStepView {
    match access_token {
        Some(token) => CallbackStepView::FetchUser {
            url: USER_URL@,
            authorization: "Bearer "@ + token,
        },
        None => CallbackStepView::Done(plain_reply(Status::InternalServerError, "Auth Failed"@)),
    }
}

/// Continues the callback after the token exchange. `token` is absent when
/// the request failed, was refused, or its answer could not be read.
pub fn token_received(token: Option<DiscordTokenResponse>) -> (step: CallbackStep)
    ensures
        step@ == token_received_spec(
            match token {
                Some(t) => Some(t.access_token@),
                None => None,
            },
        ),
{
    match token {
        Some(t) => {
            let mut authorization = String::from_str("Bearer ");
            authorization.append(t.access_token.as_str());
            CallbackStep::FetchUser(
                UserRequest { url: String::from_str(USER_URL), authorization },
            )
        },
        None => CallbackStep::Done(Reply::plain(Status::InternalServerError, "Auth Failed")),
    }
}

/// Whether the service is reached over TLS, judged by its base URL.
pub open spec fn is_production(base_url: Seq<char>) -> bool {
    "https"@.is_prefix_of(base_url)
}

/// The `Set-Cookie` value that opens a session for seven days.
pub open spec fn session_cookie(value: Seq<char>, secure: bool) -> Seq<char> {
    SESSION_COOKIE@ + "="@ + value + "; Path=/; HttpOnly;"@ + (if secure {
        " Secure;"@
    } else {
        Seq::empty()
    }) + " SameSite=Lax; Max-Age=604800"@
}

/// The `Set-Cookie` value that closes a session.
pub open spec fn cleared_cookie() -> Seq<char> {
    SESSION_COOKIE@ + "=; Path=/; HttpOnly; SameSite=Lax; Max-Age=0"@
}

/// The reply that opens a session and sends the browser to the dashboard.
pub open spec fn login_reply_spec(session: Seq<char>, base_url: Seq<char>) -> ReplyView {
    ReplyView {
        status: Status::Found,
        location: Some(base_url + "/dashboard"@),
        set_cookie: Some(session_cookie(session, is_production(base_url))),
        body: Seq::empty(),
    }
}

/// Opens a session with an encoded session value and sends the browser to the
/// dashboard. The cookie is marked `Secure` when the base URL begins with
/// `https`.
pub fn login_reply(session: &str, base_url: &str) -> (reply: Reply)
    ensures
        reply@ == login_reply_spec(session@, base_url@),
{
    let secure = has_prefix(base_url, "https");
    let mut cookie = String::from_str(SESSION_COOKIE);
    cookie.append("=");
    cookie.append(session);
    cookie.append("; Path=/; HttpOnly;");
    if secure {
        cookie.append(" Secure;");
    }
    cookie.append(" SameSite=Lax; Max-Age=604800");
    let mut location = base_url.to_owned();
    location.append("/dashboard");
    Reply {
        status: Status::Found,
        location: Some(location),
        set_cookie: Some(cookie),
        body: String::new(),
    }
}

/// Whether the session of `user` fits the encoder.
pub open spec fn session_fits(user: DiscordUserView) -> bool {
    encode_utf8(session_json(user)).len() <= isize::MAX
}

/// Last step of the callback, given the user if the provider named one.
pub open spec fn user_received_spec(
    user: Option<DiscordUserView>,
    base_url: Seq<char>,
) -> Option<ReplyView> {
    match user {
        Some(u) => if session_fits(u) {
            Some(login_reply_spec(encoded_session(session_json(u)), base_url))
        } else {
            None
        },
        None => Some(plain_reply(Status::InternalServerError, "Failed to get user info"@)),
    }
}

/// Finishes the callback. `user` is absent when the request failed, was
/// refused, or its answer could not be read. There is no reply only when the
/// user's session is too long to encode.
pub fn user_received(user: Option<DiscordUser>, base_url: &str) -> (reply: Option<Reply>)
    ensures
        match reply {
            Some(r) => user_received_spec(
                match user {
                    Some(u) => Some(u@),
                    None => None,
                },
                base_url@,
            ) == Some(r@),
            None => user matches Some(u) && !session_fits(u@),
        },
{
    match user {
        Some(u) => match encode_session(&u) {
            Some(session) => Some(login_reply(session.as_str(), base_url)),
            None => None,
        },
        None => Some(Reply::plain(Status::InternalServerError, "Failed to get user info")),
    }
}

/// What signing out answers.
pub open spec fn logout_spec(base_url: Seq<char>) -> ReplyView {
    ReplyView {
        status: Status::Found,
        location: Some(base_url + "/"@),
        set_cookie: Some(cleared_cookie()),
        body: Seq::empty(),
    }
}

/// Signs out: clears the session cookie and sends the browser home.
pub fn logout(base_url: &str) -> (reply: Reply)
    ensures
        reply@ == logout_spec(base_url@),
{
    let mut cookie = String::from_str(SESSION_COOKIE);
    cookie.append("=; Path=/; HttpOnly; SameSite=Lax; Max-Age=0");
    let mut location = base_url.to_owned();
    location.append("/");
    Reply {
        status: Status::Found,
        location: Some(location),
        set_cookie: Some(cookie),
        body: String::new(),
    }
}

} // verus!
