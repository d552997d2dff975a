//! The stored record, the signed-in user, and the request and response bodies
//! of the HTTP interface, each with its mathematical view.

use vstd::prelude::*;

verus! {

/// View of an optional string.
pub open spec fn optional_text(value: Option<String>) -> Option<Seq<char>> {
    match value {
        Some(text) => Some(text@),
        None => None,
    }
}

/// Copies an optional string.
pub fn copy_optional_text(value: &Option<String>) -> (copy: Option<String>)
    ensures
        optional_text(copy) == optional_text(*value),
{
    match value {
        Some(text) => Some(text.clone()),
        None => None,
    }
}

/// The sole persistent entity: one shortened URL.
#[derive(Debug, Clone)]
pub struct UrlRecord {
    pub id: i64,
    pub slug: String,
    pub original_url: String,
    pub created_at: String,
    pub clicks: i64,
    pub expires_at: Option<String>,
}

/// Mathematical view of a [`UrlRecord`].
pub struct UrlRecordView {
    pub id: int,
    pub slug: Seq<char>,
    pub original_url: Seq<char>,
    pub created_at: Seq<char>,
    pub clicks: int,
    pub expires_at: Option<Seq<char>>,
}

impl View for UrlRecord {
    type V = UrlRecordView;

    open spec fn view(&self) -> UrlRecordView {
        UrlRecordView {
            id: self.id as int,
            slug: self.slug@,
            original_url: self.original_url@,
            created_at: self.created_at@,
            clicks: self.clicks as int,
            expires_at: optional_text(self.expires_at),
        }
    }
}

/// The identity that the OAuth provider reports for a signed-in user.
#[derive(Debug, Clone)]
pub struct DiscordUser {
    pub id: String,
    pub username: String,
    pub avatar: Option<String>,
}

/// Mathematical view of a [`DiscordUser`].
pub struct DiscordUserView {
    pub id: Seq<char>,
    pub username: Seq<char>,
    pub avatar: Option<Seq<char>>,
}

impl View for DiscordUser {
    type V = DiscordUserView;

    open spec fn view(&self) -> DiscordUserView {
        DiscordUserView {
            id: self.id@,
            username: self.username@,
            avatar: optional_text(self.avatar),
        }
    }
}

/// Body of a shorten request.
#[derive(Debug)]
pub struct CreateUrlRequest {
    pub url: String,
    pub custom_slug: Option<String>,
    pub expires_at: Option<String>,
}

/// Mathematical view of a [`CreateUrlRequest`].
pub struct CreateUrlRequestView {
    pub url: Seq<char>,
    pub custom_slug: Option<Seq<char>>,
    pub expires_at: Option<Seq<char>>,
}

impl View for CreateUrlRequest {
    type V = CreateUrlRequestView;

    open spec fn view(&self) -> CreateUrlRequestView {
        CreateUrlRequestView {
            url: self.url@,
            custom_slug: optional_text(self.custom_slug),
            expires_at: optional_text(self.expires_at),
        }
    }
}

/// Body of a successful shorten response.
#[derive(Debug)]
pub struct CreateUrlResponse {
    pub success: bool,
    pub short_url: String,
    pub slug: String,
    pub original_url: String,
    pub expires_at: Option<String>,
}

/// Mathematical view of a [`CreateUrlResponse`].
pub struct CreateUrlResponseView {
    pub success: bool,
    pub short_url: Seq<char>,
    pub slug: Seq<char>,
    pub original_url: Seq<char>,
    pub expires_at: Option<Seq<char>>,
}

impl View for CreateUrlResponse {
    type V = CreateUrlResponseView;

    open spec fn view(&self) -> CreateUrlResponseView {
        CreateUrlResponseView {
            success: self.success,
            short_url: self.short_url@,
            slug: self.slug@,
            original_url: self.original_url@,
            expires_at: optional_text(self.expires_at),
        }
    }
}

/// Body of a failed request: a human-readable reason.
#[derive(Debug)]
pub struct ErrorResponse {
    pub error: String,
}

/// Body of an administrative request to change a record's expiry.
#[derive(Debug)]
pub struct UpdateUrlRequest {
    pub expires_at: Option<String>,
}

/// Body of a successful administrative write.
#[derive(Debug)]
pub struct SuccessResponse {
    pub success: bool,
}

/// Body that tells a signed-in user who they are.
#[derive(Debug)]
pub struct MeResponse {
    pub user: DiscordUser,
}

/// What the OAuth provider answers to a token exchange.
#[derive(Debug)]
pub struct DiscordTokenResponse {
    pub access_token: String,
}

/// Query string of the OAuth callback.
#[derive(Debug)]
pub struct CallbackQuery {
    pub code: Option<String>,
}

} // verus!
