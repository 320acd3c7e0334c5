//! The capability resolver: from a bearer token to what its holder may touch.
//!
//! The gateway does not read the token. It forwards the caller's
//! `Authorization` header to the identity provider and turns the provider's
//! answer into a capability set, or into the error that the caller is told.

use crate::models::{CapabilitySchema, Config, ConfigView};
use crate::status::{
    is_success, reports_success, FORBIDDEN, INTERNAL_SERVER_ERROR, UNAUTHORIZED,
};
use crate::text::string_views;
use url::Url;
use vstd::prelude::*;

verus! {

/// What the identity provider said of a caller, decoded in one of the two
/// shapes.
#[derive(Clone, Debug, PartialEq, Eq)]
pub enum IdentityDocument {
    Flat { allowed_apps: Vec<String>, allowed_images: Vec<String> },
    Grouped { groups: Vec<String>, allowed_images: Vec<String> },
}

/// What an [`IdentityDocument`] stands for.
pub enum IdentityDocumentView {
    Flat { allowed_apps: Seq<Seq<char>>, allowed_images: Seq<Seq<char>> },
    Grouped { groups: Seq<Seq<char>>, allowed_images: Seq<Seq<char>> },
}

impl View for IdentityDocument {
    type V = IdentityDocumentView;

    open spec fn view(&self) -> IdentityDocumentView {
        match self {
            IdentityDocument::Flat { allowed_apps, allowed_images } => IdentityDocumentView::Flat {
                allowed_apps: string_views(allowed_apps@),
                allowed_images: string_views(allowed_images@),
            },
            IdentityDocument::Grouped { groups, allowed_images } => IdentityDocumentView::Grouped {
                groups: string_views(groups@),
                allowed_images: string_views(allowed_images@),
            },
        }
    }
}

/// A caller's capability set: the applications and the image repositories
/// that the caller may touch. It is made anew for every request.
#[derive(Clone, Debug, PartialEq, Eq)]
pub struct User {
    pub allowed_apps: Vec<String>,
    pub allowed_images: Vec<String>,
}

/// What a [`User`] stands for.
pub struct UserView {
    pub allowed_apps: Seq<Seq<char>>,
    pub allowed_images: Seq<Seq<char>>,
}

impl View for User {
    type V = UserView;

    open spec fn view(&self) -> UserView {
        UserView {
            allowed_apps: string_views(self.allowed_apps@),
            allowed_images: string_views(self.allowed_images@),
        }
    }
}

/// Why a caller's capabilities could not be resolved.
#[derive(Clone, Copy, Debug, PartialEq, Eq, Structural)]
pub enum AuthError {
    /// No usable `Authorization` header, or the identity provider rejected
    /// the token.
    Unauthenticated,
    /// The identity provider knows the caller and denies it.
    Forbidden,
    /// The identity provider could not be reached, answered with a status
    /// that the gateway does not pass on, or sent a body in another shape
    /// than the one that was set up.
    InternalError,
}

impl AuthError {
    /// The HTTP status that tells the caller of this error.
    pub open spec fn spec_status(self) -> u16 {
        match self {
            AuthError::Unauthenticated => UNAUTHORIZED,
            AuthError::Forbidden => FORBIDDEN,
            AuthError::InternalError => INTERNAL_SERVER_ERROR,
        }
    }

    /// The HTTP status that tells the caller of this error.
    #[verifier::when_used_as_spec(spec_status)]
    pub fn status(self) -> (status: u16)
        ensures
            status == self.spec_status(),
    {
        match self {
            AuthError::Unauthenticated => UNAUTHORIZED,
            AuthError::Forbidden => FORBIDDEN,
            AuthError::InternalError => INTERNAL_SERVER_ERROR,
        }
    }
}

/// The one request that goes to the identity provider for an inbound
/// request: a GET on `url` with the header `Authorization` set to
/// `authorization`, whose answer is decoded in the shape `schema`.
#[derive(Clone, Debug, PartialEq, Eq)]
pub struct IdentityRequest {
    pub url: Url,
    pub authorization: String,
    pub schema: CapabilitySchema,
}

/// What an [`IdentityRequest`] stands for.
pub struct IdentityRequestView {
    pub url: Url,
    pub authorization: Seq<char>,
    pub schema: CapabilitySchema,
}

impl View for IdentityRequest {
    type V = IdentityRequestView;

    open spec fn view(&self) -> IdentityRequestView {
        IdentityRequestView {
            url: self.url,
            authorization: self.authorization@,
            schema: self.schema,
        }
    }
}

/// The request that the gateway set up as `config` sends to the identity
/// provider for a caller that came with the header `authorization`: to the
/// provider's address, with the header as it came.
pub open spec fn identity_request_for(
    config: ConfigView,
    authorization: Seq<char>,
) -> IdentityRequestView {
    IdentityRequestView {
        url: config.openid_uri,
        authorization,
        schema: config.capability_schema,
    }
}

/// How the identity provider answered.
#[derive(Clone, Debug, PartialEq, Eq)]
pub enum IdentityReply {
    /// No answer came: the name did not resolve, the connection was refused
    /// or timed out.
    Unreachable,
    /// An answer with `status`. `document` is its body, decoded in the shape
    /// that the request asked for, or `None` where the body is not of that
    /// shape or was not read.
    Answered { status: u16, document: Option<IdentityDocument> },
}

/// What an [`IdentityReply`] stands for.
pub enum IdentityReplyView {
    Unreachable,
    Answered { status: u16, document: Option<IdentityDocumentView> },
}

impl View for IdentityReply {
    type V = IdentityReplyView;

    open spec fn view(&self) -> IdentityReplyView {
        match self {
            IdentityReply::Unreachable => IdentityReplyView::Unreachable,
            IdentityReply::Answered { status, document } => IdentityReplyView::Answered {
                status: *status,
                document: match document {
                    Some(document) => Some(document@),
                    None => None,
                },
            },
        }
    }
}

/// The capability set that `document` grants under `schema`, or `None` where
/// `document` is of the other shape.
pub open spec fn capabilities_of(
    schema: CapabilitySchema,
    document: IdentityDocumentView,
) -> Option<UserView> {
    match (schema, document) {
        (
            CapabilitySchema::Flat,
            IdentityDocumentView::Flat { allowed_apps, allowed_images },
        ) => Some(UserView { allowed_apps, allowed_images }),
        (
            CapabilitySchema::Grouped,
            IdentityDocumentView::Grouped { groups, allowed_images },
        ) => Some(UserView { allowed_apps: groups, allowed_images }),
        _ => None,
    }
}

/// What the gateway makes of the identity provider's `reply`: a success with
/// a body in the shape `schema` is the caller's capability set; 401 and 403
/// are passed on; anything else is an internal error.
pub open spec fn resolution(schema: CapabilitySchema, reply: IdentityReplyView) -> Result<
    UserView,
    AuthError,
> {
    match reply {
        IdentityReplyView::Unreachable => Err(AuthError::InternalError),
        IdentityReplyView::Answered { status, document } => {
            if is_success(status) {
                match document {
                    Some(document) => match capabilities_of(schema, document) {
                        Some(user) => Ok(user),
                        None => Err(AuthError::InternalError),
                    },
                    None => Err(AuthError::InternalError),
                }
            } else if status == UNAUTHORIZED {
                Err(AuthError::Unauthenticated)
            } else if status == FORBIDDEN {
                Err(AuthError::Forbidden)
            } else {
                Err(AuthError::InternalError)
            }
        },
    }
}

impl User {
    /// The capability set that `document` grants under `schema`.
    pub fn from_document(schema: CapabilitySchema, document: IdentityDocument) -> (user: Option<
        User,
    >)
        ensures
            match user {
                Some(user) => capabilities_of(schema, document@) == Some(user@),
                None => capabilities_of(schema, document@) is None,
            },
    {
        match document {
            IdentityDocument::Flat { allowed_apps, allowed_images } => match schema {
                CapabilitySchema::Flat => Some(User { allowed_apps, allowed_images }),
                CapabilitySchema::Grouped => None,
            },
            IdentityDocument::Grouped { groups, allowed_images } => match schema {
                CapabilitySchema::Flat => None,
                CapabilitySchema::Grouped => Some(User { allowed_apps: groups, allowed_images }),
            },
        }
    }
}

/// A caller whose capabilities have been resolved.
#[derive(Clone, Debug, PartialEq, Eq)]
pub struct AuthState(pub User);

impl View for AuthState {
    type V = UserView;

    open spec fn view(&self) -> UserView {
        self.0@
    }
}

impl AuthState {
    /// The request to send to the identity provider for an inbound request
    /// that came with the `Authorization` header `authorization`. The header
    /// is forwarded as it came. Without one the caller is unauthenticated and
    /// nothing is sent.
    pub fn identity_request(config: &Config, authorization: Option<&str>) -> (request: Result<
        IdentityRequest,
        AuthError,
    >)
        ensures
            match authorization {
                Some(header) => request is Ok && request->Ok_0@ == identity_request_for(
                    config@,
                    header@,
                ),
                None => request == Err::<IdentityRequest, AuthError>(AuthError::Unauthenticated),
            },
    {
        match authorization {
            Some(header) => Ok(
                IdentityRequest {
                    url: config.openid_uri.clone(),
                    authorization: header.to_owned(),
                    schema: config.capability_schema,
                },
            ),
            None => Err(AuthError::Unauthenticated),
        }
    }

    /// The caller's capabilities as the identity provider's `reply` gives
    /// them under `schema`, or the error that the caller is told.
    pub fn resolve(schema: CapabilitySchema, reply: IdentityReply) -> (state: Result<
        AuthState,
        AuthError,
    >)
        ensures
            match state {
                Ok(state) => resolution(schema, reply@) == Ok::<UserView, AuthError>(state@),
                Err(error) => resolution(schema, reply@) == Err::<UserView, AuthError>(error),
            },
    {
        match reply {
            IdentityReply::Unreachable => Err(AuthError::InternalError),
            IdentityReply::Answered { status, document } => {
                if reports_success(status) {
                    match document {
                        Some(document) => match User::from_document(schema, document) {
                            Some(user) => Ok(AuthState(user)),
                            None => Err(AuthError::InternalError),
                        },
                        None => Err(AuthError::InternalError),
                    }
                } else if status == UNAUTHORIZED {
                    Err(AuthError::Unauthenticated)
                } else if status == FORBIDDEN {
                    Err(AuthError::Forbidden)
                } else {
                    Err(AuthError::InternalError)
                }
            },
        }
    }
}

} // verus!
