//! The values that pass between the gateway's core and the code that talks
//! to the network: how the gateway is set up, what to ask of the cluster,
//! what the cluster said, and what the caller is told.

use crate::auth::AuthError;
use crate::json::{JsonModel, JsonValue};
use crate::status::{INTERNAL_SERVER_ERROR, OK};
use crate::text::optional_view;
use url::Url;
use vstd::prelude::*;

verus! {

/// `url::Url`, which the gateway holds and hands on without looking inside.
#[verifier::external_type_specification]
#[verifier::external_body]
pub struct ExUrl(Url);

/// `Clone::clone` of `url::Url`.
///
/// Trusted: the copy is the same address as the one it was made from.
pub assume_specification[ <Url as Clone>::clone ](url: &Url) -> (copy: Url)
    ensures
        copy == *url,
;

/// The shape in which the identity provider describes a caller. One shape is
/// chosen when the gateway is set up and holds for every request.
#[derive(Clone, Copy, Debug, PartialEq, Eq, Structural)]
pub enum CapabilitySchema {
    /// `allowed_apps` and `allowed_images`.
    Flat,
    /// `groups` and `allowed_images`; the groups are the allowed applications.
    Grouped,
}

/// How the gateway is set up.
#[derive(Clone, Debug, PartialEq, Eq)]
pub struct Config {
    /// The userinfo address of the identity provider.
    pub openid_uri: Url,
    /// The shape of the identity provider's answers.
    pub capability_schema: CapabilitySchema,
    /// The namespace of the Deployments, or `None` for the one that the
    /// cluster client defaults to.
    pub namespace: Option<String>,
}

/// What a [`Config`] stands for.
pub struct ConfigView {
    pub openid_uri: Url,
    pub capability_schema: CapabilitySchema,
    pub namespace: Option<Seq<char>>,
}

impl View for Config {
    type V = ConfigView;

    open spec fn view(&self) -> ConfigView {
        ConfigView {
            openid_uri: self.openid_uri,
            capability_schema: self.capability_schema,
            namespace: optional_view(self.namespace),
        }
    }
}

/// The query of a request to change an image: `image` is required,
/// `container` defaults to the application's name.
#[derive(Clone, Debug, PartialEq, Eq)]
pub struct DeployQuery {
    pub image: String,
    pub container: Option<String>,
}

/// What a [`DeployQuery`] stands for.
pub struct DeployQueryView {
    pub image: Seq<char>,
    pub container: Option<Seq<char>>,
}

impl View for DeployQuery {
    type V = DeployQueryView;

    open spec fn view(&self) -> DeployQueryView {
        DeployQueryView {
            image: self.image@,
            container: optional_view(self.container),
        }
    }
}

/// How strictly the cluster checks the fields of a patch.
#[derive(Clone, Copy, Debug, PartialEq, Eq, Structural)]
pub enum ValidationDirective {
    /// Unknown and duplicate fields are dropped in silence.
    Ignore,
    /// Unknown and duplicate fields are dropped with a warning.
    Warn,
    /// A patch with an unknown or duplicate field is refused.
    Strict,
}

/// The parameters of a patch call.
#[derive(Clone, Debug, PartialEq, Eq)]
pub struct PatchParams {
    /// Whether the cluster only pretends to apply the patch.
    pub dry_run: bool,
    /// Whether fields owned by others are taken over on conflict.
    pub force: bool,
    /// The name under which the written fields are owned.
    pub field_manager: Option<String>,
    /// How strictly the cluster checks the patch.
    pub field_validation: Option<ValidationDirective>,
}

/// What a [`PatchParams`] stands for.
pub struct PatchParamsView {
    pub dry_run: bool,
    pub force: bool,
    pub field_manager: Option<Seq<char>>,
    pub field_validation: Option<ValidationDirective>,
}

impl View for PatchParams {
    type V = PatchParamsView;

    open spec fn view(&self) -> PatchParamsView {
        PatchParamsView {
            dry_run: self.dry_run,
            force: self.force,
            field_manager: optional_view(self.field_manager),
            field_validation: self.field_validation,
        }
    }
}

/// A patch document and the way in which the cluster merges it.
#[derive(Clone, Debug, PartialEq, Eq)]
pub enum Patch {
    /// Server-side apply: the sender owns exactly the fields it writes.
    Apply(JsonValue),
    /// JSON merge patch.
    Merge(JsonValue),
    /// Strategic merge patch.
    Strategic(JsonValue),
}

/// What a [`Patch`] stands for.
pub enum PatchView {
    Apply(JsonModel),
    Merge(JsonModel),
    Strategic(JsonModel),
}

impl View for Patch {
    type V = PatchView;

    open spec fn view(&self) -> PatchView {
        match self {
            Patch::Apply(document) => PatchView::Apply(document@),
            Patch::Merge(document) => PatchView::Merge(document@),
            Patch::Strategic(document) => PatchView::Strategic(document@),
        }
    }
}

/// The one call that goes to the cluster for an authorized request, on the
/// Deployment called `name` in `namespace`, or in the namespace that the
/// cluster client defaults to.
#[derive(Clone, Debug, PartialEq, Eq)]
pub enum ClusterCall {
    /// Read the Deployment.
    Get { namespace: Option<String>, name: String },
    /// Patch the Deployment.
    Patch { namespace: Option<String>, name: String, params: PatchParams, patch: Patch },
}

/// What a [`ClusterCall`] stands for.
pub enum ClusterCallView {
    Get { namespace: Option<Seq<char>>, name: Seq<char> },
    Patch {
        namespace: Option<Seq<char>>,
        name: Seq<char>,
        params: PatchParamsView,
        patch: PatchView,
    },
}

impl View for ClusterCall {
    type V = ClusterCallView;

    open spec fn view(&self) -> ClusterCallView {
        match self {
            ClusterCall::Get { namespace, name } => ClusterCallView::Get {
                namespace: optional_view(*namespace),
                name: name@,
            },
            ClusterCall::Patch { namespace, name, params, patch } => ClusterCallView::Patch {
                namespace: optional_view(*namespace),
                name: name@,
                params: params@,
                patch: patch@,
            },
        }
    }
}

/// How a call to the cluster ended.
#[derive(Clone, Debug, PartialEq, Eq)]
pub enum ClusterOutcome {
    /// The Deployment as the cluster holds it after the call.
    Workload(JsonValue),
    /// The cluster refused with a structured error.
    ApiError { code: u16, message: String },
    /// Anything else: no connection, an answer that could not be read, an
    /// error of a kind that carries no status.
    Failure,
}

/// What a [`ClusterOutcome`] stands for.
pub enum ClusterOutcomeView {
    Workload(JsonModel),
    ApiError { code: u16, message: Seq<char> },
    Failure,
}

impl View for ClusterOutcome {
    type V = ClusterOutcomeView;

    open spec fn view(&self) -> ClusterOutcomeView {
        match self {
            ClusterOutcome::Workload(document) => ClusterOutcomeView::Workload(document@),
            ClusterOutcome::ApiError { code, message } => ClusterOutcomeView::ApiError {
                code: *code,
                message: message@,
            },
            ClusterOutcome::Failure => ClusterOutcomeView::Failure,
        }
    }
}

/// The body of a response.
#[derive(Clone, Debug, PartialEq, Eq)]
pub enum Body {
    Empty,
    Text(String),
    Json(JsonValue),
}

/// What a [`Body`] stands for.
pub enum BodyView {
    Empty,
    Text(Seq<char>),
    Json(JsonModel),
}

impl View for Body {
    type V = BodyView;

    open spec fn view(&self) -> BodyView {
        match self {
            Body::Empty => BodyView::Empty,
            Body::Text(text) => BodyView::Text(text@),
            Body::Json(document) => BodyView::Json(document@),
        }
    }
}

/// What the caller is told: a status and one body.
#[derive(Clone, Debug, PartialEq, Eq)]
pub struct Response {
    pub status: u16,
    pub body: Body,
}

/// What a [`Response`] stands for.
pub struct ResponseView {
    pub status: u16,
    pub body: BodyView,
}

impl View for Response {
    type V = ResponseView;

    open spec fn view(&self) -> ResponseView {
        ResponseView { status: self.status, body: self.body@ }
    }
}

impl ResponseView {
    /// The response that holds `status` and nothing else.
    pub open spec fn bare(status: u16) -> ResponseView {
        ResponseView { status, body: BodyView::Empty }
    }

    /// The response that hands out `document` as a success.
    pub open spec fn success(document: JsonModel) -> ResponseView {
        ResponseView { status: OK, body: BodyView::Json(document) }
    }

    /// The response that holds nothing but the status of a failure inside the
    /// gateway or behind it.
    pub open spec fn internal_error() -> ResponseView {
        ResponseView::bare(INTERNAL_SERVER_ERROR)
    }
}

impl Response {
    /// The response that holds `status` and nothing else.
    pub fn bare(status: u16) -> (response: Response)
        ensures
            response@ == ResponseView::bare(status),
    {
        Response { status, body: Body::Empty }
    }

    /// The response that hands out `document` as a success.
    pub fn success(document: JsonValue) -> (response: Response)
        ensures
            response@ == ResponseView::success(document@),
    {
        Response { status: OK, body: Body::Json(document) }
    }

    /// The response that tells the caller that its capabilities could not be
    /// resolved: the error's status and nothing else.
    pub fn rejection(error: AuthError) -> (response: Response)
        ensures
            response@ == ResponseView::bare(error.spec_status()),
    {
        Response::bare(error.status())
    }
}

} // verus!
