//! One request from arrival to answer, as three decisions with an outside
//! call between each two: [`authenticate`], then ask the identity provider;
//! [`proceed`], then ask the cluster; [`respond`](crate::controllers::respond).
//!
//! Each of the first two hands back either the next outside call or the
//! answer to the caller, so that a failure at one stage leaves nothing for a
//! later stage to do. Nothing is ever asked twice.

use crate::auth::{
    identity_request_for, resolution, AuthError, AuthState, IdentityReply, IdentityReplyView,
    IdentityRequest, IdentityRequestView, UserView,
};
use crate::controllers::{deploy, deploy_plan, image_refusal, query, query_plan, step_view};
use crate::json::{text_models, JsonModel};
use crate::models::{
    BodyView, ClusterCall, ClusterCallView, Config, ConfigView, DeployQuery, DeployQueryView,
    Response, ResponseView,
};
use crate::status::{BAD_REQUEST, FORBIDDEN, INTERNAL_SERVER_ERROR, UNAUTHORIZED};
use crate::text::optional_str_view;
use vstd::prelude::*;

verus! {

/// What a caller asks of the gateway.
#[derive(Clone, Debug, PartialEq, Eq)]
pub enum Operation {
    /// Read the Deployment of the application `name`.
    Query { name: String },
    /// Set an image in the Deployment of the application `name`.
    Deploy { name: String, query: DeployQuery },
}

/// What an [`Operation`] stands for.
pub enum OperationView {
    Query { name: Seq<char> },
    Deploy { name: Seq<char>, query: DeployQueryView },
}

impl View for Operation {
    type V = OperationView;

    open spec fn view(&self) -> OperationView {
        match self {
            Operation::Query { name } => OperationView::Query { name: name@ },
            Operation::Deploy { name, query } => OperationView::Deploy {
                name: name@,
                query: query@,
            },
        }
    }
}

impl OperationView {
    /// The application that the operation is about.
    pub open spec fn app_name(self) -> Seq<char> {
        match self {
            OperationView::Query { name } => name,
            OperationView::Deploy { name, .. } => name,
        }
    }
}

/// What the gateway decides when a request arrives: without an
/// `Authorization` header the caller is told 401; with one, the identity
/// provider is asked, with the header as it came.
pub open spec fn arrival(config: ConfigView, authorization: Option<Seq<char>>) -> Result<
    IdentityRequestView,
    ResponseView,
> {
    match authorization {
        Some(header) => Ok(identity_request_for(config, header)),
        None => Err(ResponseView::bare(UNAUTHORIZED)),
    }
}

/// What was decided on arrival, seen through the views of its parts.
pub open spec fn arrival_view(step: Result<IdentityRequest, Response>) -> Result<
    IdentityRequestView,
    ResponseView,
> {
    match step {
        Ok(request) => Ok(request@),
        Err(response) => Err(response@),
    }
}

/// What the gateway decides when a request arrives with the header
/// `authorization`: the one request to the identity provider, or the answer
/// to the caller.
pub fn authenticate(config: &Config, authorization: Option<&str>) -> (step: Result<
    IdentityRequest,
    Response,
>)
    ensures
        arrival_view(step) == arrival(config@, optional_str_view(authorization)),
{
    match AuthState::identity_request(config, authorization) {
        Ok(request) => Ok(request),
        Err(error) => Err(Response::rejection(error)),
    }
}

/// What the gateway decides once the identity provider has answered: where
/// the caller's capabilities do not resolve, the caller is told the error's
/// status; where they do, the handler of the operation decides.
pub open spec fn decision(
    config: ConfigView,
    operation: OperationView,
    reply: IdentityReplyView,
) -> Result<ClusterCallView, ResponseView> {
    match resolution(config.capability_schema, reply) {
        Ok(user) => match operation {
            OperationView::Query { name } => query_plan(config, user, name),
            OperationView::Deploy { name, query } => deploy_plan(config, user, name, query),
        },
        Err(error) => Err(ResponseView::bare(error.spec_status())),
    }
}

/// What the gateway decides once the identity provider has answered `reply`
/// to the request that was sent for `operation`: the one call to the cluster,
/// or the answer to the caller.
pub fn proceed(config: &Config, operation: &Operation, reply: IdentityReply) -> (step: Result<
    ClusterCall,
    Response,
>)
    ensures
        step_view(step) == decision(config@, operation@, reply@),
{
    match AuthState::resolve(config.capability_schema, reply) {
        Ok(state) => match operation {
            Operation::Query { name } => query(config, &state.0, name.as_str()),
            Operation::Deploy { name, query } => deploy(config, &state.0, name.as_str(), query),
        },
        Err(error) => Err(Response::rejection(error)),
    }
}

/// A token that the identity provider rejects with 401 is answered with a
/// bare 401, whether the caller asked to read or to deploy, and whatever came
/// with the rejection.
pub proof fn lemma_rejected_token_is_unauthenticated(
    config: ConfigView,
    operation: OperationView,
    reply: IdentityReplyView,
)
    requires
        reply is Answered,
        reply->status == UNAUTHORIZED,
    ensures
        decision(config, operation, reply) == Err::<ClusterCallView, ResponseView>(
            ResponseView::bare(UNAUTHORIZED),
        ),
{
}

/// A request for an application that is not among the caller's is answered
/// with a bare 403, whether the caller asked to read or to deploy, and
/// whatever image it named.
pub proof fn lemma_unlisted_app_is_forbidden(
    config: ConfigView,
    operation: OperationView,
    reply: IdentityReplyView,
    user: UserView,
)
    requires
        resolution(config.capability_schema, reply) == Ok::<UserView, AuthError>(user),
        !user.allows_app(operation.app_name()),
    ensures
        decision(config, operation, reply) == Err::<ClusterCallView, ResponseView>(
            ResponseView::bare(FORBIDDEN),
        ),
{
}

/// A request to deploy, to one of the caller's applications, an image that
/// is malformed or whose repository is not among the caller's is answered
/// with 400, and the body lists under `allowed_images` exactly the caller's
/// image repositories, in their order.
pub proof fn lemma_unlisted_image_is_refused(
    config: ConfigView,
    name: Seq<char>,
    query: DeployQueryView,
    reply: IdentityReplyView,
    user: UserView,
)
    requires
        resolution(config.capability_schema, reply) == Ok::<UserView, AuthError>(user),
        user.allows_app(name),
        !user.allows_image(query.image),
    ensures
        decision(config, OperationView::Deploy { name, query }, reply) == Err::<
            ClusterCallView,
            ResponseView,
        >(
            ResponseView {
                status: BAD_REQUEST,
                body: BodyView::Json(image_refusal(user.allowed_images)),
            },
        ),
        image_refusal(user.allowed_images) is Object,
        image_refusal(user.allowed_images)->Object_0.len() == 3,
        image_refusal(user.allowed_images)->Object_0[2] == (
            "allowed_images"@,
            JsonModel::Array(text_models(user.allowed_images)),
        ),
{
}

/// Whoever is turned away before the cluster is asked is told one of four
/// statuses, in an empty body or in JSON, never in free text: 400 for an
/// image, 401 or 403 for the caller, 500 for a failure.
pub proof fn lemma_turned_away_within_the_taxonomy(
    config: ConfigView,
    authorization: Option<Seq<char>>,
    operation: OperationView,
    reply: IdentityReplyView,
)
    ensures
        arrival(config, authorization) matches Err(response) ==> response == ResponseView::bare(
            UNAUTHORIZED,
        ),
        decision(config, operation, reply) matches Err(response) ==> {
            &&& !(response.body is Text)
            &&& response.status == BAD_REQUEST <==> response.body is Json
            &&& response.status == BAD_REQUEST || response.status == UNAUTHORIZED
                || response.status == FORBIDDEN || response.status == INTERNAL_SERVER_ERROR
        },
{
}

/// Nothing is asked of the cluster unless the identity provider vouched for
/// the caller and the guard let the request through: the application is
/// among the caller's, and so is the repository of an image to deploy.
pub proof fn lemma_cluster_is_asked_only_for_the_authorized(
    config: ConfigView,
    operation: OperationView,
    reply: IdentityReplyView,
)
    requires
        decision(config, operation, reply) is Ok,
    ensures
        resolution(config.capability_schema, reply) is Ok,
        resolution(config.capability_schema, reply)->Ok_0.allows_app(operation.app_name()),
        operation matches OperationView::Deploy { query, .. } ==> resolution(
            config.capability_schema,
            reply,
        )->Ok_0.allows_image(query.image),
{
}

/// Two requests for the same operation that both pass the guard send the
/// same call to the cluster, whoever asks and whenever: what is sent depends
/// on nothing but the operation and the namespace that was set up.
pub proof fn lemma_same_operation_same_call(
    first_config: ConfigView,
    second_config: ConfigView,
    operation: OperationView,
    first: IdentityReplyView,
    second: IdentityReplyView,
)
    requires
        first_config.namespace == second_config.namespace,
        decision(first_config, operation, first) is Ok,
        decision(second_config, operation, second) is Ok,
    ensures
        decision(first_config, operation, first) == decision(second_config, operation, second),
{
}

} // verus!
