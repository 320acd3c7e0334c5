//! The authorization guard, the workload mutator and the two request
//! handlers, as decisions: what to ask of the cluster, and what to tell the
//! caller.

use crate::auth::{User, UserView};
use crate::image::{image_repository, repository_of};
use crate::json::{
    lemma_object_view, member_models, models, not_called, text_models, JsonModel, JsonValue,
};
use crate::models::{
    Body, BodyView, ClusterCall, ClusterCallView, ClusterOutcome, ClusterOutcomeView, Config,
    ConfigView, DeployQuery, DeployQueryView, Patch, PatchParams, PatchParamsView, PatchView,
    Response, ResponseView, ValidationDirective,
};
use crate::status::{is_status_code, relayed_status, BAD_REQUEST, FORBIDDEN, INTERNAL_SERVER_ERROR};
use crate::text::{optional_str_view, string_views};
use vstd::prelude::*;

verus! {

/// The name under which the gateway owns the fields that it writes.
pub const FIELD_MANAGER: &'static str = "deploy-gateway";

/// What a caller reads when the image is refused.
pub const IMAGE_REFUSED: &'static str = "only allowed images can be deployed";

/// Why the guard turned a request down.
#[derive(Clone, Copy, Debug, PartialEq, Eq, Structural)]
pub enum Denial {
    /// The application is not among the caller's applications.
    AppNotAllowed,
    /// The image reference is malformed, or its repository is not among the
    /// caller's image repositories.
    ImageNotAllowed,
}

impl UserView {
    /// Whether `name` is one of the caller's applications, letter for letter.
    pub open spec fn allows_app(self, name: Seq<char>) -> bool {
        self.allowed_apps.contains(name)
    }

    /// Whether `image` names a repository and that repository is one of the
    /// caller's, letter for letter.
    pub open spec fn allows_image(self, image: Seq<char>) -> bool {
        match repository_of(image) {
            Some(repository) => self.allowed_images.contains(repository),
            None => false,
        }
    }
}

/// The guard's verdict on a request for `app_name` and `image`. The
/// application is checked first.
pub open spec fn authorization(user: UserView, app_name: Seq<char>, image: Seq<char>) -> Result<
    (),
    Denial,
> {
    if !user.allows_app(app_name) {
        Err(Denial::AppNotAllowed)
    } else if !user.allows_image(image) {
        Err(Denial::ImageNotAllowed)
    } else {
        Ok(())
    }
}

/// The body that tells a caller which image repositories it may deploy.
pub open spec fn image_refusal(allowed_images: Seq<Seq<char>>) -> JsonModel {
    JsonModel::Object(
        seq![
            ("status"@, JsonModel::Integer(BAD_REQUEST as int)),
            ("error"@, JsonModel::Text(IMAGE_REFUSED@)),
            ("allowed_images"@, JsonModel::Array(text_models(allowed_images))),
        ],
    )
}

/// How a denial is told to the caller `user`. A refused application is a bare
/// 403, which says nothing of what the caller may touch. A refused image is a
/// 400 that lists the caller's own image repositories.
pub open spec fn denial_response(user: UserView, denial: Denial) -> ResponseView {
    match denial {
        Denial::AppNotAllowed => ResponseView::bare(FORBIDDEN),
        Denial::ImageNotAllowed => ResponseView {
            status: BAD_REQUEST,
            body: BodyView::Json(image_refusal(user.allowed_images)),
        },
    }
}

/// Whether `name` occurs in `names`.
fn listed(names: &Vec<String>, name: &str) -> (found: bool)
    ensures
        found == string_views(names@).contains(name@),
{
    let wanted: String = name.to_owned();
    let mut i: usize = 0;
    while i < names.len()
        invariant
            i <= names.len(),
            wanted@ == name@,
            forall|j: int| 0 <= j < i ==> string_views(names@)[j] != name@,
        decreases names.len() - i,
    {
        if names[i] == wanted {
            assert(string_views(names@)[i as int] == name@);
            return true;
        }
        i += 1;
    }
    false
}

impl User {
    /// Whether `name` is one of this caller's applications.
    pub fn allows_app(&self, name: &str) -> (allowed: bool)
        ensures
            allowed == self@.allows_app(name@),
    {
        listed(&self.allowed_apps, name)
    }

    /// Whether `image` names a repository that is one of this caller's.
    pub fn allows_image(&self, image: &str) -> (allowed: bool)
        ensures
            allowed == self@.allows_image(image@),
    {
        match image_repository(image) {
            Some(repository) => listed(&self.allowed_images, repository),
            None => false,
        }
    }
}

/// The guard: whether `user` may deploy `image` to the application
/// `app_name`, and if not, why.
pub fn authorize(user: &User, app_name: &str, image: &str) -> (verdict: Result<(), Denial>)
    ensures
        verdict == authorization(user@, app_name@, image@),
{
    if !user.allows_app(app_name) {
        Err(Denial::AppNotAllowed)
    } else if !user.allows_image(image) {
        Err(Denial::ImageNotAllowed)
    } else {
        Ok(())
    }
}

/// The response that tells `user` of `denial`.
pub fn deny(user: &User, denial: Denial) -> (response: Response)
    ensures
        response@ == denial_response(user@, denial),
{
    match denial {
        Denial::AppNotAllowed => Response::bare(FORBIDDEN),
        Denial::ImageNotAllowed => {
            let status = JsonValue::Integer(BAD_REQUEST as i128);
            let error = JsonValue::text(IMAGE_REFUSED);
            let allowed = JsonValue::texts(&user.allowed_images);
            let ghost wanted = seq![
                ("status"@, status@),
                ("error"@, error@),
                ("allowed_images"@, allowed@),
            ];
            let mut members: Vec<(String, JsonValue)> = Vec::new();
            members.push(("status".to_owned(), status));
            members.push(("error".to_owned(), error));
            members.push(("allowed_images".to_owned(), allowed));
            assert(member_models(members@) =~= wanted);
            Response { status: BAD_REQUEST, body: Body::Json(JsonValue::object(members)) }
        },
    }
}

/// Lets the request through where `name` is one of the caller's
/// applications; else the response is a bare 403.
pub fn validate_allowed_app(user: &User, name: &str) -> (verdict: Result<(), Response>)
    ensures
        match verdict {
            Ok(_) => user@.allows_app(name@),
            Err(response) => !user@.allows_app(name@) && response@ == denial_response(
                user@,
                Denial::AppNotAllowed,
            ),
        },
{
    if user.allows_app(name) {
        Ok(())
    } else {
        Err(deny(user, Denial::AppNotAllowed))
    }
}

/// Lets the request through where `image` names one of the caller's image
/// repositories; else the response is a 400 that lists them.
pub fn validate_allowed_image(user: &User, image: &str) -> (verdict: Result<(), Response>)
    ensures
        match verdict {
            Ok(_) => user@.allows_image(image@),
            Err(response) => !user@.allows_image(image@) && response@ == denial_response(
                user@,
                Denial::ImageNotAllowed,
            ),
        },
{
    if user.allows_image(image) {
        Ok(())
    } else {
        Err(deny(user, Denial::ImageNotAllowed))
    }
}

/// The parameters of every patch that the gateway sends: the real thing, no
/// forcing, the gateway's own field manager, strict validation.
pub open spec fn patch_params() -> PatchParamsView {
    PatchParamsView {
        dry_run: false,
        force: false,
        field_manager: Some(FIELD_MANAGER@),
        field_validation: Some(ValidationDirective::Strict),
    }
}

/// The patch document that sets the image of the container
/// `container_name` to `image`, to be pulled only if the node does not hold
/// it. It names no other field.
pub open spec fn image_patch(container_name: Seq<char>, image: Seq<char>) -> JsonModel {
    JsonModel::Object(
        seq![
            ("apiVersion"@, JsonModel::Text("apps/v1"@)),
            ("kind"@, JsonModel::Text("Deployment"@)),
            (
                "spec"@,
                JsonModel::singleton(
                    "template"@,
                    JsonModel::singleton(
                        "spec"@,
                        JsonModel::singleton(
                            "containers"@,
                            JsonModel::Array(
                                seq![
                                    JsonModel::Object(
                                        seq![
                                            ("name"@, JsonModel::Text(container_name)),
                                            ("image"@, JsonModel::Text(image)),
                                            ("imagePullPolicy"@, JsonModel::Text("IfNotPresent"@)),
                                        ],
                                    ),
                                ],
                            ),
                        ),
                    ),
                ),
            ),
        ],
    )
}

/// The call that sets the image of the container `container_name` of the
/// Deployment `deployment_name` in `namespace` to `image`, as a server-side
/// apply.
pub open spec fn image_patch_call(
    namespace: Option<Seq<char>>,
    deployment_name: Seq<char>,
    image: Seq<char>,
    container_name: Seq<char>,
) -> ClusterCallView {
    ClusterCallView::Patch {
        namespace,
        name: deployment_name,
        params: patch_params(),
        patch: PatchView::Apply(image_patch(container_name, image)),
    }
}

/// An owned copy of `namespace`.
fn owned_namespace(namespace: Option<&str>) -> (owned: Option<String>)
    ensures
        match owned {
            Some(owned) => optional_str_view(namespace) == Some(owned@),
            None => namespace is None,
        },
{
    match namespace {
        Some(namespace) => Some(namespace.to_owned()),
        None => None,
    }
}

/// The workload mutator: the one call that sets the image of the container
/// `container_name` of the Deployment `deployment_name` in `namespace` to
/// `image`.
///
/// The call is the same for the same names, so that sending it again asks the
/// cluster for nothing new.
pub fn patch_deployment_image(
    namespace: Option<&str>,
    deployment_name: &str,
    image: &str,
    container_name: &str,
) -> (call: ClusterCall)
    ensures
        call@ == image_patch_call(
            optional_str_view(namespace),
            deployment_name@,
            image@,
            container_name@,
        ),
{
    let name = JsonValue::text(container_name);
    let wanted = JsonValue::text(image);
    let policy = JsonValue::text("IfNotPresent");
    let ghost fields = seq![("name"@, name@), ("image"@, wanted@), ("imagePullPolicy"@, policy@)];
    let mut container: Vec<(String, JsonValue)> = Vec::new();
    container.push(("name".to_owned(), name));
    container.push(("image".to_owned(), wanted));
    container.push(("imagePullPolicy".to_owned(), policy));
    assert(member_models(container@) =~= fields);
    let container = JsonValue::object(container);

    let ghost listed = seq![container@];
    let mut containers: Vec<JsonValue> = Vec::new();
    containers.push(container);
    assert(models(containers@) =~= listed);
    let containers = JsonValue::array(containers);

    let pod = JsonValue::singleton("containers", containers);
    let template = JsonValue::singleton("spec", pod);
    let spec = JsonValue::singleton("template", template);

    let version = JsonValue::text("apps/v1");
    let kind = JsonValue::text("Deployment");
    let ghost top = seq![("apiVersion"@, version@), ("kind"@, kind@), ("spec"@, spec@)];
    let mut document: Vec<(String, JsonValue)> = Vec::new();
    document.push(("apiVersion".to_owned(), version));
    document.push(("kind".to_owned(), kind));
    document.push(("spec".to_owned(), spec));
    assert(member_models(document@) =~= top);

    ClusterCall::Patch {
        namespace: owned_namespace(namespace),
        name: deployment_name.to_owned(),
        params: PatchParams {
            dry_run: false,
            force: false,
            field_manager: Some(FIELD_MANAGER.to_owned()),
            field_validation: Some(ValidationDirective::Strict),
        },
        patch: Patch::Apply(JsonValue::object(document)),
    }
}

/// The call that reads the Deployment `name` in `namespace`.
pub fn get_deployment(namespace: Option<&str>, name: &str) -> (call: ClusterCall)
    ensures
        call@ == (ClusterCallView::Get { namespace: optional_str_view(namespace), name: name@ }),
{
    ClusterCall::Get { namespace: owned_namespace(namespace), name: name.to_owned() }
}

/// A member of a workload as the caller may see it: `metadata` without what
/// it holds under `managedFields`, any other member as it is.
pub open spec fn scrubbed_member(member: (Seq<char>, JsonModel)) -> (Seq<char>, JsonModel) {
    if member.0 == "metadata"@ {
        (member.0, member.1.without_member("managedFields"@))
    } else {
        member
    }
}

/// A workload as the caller may see it: without the record of who owns which
/// field, which the cluster keeps under `metadata.managedFields`. The rest is
/// untouched.
pub open spec fn scrubbed(workload: JsonModel) -> JsonModel {
    match workload {
        JsonModel::Object(members) => JsonModel::Object(
            members.map_values(|member: (Seq<char>, JsonModel)| scrubbed_member(member)),
        ),
        _ => workload,
    }
}

/// The workload `deployment` as the caller may see it.
pub fn deployment_to_json(deployment: JsonValue) -> (document: JsonValue)
    ensures
        document@ == scrubbed(deployment@),
{
    match deployment {
        JsonValue::Object(members) => {
            let metadata: String = "metadata".to_owned();
            let ghost all = member_models(members@);
            let mut kept: Vec<(String, JsonValue)> = Vec::new();
            proof {
                lemma_object_view(members);
            }
            for member in it: members
                invariant
                    metadata@ == "metadata"@,
                    member_models(it.seq()) == all,
                    member_models(kept@) =~= all.take(it.index() as int).map_values(
                        |member: (Seq<char>, JsonModel)| scrubbed_member(member),
                    ),
            {
                let ghost before = kept@;
                let ghost current = (member.0@, member.1@);
                assert(all[it.index() as int] == current);
                let (name, value) = member;
                if name == metadata {
                    kept.push((name, value.without_member("managedFields")));
                } else {
                    kept.push((name, value));
                }
                assert(member_models(kept@) =~= member_models(before).push(
                    scrubbed_member(current),
                ));
            }
            assert(all.take(all.len() as int) =~= all);
            JsonValue::object(kept)
        },
        other => other,
    }
}

/// What comes back to the caller as a workload holds no member
/// `managedFields` under any member `metadata`.
pub proof fn lemma_scrubbed_hides_managed_fields(workload: JsonModel, at: int)
    requires
        workload is Object,
        0 <= at < workload->Object_0.len(),
        workload->Object_0[at].0 == "metadata"@,
    ensures
        scrubbed(workload) is Object,
        scrubbed(workload)->Object_0.len() == workload->Object_0.len(),
        scrubbed(workload)->Object_0[at].0 == "metadata"@,
        !scrubbed(workload)->Object_0[at].1.has_member("managedFields"@),
{
    let metadata = workload->Object_0[at].1;
    if metadata is Object {
        let members = metadata->Object_0;
        let keep = not_called("managedFields"@);
        assert forall|i: int| 0 <= i < members.filter(keep).len() implies (
        #[trigger] members.filter(keep)[i]).0 != "managedFields"@ by {
            members.lemma_filter_pred(keep, i);
        }
    }
}

/// What the caller is told once the cluster has answered: the workload,
/// scrubbed, as a success; a structured error under the cluster's own status
/// and with the cluster's own message; a bare 500 for anything else.
pub open spec fn response_to(outcome: ClusterOutcomeView) -> ResponseView {
    match outcome {
        ClusterOutcomeView::Workload(workload) => ResponseView::success(scrubbed(workload)),
        ClusterOutcomeView::ApiError { code, message } => if is_status_code(code) {
            ResponseView { status: code, body: BodyView::Text(message) }
        } else {
            ResponseView::internal_error()
        },
        ClusterOutcomeView::Failure => ResponseView::internal_error(),
    }
}

/// The last step of both handlers: the response to the caller, given how the
/// call to the cluster ended.
pub fn respond(outcome: ClusterOutcome) -> (response: Response)
    ensures
        response@ == response_to(outcome@),
{
    match outcome {
        ClusterOutcome::Workload(workload) => Response::success(deployment_to_json(workload)),
        ClusterOutcome::ApiError { code, message } => match relayed_status(code) {
            Some(status) => Response { status, body: Body::Text(message) },
            None => Response::bare(INTERNAL_SERVER_ERROR),
        },
        ClusterOutcome::Failure => Response::bare(INTERNAL_SERVER_ERROR),
    }
}

/// The cluster's own words reach the caller only as the message of an error
/// that the cluster reported with an HTTP status, under that status. Any
/// other failure is a bare 500.
pub proof fn lemma_only_cluster_errors_are_relayed(outcome: ClusterOutcomeView)
    ensures
        response_to(outcome).body matches BodyView::Text(message) ==> outcome
            == (ClusterOutcomeView::ApiError { code: response_to(outcome).status, message }),
        outcome is Failure ==> response_to(outcome) == ResponseView::internal_error(),
        outcome matches ClusterOutcomeView::ApiError { code, .. } ==> (response_to(outcome).status
            == code || response_to(outcome) == ResponseView::internal_error()),
{
}

/// What a handler decided before anything was asked of the cluster, seen
/// through the views of its parts.
pub open spec fn step_view(step: Result<ClusterCall, Response>) -> Result<
    ClusterCallView,
    ResponseView,
> {
    match step {
        Ok(call) => Ok(call@),
        Err(response) => Err(response@),
    }
}

/// What the query handler decides for the application `name`: to read the
/// Deployment, where the caller may touch the application; else to answer
/// with the denial.
pub open spec fn query_plan(config: ConfigView, user: UserView, name: Seq<char>) -> Result<
    ClusterCallView,
    ResponseView,
> {
    if user.allows_app(name) {
        Ok(ClusterCallView::Get { namespace: config.namespace, name })
    } else {
        Err(denial_response(user, Denial::AppNotAllowed))
    }
}

/// What the deploy handler decides for the application `name`: to patch the
/// Deployment, where the guard lets the request through; else to answer with
/// the denial. The container is the one that the query names, or the one
/// called like the application.
pub open spec fn deploy_plan(
    config: ConfigView,
    user: UserView,
    name: Seq<char>,
    query: DeployQueryView,
) -> Result<ClusterCallView, ResponseView> {
    match authorization(user, name, query.image) {
        Ok(_) => Ok(
            image_patch_call(
                config.namespace,
                name,
                query.image,
                match query.container {
                    Some(container) => container,
                    None => name,
                },
            ),
        ),
        Err(denial) => Err(denial_response(user, denial)),
    }
}

/// The namespace that `config` names, if it names one.
fn namespace_of(config: &Config) -> (namespace: Option<&str>)
    ensures
        optional_str_view(namespace) == config@.namespace,
{
    match &config.namespace {
        Some(namespace) => Some(namespace.as_str()),
        None => None,
    }
}

/// The query handler, up to the call to the cluster: the caller `user` asks
/// for the Deployment of the application `name`.
pub fn query(config: &Config, user: &User, name: &str) -> (step: Result<ClusterCall, Response>)
    ensures
        step_view(step) == query_plan(config@, user@, name@),
{
    match validate_allowed_app(user, name) {
        Ok(_) => Ok(get_deployment(namespace_of(config), name)),
        Err(response) => Err(response),
    }
}

/// The deploy handler, up to the call to the cluster: the caller `user` asks
/// to set an image in the Deployment of the application `name`.
pub fn deploy(config: &Config, user: &User, name: &str, query: &DeployQuery) -> (step: Result<
    ClusterCall,
    Response,
>)
    ensures
        step_view(step) == deploy_plan(config@, user@, name@, query@),
{
    match validate_allowed_app(user, name) {
        Ok(_) => {},
        Err(response) => {
            return Err(response);
        },
    }
    match validate_allowed_image(user, query.image.as_str()) {
        Ok(_) => {},
        Err(response) => {
            return Err(response);
        },
    }
    let container_name = match &query.container {
        Some(container) => container.as_str(),
        None => name,
    };
    Ok(patch_deployment_image(namespace_of(config), name, query.image.as_str(), container_name))
}

} // verus!
