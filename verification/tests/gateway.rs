use deploy_gateway::auth::{IdentityDocument, IdentityReply, IdentityRequest};
use deploy_gateway::controllers::respond;
use deploy_gateway::gateway::{authenticate, proceed, Operation};
use deploy_gateway::json::JsonValue;
use deploy_gateway::models::{
    Body, CapabilitySchema, ClusterCall, ClusterOutcome, Config, DeployQuery, Patch, PatchParams,
    Response, ValidationDirective,
};
use url::Url;

fn config(capability_schema: CapabilitySchema) -> Config {
    Config {
        openid_uri: Url::parse("https://id.example.com/userinfo").unwrap(),
        capability_schema,
        namespace: None,
    }
}

fn config_in(namespace: &str) -> Config {
    Config {
        openid_uri: Url::parse("https://id.example.com/userinfo").unwrap(),
        capability_schema: CapabilitySchema::Flat,
        namespace: Some(namespace.to_string()),
    }
}

fn strings(items: &[&str]) -> Vec<String> {
    items.iter().map(|item| item.to_string()).collect()
}

fn object(members: Vec<(&str, JsonValue)>) -> JsonValue {
    JsonValue::Object(members.into_iter().map(|(name, value)| (name.to_string(), value)).collect())
}

fn text(value: &str) -> JsonValue {
    JsonValue::Text(value.to_string())
}

fn checkout_and_nginx() -> IdentityReply {
    IdentityReply::Answered {
        status: 200,
        document: Some(IdentityDocument::Flat {
            allowed_apps: strings(&["checkout"]),
            allowed_images: strings(&["nginx"]),
        }),
    }
}

fn rejected(status: u16) -> IdentityReply {
    IdentityReply::Answered { status, document: None }
}

fn read(name: &str) -> Operation {
    Operation::Query { name: name.to_string() }
}

fn set_image(name: &str, image: &str) -> Operation {
    Operation::Deploy {
        name: name.to_string(),
        query: DeployQuery { image: image.to_string(), container: None },
    }
}

fn bare(status: u16) -> Response {
    Response { status, body: Body::Empty }
}

fn member<'a>(document: &'a JsonValue, name: &str) -> &'a JsonValue {
    match document {
        JsonValue::Object(members) => {
            match members.iter().find(|(member, _)| member == name) {
                Some((_, value)) => value,
                None => panic!("no member {name}"),
            }
        }
        _ => panic!("no object"),
    }
}

#[test]
fn request_without_token_is_answered_before_anything_is_sent() {
    assert_eq!(authenticate(&config(CapabilitySchema::Flat), None), Err(bare(401)));
}

#[test]
fn request_with_token_asks_the_identity_provider() {
    assert_eq!(
        authenticate(&config(CapabilitySchema::Flat), Some("Bearer t0ken")),
        Ok(IdentityRequest {
            url: Url::parse("https://id.example.com/userinfo").unwrap(),
            authorization: "Bearer t0ken".to_string(),
            schema: CapabilitySchema::Flat,
        })
    );
}

#[test]
fn rejected_token_is_unauthenticated_for_query_and_deploy() {
    assert_eq!(proceed(&config(CapabilitySchema::Flat), &read("checkout"), rejected(401)), Err(bare(401)));
    assert_eq!(
        proceed(&config(CapabilitySchema::Flat), &set_image("checkout", "nginx:1.25"), rejected(401)),
        Err(bare(401))
    );
    assert_eq!(
        proceed(&config(CapabilitySchema::Grouped), &set_image("checkout", "nginx"), rejected(401)),
        Err(bare(401))
    );
}

#[test]
fn denied_caller_is_forbidden_for_query_and_deploy() {
    assert_eq!(proceed(&config(CapabilitySchema::Flat), &read("checkout"), rejected(403)), Err(bare(403)));
    assert_eq!(
        proceed(&config(CapabilitySchema::Flat), &set_image("checkout", "nginx:1.25"), rejected(403)),
        Err(bare(403))
    );
}

#[test]
fn failing_identity_provider_is_an_internal_error() {
    assert_eq!(proceed(&config(CapabilitySchema::Flat), &read("checkout"), rejected(500)), Err(bare(500)));
    assert_eq!(
        proceed(&config(CapabilitySchema::Flat), &read("checkout"), IdentityReply::Unreachable),
        Err(bare(500))
    );
    assert_eq!(
        proceed(&config(CapabilitySchema::Grouped), &read("checkout"), checkout_and_nginx()),
        Err(bare(500))
    );
}

#[test]
fn unlisted_application_is_forbidden_whatever_the_image() {
    assert_eq!(
        proceed(&config(CapabilitySchema::Flat), &read("billing"), checkout_and_nginx()),
        Err(bare(403))
    );
    for image in ["nginx:1.25", "redis:7", "nginx", "", ":"] {
        assert_eq!(
            proceed(&config(CapabilitySchema::Flat), &set_image("billing", image), checkout_and_nginx()),
            Err(bare(403))
        );
    }
}

#[test]
fn unlisted_image_is_refused_with_the_callers_own_list() {
    let reply = IdentityReply::Answered {
        status: 200,
        document: Some(IdentityDocument::Grouped {
            groups: strings(&["checkout"]),
            allowed_images: strings(&["nginx", "registry.example.com/team/app"]),
        }),
    };
    match proceed(&config(CapabilitySchema::Grouped), &set_image("checkout", "postgres:16"), reply) {
        Err(Response { status, body: Body::Json(body) }) => {
            assert_eq!(status, 400);
            assert_eq!(
                member(&body, "allowed_images"),
                &JsonValue::Array(vec![text("nginx"), text("registry.example.com/team/app")])
            );
        }
        other => panic!("{other:?}"),
    }
}

#[test]
fn same_request_sends_the_same_call_again() {
    let first = proceed(&config(CapabilitySchema::Flat),
        &set_image("checkout", "nginx:1.25"),
        checkout_and_nginx(),
    );
    let second = proceed(&config(CapabilitySchema::Flat),
        &set_image("checkout", "nginx:1.25"),
        IdentityReply::Answered {
            status: 204,
            document: Some(IdentityDocument::Flat {
                allowed_apps: strings(&["cart", "checkout"]),
                allowed_images: strings(&["redis", "nginx"]),
            }),
        },
    );
    assert!(first.is_ok());
    assert_eq!(first, second);
}

#[test]
fn deploy_of_an_allowed_image_ends_in_a_success() {
    let step =
        proceed(&config(CapabilitySchema::Flat), &set_image("checkout", "nginx:1.25"), checkout_and_nginx());
    let document = match step {
        Ok(ClusterCall::Patch { namespace, name, params, patch: Patch::Apply(document) }) => {
            assert_eq!(namespace, None);
            assert_eq!(name, "checkout");
            assert_eq!(
                params,
                PatchParams {
                    dry_run: false,
                    force: false,
                    field_manager: Some("deploy-gateway".to_string()),
                    field_validation: Some(ValidationDirective::Strict),
                }
            );
            document
        }
        other => panic!("{other:?}"),
    };
    let containers = member(member(member(member(&document, "spec"), "template"), "spec"), "containers");
    assert_eq!(
        containers,
        &JsonValue::Array(vec![object(vec![
            ("name", text("checkout")),
            ("image", text("nginx:1.25")),
            ("imagePullPolicy", text("IfNotPresent")),
        ])])
    );

    let patched = object(vec![
        ("apiVersion", text("apps/v1")),
        ("kind", text("Deployment")),
        (
            "metadata",
            object(vec![
                ("name", text("checkout")),
                ("managedFields", JsonValue::Array(vec![object(vec![("manager", text("deploy-gateway"))])])),
            ]),
        ),
        (
            "spec",
            object(vec![(
                "template",
                object(vec![(
                    "spec",
                    object(vec![(
                        "containers",
                        JsonValue::Array(vec![object(vec![
                            ("name", text("checkout")),
                            ("image", text("nginx:1.25")),
                            ("imagePullPolicy", text("IfNotPresent")),
                        ])]),
                    )]),
                )]),
            )]),
        ),
    ]);
    match respond(ClusterOutcome::Workload(patched)) {
        Response { status, body: Body::Json(body) } => {
            assert_eq!(status, 200);
            assert_eq!(member(&body, "metadata"), &object(vec![("name", text("checkout"))]));
            let container = match member(
                member(member(member(&body, "spec"), "template"), "spec"),
                "containers",
            ) {
                JsonValue::Array(containers) => &containers[0],
                other => panic!("{other:?}"),
            };
            assert_eq!(member(container, "image"), &text("nginx:1.25"));
            assert_eq!(member(container, "imagePullPolicy"), &text("IfNotPresent"));
        }
        other => panic!("{other:?}"),
    }
}

#[test]
fn deploy_of_an_unlisted_image_is_a_bad_request() {
    assert_eq!(
        proceed(&config(CapabilitySchema::Flat), &set_image("checkout", "redis:7"), checkout_and_nginx()),
        Err(Response {
            status: 400,
            body: Body::Json(object(vec![
                ("status", JsonValue::Integer(400)),
                ("error", text("only allowed images can be deployed")),
                ("allowed_images", JsonValue::Array(vec![text("nginx")])),
            ])),
        })
    );
}

#[test]
fn query_of_a_missing_deployment_relays_not_found() {
    let reply = IdentityReply::Answered {
        status: 200,
        document: Some(IdentityDocument::Flat {
            allowed_apps: strings(&["checkout", "missing-app"]),
            allowed_images: strings(&["nginx"]),
        }),
    };
    assert_eq!(
        proceed(&config(CapabilitySchema::Flat), &read("missing-app"), reply),
        Ok(ClusterCall::Get { namespace: None, name: "missing-app".to_string() })
    );
    assert_eq!(
        respond(ClusterOutcome::ApiError {
            code: 404,
            message: "deployments.apps \"missing-app\" not found".to_string(),
        }),
        Response {
            status: 404,
            body: Body::Text("deployments.apps \"missing-app\" not found".to_string()),
        }
    );
}

#[test]
fn calls_go_to_the_namespace_that_was_set_up() {
    assert_eq!(
        proceed(&config_in("shop"), &read("checkout"), checkout_and_nginx()),
        Ok(ClusterCall::Get { namespace: Some("shop".to_string()), name: "checkout".to_string() })
    );
    match proceed(&config_in("shop"), &set_image("checkout", "nginx:1.25"), checkout_and_nginx()) {
        Ok(ClusterCall::Patch { namespace, name, .. }) => {
            assert_eq!(namespace, Some("shop".to_string()));
            assert_eq!(name, "checkout");
        }
        other => panic!("{other:?}"),
    }
}
