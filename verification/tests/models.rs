use deploy_gateway::auth::AuthError;
use deploy_gateway::json::JsonValue;
use deploy_gateway::models::{Body, Response};
use deploy_gateway::status::{
    BAD_REQUEST, FORBIDDEN, INTERNAL_SERVER_ERROR, NOT_FOUND, OK, UNAUTHORIZED,
};

#[test]
fn statuses_have_their_numbers() {
    assert_eq!(OK, 200);
    assert_eq!(BAD_REQUEST, 400);
    assert_eq!(UNAUTHORIZED, 401);
    assert_eq!(FORBIDDEN, 403);
    assert_eq!(NOT_FOUND, 404);
    assert_eq!(INTERNAL_SERVER_ERROR, 500);
}

#[test]
fn bare_response_has_no_body() {
    assert_eq!(Response::bare(403), Response { status: 403, body: Body::Empty });
    assert_eq!(Response::bare(0), Response { status: 0, body: Body::Empty });
}

#[test]
fn success_hands_out_the_document() {
    assert_eq!(
        Response::success(JsonValue::Array(vec![JsonValue::Integer(1)])),
        Response { status: 200, body: Body::Json(JsonValue::Array(vec![JsonValue::Integer(1)])) }
    );
}

#[test]
fn rejection_is_the_bare_status_of_the_error() {
    assert_eq!(
        Response::rejection(AuthError::Unauthenticated),
        Response { status: 401, body: Body::Empty }
    );
    assert_eq!(Response::rejection(AuthError::Forbidden), Response { status: 403, body: Body::Empty });
    assert_eq!(
        Response::rejection(AuthError::InternalError),
        Response { status: 500, body: Body::Empty }
    );
}
