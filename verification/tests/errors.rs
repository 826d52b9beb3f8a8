use blog_server::errors::{respond, Response, ServerError};

const INTERNAL_MESSAGE: &str = "An internal error ocurred. Please try again later.";
const NOT_FOUND_MESSAGE: &str = "The post you are looking for does not exist.";

#[test]
fn status_codes_follow_the_taxonomy() {
    assert_eq!(ServerError::InternalError.status_code(), 500);
    assert_eq!(ServerError::PostNotFound.status_code(), 404);
}

#[test]
fn messages_are_the_fixed_prewritten_ones() {
    assert_eq!(ServerError::InternalError.message(), INTERNAL_MESSAGE);
    assert_eq!(ServerError::PostNotFound.message(), NOT_FOUND_MESSAGE);
}

#[test]
fn error_response_pairs_status_with_message() {
    let resp = ServerError::PostNotFound.error_response();
    assert_eq!(resp.status, 404);
    assert_eq!(resp.body, NOT_FOUND_MESSAGE);

    let resp = ServerError::InternalError.error_response();
    assert_eq!(resp.status, 500);
    assert_eq!(resp.body, INTERNAL_MESSAGE);
}

#[test]
fn respond_passes_a_success_through() {
    let resp = respond(Ok(Response { status: 200, body: "rendered".to_owned() }));
    assert_eq!(resp.status, 200);
    assert_eq!(resp.body, "rendered");
}

#[test]
fn respond_turns_an_error_into_its_fixed_response() {
    let resp = respond(Err(ServerError::InternalError));
    assert_eq!(resp.status, 500);
    assert_eq!(resp.body, INTERNAL_MESSAGE);
}
