use batch_ingest::errors::ApiError;
use batch_ingest::errors::AppError;
use batch_ingest::models::User;
use batch_ingest::user_service::get_current_user;
use batch_ingest::view_models::UserViewModel;

#[test]
fn api_error_new_copies_its_parts() {
    let e = ApiError::new(404, "User not found", "Not Found");
    assert_eq!(e.code, 404);
    assert_eq!(e.message, "User not found");
    assert_eq!(e.status, "Not Found");
}

#[test]
fn fixed_errors_map_to_their_responses() {
    let e = AppError::Unauthorized.to_api_error();
    assert_eq!(e.code, 401);
    assert_eq!(e.message, "Authentication is required to access this resource");
    assert_eq!(e.status, "Unauthorized");

    let e = AppError::Forbidden.to_api_error();
    assert_eq!(e.code, 403);
    assert_eq!(e.message, "User is not authorized to access this resource");
    assert_eq!(e.status, "Forbidden");

    let e = AppError::UnprocessableEntity.to_api_error();
    assert_eq!(e.code, 422);
    assert_eq!(e.message, "Unprocessable entity request");
    assert_eq!(e.status, "Unprocessable Entity");

    let e = AppError::InternalServerError.to_api_error();
    assert_eq!(e.code, 500);
    assert_eq!(e.message, "Internal Server Error");
    assert_eq!(e.status, "Internal Server Error");
}

#[test]
fn message_carrying_errors_keep_their_message() {
    let e = AppError::BadRequest("bad id".to_string()).to_api_error();
    assert_eq!((e.code, e.message.as_str(), e.status.as_str()), (400, "bad id", "Bad Request"));

    let e = AppError::NotFound("no such user".to_string()).to_api_error();
    assert_eq!((e.code, e.message.as_str(), e.status.as_str()), (404, "no such user", "Not Found"));

    let e = AppError::ObjectConflict("taken".to_string()).to_api_error();
    assert_eq!((e.code, e.message.as_str(), e.status.as_str()), (409, "taken", "Conflict"));

    let e = AppError::InternalServerErrorWithMessage("boom".to_string()).to_api_error();
    assert_eq!(
        (e.code, e.message.as_str(), e.status.as_str()),
        (500, "boom", "Internal Server Error")
    );
}

#[test]
fn wrapped_errors_map_to_internal_server_error() {
    let e = AppError::SerdeDynamoError("missing field".to_string()).to_api_error();
    assert_eq!(
        (e.code, e.message.as_str(), e.status.as_str()),
        (500, "Internal Server Error", "Internal Server Error")
    );

    let e = AppError::AnyhowError("wrapped".to_string()).to_api_error();
    assert_eq!(
        (e.code, e.message.as_str(), e.status.as_str()),
        (500, "Internal Server Error", "Internal Server Error")
    );
}

fn sample_user() -> User {
    User::new(
        "ppId123".to_string(),
        "pp@gmail.com".to_string(),
        "pplogin".to_string(),
        "I love to eat".to_string(),
        Some(
            "https://www.pexels.com/photo/selective-focus-photography-of-orange-tabby-cat-1170986"
                .to_string(),
        ),
        "2020-01-01T00:00:00Z".to_string(),
        "2020-01-02T00:00:00Z".to_string(),
    )
}

#[test]
fn found_user_becomes_its_view_model() {
    let res = get_current_user(Some(Ok(sample_user()))).unwrap();
    assert_eq!(
        res,
        UserViewModel {
            id: "ppId123".to_string(),
            email: "pp@gmail.com".to_string(),
            username: "pplogin".to_string(),
            bio: "I love to eat".to_string(),
            image: Some(
                "https://www.pexels.com/photo/selective-focus-photography-of-orange-tabby-cat-1170986"
                    .to_string()
            ),
        }
    );
}

#[test]
fn missing_user_is_not_found() {
    let res = get_current_user(None);
    assert_eq!(res, Err(AppError::NotFound("User not found".to_string())));
}

#[test]
fn undecodable_item_reports_the_decoder_message() {
    let res = get_current_user(Some(Err("missing field `email`".to_string())));
    assert_eq!(res, Err(AppError::SerdeDynamoError("missing field `email`".to_string())));
}

#[test]
fn view_model_conversion_copies_the_public_fields() {
    let vm = UserViewModel::from(sample_user());
    assert_eq!(vm.id, "ppId123");
    assert_eq!(vm.email, "pp@gmail.com");
    assert_eq!(vm.username, "pplogin");
    assert_eq!(vm.bio, "I love to eat");
    assert!(vm.image.is_some());
}
