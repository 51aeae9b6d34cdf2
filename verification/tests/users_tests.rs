use rustlang_rocket_mongodb::error::Status;
use rustlang_rocket_mongodb::object_id::StoreId;
use rustlang_rocket_mongodb::store::Request;
use rustlang_rocket_mongodb::users::handler::{self, error_status};
use rustlang_rocket_mongodb::users::repository;
use rustlang_rocket_mongodb::users::{InsertableUser, User, UsersError, COLLECTION};

const ID: &str = "5f8d0d55b54764421b7156c3";

fn chacha() -> User {
    User { id: None, name: Some("chacha".to_string()), color: Some("black".to_string()), age: Some(3) }
}

#[test]
fn the_collection_is_named_users() {
    assert_eq!(COLLECTION, "users");
}

#[test]
fn from_user_leaves_the_identifier_out() {
    let user = User { id: Some(StoreId::parse_str(ID).unwrap()), ..chacha() };
    assert_eq!(
        InsertableUser::from_user(user),
        InsertableUser { name: Some("chacha".to_string()), color: Some("black".to_string()), age: Some(3) }
    );
}

#[test]
fn repository_requests() {
    let id = StoreId::parse_str(ID).unwrap();
    assert_eq!(repository::all(), Request::List);
    assert_eq!(repository::get(id), Request::FindById(id));
    assert_eq!(repository::insert(chacha()), Request::Insert(InsertableUser::from_user(chacha())));
    assert_eq!(repository::delete(id), Request::Delete(id));
    assert_eq!(repository::delete_all(), Request::Clear);
}

#[test]
fn update_replaces_the_record_under_the_identifier() {
    let id = StoreId::parse_str(ID).unwrap();
    let other = StoreId::from_bytes([9; 12]);
    let sent = User { id: Some(other), name: Some("chichi".to_string()), color: None, age: None };
    assert_eq!(
        repository::update(id, sent),
        Request::Replace(id, User { id: Some(id), name: Some("chichi".to_string()), color: None, age: None })
    );
}

#[test]
fn error_status_of_each_error() {
    assert_eq!(error_status(UsersError::CursorNotFound), Status::NotFound);
    assert_eq!(error_status(UsersError::UnreadableId), Status::InternalServerError);
    assert_eq!(error_status(UsersError::Conversion), Status::InternalServerError);
    assert_eq!(error_status(UsersError::Store), Status::InternalServerError);
}

#[test]
fn handlers_with_a_good_identifier() {
    let id = StoreId::parse_str(ID).unwrap();
    assert_eq!(handler::all(), Request::List);
    assert_eq!(handler::get(ID), Ok(Request::FindById(id)));
    assert_eq!(handler::post(chacha()), Request::Insert(InsertableUser::from_user(chacha())));
    assert_eq!(handler::put(ID, chacha()), Ok(Request::Replace(id, User { id: Some(id), ..chacha() })));
    assert_eq!(handler::delete(ID), Ok(Request::Delete(id)));
    assert_eq!(handler::delete_all(), Request::Clear);
}

#[test]
fn handlers_with_a_bad_identifier_fail_as_the_server() {
    assert_eq!(handler::get("nonsense"), Err(Status::InternalServerError));
    assert_eq!(handler::put("nonsense", chacha()), Err(Status::InternalServerError));
    assert_eq!(handler::delete(""), Err(Status::InternalServerError));
}

#[test]
fn answered_passes_the_answer_or_the_status() {
    assert_eq!(handler::answered(Ok(true)), Ok(true));
    assert_eq!(handler::answered::<bool>(Err(UsersError::CursorNotFound)), Err(Status::NotFound));
    assert_eq!(handler::answered::<bool>(Err(UsersError::Store)), Err(Status::InternalServerError));
}

#[test]
fn got_reports_a_missing_record_as_not_found() {
    assert_eq!(handler::got(Ok(Some(chacha()))), Ok(chacha()));
    assert_eq!(handler::got(Ok(None)), Err(Status::NotFound));
    assert_eq!(handler::got(Err(UsersError::CursorNotFound)), Err(Status::NotFound));
    assert_eq!(handler::got(Err(UsersError::Store)), Err(Status::InternalServerError));
}

#[test]
fn inserted_wants_an_identifier() {
    let id = StoreId::parse_str(ID).unwrap();
    assert_eq!(repository::inserted(Ok(Some(id))), Ok(id));
    assert_eq!(repository::inserted(Ok(None)), Err(UsersError::Conversion));
    assert_eq!(repository::inserted(Err(UsersError::Store)), Err(UsersError::Store));
}

#[test]
fn replaced_gives_the_record_that_was_put() {
    let id = StoreId::parse_str(ID).unwrap();
    let request = repository::update(id, chacha());
    assert_eq!(repository::replaced(request.clone(), Ok(1)), Ok(User { id: Some(id), ..chacha() }));
    assert_eq!(repository::replaced(request.clone(), Ok(0)), Ok(User { id: Some(id), ..chacha() }));
    assert_eq!(repository::replaced(request, Err(UsersError::Store)), Err(UsersError::Store));
    assert_eq!(repository::replaced(repository::all(), Ok(1)), Err(UsersError::Conversion));
}
