use rustlang_rocket_mongodb::error::Status;
use rustlang_rocket_mongodb::object_id::StoreId;
use rustlang_rocket_mongodb::store::Request;
use rustlang_rocket_mongodb::users::handler;
use rustlang_rocket_mongodb::users::repository;
use rustlang_rocket_mongodb::users::{InsertableUser, User, UsersError};

/// The collection of plain user records in memory, which serves requests as
/// the store does.
struct Shelf {
    records: Vec<User>,
    given: u8,
}

impl Shelf {
    fn new() -> Shelf {
        Shelf { records: Vec::new(), given: 0 }
    }

    fn position(&self, id: &StoreId) -> Option<usize> {
        self.records.iter().position(|r| r.id.as_ref() == Some(id))
    }

    fn insert(&mut self, request: Request<InsertableUser>) -> Result<Option<StoreId>, UsersError> {
        match request {
            Request::Insert(record) => {
                self.given += 1;
                let id = StoreId::from_bytes([self.given; 12]);
                self.records.push(User { id: Some(id), name: record.name, color: record.color, age: record.age });
                Ok(Some(id))
            }
            other => panic!("not an insertion: {:?}", other),
        }
    }

    fn find(&self, request: Request<User>) -> Result<Option<User>, UsersError> {
        match request {
            Request::FindById(id) => Ok(self.position(&id).map(|i| self.records[i].clone())),
            other => panic!("not a lookup: {:?}", other),
        }
    }

    fn list(&self, request: Request<User>) -> Result<Vec<User>, UsersError> {
        match request {
            Request::List => Ok(self.records.clone()),
            other => panic!("not a listing: {:?}", other),
        }
    }

    fn count(&mut self, request: Request<User>) -> Result<u64, UsersError> {
        match request {
            Request::Replace(id, record) => match self.position(&id) {
                Some(i) => {
                    self.records[i] = record;
                    Ok(1)
                }
                None => Ok(0),
            },
            Request::Delete(id) => match self.position(&id) {
                Some(i) => {
                    self.records.remove(i);
                    Ok(1)
                }
                None => Ok(0),
            },
            other => panic!("not a write: {:?}", other),
        }
    }

    fn clear(&mut self, request: Request<User>) -> Result<(), UsersError> {
        match request {
            Request::Clear => {
                self.records.clear();
                Ok(())
            }
            other => panic!("not a clearing: {:?}", other),
        }
    }
}

fn named(name: &str) -> User {
    User { id: None, name: Some(name.to_string()), color: None, age: None }
}

fn post(shelf: &mut Shelf, users: User) -> Result<StoreId, Status> {
    handler::answered(repository::inserted(shelf.insert(handler::post(users))))
}

fn get(shelf: &Shelf, id: &str) -> Result<User, Status> {
    handler::got(shelf.find(handler::get(id)?))
}

fn clear(shelf: &mut Shelf) -> Result<bool, Status> {
    handler::cleared(shelf.clear(handler::delete_all()))
}

#[test]
fn get_users() {
    let shelf = Shelf::new();
    let response = handler::answered(shelf.list(handler::all()));
    assert_eq!(response, Ok(Vec::new()));
}

#[test]
fn get_user() {
    let mut shelf = Shelf::new();
    let response = post(&mut shelf, named("chacha"));
    assert!(response.is_ok());

    let id = response.unwrap().to_hex();
    let response = get(&shelf, &id);
    assert!(response.is_ok());
    assert_eq!(response.unwrap().id.map(|i| i.to_hex()), Some(id));
    assert_eq!(clear(&mut shelf), Ok(true));
}

#[test]
fn post_user() {
    let mut shelf = Shelf::new();
    let response = post(&mut shelf, named("chacha"));
    assert!(response.is_ok());

    let id = response.unwrap().to_hex();
    let response = get(&shelf, &id);
    assert!(response.is_ok());
    let found = response.unwrap();
    assert_eq!(found.id.map(|i| i.to_hex()), Some(id));
    assert_eq!(found.name, Some("chacha".to_string()));
    assert_eq!(clear(&mut shelf), Ok(true));
}

#[test]
fn update_user() {
    let mut shelf = Shelf::new();
    let response = post(&mut shelf, named("chacha"));

    assert!(response.is_ok());
    let id = response.unwrap().to_hex();
    let request = handler::put(&id, named("chichi")).unwrap();
    let reply = shelf.count(request.clone());
    let response = handler::answered(repository::replaced(request, reply));
    assert!(response.is_ok());
    assert_eq!(response.unwrap().name, Some("chichi".to_string()));
    let response = get(&shelf, &id);
    assert!(response.is_ok());
    let found = response.unwrap();
    assert_eq!(found.name, Some("chichi".to_string()));
    assert_eq!(found.id.map(|i| i.to_hex()), Some(id));
    assert_eq!(clear(&mut shelf), Ok(true));
}

#[test]
fn delete_user() {
    let mut shelf = Shelf::new();
    let response = post(&mut shelf, named("chacha"));
    assert!(response.is_ok());

    let id = response.unwrap().to_hex();
    let reply = shelf.count(handler::delete(&id).unwrap());
    let response = handler::deleted(&id, reply);
    assert_eq!(response, Ok(id.clone()));
    assert_eq!(get(&shelf, &id), Err(Status::NotFound));
    assert_eq!(get(&shelf, "nonsense"), Err(Status::InternalServerError));
    assert_eq!(clear(&mut shelf), Ok(true));
}

#[test]
fn delete_all() {
    let mut shelf = Shelf::new();
    assert_eq!(clear(&mut shelf), Ok(true));
    let response = post(&mut shelf, named("chacha"));
    assert!(response.is_ok());
    let response = clear(&mut shelf);
    assert_eq!(response, Ok(true));
    assert_eq!(handler::answered(shelf.list(handler::all())), Ok(Vec::new()));
}

#[test]
fn deleted_gives_the_identifier_back_or_the_status() {
    assert_eq!(handler::deleted("5f8d0d55b54764421b7156c3", Ok(1)), Ok("5f8d0d55b54764421b7156c3".to_string()));
    assert_eq!(handler::deleted("5f8d0d55b54764421b7156c3", Ok(0)), Ok("5f8d0d55b54764421b7156c3".to_string()));
    assert_eq!(handler::deleted("x", Err(UsersError::CursorNotFound)), Err(Status::NotFound));
    assert_eq!(handler::deleted("x", Err(UsersError::Store)), Err(Status::InternalServerError));
}

#[test]
fn cleared_answers_true_or_the_status() {
    assert_eq!(handler::cleared(Ok(())), Ok(true));
    assert_eq!(handler::cleared(Err(UsersError::CursorNotFound)), Err(Status::NotFound));
    assert_eq!(handler::cleared(Err(UsersError::Store)), Err(Status::InternalServerError));
}

#[test]
fn listing_holds_every_record_once() {
    let mut shelf = Shelf::new();
    let first = post(&mut shelf, named("chacha")).unwrap();
    let second = post(&mut shelf, named("chichi")).unwrap();
    let listed = handler::answered(shelf.list(handler::all())).unwrap();
    assert_eq!(listed.len(), 2);
    let ids: Vec<Option<StoreId>> = listed.iter().map(|u| u.id).collect();
    assert!(ids.contains(&Some(first)));
    assert!(ids.contains(&Some(second)));
    assert_eq!(handler::answered(shelf.list(handler::all())), Ok(listed));
}
