//! The whole pipeline run against an in-memory stand-in for the store.

use base64::Engine;

use natter::credential::extract_credentials;
use natter::error::Error;
use natter::space::{create_space, space_created_response, Space, SpaceId};
use natter::user::{register_user, resolve_principal, NewUser, Session, User};

struct MemoryStore {
    users: Vec<User>,
    spaces: Vec<Space>,
}

impl MemoryStore {
    fn new() -> MemoryStore {
        MemoryStore { users: Vec::new(), spaces: Vec::new() }
    }

    fn create_user(&mut self, user: User) -> Result<User, Error> {
        if self.users.iter().any(|u| u.user_id == user.user_id) {
            return Err(Error::StoreFailure("duplicate principal id".to_string()));
        }
        self.users.push(user.clone());
        Ok(user)
    }

    fn get_user_by_id(&self, user_id: &str) -> Result<Option<User>, Error> {
        Ok(self.users.iter().find(|u| u.user_id == user_id).cloned())
    }

    fn create_space(&mut self, mut space: Space) -> Result<Space, Error> {
        space.space_id = Some(SpaceId(self.spaces.len() as i64 + 1));
        self.spaces.push(space.clone());
        Ok(space)
    }
}

/// What the authentication middleware does per request: extract the
/// credentials, look the principal up, and build the session.
fn authenticate(store: &MemoryStore, auth_header: Option<&str>) -> Result<Session, Error> {
    match extract_credentials(auth_header) {
        Err(_) => Ok(Session { username: None }),
        Ok((id, secret)) => resolve_principal(&id, &secret, store.get_user_by_id(&id)),
    }
}

fn basic_header(id: &str, secret: &str) -> String {
    let encoded =
        base64::engine::general_purpose::STANDARD.encode(format!("{}:{}", id, secret).as_bytes());
    format!("Basic {}", encoded)
}

#[test]
fn register_then_create_space_as_owner_succeeds_as_other_fails() {
    let mut store = MemoryStore::new();

    // register alice and bob
    for (name, secret) in [("alice", "longpassword"), ("bob", "anotherlongone")] {
        let record = register_user(&NewUser {
            username: name.to_string(),
            password: secret.to_string(),
        })
        .unwrap();
        store.create_user(record).unwrap();
    }

    // create a space declared as owned by alice, authenticated as alice
    let header = basic_header("alice", "longpassword");
    let session = authenticate(&store, Some(&header)).unwrap();
    assert_eq!(session.username.as_deref(), Some("alice"));

    let payload = Space { space_id: None, name: "lobby".to_string(), owner: "alice".to_string() };
    create_space(&session, &payload).unwrap();
    let persisted = store.create_space(payload.clone()).unwrap();
    let response = space_created_response(&persisted).unwrap();
    assert_eq!(response.name, "lobby");
    assert_eq!(response.uri, "/spaces/1");

    // the same declared owner, authenticated as bob, is rejected
    let header = basic_header("bob", "anotherlongone");
    let session = authenticate(&store, Some(&header)).unwrap();
    assert_eq!(session.username.as_deref(), Some("bob"));
    let r = create_space(&session, &payload);
    assert!(matches!(r, Err(Error::Unauthorized(_))));
}

#[test]
fn anonymous_and_badly_authenticated_requests_cannot_create_spaces() {
    let mut store = MemoryStore::new();
    let record = register_user(&NewUser {
        username: "alice".to_string(),
        password: "longpassword".to_string(),
    })
    .unwrap();
    store.create_user(record).unwrap();

    let payload = Space { space_id: None, name: "lobby".to_string(), owner: "alice".to_string() };

    // no header, wrong secret, unknown principal: all resolve to anonymous
    let anonymous = authenticate(&store, None).unwrap();
    assert_eq!(anonymous.username, None);
    let wrong = basic_header("alice", "wrongpassword");
    assert_eq!(authenticate(&store, Some(&wrong)).unwrap().username, None);
    let unknown = basic_header("mallory", "longpassword");
    assert_eq!(authenticate(&store, Some(&unknown)).unwrap().username, None);

    let r = create_space(&anonymous, &payload);
    assert!(matches!(r, Err(Error::Unauthenticated(_))));
}

#[test]
fn duplicate_registration_races_surface_as_store_failures() {
    let mut store = MemoryStore::new();
    let payload =
        NewUser { username: "alice".to_string(), password: "longpassword".to_string() };
    store.create_user(register_user(&payload).unwrap()).unwrap();
    let second = store.create_user(register_user(&payload).unwrap());
    assert!(matches!(second, Err(Error::StoreFailure(_))));
}
