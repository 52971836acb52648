//! Spaces: resources with a declared owner.

use vstd::prelude::*;
use vstd::string::*;

use crate::decimal::{i64_to_decimal, spec_decimal_int};
use crate::error::Error;
use crate::user::Session;
use crate::validate::{valid_space_name, valid_username, validate_space_name, validate_username};

verus! {

/// The sequence-generated id of a persisted space.
#[derive(Debug, Clone, PartialEq, Eq, Hash)]
pub struct SpaceId(pub i64);

/// A space: a named container for messages, carrying the principal id of
/// its owner. `space_id` is `None` until the store has persisted it.
#[derive(Debug, Clone, PartialEq, Eq)]
pub struct Space {
    pub space_id: Option<SpaceId>,
    pub name: String,
    pub owner: String,
}

/// The response body for a successfully created space.
#[derive(Debug, Clone, PartialEq, Eq)]
pub struct NewSpaceCreated {
    pub name: String,
    pub uri: String,
}

/// The compute part of the create-space handler: validates the payload in
/// order (owner first, then name, first failure wins) and consults the
/// ownership guard. Only `Ok` permits the handler to proceed to the store
/// mutation.
pub fn create_space(session: &Session, new_space: &Space) -> (r: Result<(), Error>)
    ensures
        ({
            let owner_ok = valid_username(new_space.owner@);
            let name_ok = valid_space_name(new_space.name@);
            match r {
                Ok(_) => owner_ok && name_ok && (session.username matches Some(p) && p@
                    == new_space.owner@),
                Err(e) => if !owner_ok {
                    e matches Error::InvalidInput(f, m) && f@ == "owner"@ && m@
                        == "must start with a letter and be 2 to 30 letters or digits"@
                } else if !name_ok {
                    e matches Error::InvalidInput(f, m) && f@ == "name"@ && m@
                        == "must be at most 255 characters"@
                } else {
                    match session.username {
                        None => e matches Error::Unauthenticated(m) && m@
                            == "Owner must match authenticated user"@,
                        Some(p) => p@ != new_space.owner@ && (e matches Error::Unauthorized(m)
                            && m@ == "Owner must match authenticated user"@),
                    }
                },
            }
        }),
{
    if !validate_username(new_space.owner.as_str()) {
        return Err(
            Error::InvalidInput(
                String::from_str("owner"),
                String::from_str("must start with a letter and be 2 to 30 letters or digits"),
            ),
        );
    }
    if !validate_space_name(new_space.name.as_str()) {
        return Err(
            Error::InvalidInput(
                String::from_str("name"),
                String::from_str("must be at most 255 characters"),
            ),
        );
    }
    match session.get_error_if_user_not_match(
        new_space.owner.as_str(),
        "Owner must match authenticated user",
    ) {
        Some(e) => Err(e),
        None => Ok(()),
    }
}

/// The response body for a space the store has persisted: its name and its
/// resource URI. A record the store handed back without an id is a broken
/// store reply and is reported as a store failure.
pub fn space_created_response(space: &Space) -> (r: Result<NewSpaceCreated, Error>)
    ensures
        match space.space_id {
            Some(id) => r matches Ok(resp) && resp.name@ == space.name@ && resp.uri@ == "/spaces/"@
                + spec_decimal_int(id.0 as int),
            None => r matches Err(e) && e matches Error::StoreFailure(_),
        },
{
    match &space.space_id {
        Some(id) => {
            let digits = i64_to_decimal(id.0);
            Ok(
                NewSpaceCreated {
                    name: space.name.clone(),
                    uri: String::from_str("/spaces/").concat(digits.as_str()),
                },
            )
        },
        None => Err(Error::StoreFailure(String::from_str("created space carries no id"))),
    }
}

} // verus!
