//! Messages: resources with a declared author, posted into a space.

use vstd::prelude::*;
use vstd::string::*;

use crate::decimal::{i64_to_decimal, spec_decimal_int};
use crate::error::Error;
use crate::space::SpaceId;
use crate::user::Session;
use crate::validate::{
    valid_message_text,
    valid_username,
    validate_message_text,
    validate_username,
};

verus! {

/// The sequence-generated id of a persisted message.
#[derive(Debug, Clone, PartialEq, Eq, Hash)]
pub struct MessageId(pub i64);

/// The untrusted create-message payload.
#[derive(Debug, Clone, PartialEq, Eq)]
pub struct NewMessage {
    pub space_id: SpaceId,
    pub author: String,
    pub msg_text: String,
}

/// A message as the store keeps it. `msg_time` is the Unix timestamp (in
/// seconds) of its creation; `msg_id` is `None` until the store has
/// persisted it.
#[derive(Debug, Clone, PartialEq, Eq)]
pub struct Message {
    pub msg_id: Option<MessageId>,
    pub space_id: SpaceId,
    pub author: String,
    pub msg_text: String,
    pub msg_time: i64,
}

/// The response body for a successfully created message.
#[derive(Debug, Clone, PartialEq, Eq)]
pub struct NewMessageCreated {
    pub uri: String,
}

/// Relies on chrono's `Utc::now` for the current Unix timestamp. Nothing is
/// promised of the clock's value.
#[verifier::external_body]
fn now_timestamp() -> i64 {
    chrono::Utc::now().timestamp()
}

/// The compute part of the create-message handler: validates the payload in
/// order (author first, then text, first failure wins), consults the
/// ownership guard, and stamps the message with the current time. Only `Ok`
/// permits the handler to proceed to the store mutation; everything in the
/// built record but the timestamp is pinned to the payload.
pub fn create_message(session: &Session, new_message: &NewMessage) -> (r: Result<Message, Error>)
    ensures
        ({
            let author_ok = valid_username(new_message.author@);
            let text_ok = valid_message_text(new_message.msg_text@);
            match r {
                Ok(m) => author_ok && text_ok && (session.username matches Some(p) && p@
                    == new_message.author@) && m.msg_id is None && m.space_id
                    == new_message.space_id && m.author@ == new_message.author@ && m.msg_text@
                    == new_message.msg_text@,
                Err(e) => if !author_ok {
                    e matches Error::InvalidInput(f, m) && f@ == "author"@ && m@
                        == "must start with a letter and be 2 to 30 letters or digits"@
                } else if !text_ok {
                    e matches Error::InvalidInput(f, m) && f@ == "msg_text"@ && m@
                        == "must be at most 1024 characters"@
                } else {
                    match session.username {
                        None => e matches Error::Unauthenticated(m) && m@
                            == "Author must match authenticated user"@,
                        Some(p) => p@ != new_message.author@ && (e matches Error::Unauthorized(m)
                            && m@ == "Author must match authenticated user"@),
                    }
                },
            }
        }),
{
    if !validate_username(new_message.author.as_str()) {
        return Err(
            Error::InvalidInput(
                String::from_str("author"),
                String::from_str("must start with a letter and be 2 to 30 letters or digits"),
            ),
        );
    }
    if !validate_message_text(new_message.msg_text.as_str()) {
        return Err(
            Error::InvalidInput(
                String::from_str("msg_text"),
                String::from_str("must be at most 1024 characters"),
            ),
        );
    }
    if let Some(e) = session.get_error_if_user_not_match(
        new_message.author.as_str(),
        "Author must match authenticated user",
    ) {
        return Err(e);
    }
    Ok(
        Message {
            msg_id: None,
            space_id: SpaceId(new_message.space_id.0),
            author: new_message.author.clone(),
            msg_text: new_message.msg_text.clone(),
            msg_time: now_timestamp(),
        },
    )
}

/// The response body for a message the store has persisted: its resource
/// URI. A record the store handed back without an id is a broken store
/// reply and is reported as a store failure.
pub fn message_created_response(message: &Message) -> (r: Result<NewMessageCreated, Error>)
    ensures
        match message.msg_id {
            Some(id) => r matches Ok(resp) && resp.uri@ == "/messages/"@ + spec_decimal_int(
                id.0 as int,
            ),
            None => r matches Err(e) && e matches Error::StoreFailure(_),
        },
{
    match &message.msg_id {
        Some(id) => {
            let digits = i64_to_decimal(id.0);
            Ok(NewMessageCreated { uri: String::from_str("/messages/").concat(digits.as_str()) })
        },
        None => Err(Error::StoreFailure(String::from_str("created message carries no id"))),
    }
}

} // verus!
