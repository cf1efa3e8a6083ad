//! The chat message: three text fields, two of them bounded in length.

use vstd::prelude::*;

verus! {

/// Most characters a room tag may hold.
pub const ROOM_LIMIT: usize = 30;

/// Most characters a user name may hold.
pub const USERNAME_LIMIT: usize = 20;

/// What a [`Message`] is: its three texts.
pub struct MessageView {
    pub room: Seq<char>,
    pub username: Seq<char>,
    pub message: Seq<char>,
}

/// Whether a room tag and a user name fit their limits. The body of a message
/// is not bounded.
pub open spec fn within_limits(room: Seq<char>, username: Seq<char>) -> bool {
    room.len() <= ROOM_LIMIT && username.len() <= USERNAME_LIMIT
}

/// Which field kept a message from being built.
#[derive(Debug, Clone, Copy, PartialEq, Eq, Structural)]
pub enum FieldError {
    /// The room tag has more than [`ROOM_LIMIT`] characters.
    RoomTooLong,
    /// The user name has more than [`USERNAME_LIMIT`] characters.
    UsernameTooLong,
}

/// One chat message. It cannot be changed once built, and every value of
/// this type keeps its room tag and user name within their limits.
///
/// The room is payload only: nothing in this crate routes by it.
#[derive(Debug, PartialEq, Eq)]
pub struct Message {
    room: String,
    username: String,
    message: String,
}

impl View for Message {
    type V = MessageView;

    closed spec fn view(&self) -> MessageView {
        MessageView { room: self.room@, username: self.username@, message: self.message@ }
    }
}

impl Clone for Message {
    /// A copy with the same three texts.
    fn clone(&self) -> (copy: Self)
        ensures
            copy == *self,
    {
        proof {
            use_type_invariant(self);
        }
        Message {
            room: self.room.clone(),
            username: self.username.clone(),
            message: self.message.clone(),
        }
    }
}

impl Message {
    #[verifier::type_invariant]
    spec fn bounded(&self) -> bool {
        within_limits(self.room@, self.username@)
    }

    /// Builds a message from its three texts, or says which field is too
    /// long. The room is looked at first.
    pub fn new(room: String, username: String, message: String) -> (built: Result<
        Message,
        FieldError,
    >)
        ensures
            match built {
                Ok(m) => within_limits(room@, username@) && m@ == (MessageView {
                    room: room@,
                    username: username@,
                    message: message@,
                }),
                Err(FieldError::RoomTooLong) => room@.len() > ROOM_LIMIT,
                Err(FieldError::UsernameTooLong) => room@.len() <= ROOM_LIMIT && username@.len()
                    > USERNAME_LIMIT,
            },
    {
        if room.as_str().unicode_len() > ROOM_LIMIT {
            Err(FieldError::RoomTooLong)
        } else if username.as_str().unicode_len() > USERNAME_LIMIT {
            Err(FieldError::UsernameTooLong)
        } else {
            Ok(Message { room, username, message })
        }
    }

    /// The room tag.
    pub fn room(&self) -> (text: &str)
        ensures
            text@ == self@.room,
            text@.len() <= ROOM_LIMIT,
    {
        proof {
            use_type_invariant(self);
        }
        self.room.as_str()
    }

    /// The name of the user who wrote the message.
    pub fn username(&self) -> (text: &str)
        ensures
            text@ == self@.username,
            text@.len() <= USERNAME_LIMIT,
    {
        proof {
            use_type_invariant(self);
        }
        self.username.as_str()
    }

    /// The text of the message.
    pub fn message(&self) -> (text: &str)
        ensures
            text@ == self@.message,
    {
        self.message.as_str()
    }
}

} // verus!
