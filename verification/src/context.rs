//! The context handed to every bot command.

use vstd::prelude::*;
use crate::json::Json;
use crate::rights::Right;

verus! {

/// Runtime context available to every command.
///
/// Contains the caller's identity, platform, room, and parsed arguments.
pub struct CommandContext {
    /// Parsed command name (without prefix).
    pub command: String,
    /// Arguments after the command name.
    pub args: Vec<String>,
    /// Platform label, e.g. `"matrix"` or `"telegram"`.
    pub platform: String,
    /// Room or chat ID the message came from.
    pub room_id: String,
    /// Sender identifier (user ID, username, etc.).
    pub sender: String,
    /// Resolved access level of the caller.
    pub caller_right: Right,
    /// Resolved FreeSynergy user ID, once known.
    pub fs_user_id: Option<String>,
    /// Arbitrary extra data for command-specific metadata.
    pub extra: Json,
}

impl CommandContext {
    /// The first argument, if any.
    pub open spec fn arg0_spec(&self) -> Option<Seq<char>> {
        if self.args@.len() > 0 {
            Some(self.args@[0]@)
        } else {
            None
        }
    }

    /// The argument at `i`, if any.
    pub open spec fn arg_spec(&self, i: int) -> Option<Seq<char>> {
        if 0 <= i < self.args@.len() {
            Some(self.args@[i]@)
        } else {
            None
        }
    }

    /// Create a new context; the user id and the message metadata start empty.
    pub fn new(
        command: &str,
        args: Vec<String>,
        platform: &str,
        room_id: &str,
        sender: &str,
        caller_right: Right,
    ) -> (c: Self)
        ensures
            c.command@ == command@,
            c.args == args,
            c.platform@ == platform@,
            c.room_id@ == room_id@,
            c.sender@ == sender@,
            c.caller_right == caller_right,
            c.fs_user_id is None,
            c.extra == Json::Null,
    {
        CommandContext {
            command: command.to_owned(),
            args,
            platform: platform.to_owned(),
            room_id: room_id.to_owned(),
            sender: sender.to_owned(),
            caller_right,
            fs_user_id: None,
            extra: Json::Null,
        }
    }

    /// Room ID as an owned `String`.
    pub fn room(&self) -> (r: String)
        ensures
            r@ == self.room_id@,
    {
        self.room_id.clone()
    }

    /// First argument, if any.
    pub fn arg0(&self) -> (r: Option<&str>)
        ensures
            r matches Some(a) ==> self.arg0_spec() == Some(a@),
            r is None ==> self.arg0_spec() is None,
    {
        if self.args.len() > 0 {
            Some(self.args[0].as_str())
        } else {
            None
        }
    }

    /// The argument at `i`, if any.
    pub fn arg(&self, i: usize) -> (r: Option<&str>)
        ensures
            r matches Some(a) ==> self.arg_spec(i as int) == Some(a@),
            r is None ==> self.arg_spec(i as int) is None,
    {
        if i < self.args.len() {
            Some(self.args[i].as_str())
        } else {
            None
        }
    }
}

} // verus!
