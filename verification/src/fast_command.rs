//! Fast commands: saved shell commands shown as buttons, with the record that
//! stores them and the way each one is launched.
use vstd::prelude::*;
use uuid::Uuid;

verus! {

/// The stored record of a fast command.
#[derive(Debug)]
pub struct Model {
    pub uuid: String,
    pub command_name: String,
    pub command_value: String,
    pub icon_url: String,
    pub keep_alive: bool,
    pub index: u32,
}

/// A fast command.
#[derive(Debug)]
pub struct FastCommand {
    pub uuid: String,
    pub command_name: String,
    pub command_value: String,
    pub icon_url: String,
    pub keep_alive: bool,
    pub index: u32,
}

/// The lowercase hexadecimal digit for a value below sixteen.
pub open spec fn hex_digit_lower(d: int) -> char {
    if d < 10 {
        (48 + d) as char
    } else {
        (87 + d) as char
    }
}

/// The `k`-th hexadecimal digit of a 128-bit value, most significant first.
pub open spec fn nibble(id: u128, k: int) -> int {
    ((id >> ((124 - 4 * k) as u128)) & 0xfu128) as int
}

/// How many hyphens come before position `i` of a hyphenated UUID.
pub open spec fn hyphens_before(i: int) -> int {
    if i < 9 {
        0
    } else if i < 14 {
        1
    } else if i < 19 {
        2
    } else if i < 24 {
        3
    } else {
        4
    }
}

/// The hyphenated lowercase text of the UUID whose 128 bits, most significant
/// first, are `id`: 32 hex digits grouped 8-4-4-4-12.
pub open spec fn uuid_text(id: u128) -> Seq<char> {
    Seq::new(
        36,
        |i: int|
            if i == 8 || i == 13 || i == 18 || i == 23 {
                '-'
            } else {
                hex_digit_lower(nibble(id, i - hyphens_before(i)))
            },
    )
}

/// `Uuid::from_u128(id).to_string()`: the UUID made of the bytes of `id` in
/// big-endian order, written as `Display` writes it (hyphenated, lowercase).
#[verifier::external_body]
fn uuid_string_of(id: u128) -> (res: String)
    ensures
        res@ == uuid_text(id),
{
    Uuid::from_u128(id).to_string()
}

/// The record that creating a fast command stores: its id written as a UUID
/// and the given fields.
pub fn new_fast_command_model(
    id: u128,
    command_name: String,
    command_value: String,
    icon_url: String,
    keep_alive: bool,
    index: u32,
) -> (res: Model)
    ensures
        res.uuid@ == uuid_text(id),
        res.command_name@ == command_name@,
        res.command_value@ == command_value@,
        res.icon_url@ == icon_url@,
        res.keep_alive == keep_alive,
        res.index == index,
{
    Model { uuid: uuid_string_of(id), command_name, command_value, icon_url, keep_alive, index }
}

/// How a fast command is to be run.
#[derive(Debug)]
pub enum FastCommandLaunch {
    /// Spawned once, without being followed.
    Raw { command: String },
    /// Spawned and followed by the process monitor, on behalf of `creator`.
    Monitored { command: String, creator: String },
}

impl FastCommand {
    /// The fast command that a stored record describes.
    pub fn from_database_model(model: &Model) -> (res: Self)
        ensures
            res.uuid@ == model.uuid@,
            res.command_name@ == model.command_name@,
            res.command_value@ == model.command_value@,
            res.icon_url@ == model.icon_url@,
            res.keep_alive == model.keep_alive,
            res.index == model.index,
    {
        FastCommand {
            uuid: model.uuid.clone(),
            command_name: model.command_name.clone(),
            command_value: model.command_value.clone(),
            icon_url: model.icon_url.clone(),
            keep_alive: model.keep_alive,
            index: model.index,
        }
    }

    /// The record that stores this fast command.
    pub fn to_database_model(&self) -> (res: Model)
        ensures
            res.uuid@ == self.uuid@,
            res.command_name@ == self.command_name@,
            res.command_value@ == self.command_value@,
            res.icon_url@ == self.icon_url@,
            res.keep_alive == self.keep_alive,
            res.index == self.index,
    {
        Model {
            uuid: self.uuid.clone(),
            command_name: self.command_name.clone(),
            command_value: self.command_value.clone(),
            icon_url: self.icon_url.clone(),
            keep_alive: self.keep_alive,
            index: self.index,
        }
    }

    /// How executing the command runs it: a command that is not kept alive is
    /// spawned once; one that is kept alive is handed to the process monitor,
    /// with an empty creator.
    pub fn launch_plan(&self) -> (res: FastCommandLaunch)
        ensures
            !self.keep_alive ==> (res matches FastCommandLaunch::Raw { command } && command@
                == self.command_value@),
            self.keep_alive ==> (res matches FastCommandLaunch::Monitored { command, creator }
                && command@ == self.command_value@ && creator@.len() == 0),
    {
        if !self.keep_alive {
            FastCommandLaunch::Raw { command: self.command_value.clone() }
        } else {
            FastCommandLaunch::Monitored { command: self.command_value.clone(), creator: String::new() }
        }
    }
}

} // verus!
