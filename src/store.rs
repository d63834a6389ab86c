use vstd::prelude::*;

verus! {

/// Creates the table of chats where it is missing.
pub const CREATE_CHATS: &'static str = "CREATE TABLE IF NOT EXISTS chats(
    id INTEGER PRIMARY KEY,
    created_at DATETIME DEFAULT CURRENT_TIMESTAMP
)";

/// Creates the table of messages where it is missing; a chat's messages go with it.
pub const CREATE_MESSAGES: &'static str = "CREATE TABLE IF NOT EXISTS messages(
    id INTEGER PRIMARY KEY,
    chat_id INTEGER NOT NULL,
    role TEXT CHECK(role IN('user', 'gemini')),
    content TEXT NOT NULL,
    timestamp DATETIME DEFAULT CURRENT_TIMESTAMP,
    FOREIGN KEY(chat_id) REFERENCES chats(id) ON DELETE CASCADE
)";

/// Creates a chat.
pub const INSERT_CHAT: &'static str = "INSERT INTO chats DEFAULT VALUES";

/// Appends a message: chat id, role name, content.
pub const INSERT_MESSAGE: &'static str = "INSERT INTO messages(chat_id, role, content) VALUES (?1, ?2, ?3)";

/// Lists the chats, newest first; chats created within the same second keep the order
/// of their creation.
pub const SELECT_CHATS: &'static str = "SELECT id, created_at FROM chats ORDER BY created_at DESC, id DESC";

/// Lists a chat's messages as role name, content and timestamp, oldest first; messages
/// stored within the same second keep the order in which they were appended.
pub const SELECT_MESSAGES: &'static str =
    "SELECT role, content, timestamp FROM messages WHERE chat_id = ?1 ORDER BY timestamp, id";

/// Deletes a chat and, through the cascade, its messages.
pub const DELETE_CHAT: &'static str = "DELETE FROM chats WHERE id = ?1";

/// Deletes one message.
pub const DELETE_MESSAGE: &'static str = "DELETE FROM messages WHERE id = ?1";

/// Deletes every chat.
pub const CLEAR_CHATS: &'static str = "DELETE FROM chats";

/// Deletes every message.
pub const CLEAR_MESSAGES: &'static str = "DELETE FROM messages";

/// Turns foreign keys on, so that deleting a chat deletes its messages.
pub const ENABLE_FOREIGN_KEYS: &'static str = "PRAGMA foreign_keys = ON";

/// Where the store's file lives.
#[derive(Clone, Copy, Debug, PartialEq, Eq, Structural)]
pub enum StorageLocation {
    /// `geminate.db` in the working directory, for development.
    WorkingDirectory,
    /// `geminate/geminate.db` under the user's local data directory.
    UserData,
}

/// The deployment mode that keeps the store in the working directory.
pub open spec fn development_mode() -> Seq<char> {
    "dev"@
}

/// Where the store lives under a deployment mode (empty when none is set).
pub fn storage_for(mode: &String) -> (r: StorageLocation)
    ensures
        r == (if mode@ == development_mode() {
            StorageLocation::WorkingDirectory
        } else {
            StorageLocation::UserData
        }),
{
    let dev = String::from_str("dev");
    if *mode == dev {
        StorageLocation::WorkingDirectory
    } else {
        StorageLocation::UserData
    }
}

/// The path of the store's file, relative to the directory that the location names.
pub fn database_path(location: StorageLocation) -> (r: &'static str)
    ensures
        r@ == (match location {
            StorageLocation::WorkingDirectory => "./geminate.db"@,
            StorageLocation::UserData => "geminate/geminate.db"@,
        }),
{
    match location {
        StorageLocation::WorkingDirectory => "./geminate.db",
        StorageLocation::UserData => "geminate/geminate.db",
    }
}

} // verus!
