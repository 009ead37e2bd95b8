//! The state behind the terminal user interface: the chat transcript, the
//! peer and room lists, the input buffer, and the active mini-game. The
//! drawing itself lives outside the core.

use vstd::prelude::*;
use vstd::string::StringExecFns;
use crate::game::TicTacToe;
use crate::primitives::local_time_hhmm;

verus! {

/// One transcript entry as displayed.
#[derive(Clone)]
pub struct ChatMessage {
    /// Wall-clock time the entry was added, as hours and minutes.
    pub time: String,
    /// Who it is shown as coming from.
    pub sender: String,
    /// The displayed text.
    pub content: String,
    /// Whether it is a system notice.
    pub is_system: bool,
    /// Whether it announces a file.
    pub is_file: bool,
}

/// The user-interface state.
pub struct UiState {
    /// Current input buffer.
    pub input: String,
    /// Cursor position in the input.
    pub cursor_pos: usize,
    /// Chat transcript.
    pub messages: Vec<ChatMessage>,
    /// Connected peer identifiers.
    pub peers: Vec<String>,
    /// Joined rooms: identifier and name.
    pub rooms: Vec<(String, String)>,
    /// Pending invites: room identifier, room name, short inviter
    /// identifier.
    pub invited_rooms: Vec<(String, String, String)>,
    /// Local nickname.
    pub nick: String,
    /// Local peer identifier (short form).
    pub local_peer_id: String,
    /// Scroll offset for the transcript; zero shows the newest entries.
    pub scroll_offset: usize,
    /// Whether new entries scroll the view to the bottom.
    pub auto_scroll: bool,
    /// The active tic-tac-toe game, if one is running.
    pub active_game: Option<TicTacToe>,
}

impl UiState {
    /// Fresh state for a session: empty input and lists, auto-scroll on,
    /// and the three welcome notices in the transcript.
    pub fn new(nick: String, local_peer_id: String) -> (r: Self)
        ensures
            r.input@.len() == 0,
            r.cursor_pos == 0,
            r.messages@.len() == 3,
            forall|i: int| 0 <= i < 3 ==> (#[trigger] r.messages@[i]).is_system,
            r.peers@.len() == 0,
            r.rooms@.len() == 0,
            r.nick@ == nick@,
            r.local_peer_id@ == local_peer_id@,
            r.scroll_offset == 0,
            r.auto_scroll,
            r.active_game is None,
    {
        let mut state = UiState {
            input: String::new(),
            cursor_pos: 0,
            messages: Vec::new(),
            peers: Vec::new(),
            rooms: Vec::new(),
            invited_rooms: Vec::new(),
            nick,
            local_peer_id,
            scroll_offset: 0,
            auto_scroll: true,
            active_game: None,
        };
        state.add_system_message("Welcome to OpenWire! End-to-end encrypted P2P messenger.");
        state.add_system_message("Peers on the same LAN are discovered automatically via mDNS.");
        state.add_system_message("Type a message and press Enter to chat. /help for commands.");
        state
    }

    /// Append a system notice and keep the view pinned to the bottom when
    /// auto-scroll is on.
    pub fn add_system_message(&mut self, msg: &str)
        ensures
            final(self).messages@.len() == old(self).messages@.len() + 1,
            final(self).messages@.subrange(0, old(self).messages@.len() as int) == old(
                self,
            ).messages@,
            final(self).messages@.last().content@ == msg@,
            final(self).messages@.last().sender@ == "\u{2605}"@,
            final(self).messages@.last().is_system,
            !final(self).messages@.last().is_file,
            final(self).scroll_offset == (if old(self).auto_scroll {
                0int
            } else {
                old(self).scroll_offset as int
            }),
            final(self).input == old(self).input,
            final(self).cursor_pos == old(self).cursor_pos,
            final(self).peers == old(self).peers,
            final(self).rooms == old(self).rooms,
            final(self).invited_rooms == old(self).invited_rooms,
            final(self).nick == old(self).nick,
            final(self).local_peer_id == old(self).local_peer_id,
            final(self).auto_scroll == old(self).auto_scroll,
            final(self).active_game == old(self).active_game,
    {
        self.messages.push(
            ChatMessage {
                time: local_time_hhmm(),
                sender: "\u{2605}".to_owned(),
                content: msg.to_owned(),
                is_system: true,
                is_file: false,
            },
        );
        if self.auto_scroll {
            self.scroll_offset = 0;
        }
        proof {
            assert(self.messages@.subrange(0, old(self).messages@.len() as int) =~= old(
                self,
            ).messages@);
        }
    }

    /// Append a chat line from a sender.
    pub fn add_chat_message(&mut self, sender: &str, content: &str)
        ensures
            final(self).messages@.len() == old(self).messages@.len() + 1,
            final(self).messages@.subrange(0, old(self).messages@.len() as int) == old(
                self,
            ).messages@,
            final(self).messages@.last().content@ == content@,
            final(self).messages@.last().sender@ == sender@,
            !final(self).messages@.last().is_system,
            !final(self).messages@.last().is_file,
            final(self).scroll_offset == (if old(self).auto_scroll {
                0int
            } else {
                old(self).scroll_offset as int
            }),
            final(self).auto_scroll == old(self).auto_scroll,
            final(self).input == old(self).input,
            final(self).cursor_pos == old(self).cursor_pos,
            final(self).peers == old(self).peers,
            final(self).rooms == old(self).rooms,
            final(self).invited_rooms == old(self).invited_rooms,
            final(self).nick == old(self).nick,
            final(self).local_peer_id == old(self).local_peer_id,
            final(self).active_game == old(self).active_game,
    {
        self.messages.push(
            ChatMessage {
                time: local_time_hhmm(),
                sender: sender.to_owned(),
                content: content.to_owned(),
                is_system: false,
                is_file: false,
            },
        );
        if self.auto_scroll {
            self.scroll_offset = 0;
        }
        proof {
            assert(self.messages@.subrange(0, old(self).messages@.len() as int) =~= old(
                self,
            ).messages@);
        }
    }

    /// Append a file announcement from a sender.
    pub fn add_file_message(&mut self, sender: &str, filename: &str)
        ensures
            final(self).messages@.len() == old(self).messages@.len() + 1,
            final(self).messages@.subrange(0, old(self).messages@.len() as int) == old(
                self,
            ).messages@,
            final(self).messages@.last().content@ == "\u{1f4ce} File: "@ + filename@,
            final(self).messages@.last().sender@ == sender@,
            !final(self).messages@.last().is_system,
            final(self).messages@.last().is_file,
            final(self).scroll_offset == (if old(self).auto_scroll {
                0int
            } else {
                old(self).scroll_offset as int
            }),
            final(self).auto_scroll == old(self).auto_scroll,
            final(self).input == old(self).input,
            final(self).cursor_pos == old(self).cursor_pos,
            final(self).peers == old(self).peers,
            final(self).rooms == old(self).rooms,
            final(self).invited_rooms == old(self).invited_rooms,
            final(self).nick == old(self).nick,
            final(self).local_peer_id == old(self).local_peer_id,
            final(self).active_game == old(self).active_game,
    {
        let mut content = "\u{1f4ce} File: ".to_owned();
        content.append(filename);
        self.messages.push(
            ChatMessage {
                time: local_time_hhmm(),
                sender: sender.to_owned(),
                content,
                is_system: false,
                is_file: true,
            },
        );
        if self.auto_scroll {
            self.scroll_offset = 0;
        }
        proof {
            assert(self.messages@.subrange(0, old(self).messages@.len() as int) =~= old(
                self,
            ).messages@);
        }
    }
}

} // verus!
