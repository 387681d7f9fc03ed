use crate::application::{Application, ApplicationView, LineView, MessageLine};
use crate::screenplay::{count_glyphs, encode, glyph_count, word_of, BREAK};
use vstd::prelude::*;

verus! {

/// The token of the notification on screen: the address of the counter that
/// tells whether the game still shows it, the value that the counter had
/// when the text went up, the words of the text, and the line that the
/// message slot held before.
#[derive(Debug)]
pub struct PlayerItemPopup {
    pub popup_id_address: usize,
    pub popup_id: u32,
    pub encoded: Vec<u16>,
    pub old_line: MessageLine,
}

/// A token as a value.
pub struct PopupView {
    pub popup_id_address: usize,
    pub popup_id: u32,
    pub encoded: Seq<u16>,
    pub old_line: LineView,
}

impl View for PlayerItemPopup {
    type V = PopupView;

    open spec fn view(&self) -> PopupView {
        PopupView {
            popup_id_address: self.popup_id_address,
            popup_id: self.popup_id,
            encoded: self.encoded@,
            old_line: self.old_line@,
        }
    }
}

/// The notification line: at most one token lives at a time.
pub struct NotificationOverlay {
    pub popup: Option<PlayerItemPopup>,
}

impl View for NotificationOverlay {
    type V = Option<PopupView>;

    open spec fn view(&self) -> Option<PopupView> {
        match self.popup {
            Some(token) => Some(token@),
            None => None,
        }
    }
}

/// The words that show `text`: its letters, then the line break.
pub open spec fn rendered(text: Seq<char>) -> Seq<u16> {
    text.map_values(|letter: char| word_of(letter)).push(BREAK)
}

/// The line that shows `text`.
pub open spec fn line_of(text: Seq<char>) -> LineView {
    LineView { script: rendered(text), font_num: glyph_count(rendered(text)) as usize }
}

/// The line that the game itself put into the message slot: the one that a
/// living token has kept, or else the one that is there.
pub open spec fn line_of_game(overlay: Option<PopupView>, app: ApplicationView) -> LineView {
    match overlay {
        Some(token) => token.old_line,
        None => app.line,
    }
}

/// Whether the game has taken the display back from the token: its counter
/// no longer holds the value that the token expects.
pub open spec fn expired(overlay: Option<PopupView>, app: ApplicationView) -> bool {
    overlay matches Some(token) && app.liveness_at(token.popup_id_address) != token.popup_id
}

/// The overlay after a look at the game: a token that has expired is gone.
pub open spec fn looked_at(overlay: Option<PopupView>, app: ApplicationView) -> Option<PopupView> {
    if expired(overlay, app) {
        None
    } else {
        overlay
    }
}

/// How often the slot gets its line back when the overlay looks at each
/// of `games` in turn and nothing is shown in between.
pub open spec fn restores(overlay: Option<PopupView>, games: Seq<ApplicationView>) -> nat
    decreases games.len(),
{
    if games.len() == 0 {
        0
    } else {
        let rest = restores(looked_at(overlay, games[0]), games.drop_first());
        if expired(overlay, games[0]) {
            rest + 1
        } else {
            rest
        }
    }
}

/// Without a token nothing is ever given back.
pub proof fn nothing_to_restore(games: Seq<ApplicationView>)
    ensures
        restores(None, games) == 0,
    decreases games.len(),
{
    if games.len() > 0 {
        nothing_to_restore(games.drop_first());
    }
}

/// A notification comes down once: however often the overlay looks at the
/// game afterwards, the slot gets its line back a single time at most.
pub proof fn restored_at_most_once(overlay: Option<PopupView>, games: Seq<ApplicationView>)
    ensures
        restores(overlay, games) <= 1,
    decreases games.len(),
{
    if games.len() > 0 {
        if expired(overlay, games[0]) {
            nothing_to_restore(games.drop_first());
        } else {
            restored_at_most_once(overlay, games.drop_first());
        }
    }
}

impl NotificationOverlay {
    /// An overlay that shows nothing.
    pub fn new() -> (overlay: NotificationOverlay)
        ensures
            overlay@ is None,
    {
        NotificationOverlay { popup: None }
    }

    /// Puts `text` into the game's message slot. The token that results
    /// expects the value that the counter at `liveness_address_key` has now,
    /// and keeps the line that the game itself had put into the slot.
    pub fn show(&mut self, app: &mut Application, text: String, liveness_address_key: usize)
        ensures
            final(self)@ == Some(
                PopupView {
                    popup_id_address: liveness_address_key,
                    popup_id: old(app)@.liveness_at(liveness_address_key),
                    encoded: rendered(text@),
                    old_line: line_of_game(old(self)@, old(app)@),
                },
            ),
            final(app)@ == (ApplicationView { line: line_of(text@), ..old(app)@ }),
    {
        let popup_id = app.liveness_counter(liveness_address_key);
        let mut encoded = encode(text);
        encoded.push(BREAK);
        let font_num = count_glyphs(encoded.as_slice());
        let old_line = match self.popup.take() {
            Some(token) => token.old_line,
            None => app.line.copy(),
        };
        app.line = MessageLine { script: encoded.clone(), font_num };
        self.popup = Some(
            PlayerItemPopup { popup_id_address: liveness_address_key, popup_id, encoded, old_line },
        );
    }

    /// Looks whether the game still shows the notification. Once the counter
    /// has left the value that the token expects, the slot gets its own line
    /// back and the token is gone; until then, and without a token, nothing
    /// changes.
    pub fn tick(&mut self, app: &mut Application) -> (gone: bool)
        ensures
            gone == expired(old(self)@, old(app)@),
            final(self)@ == looked_at(old(self)@, old(app)@),
            gone ==> final(self)@ is None && final(app)@ == (ApplicationView {
                line: old(self)@->0.old_line,
                ..old(app)@
            }),
            !gone ==> final(self)@ == old(self)@ && final(app)@ == old(app)@,
    {
        match self.popup.take() {
            Some(token) => {
                if app.liveness_counter(token.popup_id_address) != token.popup_id {
                    app.line = token.old_line;
                    true
                } else {
                    self.popup = Some(token);
                    false
                }
            },
            None => false,
        }
    }
}

} // verus!
