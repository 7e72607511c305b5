//! The HUD controller: the message label, the score label, and the start
//! button, sequenced by three one-shot timers.

use vstd::prelude::*;

use crate::decimal::decimal_string;
use crate::decimal::spec_decimal;

verus! {

/// Which text the message label is loaded with.
#[derive(Clone, Copy, PartialEq, Eq, Structural, Debug)]
pub enum Message {
    /// No text yet (the label's initial state).
    Blank,
    /// "Get Ready"
    GetReady,
    /// "Game Over"
    GameOver,
    /// The game's title, shown between rounds.
    Title,
}

impl Message {
    /// The text the label shows for this message.
    pub fn text(&self) -> (s: &'static str)
        ensures
            *self == Message::Blank ==> s@ == Seq::<char>::empty(),
            *self == Message::GetReady ==> s@ == "Get Ready"@,
            *self == Message::GameOver ==> s@ == "Game Over"@,
            *self == Message::Title ==> s@ == "Dodge the Creeps"@,
    {
        proof {
            reveal_strlit("");
        }
        match self {
            Message::Blank => {
                let s = "";
                proof {
                    assert(s@ =~= Seq::<char>::empty());
                }
                s
            },
            Message::GetReady => "Get Ready",
            Message::GameOver => "Game Over",
            Message::Title => "Dodge the Creeps",
        }
    }
}

/// The HUD's state, for contracts: the score label's text is a character
/// sequence, everything else is plain.
#[verifier::ext_equal]
pub ghost struct HudView {
    pub message: Message,
    pub message_visible: bool,
    pub score_text: Seq<char>,
    pub start_button_visible: bool,
    pub get_ready_timer_armed: bool,
    pub start_message_timer_armed: bool,
    pub start_button_timer_armed: bool,
}

/// The state after `show_get_ready`.
pub open spec fn show_get_ready_t(h: HudView) -> HudView {
    HudView { message: Message::GetReady, message_visible: true, get_ready_timer_armed: true, ..h }
}

/// The state after `show_game_over`.
pub open spec fn show_game_over_t(h: HudView) -> HudView {
    HudView {
        message: Message::GameOver,
        message_visible: true,
        start_message_timer_armed: true,
        ..h
    }
}

/// The state after `update_score(n)`: only the score text changes, to the
/// decimal representation of `n`.
pub open spec fn update_score_t(h: HudView, n: nat) -> HudView {
    HudView { score_text: spec_decimal(n), ..h }
}

/// The state after the start button is pressed.
pub open spec fn start_button_pressed_t(h: HudView) -> HudView {
    HudView { start_button_timer_armed: false, start_button_visible: false, ..h }
}

/// The state after the get-ready message timer fires.
pub open spec fn get_ready_timer_t(h: HudView) -> HudView {
    HudView { get_ready_timer_armed: false, message_visible: false, ..h }
}

/// The state after the start message timer fires.
pub open spec fn start_message_timer_t(h: HudView) -> HudView {
    HudView {
        start_message_timer_armed: false,
        message: Message::Title,
        message_visible: true,
        start_button_timer_armed: true,
        ..h
    }
}

/// The state after the start button timer fires.
pub open spec fn start_button_timer_t(h: HudView) -> HudView {
    HudView { start_button_timer_armed: false, start_button_visible: true, ..h }
}

/// The HUD: a message label, a score label, a start button, and the three
/// one-shot timers that sequence them.
pub struct Hud {
    pub message: Message,
    pub message_visible: bool,
    pub score_text: String,
    pub start_button_visible: bool,
    pub get_ready_timer_armed: bool,
    pub start_message_timer_armed: bool,
    pub start_button_timer_armed: bool,
}

impl View for Hud {
    type V = HudView;

    open spec fn view(&self) -> HudView {
        HudView {
            message: self.message,
            message_visible: self.message_visible,
            score_text: self.score_text@,
            start_button_visible: self.start_button_visible,
            get_ready_timer_armed: self.get_ready_timer_armed,
            start_message_timer_armed: self.start_message_timer_armed,
            start_button_timer_armed: self.start_button_timer_armed,
        }
    }
}

impl Hud {
    pub fn new() -> (h: Hud)
        ensures
            h@ == (HudView {
                message: Message::Blank,
                message_visible: false,
                score_text: Seq::<char>::empty(),
                start_button_visible: false,
                get_ready_timer_armed: false,
                start_message_timer_armed: false,
                start_button_timer_armed: false,
            }),
    {
        let h = Hud {
            message: Message::Blank,
            message_visible: false,
            score_text: String::new(),
            start_button_visible: false,
            get_ready_timer_armed: false,
            start_message_timer_armed: false,
            start_button_timer_armed: false,
        };
        proof {
            assert(h@ =~= (HudView {
                message: Message::Blank,
                message_visible: false,
                score_text: Seq::<char>::empty(),
                start_button_visible: false,
                get_ready_timer_armed: false,
                start_message_timer_armed: false,
                start_button_timer_armed: false,
            }));
        }
        h
    }

    /// Show "Get Ready" and arm the timer that will hide it.
    pub fn show_get_ready(&mut self)
        ensures
            final(self)@ == show_get_ready_t(old(self)@),
    {
        self.message = Message::GetReady;
        self.message_visible = true;
        self.get_ready_timer_armed = true;
    }

    /// Show "Game Over" and arm the timer that leads back to the title.
    pub fn show_game_over(&mut self)
        ensures
            final(self)@ == show_game_over_t(old(self)@),
    {
        self.message = Message::GameOver;
        self.message_visible = true;
        self.start_message_timer_armed = true;
    }

    /// Set the score label to the decimal representation of `score`.
    pub fn update_score(&mut self, score: u32)
        ensures
            final(self)@ == update_score_t(old(self)@, score as nat),
            final(self)@.score_text == spec_decimal(score as nat),
    {
        self.score_text = decimal_string(score);
    }

    /// The start button was pressed: stop its timer and hide it. The caller
    /// owning the button's signal starts a new game in turn.
    pub fn on_start_button_pressed(&mut self)
        ensures
            final(self)@ == start_button_pressed_t(old(self)@),
    {
        self.start_button_timer_armed = false;
        self.start_button_visible = false;
    }

    /// The one-shot get-ready timer fired: hide the message.
    pub fn on_get_ready_message_timer_timeout(&mut self)
        requires
            old(self).get_ready_timer_armed,
        ensures
            final(self)@ == get_ready_timer_t(old(self)@),
    {
        self.get_ready_timer_armed = false;
        self.message_visible = false;
    }

    /// The one-shot start message timer fired: show the title and arm the
    /// timer that will reveal the start button.
    pub fn on_start_message_timer_timeout(&mut self)
        requires
            old(self).start_message_timer_armed,
        ensures
            final(self)@ == start_message_timer_t(old(self)@),
    {
        self.start_message_timer_armed = false;
        self.message = Message::Title;
        self.message_visible = true;
        self.start_button_timer_armed = true;
    }

    /// The one-shot start button timer fired: show the start button.
    pub fn on_start_button_timer_timeout(&mut self)
        requires
            old(self).start_button_timer_armed,
        ensures
            final(self)@ == start_button_timer_t(old(self)@),
    {
        self.start_button_timer_armed = false;
        self.start_button_visible = true;
    }
}

} // verus!
