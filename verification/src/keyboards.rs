//! The reply keyboard shown with the start message.
use vstd::prelude::*;

verus! {

/// The buttons of the start keyboard.
#[derive(PartialEq, Eq, Structural, Clone, Copy, Debug)]
pub enum StartKeyboard {
    Dislike,
    Stats,
    Cleanup,
}

pub open spec fn button_text(k: StartKeyboard) -> Seq<char> {
    match k {
        StartKeyboard::Dislike => "👎 Dislike"@,
        StartKeyboard::Stats => "📈 Stats"@,
        StartKeyboard::Cleanup => "🗑 Cleanup"@,
    }
}

impl StartKeyboard {
    /// The text of the button (and what the user sends by pressing it).
    pub fn as_str(&self) -> (res: &'static str)
        ensures
            res@ == button_text(*self),
    {
        match self {
            StartKeyboard::Dislike => "👎 Dislike",
            StartKeyboard::Stats => "📈 Stats",
            StartKeyboard::Cleanup => "🗑 Cleanup",
        }
    }

    /// The button whose text is `text`, if any.
    pub fn from_text(text: &str) -> (res: Option<StartKeyboard>)
        ensures
            res matches Some(k) ==> button_text(k) == text@,
            res is None ==> forall|k: StartKeyboard| button_text(k) != text@,
    {
        let t = text.to_owned();
        if t == String::from_str("👎 Dislike") {
            Some(StartKeyboard::Dislike)
        } else if t == String::from_str("📈 Stats") {
            Some(StartKeyboard::Stats)
        } else if t == String::from_str("🗑 Cleanup") {
            Some(StartKeyboard::Cleanup)
        } else {
            proof {
                assert forall|k: StartKeyboard| button_text(k) != text@ by {
                    match k {
                        StartKeyboard::Dislike => {},
                        StartKeyboard::Stats => {},
                        StartKeyboard::Cleanup => {},
                    }
                }
            }
            None
        }
    }

    /// The layout of the keyboard: "Dislike" alone on the first row, "Stats" and
    /// "Cleanup" on the second.
    pub fn markup() -> (rows: Vec<Vec<StartKeyboard>>)
        ensures
            rows@.len() == 2,
            rows@[0]@ == seq![StartKeyboard::Dislike],
            rows@[1]@ == seq![StartKeyboard::Stats, StartKeyboard::Cleanup],
    {
        let mut rows: Vec<Vec<StartKeyboard>> = Vec::new();
        rows.push(vec![StartKeyboard::Dislike]);
        rows.push(vec![StartKeyboard::Stats, StartKeyboard::Cleanup]);
        rows
    }
}

} // verus!
