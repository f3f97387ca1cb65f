//! Key presses, and the navigation aliases of the Vim and Emacs flavors.

use vstd::prelude::*;

verus! {

/// The keys the interface reacts to; any other key is `Other`.
#[derive(Debug, Clone, Copy, PartialEq, Eq, Structural)]
pub enum KeyCode {
    Char(char),
    Up,
    Down,
    PageUp,
    PageDown,
    Esc,
    Enter,
    Tab,
    Other,
}

/// The modifier keys held with a key; `other` stands for any modifier
/// besides shift, control and alt.
#[derive(Debug, Clone, Copy, PartialEq, Eq, Structural)]
pub struct KeyModifiers {
    pub shift: bool,
    pub control: bool,
    pub alt: bool,
    pub other: bool,
}

#[derive(Debug, Clone, Copy, PartialEq, Eq, Structural)]
pub struct KeyEvent {
    pub code: KeyCode,
    pub modifiers: KeyModifiers,
}

/// A flavor of navigation aliases.
#[derive(Debug, Clone, Copy, PartialEq, Eq, Structural)]
pub enum Keybinds {
    Emacs,
    Vim,
}

impl KeyModifiers {
    pub open spec fn spec_none() -> KeyModifiers {
        KeyModifiers { shift: false, control: false, alt: false, other: false }
    }

    pub fn none() -> (m: KeyModifiers)
        ensures
            m == KeyModifiers::spec_none(),
    {
        KeyModifiers { shift: false, control: false, alt: false, other: false }
    }

    /// Exactly the given modifiers among control and alt, and no other.
    pub open spec fn is_only(self, control: bool, alt: bool) -> bool {
        self == KeyModifiers { shift: false, control, alt, other: false }
    }

    pub fn only(self, control: bool, alt: bool) -> (b: bool)
        ensures
            b == self.is_only(control, alt),
    {
        !self.shift && self.control == control && self.alt == alt && !self.other
    }
}

impl KeyEvent {
    pub open spec fn plain(code: KeyCode) -> KeyEvent {
        KeyEvent { code, modifiers: KeyModifiers::spec_none() }
    }
}

/// The universal key a flavored shortcut stands for, if it stands for one.
///
/// Emacs: `Ctrl-n`/`Ctrl-p` move down/up, `Ctrl-v`/`Alt-v` page down/up,
/// `Ctrl-g` cancels. Vim: `j`/`k` move down/up, `Ctrl-d`/`Ctrl-u` page
/// down/up, `q` cancels.
pub open spec fn alias_of(key: KeyEvent, kb: Keybinds) -> Option<KeyCode> {
    match kb {
        Keybinds::Emacs => if key.modifiers.is_only(true, false) {
            match key.code {
                KeyCode::Char('n') => Some(KeyCode::Down),
                KeyCode::Char('p') => Some(KeyCode::Up),
                KeyCode::Char('v') => Some(KeyCode::PageDown),
                KeyCode::Char('g') => Some(KeyCode::Esc),
                _ => None,
            }
        } else if key.modifiers.is_only(false, true) {
            match key.code {
                KeyCode::Char('v') => Some(KeyCode::PageUp),
                _ => None,
            }
        } else {
            None
        },
        Keybinds::Vim => if key.modifiers.is_only(false, false) {
            match key.code {
                KeyCode::Char('j') => Some(KeyCode::Down),
                KeyCode::Char('k') => Some(KeyCode::Up),
                KeyCode::Char('q') => Some(KeyCode::Esc),
                _ => None,
            }
        } else if key.modifiers.is_only(true, false) {
            match key.code {
                KeyCode::Char('d') => Some(KeyCode::PageDown),
                KeyCode::Char('u') => Some(KeyCode::PageUp),
                _ => None,
            }
        } else {
            None
        },
    }
}

/// The key as the rest of the interface sees it.
pub open spec fn translated(key: KeyEvent, kb: Option<Keybinds>) -> KeyEvent {
    match kb {
        None => key,
        Some(kb) => match alias_of(key, kb) {
            Some(code) => KeyEvent::plain(code),
            None => key,
        },
    }
}

/// Maps the flavor's navigation shortcuts onto the universal keys (arrows,
/// page keys, `Esc`), without modifiers. Any other key, and every key when
/// no flavor is set, comes back unchanged.
pub fn translate_key(key: KeyEvent, kb: Option<Keybinds>) -> (out: KeyEvent)
    ensures
        out == translated(key, kb),
{
    let kb = match kb {
        Some(kb) => kb,
        None => return key,
    };
    let modifiers = key.modifiers;
    let alias = match kb {
        Keybinds::Emacs => if modifiers.only(true, false) {
            match key.code {
                KeyCode::Char('n') => Some(KeyCode::Down),
                KeyCode::Char('p') => Some(KeyCode::Up),
                KeyCode::Char('v') => Some(KeyCode::PageDown),
                KeyCode::Char('g') => Some(KeyCode::Esc),
                _ => None,
            }
        } else if modifiers.only(false, true) {
            match key.code {
                KeyCode::Char('v') => Some(KeyCode::PageUp),
                _ => None,
            }
        } else {
            None
        },
        Keybinds::Vim => if modifiers.only(false, false) {
            match key.code {
                KeyCode::Char('j') => Some(KeyCode::Down),
                KeyCode::Char('k') => Some(KeyCode::Up),
                KeyCode::Char('q') => Some(KeyCode::Esc),
                _ => None,
            }
        } else if modifiers.only(true, false) {
            match key.code {
                KeyCode::Char('d') => Some(KeyCode::PageDown),
                KeyCode::Char('u') => Some(KeyCode::PageUp),
                _ => None,
            }
        } else {
            None
        },
    };
    match alias {
        Some(code) => KeyEvent { code, modifiers: KeyModifiers::none() },
        None => key,
    }
}

/// The universal keys are never remapped: translating a key twice is
/// translating it once, and a key that is not a character (an arrow, a
/// page key, `Esc`, `Enter`, `Tab`) always comes through as it is.
pub proof fn law_translation_is_stable(key: KeyEvent, kb: Option<Keybinds>)
    ensures
        translated(translated(key, kb), kb) == translated(key, kb),
        !(key.code is Char) ==> translated(key, kb) == key,
{
}

/// A translated key carries no modifier, and it is one of the universal
/// navigation keys.
pub proof fn law_translation_yields_universal_keys(key: KeyEvent, kb: Keybinds)
    ensures
        alias_of(key, kb) matches Some(code) ==> {
            &&& translated(key, Some(kb)) == KeyEvent::plain(code)
            &&& (code == KeyCode::Up || code == KeyCode::Down || code == KeyCode::PageUp || code
                == KeyCode::PageDown || code == KeyCode::Esc)
        },
{
}

} // verus!
