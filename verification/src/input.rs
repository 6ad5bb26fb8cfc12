//! The command table: which action a key press stands for.

use vstd::prelude::*;
use crate::app::Screen;

verus! {

/// A key press, as far as the command table tells keys apart.
#[derive(Clone, Copy, PartialEq, Eq, Structural, Debug)]
pub enum Key {
    /// A key that types a character.
    Char(char),
    /// Any other key.
    Other,
}

/// The fixed destinations that have a key of their own.
#[derive(Clone, Copy, PartialEq, Eq, Structural, Debug)]
pub enum FixedLink {
    Website,
    GitHub,
    LinkedIn,
    X,
    Instagram,
    Email,
}

/// What a key press asks for.
#[derive(Clone, Copy, PartialEq, Eq, Structural, Debug)]
pub enum Action {
    /// Leave the program.
    Quit,
    /// Show a screen.
    Navigate(Screen),
    /// Open the project with this number, counted from 1.
    OpenProject(usize),
    /// Open a fixed destination.
    OpenLink(FixedLink),
    /// Do nothing.
    Nothing,
}

impl FixedLink {
    /// The address of the destination.
    pub open spec fn address(self) -> Seq<char> {
        match self {
            FixedLink::Website => "https://hifromraunak.vercel.app/"@,
            FixedLink::GitHub => "https://github.com/RaunakDiesFromCode"@,
            FixedLink::LinkedIn => "https://www.linkedin.com/in/raunak-manna/"@,
            FixedLink::X => "https://x.com/RaunakM298742"@,
            FixedLink::Instagram => "https://www.instagram.com/har.jagah.raunak/"@,
            FixedLink::Email => "mailto:raunakmanna43@gmail.com?subject=I%20saw%20your%20portfolio"@,
        }
    }

    /// The address of the destination.
    pub fn url(self) -> (url: &'static str)
        ensures
            url@ == self.address(),
    {
        match self {
            FixedLink::Website => "https://hifromraunak.vercel.app/",
            FixedLink::GitHub => "https://github.com/RaunakDiesFromCode",
            FixedLink::LinkedIn => "https://www.linkedin.com/in/raunak-manna/",
            FixedLink::X => "https://x.com/RaunakM298742",
            FixedLink::Instagram => "https://www.instagram.com/har.jagah.raunak/",
            FixedLink::Email => "mailto:raunakmanna43@gmail.com?subject=I%20saw%20your%20portfolio",
        }
    }
}

/// The command table.
///
/// `q` quits, `h` and `p` pick a screen, the digits `1` to `9` pick a
/// project by its number, six letters pick a fixed destination. The digit
/// `0` is reserved and does nothing, as does every other key.
pub open spec fn command(key: Key) -> Action {
    match key {
        Key::Char('q') => Action::Quit,
        Key::Char('h') => Action::Navigate(Screen::Home),
        Key::Char('p') => Action::Navigate(Screen::Projects),
        Key::Char('w') => Action::OpenLink(FixedLink::Website),
        Key::Char('g') => Action::OpenLink(FixedLink::GitHub),
        Key::Char('t') => Action::OpenLink(FixedLink::LinkedIn),
        Key::Char('l') => Action::OpenLink(FixedLink::X),
        Key::Char('i') => Action::OpenLink(FixedLink::Instagram),
        Key::Char('e') => Action::OpenLink(FixedLink::Email),
        Key::Char('1') => Action::OpenProject(1),
        Key::Char('2') => Action::OpenProject(2),
        Key::Char('3') => Action::OpenProject(3),
        Key::Char('4') => Action::OpenProject(4),
        Key::Char('5') => Action::OpenProject(5),
        Key::Char('6') => Action::OpenProject(6),
        Key::Char('7') => Action::OpenProject(7),
        Key::Char('8') => Action::OpenProject(8),
        Key::Char('9') => Action::OpenProject(9),
        _ => Action::Nothing,
    }
}

/// The value of a decimal digit, if `c` is one.
pub fn digit_value(c: char) -> (value: Option<usize>)
    ensures
        value is Some <==> '0' <= c <= '9',
        value matches Some(d) ==> d == c as int - '0' as int,
{
    if '0' <= c && c <= '9' {
        Some((c as u32 - '0' as u32) as usize)
    } else {
        None
    }
}

/// Looks a key up in the command table.
pub fn decode(key: Key) -> (action: Action)
    ensures
        action == command(key),
{
    match key {
        Key::Char(c) => {
            match digit_value(c) {
                Some(d) => {
                    if d == 0 {
                        Action::Nothing
                    } else {
                        Action::OpenProject(d)
                    }
                },
                None => {
                    if c == 'q' {
                        Action::Quit
                    } else if c == 'h' {
                        Action::Navigate(Screen::Home)
                    } else if c == 'p' {
                        Action::Navigate(Screen::Projects)
                    } else if c == 'w' {
                        Action::OpenLink(FixedLink::Website)
                    } else if c == 'g' {
                        Action::OpenLink(FixedLink::GitHub)
                    } else if c == 't' {
                        Action::OpenLink(FixedLink::LinkedIn)
                    } else if c == 'l' {
                        Action::OpenLink(FixedLink::X)
                    } else if c == 'i' {
                        Action::OpenLink(FixedLink::Instagram)
                    } else if c == 'e' {
                        Action::OpenLink(FixedLink::Email)
                    } else {
                        Action::Nothing
                    }
                },
            }
        },
        Key::Other => Action::Nothing,
    }
}

} // verus!
