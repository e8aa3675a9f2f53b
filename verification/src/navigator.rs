//! The screen navigator: a finite state machine over the session state.
//!
//! A [`Session`] holds the visible [`Screen`], the selected [`Role`] (if
//! any), and an exit flag. [`Session::handle_key`] applies one key-press
//! event; every (screen, key) pair not in the transition table is a no-op.

use vstd::prelude::*;

verus! {

/// The operating mode selected by the user.
#[derive(Clone, Copy, PartialEq, Eq, Debug)]
pub enum Role {
    Driver,
    Dispatcher,
}

/// The currently visible UI mode.
#[derive(Clone, Copy, PartialEq, Eq, Debug)]
pub enum Screen {
    Main,
    DriverView,
    DispatcherView,
    ConfirmExit,
}

/// The complete mutable state of the navigator at a point in time.
#[derive(Clone, Copy, PartialEq, Eq, Debug)]
pub struct Session {
    /// The screen currently shown to the user.
    pub screen: Screen,
    /// The role in effect; `None` outside the two role views.
    pub role: Option<Role>,
    /// Set once the user has confirmed that the program should stop.
    pub should_exit: bool,
}

/// The session a fresh process starts with: the main menu, no role
/// selected, not exiting.
pub open spec fn initial_session() -> Session {
    Session { screen: Screen::Main, role: None, should_exit: false }
}

/// Whether `key` has an entry in the transition table for `screen`.
/// Every other key is a no-op on that screen.
pub open spec fn handled_key(screen: Screen, key: char) -> bool {
    match screen {
        Screen::Main => key == 'q' || key == '1' || key == '2',
        Screen::DriverView => key == 'm',
        Screen::DispatcherView => key == 'm',
        Screen::ConfirmExit => key == 'y' || key == 'n',
    }
}

/// The transition table of the navigator: the session that one key-press
/// event turns `s` into. Total over all inputs; unhandled keys change
/// nothing.
pub open spec fn transition(s: Session, key: char) -> Session {
    match s.screen {
        Screen::Main => {
            if key == 'q' {
                Session { screen: Screen::ConfirmExit, ..s }
            } else if key == '1' {
                Session { screen: Screen::DriverView, role: Some(Role::Driver), ..s }
            } else if key == '2' {
                Session { screen: Screen::DispatcherView, role: Some(Role::Dispatcher), ..s }
            } else {
                s
            }
        },
        Screen::DriverView => {
            if key == 'm' {
                Session { screen: Screen::Main, role: None, ..s }
            } else {
                s
            }
        },
        Screen::DispatcherView => {
            if key == 'm' {
                Session { screen: Screen::Main, role: None, ..s }
            } else {
                s
            }
        },
        Screen::ConfirmExit => {
            if key == 'y' {
                Session { screen: Screen::Main, should_exit: true, ..s }
            } else if key == 'n' {
                Session { screen: Screen::Main, role: None, ..s }
            } else {
                s
            }
        },
    }
}

impl Session {
    /// Builds the session a fresh process starts with.
    pub fn new() -> (s: Session)
        ensures
            s == initial_session(),
    {
        Session { screen: Screen::Main, role: None, should_exit: false }
    }

    /// Applies one key-press event to the session, in place, following the
    /// transition table. Total: keys without an entry for the current
    /// screen leave the session unchanged.
    pub fn handle_key(&mut self, key: char)
        ensures
            *final(self) == transition(*old(self), key),
    {
        match self.screen {
            Screen::Main => {
                if key == 'q' {
                    self.screen = Screen::ConfirmExit;
                } else if key == '1' {
                    self.screen = Screen::DriverView;
                    self.role = Some(Role::Driver);
                } else if key == '2' {
                    self.screen = Screen::DispatcherView;
                    self.role = Some(Role::Dispatcher);
                }
            },
            Screen::DriverView => {
                if key == 'm' {
                    self.screen = Screen::Main;
                    self.role = None;
                }
            },
            Screen::DispatcherView => {
                if key == 'm' {
                    self.screen = Screen::Main;
                    self.role = None;
                }
            },
            Screen::ConfirmExit => {
                if key == 'y' {
                    self.screen = Screen::Main;
                    self.should_exit = true;
                } else if key == 'n' {
                    self.screen = Screen::Main;
                    self.role = None;
                }
            },
        }
    }
}

/// The consistency condition the navigator maintains: a role is selected
/// only while one of the two role views is shown. It is cleared whenever
/// the screen returns to the main menu.
pub open spec fn role_matches_screen(s: Session) -> bool {
    s.role is Some ==> s.screen == Screen::DriverView || s.screen == Screen::DispatcherView
}

/// The initial session satisfies the navigator's consistency condition.
pub proof fn lemma_initial_session_consistent()
    ensures
        role_matches_screen(initial_session()),
{
}

/// Every key-press event preserves the navigator's consistency condition.
pub proof fn lemma_transition_preserves_consistency(s: Session, key: char)
    requires
        role_matches_screen(s),
    ensures
        role_matches_screen(transition(s, key)),
{
}

/// A key with no entry in the transition table for the current screen
/// leaves the whole session unchanged.
pub proof fn lemma_unhandled_key_is_noop(s: Session, key: char)
    requires
        !handled_key(s.screen, key),
    ensures
        transition(s, key) == s,
{
}

/// Pressing a key that is a no-op for the current screen twice gives the
/// same session as pressing it once.
pub proof fn lemma_noop_key_idempotent(s: Session, key: char)
    requires
        !handled_key(s.screen, key),
    ensures
        transition(transition(s, key), key) == transition(s, key),
{
}

/// The exit flag is monotonic: once set, no key-press event clears it.
pub proof fn lemma_exit_flag_monotonic(s: Session, key: char)
    requires
        s.should_exit,
    ensures
        transition(s, key).should_exit,
{
}

} // verus!
