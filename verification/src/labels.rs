//! Display labels for the navigator's states.
//!
//! A renderer decides what to show purely from the current [`Session`];
//! the text chosen for each screen and role is part of the navigator's
//! behaviour, so it is defined and specified here. How the text is laid
//! out on screen is left to the host program.

use vstd::prelude::*;
use crate::navigator::{Role, Screen};

verus! {

/// The display label of a role.
pub open spec fn role_label_of(r: Role) -> Seq<char> {
    match r {
        Role::Driver => "Driver"@,
        Role::Dispatcher => "Dispatcher"@,
    }
}

/// The status line shown for a screen.
pub open spec fn status_label_of(s: Screen) -> Seq<char> {
    match s {
        Screen::Main => "Main Menu"@,
        Screen::DriverView => "Current Mode: Driver"@,
        Screen::DispatcherView => "Current Mode: Dispatcher"@,
        Screen::ConfirmExit => "Exiting"@,
    }
}

/// The key hints shown for a screen.
pub open spec fn key_hint_of(s: Screen) -> Seq<char> {
    match s {
        Screen::Main => "(q) to quit/ (1) login as driver / (2) login as dispatcher"@,
        Screen::DriverView => "(m) back to main menu"@,
        Screen::DispatcherView => "(m) back to main menu"@,
        Screen::ConfirmExit => "(y)/(n) are you sure you want to quit?"@,
    }
}

impl Role {
    /// The display label of this role.
    pub fn label(&self) -> (r: &'static str)
        ensures
            r@ == role_label_of(*self),
    {
        match self {
            Role::Driver => "Driver",
            Role::Dispatcher => "Dispatcher",
        }
    }
}

impl Screen {
    /// The status line a renderer shows for this screen.
    pub fn status_label(&self) -> (r: &'static str)
        ensures
            r@ == status_label_of(*self),
    {
        match self {
            Screen::Main => "Main Menu",
            Screen::DriverView => "Current Mode: Driver",
            Screen::DispatcherView => "Current Mode: Dispatcher",
            Screen::ConfirmExit => "Exiting",
        }
    }

    /// The key hints a renderer shows for this screen.
    pub fn key_hint(&self) -> (r: &'static str)
        ensures
            r@ == key_hint_of(*self),
    {
        match self {
            Screen::Main => "(q) to quit/ (1) login as driver / (2) login as dispatcher",
            Screen::DriverView => "(m) back to main menu",
            Screen::DispatcherView => "(m) back to main menu",
            Screen::ConfirmExit => "(y)/(n) are you sure you want to quit?",
        }
    }
}

} // verus!
