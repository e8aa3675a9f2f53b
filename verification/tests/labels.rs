use fleet_nav::navigator::{Role, Screen, Session};

#[test]
fn role_labels() {
    assert_eq!(Role::Driver.label(), "Driver");
    assert_eq!(Role::Dispatcher.label(), "Dispatcher");
}

#[test]
fn status_labels() {
    assert_eq!(Screen::Main.status_label(), "Main Menu");
    assert_eq!(Screen::DriverView.status_label(), "Current Mode: Driver");
    assert_eq!(Screen::DispatcherView.status_label(), "Current Mode: Dispatcher");
    assert_eq!(Screen::ConfirmExit.status_label(), "Exiting");
}

#[test]
fn key_hints() {
    assert_eq!(
        Screen::Main.key_hint(),
        "(q) to quit/ (1) login as driver / (2) login as dispatcher"
    );
    assert_eq!(Screen::DriverView.key_hint(), "(m) back to main menu");
    assert_eq!(Screen::DispatcherView.key_hint(), "(m) back to main menu");
    assert_eq!(
        Screen::ConfirmExit.key_hint(),
        "(y)/(n) are you sure you want to quit?"
    );
}

#[test]
fn hints_follow_the_session() {
    let mut s = Session::new();
    assert_eq!(s.screen.key_hint(), "(q) to quit/ (1) login as driver / (2) login as dispatcher");
    s.handle_key('1');
    assert_eq!(s.screen.status_label(), "Current Mode: Driver");
    assert_eq!(s.screen.key_hint(), "(m) back to main menu");
    s.handle_key('m');
    s.handle_key('q');
    assert_eq!(s.screen.status_label(), "Exiting");
    assert_eq!(s.screen.key_hint(), "(y)/(n) are you sure you want to quit?");
}
