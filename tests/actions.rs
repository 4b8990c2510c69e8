use polarbear::power::{finish, Action, ActionError, Answer, CommandStatus, Failure, Message, Next};

const KINDS: [Message; 4] = [Message::Logout, Message::Hibernate, Message::Reboot, Message::Poweroff];

fn custom() -> Action {
    Action::Custom {
        logout: "loginctl terminate-session self".to_string(),
        hibernate: "systemctl hibernate".to_string(),
        poweroff: "systemctl poweroff".to_string(),
        reboot: "systemctl reboot".to_string(),
    }
}

fn run_of(n: Next) -> Option<String> {
    match n {
        Next::Run(c) => Some(c),
        _ => None,
    }
}

#[test]
fn declined_runs_nothing() {
    for action in [Action::KDE6, custom()] {
        for k in KINDS {
            assert!(matches!(action.decide(&k, &Answer::No), Next::Abort));
        }
    }
}

#[test]
fn dialog_failure_runs_nothing() {
    for action in [Action::KDE6, custom()] {
        for k in KINDS {
            assert!(matches!(
                action.decide(&k, &Answer::Unavailable),
                Next::Fail(ActionError::DialogFailed)
            ));
        }
    }
}

#[test]
fn hibernate_preset_is_unimplemented() {
    assert!(matches!(Action::KDE6.hibernate(&Answer::Yes), Next::Fail(ActionError::Unimplemented)));
    assert_eq!(Action::KDE6.command(&Message::Hibernate).err(), Some(ActionError::Unimplemented));
    assert!(matches!(Action::KDE6.hibernate(&Answer::No), Next::Abort));
}

#[test]
fn preset_commands() {
    let a = Action::KDE6;
    assert_eq!(run_of(a.logout(&Answer::Yes)).unwrap(), "qdbus6 org.kde.Shutdown /Shutdown logout");
    assert_eq!(run_of(a.reboot(&Answer::Yes)).unwrap(), "qdbus6 org.kde.Shutdown /Shutdown logoutAndReboot");
    assert_eq!(
        run_of(a.poweroff(&Answer::Yes)).unwrap(),
        "qdbus6 org.kde.Shutdown /Shutdown logoutAndShutdown"
    );
}

#[test]
fn custom_commands_match_their_kind() {
    let a = custom();
    assert_eq!(run_of(a.logout(&Answer::Yes)).unwrap(), "loginctl terminate-session self");
    assert_eq!(run_of(a.hibernate(&Answer::Yes)).unwrap(), "systemctl hibernate");
    assert_eq!(run_of(a.poweroff(&Answer::Yes)).unwrap(), "systemctl poweroff");
    assert_eq!(run_of(a.reboot(&Answer::Yes)).unwrap(), "systemctl reboot");
}

#[test]
fn duplicate_keeps_commands() {
    let a = custom().duplicate();
    assert_eq!(a.command(&Message::Reboot).unwrap(), "systemctl reboot");
    assert!(matches!(Action::KDE6.duplicate(), Action::KDE6));
    assert!(matches!(Action::default(), Action::KDE6));
}

#[test]
fn prompts_name_the_action() {
    let p = Message::Logout.prompt();
    assert_eq!(p.title, "Logout - Polarbear");
    assert_eq!(p.text, "Confirm logout?");
    let p = Message::Hibernate.prompt();
    assert_eq!(p.title, "Hibernate - Polarbear");
    assert_eq!(p.text, "Confirm hibernate?");
    let p = Message::Poweroff.prompt();
    assert_eq!(p.title, "Poweroff - Polarbear");
    assert_eq!(p.text, "Confirm poweroff?");
}

#[test]
fn command_results() {
    assert_eq!(finish(&CommandStatus::Exited(0)), Ok(()));
    assert_eq!(finish(&CommandStatus::Exited(3)), Err(ActionError::CommandFailed(Failure::ExitCode(3))));
    assert_eq!(finish(&CommandStatus::Killed), Err(ActionError::CommandFailed(Failure::Killed)));
    assert_eq!(finish(&CommandStatus::SpawnFailed), Err(ActionError::CommandFailed(Failure::SpawnFailed)));
}
