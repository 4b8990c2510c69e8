//! Session and power actions: which command each one runs, and the
//! confirm-then-run steps that lead from a click to that command.
use vstd::prelude::*;

verus! {

/// The four session and power actions.
#[derive(Clone, Copy, Debug, PartialEq, Eq, Structural)]
pub enum Message {
    Logout,
    Hibernate,
    Reboot,
    Poweroff,
}

/// Where the commands come from: the KDE 6 session manager, or one command per action.
#[derive(Clone, Debug)]
pub enum Action {
    Custom { logout: String, hibernate: String, poweroff: String, reboot: String },
    KDE6,
}

pub enum ActionView {
    Custom { logout: Seq<char>, hibernate: Seq<char>, poweroff: Seq<char>, reboot: Seq<char> },
    KDE6,
}

impl View for Action {
    type V = ActionView;

    open spec fn view(&self) -> ActionView {
        match self {
            Action::Custom { logout, hibernate, poweroff, reboot } => ActionView::Custom {
                logout: logout@,
                hibernate: hibernate@,
                poweroff: poweroff@,
                reboot: reboot@,
            },
            Action::KDE6 => ActionView::KDE6,
        }
    }
}

/// Why an action did not complete.
#[derive(Clone, Copy, Debug, PartialEq, Eq, Structural)]
pub enum ActionError {
    /// The backend has no command for this action.
    Unimplemented,
    /// The confirmation dialog could not be shown.
    DialogFailed,
    /// The command could not be started or did not succeed.
    CommandFailed(Failure),
}

/// How a command failed.
#[derive(Clone, Copy, Debug, PartialEq, Eq, Structural)]
pub enum Failure {
    /// The shell could not be started.
    SpawnFailed,
    /// The command ended with a non-zero exit code.
    ExitCode(i32),
    /// The command was ended by a signal.
    Killed,
}

/// What the user answered to the confirmation dialog.
#[derive(Clone, Copy, Debug, PartialEq, Eq, Structural)]
pub enum Answer {
    Yes,
    No,
    /// The dialog could not be shown; this counts as a refusal.
    Unavailable,
}

/// How the command's process ended.
#[derive(Clone, Copy, Debug, PartialEq, Eq, Structural)]
pub enum CommandStatus {
    Exited(i32),
    Killed,
    SpawnFailed,
}

/// What comes after the confirmation dialog.
#[derive(Debug)]
pub enum Next {
    /// The user declined: nothing runs and nothing is reported.
    Abort,
    /// Hand this shell command to the runner.
    Run(String),
    /// The action ends with this error, and nothing runs.
    Fail(ActionError),
}

/// The command that KDE 6 runs for an action; none for hibernation.
pub open spec fn kde6_command(kind: Message) -> Option<Seq<char>> {
    match kind {
        Message::Logout => Some("qdbus6 org.kde.Shutdown /Shutdown logout"@),
        Message::Reboot => Some("qdbus6 org.kde.Shutdown /Shutdown logoutAndReboot"@),
        Message::Poweroff => Some("qdbus6 org.kde.Shutdown /Shutdown logoutAndShutdown"@),
        Message::Hibernate => None,
    }
}

/// The command an action runs under a backend, if it has one.
pub open spec fn command_of(action: ActionView, kind: Message) -> Option<Seq<char>> {
    match action {
        ActionView::Custom { logout, hibernate, poweroff, reboot } => Some(
            match kind {
                Message::Logout => logout,
                Message::Hibernate => hibernate,
                Message::Poweroff => poweroff,
                Message::Reboot => reboot,
            },
        ),
        ActionView::KDE6 => kde6_command(kind),
    }
}

/// The step after the dialog, for each answer.
pub open spec fn next_spec(action: ActionView, kind: Message, answer: Answer, next: Next) -> bool {
    match answer {
        Answer::No => next is Abort,
        Answer::Unavailable => next == Next::Fail(ActionError::DialogFailed),
        Answer::Yes => match command_of(action, kind) {
            Some(c) => next matches Next::Run(r) && r@ == c,
            None => next == Next::Fail(ActionError::Unimplemented),
        },
    }
}

/// How a finished command is reported.
pub open spec fn status_result(status: CommandStatus) -> Result<(), ActionError> {
    match status {
        CommandStatus::Exited(0) => Ok(()),
        CommandStatus::Exited(code) => Err(ActionError::CommandFailed(Failure::ExitCode(code))),
        CommandStatus::Killed => Err(ActionError::CommandFailed(Failure::Killed)),
        CommandStatus::SpawnFailed => Err(ActionError::CommandFailed(Failure::SpawnFailed)),
    }
}

pub open spec fn title_of(kind: Message) -> Seq<char> {
    match kind {
        Message::Logout => "Logout - Polarbear"@,
        Message::Hibernate => "Hibernate - Polarbear"@,
        Message::Reboot => "Reboot - Polarbear"@,
        Message::Poweroff => "Poweroff - Polarbear"@,
    }
}

pub open spec fn question_of(kind: Message) -> Seq<char> {
    match kind {
        Message::Logout => "Confirm logout?"@,
        Message::Hibernate => "Confirm hibernate?"@,
        Message::Reboot => "Confirm reboot?"@,
        Message::Poweroff => "Confirm poweroff?"@,
    }
}

/// The yes/no question put to the user before an action runs.
#[derive(Debug)]
pub struct Prompt {
    pub kind: Message,
    pub title: String,
    pub text: String,
}

impl Message {
    /// The dialog's title and question for this action.
    pub fn prompt(&self) -> (r: Prompt)
        ensures
            r.kind == *self,
            r.title@ == title_of(*self),
            r.text@ == question_of(*self),
    {
        proof {
            reveal_strlit("Logout - Polarbear");
            reveal_strlit("Hibernate - Polarbear");
            reveal_strlit("Reboot - Polarbear");
            reveal_strlit("Poweroff - Polarbear");
            reveal_strlit("Confirm logout?");
            reveal_strlit("Confirm hibernate?");
            reveal_strlit("Confirm reboot?");
            reveal_strlit("Confirm poweroff?");
        }
        let (title, text) = match self {
            Message::Logout => ("Logout - Polarbear", "Confirm logout?"),
            Message::Hibernate => ("Hibernate - Polarbear", "Confirm hibernate?"),
            Message::Reboot => ("Reboot - Polarbear", "Confirm reboot?"),
            Message::Poweroff => ("Poweroff - Polarbear", "Confirm poweroff?"),
        };
        Prompt { kind: *self, title: String::from_str(title), text: String::from_str(text) }
    }
}

impl Action {
    /// A copy with the same commands.
    pub fn duplicate(&self) -> (r: Action)
        ensures
            r@ == self@,
    {
        match self {
            Action::Custom { logout, hibernate, poweroff, reboot } => Action::Custom {
                logout: logout.clone(),
                hibernate: hibernate.clone(),
                poweroff: poweroff.clone(),
                reboot: reboot.clone(),
            },
            Action::KDE6 => Action::KDE6,
        }
    }

    /// The shell command for an action, or `Unimplemented` where the backend has none.
    pub fn command(&self, kind: &Message) -> (r: Result<String, ActionError>)
        ensures
            match command_of(self@, *kind) {
                Some(c) => r matches Ok(s) && s@ == c,
                None => r == Err::<String, ActionError>(ActionError::Unimplemented),
            },
    {
        match self {
            Action::Custom { logout, hibernate, poweroff, reboot } => Ok(
                match kind {
                    Message::Logout => logout.clone(),
                    Message::Hibernate => hibernate.clone(),
                    Message::Poweroff => poweroff.clone(),
                    Message::Reboot => reboot.clone(),
                },
            ),
            Action::KDE6 => {
                proof {
                    reveal_strlit("qdbus6 org.kde.Shutdown /Shutdown logout");
                    reveal_strlit("qdbus6 org.kde.Shutdown /Shutdown logoutAndReboot");
                    reveal_strlit("qdbus6 org.kde.Shutdown /Shutdown logoutAndShutdown");
                }
                match kind {
                    Message::Logout => Ok(
                        String::from_str("qdbus6 org.kde.Shutdown /Shutdown logout"),
                    ),
                    Message::Reboot => Ok(
                        String::from_str("qdbus6 org.kde.Shutdown /Shutdown logoutAndReboot"),
                    ),
                    Message::Poweroff => Ok(
                        String::from_str("qdbus6 org.kde.Shutdown /Shutdown logoutAndShutdown"),
                    ),
                    Message::Hibernate => Err(ActionError::Unimplemented),
                }
            },
        }
    }

    /// The step after the confirmation dialog: only a `Yes` can lead to a command.
    pub fn decide(&self, kind: &Message, answer: &Answer) -> (r: Next)
        ensures
            next_spec(self@, *kind, *answer, r),
            !(*answer is Yes) ==> !(r is Run),
    {
        match answer {
            Answer::No => Next::Abort,
            Answer::Unavailable => Next::Fail(ActionError::DialogFailed),
            Answer::Yes => match self.command(kind) {
                Ok(c) => Next::Run(c),
                Err(e) => Next::Fail(e),
            },
        }
    }

    /// Under the KDE 6 backend a confirmed hibernation always fails as unimplemented.
    pub fn hibernate(&self, answer: &Answer) -> (r: Next)
        ensures
            next_spec(self@, Message::Hibernate, *answer, r),
            self@ is KDE6 && *answer is Yes ==> r == Next::Fail(ActionError::Unimplemented),
    {
        self.decide(&Message::Hibernate, answer)
    }

    pub fn poweroff(&self, answer: &Answer) -> (r: Next)
        ensures
            next_spec(self@, Message::Poweroff, *answer, r),
    {
        self.decide(&Message::Poweroff, answer)
    }

    pub fn reboot(&self, answer: &Answer) -> (r: Next)
        ensures
            next_spec(self@, Message::Reboot, *answer, r),
    {
        self.decide(&Message::Reboot, answer)
    }

    pub fn logout(&self, answer: &Answer) -> (r: Next)
        ensures
            next_spec(self@, Message::Logout, *answer, r),
    {
        self.decide(&Message::Logout, answer)
    }
}

impl Default for Action {
    fn default() -> (r: Action)
        ensures
            r is KDE6,
    {
        Action::KDE6
    }
}

/// The result of an action whose command ran: only exit code zero is success.
pub fn finish(status: &CommandStatus) -> (r: Result<(), ActionError>)
    ensures
        r == status_result(*status),
{
    match status {
        CommandStatus::Exited(code) => if *code == 0 {
            Ok(())
        } else {
            Err(ActionError::CommandFailed(Failure::ExitCode(*code)))
        },
        CommandStatus::Killed => Err(ActionError::CommandFailed(Failure::Killed)),
        CommandStatus::SpawnFailed => Err(ActionError::CommandFailed(Failure::SpawnFailed)),
    }
}

/// Settings of the power widget.
#[derive(Clone, Debug)]
pub struct Config {
    pub enable: bool,
    pub action: Action,
}

impl Default for Config {
    fn default() -> (r: Config)
        ensures
            r.enable,
            r.action is KDE6,
    {
        Config { enable: true, action: Action::default() }
    }
}

/// The power widget: four buttons, each starting one action.
pub struct Power {
    pub cfg: Config,
}

/// The buttons the widget shows, in order; none when it is disabled.
pub open spec fn buttons_of(enable: bool) -> Seq<Message> {
    if enable {
        seq![Message::Hibernate, Message::Reboot, Message::Poweroff, Message::Logout]
    } else {
        seq![]
    }
}

impl Power {
    pub fn new(cfg: Config) -> (r: Power)
        ensures
            r.cfg.enable == cfg.enable,
            r.cfg.action@ == cfg.action@,
    {
        Power { cfg }
    }

    /// A click on one of the buttons: the question to ask, or nothing when the widget
    /// shows no buttons.
    pub fn update(&self, message: Message) -> (r: Option<Prompt>)
        ensures
            !self.cfg.enable <==> r is None,
            r matches Some(p) ==> p.kind == message && p.title@ == title_of(message)
                && p.text@ == question_of(message),
    {
        if !self.cfg.enable {
            return None;
        }
        Some(message.prompt())
    }

    /// The buttons shown, left to right.
    pub fn view(&self) -> (r: Vec<Message>)
        ensures
            r@ == buttons_of(self.cfg.enable),
    {
        if !self.cfg.enable {
            return Vec::new();
        }
        let r = vec![Message::Hibernate, Message::Reboot, Message::Poweroff, Message::Logout];
        proof {
            assert(r@ =~= buttons_of(true));
        }
        r
    }
}

} // verus!
