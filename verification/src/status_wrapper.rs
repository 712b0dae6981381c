//! The status taxonomy that the service reports for a task.

use vstd::prelude::*;

verus! {

/// The state a task is in. Exactly one of them holds at any time.
#[derive(Debug, Clone, Copy, PartialEq, Eq, Structural)]
pub enum StatusWrapperKind {
    NoStart,
    Running,
    Pending,
    Error,
    Finished,
}

impl StatusWrapperKind {
    /// The name under which the state is shown.
    pub open spec fn name(self) -> Seq<char> {
        match self {
            StatusWrapperKind::NoStart => "NoStart"@,
            StatusWrapperKind::Running => "Running"@,
            StatusWrapperKind::Pending => "Pending"@,
            StatusWrapperKind::Error => "Error"@,
            StatusWrapperKind::Finished => "Finished"@,
        }
    }

    /// The state's name as text.
    pub fn as_str(&self) -> (text: &'static str)
        ensures
            text@ == self.name(),
    {
        match self {
            StatusWrapperKind::NoStart => "NoStart",
            StatusWrapperKind::Running => "Running",
            StatusWrapperKind::Pending => "Pending",
            StatusWrapperKind::Error => "Error",
            StatusWrapperKind::Finished => "Finished",
        }
    }

    /// No transition leaves this state without an explicit start.
    pub open spec fn is_terminal(self) -> bool {
        self == StatusWrapperKind::Finished || self == StatusWrapperKind::Error
    }
}

/// A state together with the message that explains it, where there is one.
#[derive(Debug)]
pub struct StatusWrapper {
    pub kind: StatusWrapperKind,
    pub message: Option<String>,
}

/// What a [`StatusWrapper`] says.
pub ghost struct StatusView {
    pub kind: StatusWrapperKind,
    pub message: Option<Seq<char>>,
}

impl View for StatusWrapper {
    type V = StatusView;

    open spec fn view(&self) -> StatusView {
        StatusView {
            kind: self.kind,
            message: match self.message {
                Some(text) => Some(text@),
                None => None,
            },
        }
    }
}

impl StatusWrapper {
    /// A status of the given kind without a message.
    pub fn new(kind: StatusWrapperKind) -> (status: Self)
        ensures
            status@ == (StatusView { kind, message: None }),
    {
        Self { kind, message: None }
    }

    /// The same kind of status, with `message` in place of any earlier one.
    pub fn with_message(self, message: String) -> (status: Self)
        ensures
            status@ == (StatusView { kind: self.kind, message: Some(message@) }),
    {
        Self { kind: self.kind, message: Some(message) }
    }
}

impl Clone for StatusWrapper {
    fn clone(&self) -> (copy: Self)
        ensures
            copy == *self,
    {
        let message = match &self.message {
            Some(text) => Some(text.clone()),
            None => None,
        };
        Self { kind: self.kind, message }
    }
}

impl Default for StatusWrapper {
    fn default() -> (status: Self)
        ensures
            status@ == (StatusView { kind: StatusWrapperKind::NoStart, message: None }),
    {
        Self::new(StatusWrapperKind::NoStart)
    }
}

impl PartialEq for StatusWrapper {
    fn eq(&self, other: &Self) -> (same: bool) {
        let same_message = match &self.message {
            Some(left) => match &other.message {
                Some(right) => left.eq(right),
                None => false,
            },
            None => other.message.is_none(),
        };
        self.kind == other.kind && same_message
    }
}

impl vstd::std_specs::cmp::PartialEqSpecImpl for StatusWrapper {
    open spec fn obeys_eq_spec() -> bool {
        true
    }

    open spec fn eq_spec(&self, other: &Self) -> bool {
        self@ == other@
    }
}

} // verus!
