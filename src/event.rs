use vstd::prelude::*;

verus! {

/// The events the workspace subsystem answers.
#[derive(Clone, Copy, Debug, PartialEq, Eq, Structural)]
pub enum WorkspaceEvent {
    InitWorkspace,
    CreateWorkspace,
    ReadCurWorkspace,
    ReadWorkspaces,
    OpenWorkspace,
    ReadWorkspaceApps,
    CreateApp,
    ReadApp,
    UpdateApp,
    DeleteApp,
    CreateView,
    ReadView,
    UpdateView,
    DeleteView,
    OpenView,
    ApplyDocDelta,
    ReadTrash,
}

/// The handler entry points a dispatcher invokes.
#[derive(Clone, Copy, Debug, PartialEq, Eq, Structural)]
pub enum Handler {
    InitWorkspace,
    CreateWorkspace,
    ReadCurWorkspace,
    ReadWorkspaces,
    OpenWorkspace,
    ReadWorkspaceApps,
    CreateApp,
    ReadApp,
    UpdateApp,
    DeleteApp,
    CreateView,
    ReadView,
    UpdateView,
    DeleteView,
    OpenView,
    ApplyDocDelta,
    ReadTrash,
}

/// The shared state a handler is invoked with.
#[derive(Clone, Copy, Debug, PartialEq, Eq, Structural)]
pub enum StateKind {
    Workspace,
    App,
    View,
    Trash,
}

/// The narrowest shared state each handler needs.
pub open spec fn handler_state(h: Handler) -> StateKind {
    match h {
        Handler::InitWorkspace | Handler::CreateWorkspace | Handler::ReadCurWorkspace
        | Handler::ReadWorkspaces | Handler::OpenWorkspace
        | Handler::ReadWorkspaceApps => StateKind::Workspace,
        Handler::CreateApp | Handler::ReadApp | Handler::UpdateApp
        | Handler::DeleteApp => StateKind::App,
        Handler::CreateView | Handler::ReadView | Handler::UpdateView | Handler::DeleteView
        | Handler::OpenView | Handler::ApplyDocDelta => StateKind::View,
        Handler::ReadTrash => StateKind::Trash,
    }
}

impl Handler {
    /// The shared state this handler is invoked with.
    pub fn state(self) -> (r: StateKind)
        ensures
            r == handler_state(self),
    {
        match self {
            Handler::InitWorkspace | Handler::CreateWorkspace | Handler::ReadCurWorkspace
            | Handler::ReadWorkspaces | Handler::OpenWorkspace
            | Handler::ReadWorkspaceApps => StateKind::Workspace,
            Handler::CreateApp | Handler::ReadApp | Handler::UpdateApp
            | Handler::DeleteApp => StateKind::App,
            Handler::CreateView | Handler::ReadView | Handler::UpdateView | Handler::DeleteView
            | Handler::OpenView | Handler::ApplyDocDelta => StateKind::View,
            Handler::ReadTrash => StateKind::Trash,
        }
    }
}

/// The handler the workspace module binds to each event.
pub open spec fn event_handler(e: WorkspaceEvent) -> Handler {
    match e {
        WorkspaceEvent::InitWorkspace => Handler::InitWorkspace,
        WorkspaceEvent::CreateWorkspace => Handler::CreateWorkspace,
        WorkspaceEvent::ReadCurWorkspace => Handler::ReadCurWorkspace,
        WorkspaceEvent::ReadWorkspaces => Handler::ReadWorkspaces,
        WorkspaceEvent::OpenWorkspace => Handler::OpenWorkspace,
        WorkspaceEvent::ReadWorkspaceApps => Handler::ReadWorkspaceApps,
        WorkspaceEvent::CreateApp => Handler::CreateApp,
        WorkspaceEvent::ReadApp => Handler::ReadApp,
        WorkspaceEvent::UpdateApp => Handler::UpdateApp,
        WorkspaceEvent::DeleteApp => Handler::DeleteApp,
        WorkspaceEvent::CreateView => Handler::CreateView,
        WorkspaceEvent::ReadView => Handler::ReadView,
        WorkspaceEvent::UpdateView => Handler::UpdateView,
        WorkspaceEvent::DeleteView => Handler::DeleteView,
        WorkspaceEvent::OpenView => Handler::OpenView,
        WorkspaceEvent::ApplyDocDelta => Handler::ApplyDocDelta,
        WorkspaceEvent::ReadTrash => Handler::ReadTrash,
    }
}

/// The events of the workspace module, in the order they are registered.
pub open spec fn workspace_events() -> Seq<WorkspaceEvent> {
    seq![
        WorkspaceEvent::InitWorkspace,
        WorkspaceEvent::CreateWorkspace,
        WorkspaceEvent::ReadCurWorkspace,
        WorkspaceEvent::ReadWorkspaces,
        WorkspaceEvent::OpenWorkspace,
        WorkspaceEvent::ReadWorkspaceApps,
        WorkspaceEvent::CreateApp,
        WorkspaceEvent::ReadApp,
        WorkspaceEvent::UpdateApp,
        WorkspaceEvent::DeleteApp,
        WorkspaceEvent::CreateView,
        WorkspaceEvent::ReadView,
        WorkspaceEvent::UpdateView,
        WorkspaceEvent::DeleteView,
        WorkspaceEvent::OpenView,
        WorkspaceEvent::ApplyDocDelta,
        WorkspaceEvent::ReadTrash,
    ]
}

} // verus!
