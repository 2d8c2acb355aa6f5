use std::sync::Arc;
use vstd::prelude::*;
use crate::deps::{WorkspaceDatabase, WorkspaceUser};
use crate::event::{event_handler, handler_state, workspace_events, Handler, StateKind, WorkspaceEvent};
use crate::services::{
    composed_from, construct_workspace_server, AppController, FlowyDocument, ServerConfig,
    TrashController, ViewController, WorkspaceController,
};

verus! {

/// One entry of the routing table: an event, the handler bound to it, and the
/// shared state that handler is invoked with.
#[derive(Clone, Copy, Debug, PartialEq, Eq, Structural)]
pub struct EventRoute {
    pub event: WorkspaceEvent,
    pub handler: Handler,
    pub state: StateKind,
}

/// The shared state a module exposes to the dispatcher, each handle reachable
/// on its own.
pub struct ModuleData<U, D> {
    pub workspace: Arc<WorkspaceController<U, D>>,
    pub app: Arc<AppController<U, D>>,
    pub view: Arc<ViewController<U, D>>,
    pub trash: Arc<TrashController>,
}

/// One shared state handle, as a handler receives it.
pub enum BoundState<U, D> {
    Workspace(Arc<WorkspaceController<U, D>>),
    App(Arc<AppController<U, D>>),
    View(Arc<ViewController<U, D>>),
    Trash(Arc<TrashController>),
}

/// The handle of `data` that stands for `kind`.
pub open spec fn bound_state<U, D>(data: ModuleData<U, D>, kind: StateKind) -> BoundState<U, D> {
    match kind {
        StateKind::Workspace => BoundState::Workspace(data.workspace),
        StateKind::App => BoundState::App(data.app),
        StateKind::View => BoundState::View(data.view),
        StateKind::Trash => BoundState::Trash(data.trash),
    }
}

/// The route bound to `handler` for `event`.
pub open spec fn route_for(event: WorkspaceEvent, handler: Handler) -> EventRoute {
    EventRoute { event, handler, state: handler_state(handler) }
}

/// Whether some route of `routes` is for `event`.
pub open spec fn is_registered(routes: Seq<EventRoute>, event: WorkspaceEvent) -> bool {
    exists|i: int| 0 <= i < routes.len() && #[trigger] routes[i].event == event
}

/// No two routes are for the same event.
pub open spec fn routes_distinct(routes: Seq<EventRoute>) -> bool {
    forall|i: int, j: int|
        0 <= i < routes.len() && 0 <= j < routes.len() && #[trigger] routes[i].event
            == #[trigger] routes[j].event ==> i == j
}

/// Exactly one route of `routes` is for `event`.
pub open spec fn registered_once(routes: Seq<EventRoute>, event: WorkspaceEvent) -> bool {
    exists|i: int|
        0 <= i < routes.len() && #[trigger] routes[i].event == event && forall|j: int|
            0 <= j < routes.len() && #[trigger] routes[j].event == event ==> j == i
}

/// The route of `routes` for `event`, if any (the last one, should there be several).
pub open spec fn find_route(routes: Seq<EventRoute>, event: WorkspaceEvent) -> Option<EventRoute>
    decreases routes.len(),
{
    if routes.len() == 0 {
        None
    } else if routes.last().event == event {
        Some(routes.last())
    } else {
        find_route(routes.drop_last(), event)
    }
}

/// The routing table of the workspace module, in registration order.
pub open spec fn workspace_routes() -> Seq<EventRoute> {
    workspace_events().map_values(|e: WorkspaceEvent| route_for(e, event_handler(e)))
}

/// A named unit handed to the dispatcher: shared state and an event table.
pub struct Module<U, D> {
    pub name: String,
    pub data: ModuleData<U, D>,
    /// The routing table, in registration order.
    pub routes: Vec<EventRoute>,
}

impl<U, D> Module<U, D> {
    /// A module with no event registered yet.
    pub fn new(name: String, data: ModuleData<U, D>) -> (r: Module<U, D>)
        ensures
            r.name == name,
            r.data == data,
            r.routes@ == Seq::<EventRoute>::empty(),
    {
        Module { name, data, routes: Vec::new() }
    }

    /// Binds `handler` to `event`; an event can be bound only once.
    pub fn event(self, event: WorkspaceEvent, handler: Handler) -> (r: Module<U, D>)
        requires
            !is_registered(self.routes@, event),
        ensures
            r.name == self.name,
            r.data == self.data,
            r.routes@ == self.routes@.push(route_for(event, handler)),
    {
        let mut routes = self.routes;
        routes.push(EventRoute { event, handler, state: handler.state() });
        Module { name: self.name, data: self.data, routes }
    }

    /// Binds `handler` to `event` where `event` is not bound yet; otherwise
    /// hands the module back unchanged as the error.
    pub fn try_event(self, event: WorkspaceEvent, handler: Handler) -> (r: Result<
        Module<U, D>,
        Module<U, D>,
    >)
        ensures
            match r {
                Ok(m) => !is_registered(self.routes@, event) && m.name == self.name && m.data
                    == self.data && m.routes@ == self.routes@.push(route_for(event, handler)),
                Err(m) => is_registered(self.routes@, event) && m == self,
            },
    {
        if self.route(event).is_some() {
            Err(self)
        } else {
            Ok(self.event(event, handler))
        }
    }

    /// The route registered for `event`, or `None` where there is none.
    pub fn route(&self, event: WorkspaceEvent) -> (r: Option<EventRoute>)
        ensures
            r == find_route(self.routes@, event),
            r is None <==> !is_registered(self.routes@, event),
    {
        let mut i: usize = self.routes.len();
        assert(self.routes@.take(i as int) =~= self.routes@);
        while i > 0
            invariant
                i <= self.routes@.len(),
                find_route(self.routes@, event) == find_route(self.routes@.take(i as int), event),
                forall|k: int| i <= k < self.routes@.len() ==> self.routes@[k].event != event,
            decreases i,
        {
            let ghost prefix = self.routes@.take(i as int);
            assert(prefix.drop_last() =~= self.routes@.take(i - 1));
            assert(prefix.last() == self.routes@[i - 1]);
            if self.routes[i - 1].event == event {
                return Some(self.routes[i - 1]);
            }
            i = i - 1;
        }
        assert(self.routes@.take(0) =~= Seq::<EventRoute>::empty());
        None
    }

    /// The handler registered for `event` together with the shared state it
    /// is invoked with, or `None` where the event is not registered.
    pub fn resolve(&self, event: WorkspaceEvent) -> (r: Option<(Handler, BoundState<U, D>)>)
        ensures
            match find_route(self.routes@, event) {
                None => r is None,
                Some(route) => r == Some((route.handler, bound_state(self.data, route.state))),
            },
    {
        match self.route(event) {
            None => None,
            Some(route) => {
                let state = match route.state {
                    StateKind::Workspace => BoundState::Workspace(self.data.workspace.clone()),
                    StateKind::App => BoundState::App(self.data.app.clone()),
                    StateKind::View => BoundState::View(self.data.view.clone()),
                    StateKind::Trash => BoundState::Trash(self.data.trash.clone()),
                };
                Some((route.handler, state))
            },
        }
    }
}

/// Composes the workspace controllers, in dependency order, from the injected
/// capabilities. Composition is wiring only: it cannot fail.
pub fn mk_workspace<U: WorkspaceUser, D: WorkspaceDatabase>(
    user: Arc<U>,
    database: Arc<D>,
    flowy_document: Arc<FlowyDocument>,
    server_config: &ServerConfig,
) -> (r: Arc<WorkspaceController<U, D>>)
    ensures
        composed_from(*r, user, database, flowy_document, *server_config),
{
    let server = construct_workspace_server(server_config);
    let trash_controller = Arc::new(TrashController::new());
    let view_controller = Arc::new(
        ViewController::new(user.clone(), database.clone(), server.clone(), flowy_document),
    );
    let app_controller = Arc::new(AppController::new(user.clone(), database.clone(), server.clone()));
    Arc::new(
        WorkspaceController::new(
            user,
            database,
            app_controller,
            view_controller,
            trash_controller,
            server,
        ),
    )
}

/// The name under which the workspace module is registered.
pub open spec fn workspace_module_name() -> Seq<char> {
    "Flowy-Workspace"@
}

/// The shared state that a composed aggregate exposes: itself and each of
/// its sub-controllers.
pub open spec fn workspace_data<U, D>(workspace: Arc<WorkspaceController<U, D>>) -> ModuleData<U, D> {
    ModuleData {
        workspace,
        app: workspace.app_controller,
        view: workspace.view_controller,
        trash: workspace.trash_controller,
    }
}

/// Builds the workspace module: the aggregate and its sub-controllers as
/// shared state, and every workspace event bound to its handler.
pub fn create<U: WorkspaceUser, D: WorkspaceDatabase>(workspace: Arc<WorkspaceController<U, D>>) -> (r:
    Module<U, D>)
    ensures
        r.name@ == workspace_module_name(),
        r.data == workspace_data(workspace),
        r.routes@ == workspace_routes(),
{
    let name = String::from_str("Flowy-Workspace");
    proof {
        reveal_strlit("Flowy-Workspace");
    }
    let data = ModuleData {
        workspace: workspace.clone(),
        app: workspace.app_controller.clone(),
        view: workspace.view_controller.clone(),
        trash: workspace.trash_controller.clone(),
    };
    let mut module = Module::new(name, data).event(
        WorkspaceEvent::InitWorkspace,
        Handler::InitWorkspace,
    );

    module =
    module.event(WorkspaceEvent::CreateWorkspace, Handler::CreateWorkspace).event(
        WorkspaceEvent::ReadCurWorkspace,
        Handler::ReadCurWorkspace,
    ).event(WorkspaceEvent::ReadWorkspaces, Handler::ReadWorkspaces).event(
        WorkspaceEvent::OpenWorkspace,
        Handler::OpenWorkspace,
    ).event(WorkspaceEvent::ReadWorkspaceApps, Handler::ReadWorkspaceApps);

    module =
    module.event(WorkspaceEvent::CreateApp, Handler::CreateApp).event(
        WorkspaceEvent::ReadApp,
        Handler::ReadApp,
    ).event(WorkspaceEvent::UpdateApp, Handler::UpdateApp).event(
        WorkspaceEvent::DeleteApp,
        Handler::DeleteApp,
    );

    module =
    module.event(WorkspaceEvent::CreateView, Handler::CreateView).event(
        WorkspaceEvent::ReadView,
        Handler::ReadView,
    ).event(WorkspaceEvent::UpdateView, Handler::UpdateView).event(
        WorkspaceEvent::DeleteView,
        Handler::DeleteView,
    ).event(WorkspaceEvent::OpenView, Handler::OpenView).event(
        WorkspaceEvent::ApplyDocDelta,
        Handler::ApplyDocDelta,
    );

    module = module.event(WorkspaceEvent::ReadTrash, Handler::ReadTrash);

    assert(module.routes@ =~= workspace_routes());
    module
}

} // verus!
