use std::sync::Arc;
use vstd::prelude::*;
use crate::deps::connection_outcome;
use crate::errors::{ErrorCode, WorkspaceError};
use crate::event::{event_handler, workspace_events, WorkspaceEvent};
use crate::module::{
    find_route, is_registered, registered_once, route_for, routes_distinct, workspace_routes,
    EventRoute,
};
use crate::pool::{pool_get_outcome, ConnectionPool};
use crate::services::{composed_from, FlowyDocument, ServerConfig, WorkspaceController};

verus! {

/// The position of each event in the workspace catalog.
pub open spec fn event_index(e: WorkspaceEvent) -> int {
    match e {
        WorkspaceEvent::InitWorkspace => 0,
        WorkspaceEvent::CreateWorkspace => 1,
        WorkspaceEvent::ReadCurWorkspace => 2,
        WorkspaceEvent::ReadWorkspaces => 3,
        WorkspaceEvent::OpenWorkspace => 4,
        WorkspaceEvent::ReadWorkspaceApps => 5,
        WorkspaceEvent::CreateApp => 6,
        WorkspaceEvent::ReadApp => 7,
        WorkspaceEvent::UpdateApp => 8,
        WorkspaceEvent::DeleteApp => 9,
        WorkspaceEvent::CreateView => 10,
        WorkspaceEvent::ReadView => 11,
        WorkspaceEvent::UpdateView => 12,
        WorkspaceEvent::DeleteView => 13,
        WorkspaceEvent::OpenView => 14,
        WorkspaceEvent::ApplyDocDelta => 15,
        WorkspaceEvent::ReadTrash => 16,
    }
}

/// The catalog lists each event once, at its own position.
pub proof fn lemma_workspace_events_indexed()
    ensures
        workspace_events().len() == 17,
        forall|i: int| 0 <= i < 17 ==> event_index(#[trigger] workspace_events()[i]) == i,
        forall|e: WorkspaceEvent|
            0 <= #[trigger] event_index(e) < 17 && workspace_events()[event_index(e)] == e,
{
}

/// Binding an event that is not yet bound keeps every event bound at most once.
pub proof fn lemma_register_keeps_distinct(routes: Seq<EventRoute>, route: EventRoute)
    requires
        routes_distinct(routes),
        !is_registered(routes, route.event),
    ensures
        routes_distinct(routes.push(route)),
{
    let pushed = routes.push(route);
    assert forall|i: int, j: int|
        0 <= i < pushed.len() && 0 <= j < pushed.len() && #[trigger] pushed[i].event
            == #[trigger] pushed[j].event implies i == j by {
        if i < routes.len() && j == routes.len() {
            assert(routes[i].event == route.event);
        } else if j < routes.len() && i == routes.len() {
            assert(routes[j].event == route.event);
        }
    }
}

/// In a table where each event is bound at most once, looking an event up
/// finds the one route bound to it.
pub proof fn lemma_find_distinct(routes: Seq<EventRoute>, i: int)
    requires
        routes_distinct(routes),
        0 <= i < routes.len(),
    ensures
        find_route(routes, routes[i].event) == Some(routes[i]),
    decreases routes.len(),
{
    if i != routes.len() - 1 {
        let shorter = routes.drop_last();
        assert(routes.last() == routes[routes.len() - 1]);
        assert(routes_distinct(shorter)) by {
            assert forall|a: int, b: int|
                0 <= a < shorter.len() && 0 <= b < shorter.len() && #[trigger] shorter[a].event
                    == #[trigger] shorter[b].event implies a == b by {
                assert(routes[a].event == routes[b].event);
            }
        }
        assert(shorter[i] == routes[i]);
        lemma_find_distinct(shorter, i);
    }
}

/// The workspace routing table binds every event exactly once, to its own
/// handler, and a lookup of any event finds that binding.
pub proof fn lemma_workspace_routes_complete()
    ensures
        routes_distinct(workspace_routes()),
        forall|e: WorkspaceEvent| #[trigger] registered_once(workspace_routes(), e),
        forall|e: WorkspaceEvent|
            #[trigger] find_route(workspace_routes(), e) == Some(route_for(e, event_handler(e))),
{
    lemma_workspace_events_indexed();
    let routes = workspace_routes();
    assert(routes.len() == 17);
    assert forall|i: int| 0 <= i < 17 implies #[trigger] routes[i].event
        == workspace_events()[i] by {}
    assert forall|e: WorkspaceEvent| #[trigger] registered_once(routes, e) by {
        let k = event_index(e);
        assert(routes[k].event == e);
        assert forall|j: int| 0 <= j < routes.len() && #[trigger] routes[j].event == e implies j
            == k by {
            assert(event_index(workspace_events()[j]) == j);
        }
    }
    assert forall|i: int, j: int|
        0 <= i < routes.len() && 0 <= j < routes.len() && #[trigger] routes[i].event
            == #[trigger] routes[j].event implies i == j by {
        assert(event_index(workspace_events()[i]) == i);
        assert(event_index(workspace_events()[j]) == j);
    }
    assert forall|e: WorkspaceEvent|
        #[trigger] find_route(routes, e) == Some(route_for(e, event_handler(e))) by {
        let k = event_index(e);
        lemma_find_distinct(routes, k);
    }
}

/// The sub-controllers of one composition hold the very user, database and
/// server handles of the aggregate; the view controller alone holds the
/// document handle.
pub proof fn lemma_controllers_share_capabilities<U, D>(
    w: WorkspaceController<U, D>,
    user: Arc<U>,
    database: Arc<D>,
    document: Arc<FlowyDocument>,
    config: ServerConfig,
)
    requires
        composed_from(w, user, database, document, config),
    ensures
        w.app_controller.user == w.user && w.view_controller.user == w.user,
        w.app_controller.database == w.database && w.view_controller.database == w.database,
        w.app_controller.server == w.server && w.view_controller.server == w.server,
        w.view_controller.document == document,
{
}

/// A failing pool accessor makes the connection attempt fail with the
/// accessor's own error; a pool that cannot hand out a connection makes it
/// fail with an internal error whose context is the pool's description.
pub proof fn lemma_pool_failure_surfaces(accessor: Result<Arc<ConnectionPool>, WorkspaceError>)
    ensures
        accessor matches Err(e) ==> connection_outcome(accessor) == Err::<
            Seq<char>,
            (ErrorCode, Seq<char>),
        >((e.code, e.msg@)),
        accessor matches Ok(p) ==> (pool_get_outcome(*p) matches Err(reason)
            ==> connection_outcome(accessor) == Err::<Seq<char>, (ErrorCode, Seq<char>)>(
            (ErrorCode::Internal, reason),
        )),
{
}

/// Two compositions share nothing their inputs do not: each controller of a
/// graph holds only the capabilities passed to its own composition, and the
/// same inputs give the same graph.
pub proof fn lemma_compositions_independent<U, D>(
    w1: WorkspaceController<U, D>,
    user1: Arc<U>,
    database1: Arc<D>,
    document1: Arc<FlowyDocument>,
    config1: ServerConfig,
    w2: WorkspaceController<U, D>,
    user2: Arc<U>,
    database2: Arc<D>,
    document2: Arc<FlowyDocument>,
    config2: ServerConfig,
)
    requires
        composed_from(w1, user1, database1, document1, config1),
        composed_from(w2, user2, database2, document2, config2),
    ensures
        user1 != user2 ==> {
            &&& w1.user != w2.user
            &&& w1.app_controller.user != w2.app_controller.user
            &&& w1.view_controller.user != w2.view_controller.user
        },
        database1 != database2 ==> {
            &&& w1.database != w2.database
            &&& w1.app_controller.database != w2.app_controller.database
            &&& w1.view_controller.database != w2.view_controller.database
        },
        config1 != config2 ==> w1.server != w2.server,
        (user1 == user2 && database1 == database2 && document1 == document2 && config1
            == config2) ==> w1 == w2,
{
    if user1 == user2 && database1 == database2 && document1 == document2 && config1 == config2 {
        assert(w1.server == w2.server);
        assert(w1.app_controller == w2.app_controller);
        assert(w1.view_controller == w2.view_controller);
        assert(w1.trash_controller == w2.trash_controller);
    }
}

} // verus!
