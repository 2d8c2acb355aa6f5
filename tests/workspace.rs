use flowy_workspace::deps::{connection_from_pool, WorkspaceDatabase, WorkspaceUser};
use flowy_workspace::errors::{ErrorCode, WorkspaceError};
use flowy_workspace::event::{Handler, StateKind, WorkspaceEvent};
use flowy_workspace::module::{create, mk_workspace, BoundState, Module, ModuleData};
use flowy_workspace::pool::{ConnectionPool, DBConnection};
use flowy_workspace::services::{
    construct_workspace_server, FlowyDocument, ServerConfig, TrashController,
    WorkspaceController,
};
use std::sync::Arc;

struct FixedUser {
    id: &'static str,
    token: &'static str,
}

impl WorkspaceUser for FixedUser {
    fn user_id(&self) -> Result<String, WorkspaceError> {
        Ok(self.id.to_string())
    }

    fn token(&self) -> Result<String, WorkspaceError> {
        Ok(self.token.to_string())
    }
}

struct SignedOutUser;

impl WorkspaceUser for SignedOutUser {
    fn user_id(&self) -> Result<String, WorkspaceError> {
        Err(WorkspaceError::new(ErrorCode::UserUnauthorized))
    }

    fn token(&self) -> Result<String, WorkspaceError> {
        Err(WorkspaceError::new(ErrorCode::UserUnauthorized))
    }
}

struct PooledDatabase {
    pool: Arc<ConnectionPool>,
}

impl PooledDatabase {
    fn new(path: &str, size: u32) -> Self {
        PooledDatabase { pool: Arc::new(ConnectionPool::new(path.to_string(), size)) }
    }
}

impl WorkspaceDatabase for PooledDatabase {
    fn db_pool(&self) -> Result<Arc<ConnectionPool>, WorkspaceError> {
        Ok(self.pool.clone())
    }
}

struct BrokenDatabase;

impl WorkspaceDatabase for BrokenDatabase {
    fn db_pool(&self) -> Result<Arc<ConnectionPool>, WorkspaceError> {
        Err(WorkspaceError::internal().context("database file is locked".to_string()))
    }
}

const ALL_EVENTS: [WorkspaceEvent; 17] = [
    WorkspaceEvent::InitWorkspace,
    WorkspaceEvent::CreateWorkspace,
    WorkspaceEvent::ReadCurWorkspace,
    WorkspaceEvent::ReadWorkspaces,
    WorkspaceEvent::OpenWorkspace,
    WorkspaceEvent::ReadWorkspaceApps,
    WorkspaceEvent::CreateApp,
    WorkspaceEvent::ReadApp,
    WorkspaceEvent::UpdateApp,
    WorkspaceEvent::DeleteApp,
    WorkspaceEvent::CreateView,
    WorkspaceEvent::ReadView,
    WorkspaceEvent::UpdateView,
    WorkspaceEvent::DeleteView,
    WorkspaceEvent::OpenView,
    WorkspaceEvent::ApplyDocDelta,
    WorkspaceEvent::ReadTrash,
];

fn config() -> ServerConfig {
    ServerConfig::new("localhost:8000".to_string(), "http".to_string(), "ws".to_string())
}

fn compose(
    user: Arc<FixedUser>,
    database: Arc<PooledDatabase>,
) -> Arc<WorkspaceController<FixedUser, PooledDatabase>> {
    mk_workspace(user, database, Arc::new(FlowyDocument::new()), &config())
}

fn default_user() -> Arc<FixedUser> {
    Arc::new(FixedUser { id: "user-1", token: "token-1" })
}

#[test]
fn composition_builds_every_controller() {
    let user = default_user();
    let database = Arc::new(PooledDatabase::new("/tmp/flowy.db", 4));
    let document = Arc::new(FlowyDocument::new());
    let workspace = mk_workspace(user.clone(), database.clone(), document.clone(), &config());
    assert!(Arc::ptr_eq(&workspace.user, &user));
    assert!(Arc::ptr_eq(&workspace.database, &database));
    assert!(Arc::ptr_eq(&workspace.view_controller.document, &document));
    assert_eq!(workspace.server.config.host, "localhost:8000");
    assert_eq!(workspace.server.config.http_schema, "http");
    assert_eq!(workspace.server.config.ws_schema, "ws");
    assert_eq!(workspace.app_controller.user.user_id().unwrap(), "user-1");
    assert_eq!(workspace.view_controller.user.token().unwrap(), "token-1");
}

#[test]
fn composition_succeeds_with_failing_capabilities() {
    let workspace = mk_workspace(
        Arc::new(SignedOutUser),
        Arc::new(BrokenDatabase),
        Arc::new(FlowyDocument::new()),
        &config(),
    );
    assert_eq!(workspace.user.user_id().unwrap_err().code, ErrorCode::UserUnauthorized);
    assert_eq!(workspace.app_controller.user.token().unwrap_err().code, ErrorCode::UserUnauthorized);
    assert!(workspace.database.db_connection().is_err());
}

#[test]
fn sub_controllers_share_the_same_handles() {
    let workspace = compose(default_user(), Arc::new(PooledDatabase::new("/tmp/a.db", 1)));
    assert!(Arc::ptr_eq(&workspace.app_controller.user, &workspace.user));
    assert!(Arc::ptr_eq(&workspace.view_controller.user, &workspace.user));
    assert!(Arc::ptr_eq(&workspace.app_controller.database, &workspace.database));
    assert!(Arc::ptr_eq(&workspace.view_controller.database, &workspace.database));
    assert!(Arc::ptr_eq(&workspace.app_controller.server, &workspace.server));
    assert!(Arc::ptr_eq(&workspace.view_controller.server, &workspace.server));
}

#[test]
fn every_event_is_registered_once() {
    let module = create(compose(default_user(), Arc::new(PooledDatabase::new("/tmp/a.db", 1))));
    assert_eq!(module.name, "Flowy-Workspace");
    assert_eq!(module.routes.len(), 17);
    for event in ALL_EVENTS {
        let count = module.routes.iter().filter(|r| r.event == event).count();
        assert_eq!(count, 1, "{:?}", event);
        let route = module.route(event).unwrap();
        assert_eq!(route.event, event);
        assert_eq!(route.state, route.handler.state());
    }
    assert_eq!(module.routes[0].event, WorkspaceEvent::InitWorkspace);
    assert_eq!(module.routes[16].event, WorkspaceEvent::ReadTrash);
}

#[test]
fn events_bind_their_handlers_and_state() {
    let module = create(compose(default_user(), Arc::new(PooledDatabase::new("/tmp/a.db", 1))));
    let expect = [
        (WorkspaceEvent::InitWorkspace, Handler::InitWorkspace, StateKind::Workspace),
        (WorkspaceEvent::ReadWorkspaceApps, Handler::ReadWorkspaceApps, StateKind::Workspace),
        (WorkspaceEvent::CreateApp, Handler::CreateApp, StateKind::App),
        (WorkspaceEvent::DeleteApp, Handler::DeleteApp, StateKind::App),
        (WorkspaceEvent::OpenView, Handler::OpenView, StateKind::View),
        (WorkspaceEvent::ApplyDocDelta, Handler::ApplyDocDelta, StateKind::View),
        (WorkspaceEvent::ReadTrash, Handler::ReadTrash, StateKind::Trash),
    ];
    for (event, handler, state) in expect {
        let route = module.route(event).unwrap();
        assert_eq!(route.handler, handler);
        assert_eq!(route.state, state);
    }
}

#[test]
fn module_exposes_the_four_shared_states() {
    let workspace = compose(default_user(), Arc::new(PooledDatabase::new("/tmp/a.db", 1)));
    let module = create(workspace.clone());
    assert!(Arc::ptr_eq(&module.data.workspace, &workspace));
    assert!(Arc::ptr_eq(&module.data.app, &workspace.app_controller));
    assert!(Arc::ptr_eq(&module.data.view, &workspace.view_controller));
    assert!(Arc::ptr_eq(&module.data.trash, &workspace.trash_controller));
    match module.resolve(WorkspaceEvent::UpdateApp) {
        Some((Handler::UpdateApp, BoundState::App(app))) => {
            assert!(Arc::ptr_eq(&app, &workspace.app_controller))
        }
        _ => panic!("UpdateApp is bound to the app controller"),
    }
    match module.resolve(WorkspaceEvent::ReadView) {
        Some((Handler::ReadView, BoundState::View(view))) => {
            assert!(Arc::ptr_eq(&view, &workspace.view_controller))
        }
        _ => panic!("ReadView is bound to the view controller"),
    }
    match module.resolve(WorkspaceEvent::ReadTrash) {
        Some((Handler::ReadTrash, BoundState::Trash(trash))) => {
            assert!(Arc::ptr_eq(&trash, &workspace.trash_controller))
        }
        _ => panic!("ReadTrash is bound to the trash controller"),
    }
}

#[test]
fn unregistered_event_is_not_found() {
    let workspace = compose(default_user(), Arc::new(PooledDatabase::new("/tmp/a.db", 1)));
    let data = ModuleData {
        workspace: workspace.clone(),
        app: workspace.app_controller.clone(),
        view: workspace.view_controller.clone(),
        trash: Arc::new(TrashController::new()),
    };
    let module: Module<FixedUser, PooledDatabase> = Module::new("partial".to_string(), data)
        .event(WorkspaceEvent::ReadTrash, Handler::ReadTrash);
    assert!(module.route(WorkspaceEvent::CreateApp).is_none());
    assert!(module.resolve(WorkspaceEvent::CreateApp).is_none());
    let route = module.route(WorkspaceEvent::ReadTrash).unwrap();
    assert_eq!(route.handler, Handler::ReadTrash);
    assert_eq!(route.state, StateKind::Trash);
}

#[test]
fn pool_accessor_failure_is_returned_unchanged() {
    let database = BrokenDatabase;
    let err = database.db_connection().unwrap_err();
    assert_eq!(err.code, ErrorCode::Internal);
    assert_eq!(err.msg, "database file is locked");
    let workspace = mk_workspace(
        default_user(),
        Arc::new(BrokenDatabase),
        Arc::new(FlowyDocument::new()),
        &config(),
    );
    let err = workspace.view_controller.database.db_connection().unwrap_err();
    assert_eq!(err.msg, "database file is locked");
}

#[test]
fn empty_pool_failure_becomes_internal_error() {
    let database = PooledDatabase::new("/tmp/empty.db", 0);
    let err = database.db_connection().unwrap_err();
    assert_eq!(err.code, ErrorCode::Internal);
    assert_eq!(err.msg, "connection pool has no connections");
}

#[test]
fn connection_from_pool_outcomes() {
    let conn: DBConnection =
        connection_from_pool(Ok(Arc::new(ConnectionPool::new("/tmp/x.db".to_string(), 2)))).unwrap();
    assert_eq!(conn.db_path, "/tmp/x.db");
    let err = connection_from_pool(Err(WorkspaceError::new(ErrorCode::UserUnauthorized)
        .context("no session".to_string())))
    .unwrap_err();
    assert_eq!(err.code, ErrorCode::UserUnauthorized);
    assert_eq!(err.msg, "no session");
    let err =
        connection_from_pool(Ok(Arc::new(ConnectionPool::new("/tmp/x.db".to_string(), 0)))).unwrap_err();
    assert_eq!(err.code, ErrorCode::Internal);
    assert_eq!(err.msg, "connection pool has no connections");
}

#[test]
fn independent_compositions_share_nothing() {
    let first = compose(
        Arc::new(FixedUser { id: "user-1", token: "token-1" }),
        Arc::new(PooledDatabase::new("/tmp/one.db", 1)),
    );
    let second = compose(
        Arc::new(FixedUser { id: "user-2", token: "token-2" }),
        Arc::new(PooledDatabase::new("/tmp/two.db", 1)),
    );
    assert!(!Arc::ptr_eq(&first, &second));
    assert!(!Arc::ptr_eq(&first.user, &second.user));
    assert!(!Arc::ptr_eq(&first.database, &second.database));
    assert!(!Arc::ptr_eq(&first.server, &second.server));
    assert!(!Arc::ptr_eq(&first.app_controller, &second.app_controller));
    assert!(!Arc::ptr_eq(&first.view_controller, &second.view_controller));
    assert!(!Arc::ptr_eq(&first.trash_controller, &second.trash_controller));
    assert_eq!(first.app_controller.user.user_id().unwrap(), "user-1");
    assert_eq!(second.app_controller.user.user_id().unwrap(), "user-2");
    assert_eq!(first.database.db_connection().unwrap().db_path, "/tmp/one.db");
    assert_eq!(second.database.db_connection().unwrap().db_path, "/tmp/two.db");
}

#[test]
fn read_cur_workspace_twice_on_single_connection_pool() {
    let module = create(compose(default_user(), Arc::new(PooledDatabase::new(":memory:", 1))));
    for _ in 0..2 {
        match module.resolve(WorkspaceEvent::ReadCurWorkspace) {
            Some((Handler::ReadCurWorkspace, BoundState::Workspace(workspace))) => {
                assert_eq!(workspace.user.user_id().unwrap(), "user-1");
                assert_eq!(workspace.user.token().unwrap(), "token-1");
                let conn = workspace.database.db_connection().unwrap();
                assert_eq!(conn.db_path, ":memory:");
                drop(conn);
            }
            _ => panic!("ReadCurWorkspace is bound to the aggregate"),
        }
    }
}

#[test]
fn server_is_built_from_its_config() {
    let server = construct_workspace_server(&ServerConfig::new(
        "example.org".to_string(),
        "https".to_string(),
        "wss".to_string(),
    ));
    assert_eq!(server.config.host, "example.org");
    assert_eq!(server.config.http_schema, "https");
    assert_eq!(server.config.ws_schema, "wss");
}

#[test]
fn handler_states_are_narrowest() {
    assert_eq!(Handler::OpenWorkspace.state(), StateKind::Workspace);
    assert_eq!(Handler::ReadApp.state(), StateKind::App);
    assert_eq!(Handler::UpdateView.state(), StateKind::View);
    assert_eq!(Handler::ReadTrash.state(), StateKind::Trash);
}

#[test]
fn second_binding_of_an_event_is_refused() {
    let workspace = compose(default_user(), Arc::new(PooledDatabase::new("/tmp/a.db", 1)));
    let module = create(workspace);
    let module = match module.try_event(WorkspaceEvent::ReadTrash, Handler::ReadApp) {
        Ok(_) => panic!("ReadTrash is already bound"),
        Err(unchanged) => unchanged,
    };
    assert_eq!(module.routes.len(), 17);
    assert_eq!(module.route(WorkspaceEvent::ReadTrash).unwrap().handler, Handler::ReadTrash);

    let fresh: Module<FixedUser, PooledDatabase> = Module::new("fresh".to_string(), module.data);
    let fresh = match fresh.try_event(WorkspaceEvent::OpenView, Handler::OpenView) {
        Ok(m) => m,
        Err(_) => panic!("OpenView is not bound yet"),
    };
    assert_eq!(fresh.routes.len(), 1);
    assert_eq!(fresh.route(WorkspaceEvent::OpenView).unwrap().state, StateKind::View);
}
