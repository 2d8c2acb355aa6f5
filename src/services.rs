use std::sync::Arc;
use vstd::prelude::*;
use crate::deps::{WorkspaceDatabase, WorkspaceUser};

verus! {

/// Where the workspace server lives.
#[derive(Debug)]
pub struct ServerConfig {
    pub host: String,
    pub http_schema: String,
    pub ws_schema: String,
}

impl ServerConfig {
    pub fn new(host: String, http_schema: String, ws_schema: String) -> (r: ServerConfig)
        ensures
            r.host == host,
            r.http_schema == http_schema,
            r.ws_schema == ws_schema,
    {
        ServerConfig { host, http_schema, ws_schema }
    }
}

/// The handle through which controllers reach the workspace server.
#[derive(Debug)]
pub struct WorkspaceServer {
    pub config: ServerConfig,
}

/// The handle of the document subsystem; only the view controller holds it.
#[derive(Debug)]
pub struct FlowyDocument {}

impl FlowyDocument {
    pub fn new() -> (r: FlowyDocument)
        ensures
            r == (FlowyDocument {}),
    {
        FlowyDocument {  }
    }
}

/// Owns the soft-deleted items of one workspace subsystem.
#[derive(Debug)]
pub struct TrashController {}

impl TrashController {
    pub fn new() -> (r: TrashController)
        ensures
            r == (TrashController {}),
    {
        TrashController {  }
    }
}

/// Owns the app entities of a workspace.
pub struct AppController<U, D> {
    pub user: Arc<U>,
    pub database: Arc<D>,
    pub server: Arc<WorkspaceServer>,
}

impl<U: WorkspaceUser, D: WorkspaceDatabase> AppController<U, D> {
    pub fn new(user: Arc<U>, database: Arc<D>, server: Arc<WorkspaceServer>) -> (r: AppController<
        U,
        D,
    >)
        ensures
            r.user == user,
            r.database == database,
            r.server == server,
    {
        AppController { user, database, server }
    }
}

/// Owns the view entities; document operations go through it alone.
pub struct ViewController<U, D> {
    pub user: Arc<U>,
    pub database: Arc<D>,
    pub server: Arc<WorkspaceServer>,
    pub document: Arc<FlowyDocument>,
}

impl<U: WorkspaceUser, D: WorkspaceDatabase> ViewController<U, D> {
    pub fn new(
        user: Arc<U>,
        database: Arc<D>,
        server: Arc<WorkspaceServer>,
        document: Arc<FlowyDocument>,
    ) -> (r: ViewController<U, D>)
        ensures
            r.user == user,
            r.database == database,
            r.server == server,
            r.document == document,
    {
        ViewController { user, database, server, document }
    }
}

/// The aggregate root: the capabilities, the server, and every sub-controller.
pub struct WorkspaceController<U, D> {
    pub user: Arc<U>,
    pub database: Arc<D>,
    pub app_controller: Arc<AppController<U, D>>,
    pub view_controller: Arc<ViewController<U, D>>,
    pub trash_controller: Arc<TrashController>,
    pub server: Arc<WorkspaceServer>,
}

impl<U: WorkspaceUser, D: WorkspaceDatabase> WorkspaceController<U, D> {
    pub fn new(
        user: Arc<U>,
        database: Arc<D>,
        app_controller: Arc<AppController<U, D>>,
        view_controller: Arc<ViewController<U, D>>,
        trash_controller: Arc<TrashController>,
        server: Arc<WorkspaceServer>,
    ) -> (r: WorkspaceController<U, D>)
        ensures
            r.user == user,
            r.database == database,
            r.app_controller == app_controller,
            r.view_controller == view_controller,
            r.trash_controller == trash_controller,
            r.server == server,
    {
        WorkspaceController {
            user,
            database,
            app_controller,
            view_controller,
            trash_controller,
            server,
        }
    }
}

/// Builds the server handle for `config`.
pub fn construct_workspace_server(config: &ServerConfig) -> (r: Arc<WorkspaceServer>)
    ensures
        r.config == *config,
{
    let config = ServerConfig {
        host: config.host.clone(),
        http_schema: config.http_schema.clone(),
        ws_schema: config.ws_schema.clone(),
    };
    Arc::new(WorkspaceServer { config })
}

/// The controller graph that composition builds from its inputs: every
/// controller holds the very capabilities and server handle of the aggregate,
/// the server is built from `config`, and the view controller alone holds the
/// document handle.
pub open spec fn composed_from<U, D>(
    w: WorkspaceController<U, D>,
    user: Arc<U>,
    database: Arc<D>,
    document: Arc<FlowyDocument>,
    config: ServerConfig,
) -> bool {
    &&& w.user == user
    &&& w.database == database
    &&& w.server.config == config
    &&& *w.app_controller == (AppController { user, database, server: w.server })
    &&& *w.view_controller == (ViewController { user, database, server: w.server, document })
    &&& *w.trash_controller == (TrashController {})
}

} // verus!
