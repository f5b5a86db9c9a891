//! The registry: the components of the service, made once from the
//! configuration and handed to whoever needs them.

use vstd::prelude::*;
use crate::auth_repository::{AuthRepositoryImpl, SessionsView};
use crate::config::AppConfig;
use crate::token_store::TokenStoreView;
use crate::user_repository::{DirectoryView, UserRepositoryImpl};

verus! {

/// The registry as a mathematical value.
pub struct RegistryView {
    pub users: DirectoryView,
    pub sessions: SessionsView,
}

/// The user directory and the session service, owned in one place.
pub struct AppRegistry {
    pub user_repository: UserRepositoryImpl,
    pub auth_repository: AuthRepositoryImpl,
}

impl View for AppRegistry {
    type V = RegistryView;

    open spec fn view(&self) -> RegistryView {
        RegistryView { users: self.user_repository@, sessions: self.auth_repository@ }
    }
}

impl AppRegistry {
    pub open spec fn wf(&self) -> bool {
        self.user_repository.wf() && self.auth_repository.wf()
    }

    /// An empty directory and a session service whose tokens live as long
    /// as the configuration says.
    pub fn new(app_config: &AppConfig) -> (registry: AppRegistry)
        ensures
            registry.wf(),
            registry@.users.records.len() == 0,
            registry@.sessions == (SessionsView {
                store: TokenStoreView::empty(),
                ttl: app_config.auth.ttl as nat,
            }),
    {
        let user_repository = UserRepositoryImpl::new();
        let auth_repository = AuthRepositoryImpl::new(app_config.auth.ttl);
        AppRegistry { user_repository, auth_repository }
    }

    pub fn auth_repository(&self) -> (service: &AuthRepositoryImpl)
        ensures
            *service == self.auth_repository,
    {
        &self.auth_repository
    }

    pub fn user_repository(&self) -> (directory: &UserRepositoryImpl)
        ensures
            *directory == self.user_repository,
    {
        &self.user_repository
    }
}

} // verus!
