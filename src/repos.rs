use std::sync::Arc;
use vstd::prelude::*;

verus! {

/// Member accounts, kept in the database that `db_pool` reaches.
pub struct BrawlerPostgres<P> {
    pub db_pool: Arc<P>,
}

impl<P> BrawlerPostgres<P> {
    pub fn new(db_pool: Arc<P>) -> (r: Self)
        ensures
            r.db_pool == db_pool,
    {
        BrawlerPostgres { db_pool }
    }
}

/// Dashboard figures, read from the database that `db_pool` reaches.
pub struct DashboardPostgres<P> {
    pub db_pool: Arc<P>,
}

impl<P> DashboardPostgres<P> {
    pub fn new(db_pool: Arc<P>) -> (r: Self)
        ensures
            r.db_pool == db_pool,
    {
        DashboardPostgres { db_pool }
    }
}

/// Missions as their viewers see them, read from the database that
/// `db_pool` reaches.
pub struct MissionViewingPostgres<P> {
    pub db_pool: Arc<P>,
}

impl<P> MissionViewingPostgres<P> {
    pub fn new(db_pool: Arc<P>) -> (r: Self)
        ensures
            r.db_pool == db_pool,
    {
        MissionViewingPostgres { db_pool }
    }
}

/// The dashboard of a member, read through `dashboard_repository`.
pub struct DashboardUseCase<T> {
    pub dashboard_repository: Arc<T>,
}

impl<T> DashboardUseCase<T> {
    pub fn new(dashboard_repository: Arc<T>) -> (r: Self)
        ensures
            r.dashboard_repository == dashboard_repository,
    {
        DashboardUseCase { dashboard_repository }
    }
}

} // verus!
