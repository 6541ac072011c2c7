//! The consumer side of the dispatch queue: resolves one queued repository
//! identifier at a time to its project and begins that project's update.
//! The driver that owns the queue and the subprocesses pulls identifiers
//! one at a time, calls [`Executor::run`] for each, and drives the
//! returned machine to completion before touching the next item, so all
//! update work is strictly serialized.

use vstd::prelude::*;

use crate::command::project_path_v;
use crate::conf::{find_project, Conf, Project};
use crate::error::Error;
use crate::update::{StateV, Update, UpdateV};

verus! {

/// Holds the configuration snapshot for the lifetime of the process and
/// turns queued repository identifiers into updates.
pub struct Executor {
    conf: Conf,
}

impl View for Executor {
    type V = crate::conf::ConfV;

    closed spec fn view(&self) -> crate::conf::ConfV {
        self.conf@
    }
}

impl Executor {
    /// Takes ownership of the configuration snapshot.
    pub fn new(conf: Conf) -> (e: Executor)
        ensures
            e@ == conf@,
    {
        Executor { conf }
    }

    /// Resolves a queued repository identifier to its project, or reports
    /// that no configured project matches.
    pub fn get_project(&self, repo: &str) -> (r: Result<&Project, Error>)
        ensures
            match r {
                Ok(p) => find_project(self@.projects, repo@) == Some(p@),
                Err(e) => e@ is InvalidRepository && find_project(self@.projects, repo@) is None,
            },
    {
        match self.conf.get_project(repo) {
            Some(p) => Ok(p),
            None => Err(Error::InvalidRepository),
        }
    }

    /// Handles one queued identifier: for a matching project, the update
    /// to drive, freshly begun and aimed at `location/<id>`; for an
    /// unmatched identifier, `InvalidRepository`, and no subprocess is
    /// ever asked for.
    pub fn run(&self, repo: &str) -> (r: Result<Update, Error>)
        ensures
            match r {
                Ok(u) => {
                    &&& find_project(self@.projects, repo@) matches Some(p)
                    &&& u@ == (UpdateV {
                        git: self@.gitpath,
                        path: project_path_v(self@.location, p.id),
                        project: p,
                        state: StateV::AwaitDir,
                    })
                },
                Err(e) => e@ is InvalidRepository && find_project(self@.projects, repo@) is None,
            },
    {
        match self.get_project(repo) {
            Ok(project) => Ok(
                Update::new(self.conf.gitpath.as_str(), self.conf.location.as_str(), project),
            ),
            Err(e) => Err(e),
        }
    }
}

} // verus!
