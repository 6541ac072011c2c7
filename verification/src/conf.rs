//! The process-wide configuration snapshot: the base location for working
//! copies, the git binary to invoke, and the registry of tracked projects.

use vstd::prelude::*;

verus! {

/// One tracked project: the registry key used for queue lookups and local
/// directory naming, the remote slug (`owner/name`), the tracked branch,
/// and the post-update program run from the project's working directory.
pub struct Project {
    pub id: String,
    pub repo: String,
    pub branch: String,
    pub command: String,
}

/// The mathematical value of a [`Project`]: each field as a character
/// sequence.
#[verifier::ext_equal]
pub struct ProjectV {
    pub id: Seq<char>,
    pub repo: Seq<char>,
    pub branch: Seq<char>,
    pub command: Seq<char>,
}

impl View for Project {
    type V = ProjectV;

    open spec fn view(&self) -> ProjectV {
        ProjectV {
            id: self.id@,
            repo: self.repo@,
            branch: self.branch@,
            command: self.command@,
        }
    }
}

impl DeepView for Project {
    type V = ProjectV;

    open spec fn deep_view(&self) -> ProjectV {
        self.view()
    }
}

impl Clone for Project {
    fn clone(&self) -> (r: Self)
        ensures
            r@ == self@,
    {
        Project {
            id: self.id.clone(),
            repo: self.repo.clone(),
            branch: self.branch.clone(),
            command: self.command.clone(),
        }
    }
}

/// The configuration snapshot, loaded once at startup and never mutated:
/// `location` is the base directory under which every working copy is
/// placed as `location/<project.id>`, `gitpath` names the git binary, and
/// `projects` is the registry, keyed by project id.
pub struct Conf {
    pub location: String,
    pub gitpath: String,
    pub projects: Vec<Project>,
}

/// The mathematical value of a [`Conf`].
#[verifier::ext_equal]
pub struct ConfV {
    pub location: Seq<char>,
    pub gitpath: Seq<char>,
    pub projects: Seq<ProjectV>,
}

impl View for Conf {
    type V = ConfV;

    open spec fn view(&self) -> ConfV {
        ConfV {
            location: self.location@,
            gitpath: self.gitpath@,
            projects: self.projects.deep_view(),
        }
    }
}

/// The first project in `ps` whose id is `id`, if any. Registry keys are
/// unique (see [`ConfV::wf`]), so "first" is then "the".
pub open spec fn find_project(ps: Seq<ProjectV>, id: Seq<char>) -> Option<ProjectV>
    decreases ps.len(),
{
    if ps.len() == 0 {
        None
    } else if ps[0].id == id {
        Some(ps[0])
    } else {
        find_project(ps.drop_first(), id)
    }
}

/// Registry well-formedness: project ids are unique keys.
pub open spec fn unique_ids(ps: Seq<ProjectV>) -> bool {
    forall|i: int, j: int| 0 <= i < j < ps.len() ==> ps[i].id != ps[j].id
}

impl ConfV {
    /// Well-formedness of the snapshot: the registry maps ids to projects.
    pub open spec fn wf(self) -> bool {
        unique_ids(self.projects)
    }
}

/// Law: in a well-formed registry ([`unique_ids`]) the lookup is a
/// mapping: any project whose id is the key is the one [`find_project`]
/// returns.
pub proof fn lemma_find_project_unique(ps: Seq<ProjectV>, id: Seq<char>, i: int)
    requires
        unique_ids(ps),
        0 <= i < ps.len(),
        ps[i].id == id,
    ensures
        find_project(ps, id) == Some(ps[i]),
    decreases ps.len(),
{
    if ps[0].id == id {
        assert(i == 0);
    } else {
        let rest = ps.drop_first();
        assert(unique_ids(rest)) by {
            assert(forall|x: int, y: int|
                0 <= x < y < rest.len() ==> rest[x] == ps[x + 1] && rest[y] == ps[y + 1]);
        }
        assert(rest[i - 1] == ps[i]);
        lemma_find_project_unique(rest, id, i - 1);
    }
}

impl Conf {
    /// Looks a repository identifier up in the registry, returning the
    /// matching project or `None` when no project has that id.
    pub fn get_project(&self, id: &str) -> (r: Option<&Project>)
        ensures
            match r {
                Some(p) => find_project(self@.projects, id@) == Some(p@),
                None => find_project(self@.projects, id@) is None,
            },
    {
        let key: String = id.to_owned();
        let n = self.projects.len();
        proof {
            assert(self@.projects.skip(0) =~= self@.projects);
        }
        for i in 0..n
            invariant
                n == self.projects.len(),
                key@ == id@,
                find_project(self@.projects.skip(i as int), id@) == find_project(
                    self@.projects,
                    id@,
                ),
        {
            proof {
                assert(self@.projects.skip(i as int).len() > 0);
                assert(self@.projects.skip(i as int)[0] == self@.projects[i as int]);
            }
            if self.projects[i].id == key {
                return Some(&self.projects[i]);
            }
            proof {
                assert(self@.projects.skip(i as int).drop_first() =~= self@.projects.skip(
                    i as int + 1,
                ));
            }
        }
        proof {
            assert(self@.projects.skip(n as int).len() == 0);
        }
        None
    }
}

} // verus!
