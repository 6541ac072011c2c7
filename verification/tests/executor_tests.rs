use koukku::command::{github_url, project_path};
use koukku::conf::{Conf, Project};
use koukku::error::Error;
use koukku::executor::Executor;

fn project(id: &str, repo: &str, branch: &str, command: &str) -> Project {
    Project {
        id: id.to_string(),
        repo: repo.to_string(),
        branch: branch.to_string(),
        command: command.to_string(),
    }
}

fn registry() -> Conf {
    Conf {
        location: "/srv/repos".to_string(),
        gitpath: "/usr/bin/git".to_string(),
        projects: vec![
            project("svc", "acme/svc", "main", "./deploy.sh"),
            project("web", "acme/web", "release", "./publish.sh"),
        ],
    }
}

#[test]
fn unknown_identifier_is_invalid_repository() {
    let exec = Executor::new(registry());
    match exec.run("nothing-here") {
        Err(Error::InvalidRepository) => (),
        Err(_) => panic!("expected an invalid-repository failure"),
        Ok(_) => panic!("expected no project to match"),
    }
}

#[test]
fn matching_identifier_begins_an_update_at_its_path() {
    let exec = Executor::new(registry());
    let update = exec.run("web").expect("configured project");
    assert_eq!(update.path(), "/srv/repos/web");
    assert!(!update.is_done());
}

#[test]
fn lookup_finds_each_configured_project() {
    let conf = registry();
    let svc = conf.get_project("svc").expect("svc is configured");
    assert_eq!(svc.repo, "acme/svc");
    assert_eq!(svc.branch, "main");
    let web = conf.get_project("web").expect("web is configured");
    assert_eq!(web.command, "./publish.sh");
    assert!(conf.get_project("deploy.sh").is_none());
    assert!(conf.get_project("").is_none());
}

#[test]
fn empty_registry_matches_nothing() {
    let conf = Conf {
        location: "/srv/repos".to_string(),
        gitpath: "git".to_string(),
        projects: Vec::new(),
    };
    assert!(conf.get_project("svc").is_none());
    let exec = Executor::new(conf);
    assert!(exec.run("svc").is_err());
}

#[test]
fn github_url_is_exact() {
    assert_eq!(github_url("acme/svc"), "https://github.com/acme/svc.git");
    assert_eq!(github_url(""), "https://github.com/.git");
}

#[test]
fn project_path_joins_location_and_id() {
    assert_eq!(project_path("/srv/repos", "svc"), "/srv/repos/svc");
    assert_eq!(project_path("", "svc"), "/svc");
}
