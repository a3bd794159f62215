//! The task-orchestrator API: configuration, endpoints, request contents
//! and the handling of its answers.
use vstd::prelude::*;

use crate::text::{copy_str, str_equal};

verus! {

/// Where the task-orchestrator API is and the key it takes.
#[derive(Debug)]
pub struct ApiConfig {
    pub api_url: String,
    pub api_key: String,
}

/// A project as the API describes it.
#[derive(Debug)]
pub struct ProjectResponse {
    pub id: String,
    pub name: String,
}

/// A task as the API describes it after creating it.
#[derive(Debug)]
pub struct TaskResponse {
    pub id: String,
}

impl ApiConfig {
    /// The configuration from the values of `API_URL` and `API_KEY`: none
    /// when the URL is unset or empty; the key defaults to empty.
    pub fn from_values(api_url: Option<String>, api_key: Option<String>) -> (r: Option<ApiConfig>)
        ensures
            match r {
                Some(c) => api_url matches Some(u) && u@.len() > 0 && c.api_url@ == u@
                    && c.api_key@ == match api_key {
                    Some(k) => k@,
                    None => Seq::<char>::empty(),
                },
                None => api_url is None || api_url.unwrap()@.len() == 0,
            },
    {
        let url = match api_url {
            Some(u) => u,
            None => return None,
        };
        if url.as_str().is_empty() {
            return None;
        }
        let key = match api_key {
            Some(k) => k,
            None => String::new(),
        };
        Some(ApiConfig { api_url: url, api_key: key })
    }

    /// The projects endpoint.
    pub fn projects_url(&self) -> (r: String)
        ensures
            r@ == self.api_url@ + "/api/projects"@,
    {
        let mut u = self.api_url.clone();
        u.append("/api/projects");
        u
    }

    /// The tasks endpoint.
    pub fn tasks_url(&self) -> (r: String)
        ensures
            r@ == self.api_url@ + "/api/tasks"@,
    {
        let mut u = self.api_url.clone();
        u.append("/api/tasks");
        u
    }
}

/// The API's task type for an action type: `research` for research and
/// questions, `dev` for everything else.
pub open spec fn task_type_spec(action_type: Seq<char>) -> Seq<char> {
    if action_type == "research"@ || action_type == "question"@ {
        "research"@
    } else {
        "dev"@
    }
}

/// Maps an action type to the API's task type.
pub fn map_task_type(action_type: &str) -> (r: &'static str)
    ensures
        r@ == task_type_spec(action_type@),
{
    if str_equal(action_type, "research") || str_equal(action_type, "question") {
        "research"
    } else {
        "dev"
    }
}

/// The description of a project the digest creates.
pub fn project_description(name: &str) -> (r: String)
    ensures
        r@ == "Auto-created by daily-digest for project: "@ + name@,
{
    let mut d = copy_str("Auto-created by daily-digest for project: ");
    d.append(name);
    d
}

/// What to do with the answer to a project creation.
#[derive(Debug, PartialEq, Eq, Structural)]
pub enum CreateProjectAnswer {
    /// The project was created: read it from the answer.
    Created,
    /// The project exists already (status 409): look it up.
    Exists,
    /// Creation failed.
    Failed,
}

/// The handling of a project creation's HTTP status: a success status
/// (2xx) gives the created project, 409 an existing one, anything else a
/// failure.
pub fn create_project_answer(status: u16) -> (r: CreateProjectAnswer)
    ensures
        r == if 200 <= status <= 299 {
            CreateProjectAnswer::Created
        } else if status == 409 {
            CreateProjectAnswer::Exists
        } else {
            CreateProjectAnswer::Failed
        },
{
    if 200 <= status && status <= 299 {
        CreateProjectAnswer::Created
    } else if status == 409 {
        CreateProjectAnswer::Exists
    } else {
        CreateProjectAnswer::Failed
    }
}

/// The error of a failed project creation, with the status line and the
/// body of the answer.
pub fn create_project_error(name: &str, status: &str, body: &str) -> (r: String)
    ensures
        r@ == "Failed to create project '"@ + name@ + "': "@ + status@ + " "@ + body@,
{
    let mut e = copy_str("Failed to create project '");
    e.append(name);
    e.append("': ");
    e.append(status);
    e.append(" ");
    e.append(body);
    e
}

/// The first listed project with the given name.
pub open spec fn first_named(projects: Seq<ProjectResponse>, name: Seq<char>) -> Option<int>
    decreases projects.len(),
{
    if projects.len() == 0 {
        None
    } else if projects[0].name@ == name {
        Some(0)
    } else {
        match first_named(projects.drop_first(), name) {
            Some(i) => Some(i + 1),
            None => None,
        }
    }
}

/// What `first_named` finds is a project of that name, and the first.
pub proof fn lemma_first_named(projects: Seq<ProjectResponse>, name: Seq<char>)
    ensures
        match first_named(projects, name) {
            Some(i) => 0 <= i < projects.len() && projects[i].name@ == name && forall|j: int|
                0 <= j < i ==> projects[j].name@ != name,
            None => forall|j: int| 0 <= j < projects.len() ==> projects[j].name@ != name,
        },
    decreases projects.len(),
{
    if projects.len() > 0 && projects[0].name@ != name {
        lemma_first_named(projects.drop_first(), name);
        match first_named(projects.drop_first(), name) {
            Some(i) => {
                assert forall|j: int| 0 <= j < i + 1 implies projects[j].name@ != name by {
                    if j > 0 {
                        assert(projects[j] == projects.drop_first()[j - 1]);
                    }
                }
            },
            None => {
                assert forall|j: int| 0 <= j < projects.len() implies projects[j].name@
                    != name by {
                    if j > 0 {
                        assert(projects[j] == projects.drop_first()[j - 1]);
                    }
                }
            },
        }
    }
}

/// Finds the project called `name` in the API's project list; an error
/// when there is none (after the API said it exists).
pub fn find_project(projects: Vec<ProjectResponse>, name: &str) -> (r: Result<
    ProjectResponse,
    String,
>)
    ensures
        match r {
            Ok(p) => p.name@ == name@ && match first_named(projects@, name@) {
                Some(i) => p == projects@[i],
                None => false,
            },
            Err(e) => first_named(projects@, name@) is None && e@ == "Project '"@ + name@
                + "' not found after 409"@,
        },
{
    let mut list = projects;
    let ghost all = list@;
    proof {
        lemma_first_named(all, name@);
    }
    let mut i: usize = 0;
    while i < list.len()
        invariant
            list@ == all,
            all == projects@,
            i <= all.len(),
            forall|j: int| 0 <= j < i ==> all[j].name@ != name@,
        decreases all.len() - i,
    {
        if str_equal(list[i].name.as_str(), name) {
            let p = list.swap_remove(i);
            proof {
                lemma_first_named(all, name@);
                match first_named(all, name@) {
                    Some(k) => {
                        assert(k == i);
                    },
                    None => {},
                }
            }
            return Ok(p);
        }
        i = i + 1;
    }
    let mut e = copy_str("Project '");
    e.append(name);
    e.append("' not found after 409");
    Err(e)
}

/// The error when the project list cannot be fetched.
pub fn list_projects_error(status: &str) -> (r: String)
    ensures
        r@ == "Failed to list projects: "@ + status@,
{
    let mut e = copy_str("Failed to list projects: ");
    e.append(status);
    e
}

/// The error of a failed task push, with the status line and the body of
/// the answer.
pub fn push_task_error(status: &str, body: &str) -> (r: String)
    ensures
        r@ == "Failed to push task: "@ + status@ + " "@ + body@,
{
    let mut e = copy_str("Failed to push task: ");
    e.append(status);
    e.append(" ");
    e.append(body);
    e
}

/// The error when an HTTP request cannot be made.
pub fn request_error(reason: &str) -> (r: String)
    ensures
        r@ == "HTTP request failed: "@ + reason@,
{
    let mut e = copy_str("HTTP request failed: ");
    e.append(reason);
    e
}

} // verus!
