//! Tasks that call back over HTTP: the name of a queue and the request that
//! puts a task into it.

use vstd::prelude::*;

verus! {

/// Where a queue lives.
#[derive(Clone, Copy, Debug, PartialEq, Eq)]
pub struct QueueSettings<'a> {
    pub project_id: &'a str,
    pub location: &'a str,
    pub queue_name: &'a str,
}

impl<'a> QueueSettings<'a> {
    /// The full name of the queue.
    pub open spec fn path(self) -> Seq<char> {
        "projects/"@ + self.project_id@ + "/locations/"@ + self.location@ + "/queues/"@
            + self.queue_name@
    }

    /// Writes the full name of the queue.
    pub fn form_queue(&self) -> (name: String)
        ensures
            name@ == self.path(),
    {
        let mut name = "projects/".to_owned();
        name.append(self.project_id);
        name.append("/locations/");
        name.append(self.location);
        name.append("/queues/");
        name.append(self.queue_name);
        name
    }
}

/// A task: the address to call, the body to send, and the queue to put it
/// into.
#[derive(Debug, PartialEq, Eq)]
pub struct TaskData<'a> {
    pub url: String,
    pub body: Vec<u8>,
    pub queue: QueueSettings<'a>,
}

/// The request that creates a task.
#[derive(Debug, PartialEq, Eq)]
pub struct CreateTask {
    /// The queue the task goes into.
    pub parent: String,
    /// The address the task will call.
    pub url: String,
    /// The body the task will send.
    pub body: Vec<u8>,
    /// The headers the task will send, as names and values.
    pub headers: Vec<(String, String)>,
    /// The routing entry that goes with the request.
    pub request_params: String,
}

/// The headers of every task: its body is JSON.
pub open spec fn task_headers() -> Seq<(Seq<char>, Seq<char>)> {
    seq![("Content-Type"@, "application/json"@)]
}

/// The names and values of a list of headers.
pub open spec fn headers_view(headers: Seq<(String, String)>) -> Seq<(Seq<char>, Seq<char>)> {
    headers.map_values(|header: (String, String)| (header.0@, header.1@))
}

/// The request that puts `task` into its queue: the queue's full name as
/// the parent and, after `parent=`, as the routing entry; the task's
/// address and body; and the one header that says the body is JSON.
pub fn create_task_request(task: TaskData<'_>) -> (request: CreateTask)
    ensures
        request.parent@ == task.queue.path(),
        request.url == task.url,
        request.body == task.body,
        headers_view(request.headers@) == task_headers(),
        request.request_params@ == "parent="@ + task.queue.path(),
{
    let parent = task.queue.form_queue();
    let mut headers: Vec<(String, String)> = Vec::new();
    headers.push(("Content-Type".to_owned(), "application/json".to_owned()));
    let mut request_params = "parent=".to_owned();
    request_params.append(parent.as_str());
    assert(headers_view(headers@) =~= task_headers());
    CreateTask { parent, url: task.url, body: task.body, headers, request_params }
}

} // verus!
