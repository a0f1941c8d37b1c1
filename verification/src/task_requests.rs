//! Requests and responses of the task actions: pending cluster tasks, list,
//! get and cancel.
use vstd::prelude::*;
use crate::action_wire::{is_unsupported, TimeValueWire, TransportActionWireError, TIME_UNIT_SECONDS};
use crate::text::{char_count, owned, str_eq};

verus! {

impl TaskIdWire {
    /// No task: an empty node and no number.
    pub fn unset() -> (t: Self)
        ensures
            t.node_id@.len() == 0,
            t.id is None,
    {
        TaskIdWire { node_id: String::new(), id: None }
    }

    /// True when the id names a task, that is when its node is not empty.
    pub fn is_set(&self) -> (b: bool)
        ensures
            b == (self.node_id@.len() != 0),
    {
        char_count(self.node_id.as_str()) != 0
    }
}

impl ListTasksResponseWire {
    /// A response with no failures and no tasks.
    pub fn empty() -> (r: Self)
        ensures
            r.task_failure_count == 0,
            r.node_failure_count == 0,
            r.task_count == 0,
    {
        ListTasksResponseWire { task_failure_count: 0, node_failure_count: 0, task_count: 0 }
    }
}

impl GetTaskRequestWire {
    /// A request for task `id` on node `node_id`, with no parent task, no
    /// timeout, and no waiting.
    pub fn new(node_id: String, id: i64) -> (r: Self)
        ensures
            r.parent_task_node@.len() == 0,
            r.parent_task_id is None,
            r.task_id.node_id@ == node_id@,
            r.task_id.id == Some(id),
            r.timeout is None,
            !r.wait_for_completion,
    {
        GetTaskRequestWire {
            parent_task_node: String::new(),
            parent_task_id: None,
            task_id: TaskIdWire { node_id, id: Some(id) },
            timeout: None,
            wait_for_completion: false,
        }
    }
}

/// A pending cluster tasks request.
#[derive(Clone, Debug, PartialEq, Eq)]
pub struct PendingClusterTasksRequestWire {
    pub parent_task_node: String,
    pub parent_task_id: Option<i64>,
    pub cluster_manager_timeout: TimeValueWire,
    pub local: bool,
}

impl Default for PendingClusterTasksRequestWire {
    fn default() -> (d: Self)
        ensures
            d.parent_task_node@ == Seq::<char>::empty(),
            d.parent_task_id is None,
            d.cluster_manager_timeout == (TimeValueWire { duration: 30, time_unit_ordinal: TIME_UNIT_SECONDS }),
            d.local == false,
    {
        PendingClusterTasksRequestWire {
            parent_task_node: String::new(),
            parent_task_id: None,
            cluster_manager_timeout: TimeValueWire::seconds(30),
            local: false,
        }
    }
}

/// One pending cluster task.
#[derive(Clone, Debug, PartialEq, Eq)]
pub struct PendingClusterTaskWire {
    pub insert_order: i64,
    pub priority: String,
    pub source: String,
    pub executing: bool,
    pub time_in_queue_millis: i64,
}

/// The pending cluster tasks.
#[derive(Clone, Debug, PartialEq, Eq)]
pub struct PendingClusterTasksResponseWire {
    pub tasks: Vec<PendingClusterTaskWire>,
}

/// A task id: the node that runs the task and its number there; an empty node means no task.
#[derive(Clone, Debug, PartialEq, Eq)]
pub struct TaskIdWire {
    pub node_id: String,
    pub id: Option<i64>,
}

/// The response to a cancel-tasks request: the same fields as a list-tasks
/// response.
pub type CancelTasksResponseWire = ListTasksResponseWire;

/// A list-tasks request.
#[derive(Clone, Debug, PartialEq, Eq)]
pub struct ListTasksRequestWire {
    pub parent_task_node: String,
    pub parent_task_id: Option<i64>,
    pub task_id: TaskIdWire,
    pub parent_task_filter: TaskIdWire,
    pub nodes: Vec<String>,
    pub actions: Vec<String>,
    pub timeout: Option<TimeValueWire>,
    pub detailed: bool,
    pub wait_for_completion: bool,
}

impl Default for ListTasksRequestWire {
    fn default() -> (d: Self)
        ensures
            d.parent_task_node@ == Seq::<char>::empty(),
            d.parent_task_id is None,
            d.task_id.node_id@.len() == 0 && d.task_id.id is None,
            d.parent_task_filter.node_id@.len() == 0 && d.parent_task_filter.id is None,
            d.nodes@.len() == 0,
            d.actions@.len() == 0,
            d.timeout is None,
            d.detailed == false,
            d.wait_for_completion == false,
    {
        ListTasksRequestWire {
            parent_task_node: String::new(),
            parent_task_id: None,
            task_id: TaskIdWire::unset(),
            parent_task_filter: TaskIdWire::unset(),
            nodes: Vec::new(),
            actions: Vec::new(),
            timeout: None,
            detailed: false,
            wait_for_completion: false,
        }
    }
}

impl ListTasksRequestWire {
    /// The first shape of this request that is not served, with the reason, or
    /// `None` when every shape checked is served.
    pub open spec fn unserved_shape(&self) -> Option<(Seq<char>, Seq<char>)> {
        if self.task_id.node_id@.len() != 0 {
            Some(("list tasks task id filter"@, "point task lookup belongs to the get-task adapter and is not mapped here"@))
        } else if self.parent_task_filter.node_id@.len() != 0 {
            Some(("list tasks parent task filter"@, "parent task filtering is not mapped by the empty list-tasks adapter yet"@))
        } else if self.nodes@.len() != 0 {
            Some(("list tasks node filter"@, "node-scoped task listing is not mapped by the empty list-tasks adapter yet"@))
        } else if self.actions@.len() != 0 {
            Some(("list tasks action filter"@, "action-scoped task listing is not mapped by the empty list-tasks adapter yet"@))
        } else if self.timeout is Some {
            Some(("list tasks timeout"@, "list-tasks timeout is not mapped by the empty list-tasks adapter yet"@))
        } else if self.detailed {
            Some(("list tasks detail flag"@, "detailed task info is not encoded by the empty list-tasks adapter yet"@))
        } else if self.wait_for_completion {
            Some(("list tasks wait for completion"@, "wait-for-completion semantics require tracked runtime task lifecycle"@))
        } else {
            None
        }
    }

    /// Accepts the request exactly when every shape it uses is served.
    pub fn validate_supported_subset(&self) -> (r: Result<(), TransportActionWireError>)
        ensures
            match self.unserved_shape() {
                Some((shape, reason)) => is_unsupported(r, shape, reason),
                None => r is Ok,
            },
    {
        if self.task_id.is_set() {
            return Err(
                TransportActionWireError::UnsupportedWireShape {
                    shape: "list tasks task id filter",
                    reason: "point task lookup belongs to the get-task adapter and is not mapped here",
                },
            );
        }
        if self.parent_task_filter.is_set() {
            return Err(
                TransportActionWireError::UnsupportedWireShape {
                    shape: "list tasks parent task filter",
                    reason: "parent task filtering is not mapped by the empty list-tasks adapter yet",
                },
            );
        }
        if self.nodes.len() != 0 {
            return Err(
                TransportActionWireError::UnsupportedWireShape {
                    shape: "list tasks node filter",
                    reason: "node-scoped task listing is not mapped by the empty list-tasks adapter yet",
                },
            );
        }
        if self.actions.len() != 0 {
            return Err(
                TransportActionWireError::UnsupportedWireShape {
                    shape: "list tasks action filter",
                    reason: "action-scoped task listing is not mapped by the empty list-tasks adapter yet",
                },
            );
        }
        if self.timeout.is_some() {
            return Err(
                TransportActionWireError::UnsupportedWireShape {
                    shape: "list tasks timeout",
                    reason: "list-tasks timeout is not mapped by the empty list-tasks adapter yet",
                },
            );
        }
        if self.detailed {
            return Err(
                TransportActionWireError::UnsupportedWireShape {
                    shape: "list tasks detail flag",
                    reason: "detailed task info is not encoded by the empty list-tasks adapter yet",
                },
            );
        }
        if self.wait_for_completion {
            return Err(
                TransportActionWireError::UnsupportedWireShape {
                    shape: "list tasks wait for completion",
                    reason: "wait-for-completion semantics require tracked runtime task lifecycle",
                },
            );
        }
        Ok(())
    }
}

/// A list-tasks response, by the sizes of its failure and task lists.
#[derive(Clone, Debug, PartialEq, Eq)]
pub struct ListTasksResponseWire {
    pub task_failure_count: i32,
    pub node_failure_count: i32,
    pub task_count: i32,
}

/// A get-task request.
#[derive(Clone, Debug, PartialEq, Eq)]
pub struct GetTaskRequestWire {
    pub parent_task_node: String,
    pub parent_task_id: Option<i64>,
    pub task_id: TaskIdWire,
    pub timeout: Option<TimeValueWire>,
    pub wait_for_completion: bool,
}

impl GetTaskRequestWire {
    /// The first shape of this request that is not served, with the reason, or
    /// `None` when every shape checked is served.
    pub open spec fn unserved_shape(&self) -> Option<(Seq<char>, Seq<char>)> {
        if self.task_id.node_id@.len() == 0 {
            Some(("get task missing task id"@, "OpenSearch get-task requires an explicit task id"@))
        } else if self.timeout is Some {
            Some(("get task timeout"@, "get-task timeout requires runtime task result lifecycle mapping"@))
        } else if self.wait_for_completion {
            Some(("get task wait for completion"@, "wait-for-completion requires runtime task result lifecycle mapping"@))
        } else {
            None
        }
    }

    /// Refuses to execute the request: with the first unserved shape, else
    /// because execution itself is not served.
    pub fn reject_unsupported_execution(&self) -> (r: Result<(), TransportActionWireError>)
        ensures
            match self.unserved_shape() {
                Some((shape, reason)) => is_unsupported(r, shape, reason),
                None => is_unsupported(r, "get task execution"@, "point task lookup requires runtime task result lifecycle mapping"@),
            },
    {
        if !self.task_id.is_set() {
            return Err(
                TransportActionWireError::UnsupportedWireShape {
                    shape: "get task missing task id",
                    reason: "OpenSearch get-task requires an explicit task id",
                },
            );
        }
        if self.timeout.is_some() {
            return Err(
                TransportActionWireError::UnsupportedWireShape {
                    shape: "get task timeout",
                    reason: "get-task timeout requires runtime task result lifecycle mapping",
                },
            );
        }
        if self.wait_for_completion {
            return Err(
                TransportActionWireError::UnsupportedWireShape {
                    shape: "get task wait for completion",
                    reason: "wait-for-completion requires runtime task result lifecycle mapping",
                },
            );
        }
        Err(
            TransportActionWireError::UnsupportedWireShape {
                shape: "get task execution",
                reason: "point task lookup requires runtime task result lifecycle mapping",
            },
        )
    }
}

/// A get-task response, by whether it carries a task result.
#[derive(Clone, Debug, PartialEq, Eq)]
pub struct GetTaskResponseWire {
    pub task_result_present: bool,
}

/// A cancel-tasks request.
#[derive(Clone, Debug, PartialEq, Eq)]
pub struct CancelTasksRequestWire {
    pub parent_task_node: String,
    pub parent_task_id: Option<i64>,
    pub task_id: TaskIdWire,
    pub parent_task_filter: TaskIdWire,
    pub nodes: Vec<String>,
    pub actions: Vec<String>,
    pub timeout: Option<TimeValueWire>,
    pub reason: String,
    pub wait_for_completion: bool,
}

impl Default for CancelTasksRequestWire {
    fn default() -> (d: Self)
        ensures
            d.parent_task_node@ == Seq::<char>::empty(),
            d.parent_task_id is None,
            d.task_id.node_id@.len() == 0 && d.task_id.id is None,
            d.parent_task_filter.node_id@.len() == 0 && d.parent_task_filter.id is None,
            d.nodes@.len() == 0,
            d.actions@.len() == 0,
            d.timeout is None,
            d.reason@ == "by user request"@,
            d.wait_for_completion == false,
    {
        CancelTasksRequestWire {
            parent_task_node: String::new(),
            parent_task_id: None,
            task_id: TaskIdWire::unset(),
            parent_task_filter: TaskIdWire::unset(),
            nodes: Vec::new(),
            actions: Vec::new(),
            timeout: None,
            reason: owned("by user request"),
            wait_for_completion: false,
        }
    }
}

impl CancelTasksRequestWire {
    /// The first shape of this request that is not served, with the reason, or
    /// `None` when every shape checked is served.
    pub open spec fn unserved_shape(&self) -> Option<(Seq<char>, Seq<char>)> {
        if self.task_id.node_id@.len() != 0 {
            Some(("cancel tasks task id filter"@, "point task cancellation requires runtime task lifecycle mapping"@))
        } else if self.parent_task_filter.node_id@.len() != 0 {
            Some(("cancel tasks parent task filter"@, "parent task cancellation requires runtime task lifecycle mapping"@))
        } else if self.nodes@.len() != 0 {
            Some(("cancel tasks node filter"@, "node-scoped task cancellation is not mapped by this adapter yet"@))
        } else if self.actions@.len() != 0 {
            Some(("cancel tasks action filter"@, "action-scoped task cancellation is not mapped by this adapter yet"@))
        } else if self.timeout is Some {
            Some(("cancel tasks timeout"@, "cancel-tasks timeout is not mapped by this adapter yet"@))
        } else if self.reason@ != "by user request"@ {
            Some(("cancel tasks reason"@, "custom cancellation reason is not mapped by this adapter yet"@))
        } else if self.wait_for_completion {
            Some(("cancel tasks wait for completion"@, "wait-for-completion semantics require tracked runtime task lifecycle"@))
        } else {
            None
        }
    }

    /// Accepts the request exactly when every shape it uses is served.
    pub fn validate_supported_subset(&self) -> (r: Result<(), TransportActionWireError>)
        ensures
            match self.unserved_shape() {
                Some((shape, reason)) => is_unsupported(r, shape, reason),
                None => r is Ok,
            },
    {
        if self.task_id.is_set() {
            return Err(
                TransportActionWireError::UnsupportedWireShape {
                    shape: "cancel tasks task id filter",
                    reason: "point task cancellation requires runtime task lifecycle mapping",
                },
            );
        }
        if self.parent_task_filter.is_set() {
            return Err(
                TransportActionWireError::UnsupportedWireShape {
                    shape: "cancel tasks parent task filter",
                    reason: "parent task cancellation requires runtime task lifecycle mapping",
                },
            );
        }
        if self.nodes.len() != 0 {
            return Err(
                TransportActionWireError::UnsupportedWireShape {
                    shape: "cancel tasks node filter",
                    reason: "node-scoped task cancellation is not mapped by this adapter yet",
                },
            );
        }
        if self.actions.len() != 0 {
            return Err(
                TransportActionWireError::UnsupportedWireShape {
                    shape: "cancel tasks action filter",
                    reason: "action-scoped task cancellation is not mapped by this adapter yet",
                },
            );
        }
        if self.timeout.is_some() {
            return Err(
                TransportActionWireError::UnsupportedWireShape {
                    shape: "cancel tasks timeout",
                    reason: "cancel-tasks timeout is not mapped by this adapter yet",
                },
            );
        }
        if !str_eq(self.reason.as_str(), "by user request") {
            return Err(
                TransportActionWireError::UnsupportedWireShape {
                    shape: "cancel tasks reason",
                    reason: "custom cancellation reason is not mapped by this adapter yet",
                },
            );
        }
        if self.wait_for_completion {
            return Err(
                TransportActionWireError::UnsupportedWireShape {
                    shape: "cancel tasks wait for completion",
                    reason: "wait-for-completion semantics require tracked runtime task lifecycle",
                },
            );
        }
        Ok(())
    }
}

} // verus!
