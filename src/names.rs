use vstd::prelude::*;
use vstd::string::{StrSliceExecFns, StringExecFns};

verus! {

/// Why a topic name was refused.
#[derive(Clone, Copy, Debug, PartialEq, Eq, Structural)]
pub enum NameError {
    /// The name is empty.
    Empty,
}

/// `name` without one leading slash, if it has one.
pub open spec fn without_leading_slash(name: Seq<char>) -> Seq<char> {
    if name.len() > 0 && name[0] == '/' {
        name.drop_first()
    } else {
        name
    }
}

/// The transport-level name of a topic: `prefix` followed by `name`, whose
/// leading slash is dropped so that no double slash appears. An empty
/// name is refused.
pub fn check_name_and_add_prefix(prefix: String, name: &str) -> (r: Result<String, NameError>)
    ensures
        name@.len() == 0 <==> r is Err,
        r matches Err(e) ==> e == NameError::Empty,
        r matches Ok(s) ==> s@ == prefix@ + without_leading_slash(name@),
{
    let len = name.unicode_len();
    if len == 0 {
        return Err(NameError::Empty);
    }
    let mut full = prefix;
    if name.get_char(0) == '/' {
        full.append(name.substring_char(1, len));
    } else {
        full.append(name);
    }
    proof {
        assert(name@.subrange(1, len as int) =~= name@.drop_first());
    }
    Ok(full)
}

/// The request and reply topic names of the service `service_name`:
/// `rq/<name>Request` and `rr/<name>Reply`, the name without its leading
/// slash.
pub fn service_topic_names(service_name: &str) -> (r: Result<(String, String), NameError>)
    ensures
        r is Ok,
        r matches Ok(p) ==> p.0@ == "rq/"@ + without_leading_slash(service_name@ + "Request"@)
            && p.1@ == "rr/"@ + without_leading_slash(service_name@ + "Reply"@),
{
    proof {
        reveal_strlit("Request");
        reveal_strlit("Reply");
    }
    let request = service_name.to_owned().concat("Request");
    let reply = service_name.to_owned().concat("Reply");
    let rq = check_name_and_add_prefix("rq/".to_owned(), request.as_str());
    let rr = check_name_and_add_prefix("rr/".to_owned(), reply.as_str());
    match (rq, rr) {
        (Ok(a), Ok(b)) => Ok((a, b)),
        (Err(e), _) => Err(e),
        (_, Err(e)) => Err(e),
    }
}

/// The services and topics that make up the action `action_name`.
pub struct ActionNames {
    pub goal_service: String,
    pub cancel_service: String,
    pub result_service: String,
    pub feedback_topic: String,
    pub status_topic: String,
}

/// The names of the three services and two topics of an action: the
/// action's name followed by `/_action/` and the part's name.
pub fn action_names(action_name: &str) -> (r: ActionNames)
    ensures
        r.goal_service@ == action_name@ + "/_action/send_goal"@,
        r.cancel_service@ == action_name@ + "/_action/cancel_goal"@,
        r.result_service@ == action_name@ + "/_action/get_result"@,
        r.feedback_topic@ == action_name@ + "/_action/feedback"@,
        r.status_topic@ == action_name@ + "/_action/status"@,
{
    ActionNames {
        goal_service: action_name.to_owned().concat("/_action/send_goal"),
        cancel_service: action_name.to_owned().concat("/_action/cancel_goal"),
        result_service: action_name.to_owned().concat("/_action/get_result"),
        feedback_topic: action_name.to_owned().concat("/_action/feedback"),
        status_topic: action_name.to_owned().concat("/_action/status"),
    }
}

} // verus!
