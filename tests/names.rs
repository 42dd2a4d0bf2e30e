use ros2_node::names::{check_name_and_add_prefix, service_topic_names, NameError};

#[test]
fn prefix_added_to_plain_name() {
    assert_eq!(check_name_and_add_prefix("rt/".to_string(), "chatter"), Ok("rt/chatter".to_string()));
}

#[test]
fn leading_slash_is_dropped_once() {
    assert_eq!(check_name_and_add_prefix("rt/".to_string(), "/chatter"), Ok("rt/chatter".to_string()));
    assert_eq!(check_name_and_add_prefix("rt/".to_string(), "//x"), Ok("rt//x".to_string()));
    assert_eq!(check_name_and_add_prefix("rt/".to_string(), "/"), Ok("rt/".to_string()));
}

#[test]
fn empty_name_is_refused() {
    assert_eq!(check_name_and_add_prefix("rt/".to_string(), ""), Err(NameError::Empty));
}

#[test]
fn service_names_get_request_and_reply_topics() {
    assert_eq!(
        service_topic_names("/add_two_ints"),
        Ok(("rq/add_two_intsRequest".to_string(), "rr/add_two_intsReply".to_string()))
    );
    assert_eq!(service_topic_names(""), Ok(("rq/Request".to_string(), "rr/Reply".to_string())));
}

#[test]
fn action_parts_are_named_under_the_action() {
    let n = ros2_node::names::action_names("/turtle1/rotate_absolute");
    assert_eq!(n.goal_service, "/turtle1/rotate_absolute/_action/send_goal");
    assert_eq!(n.cancel_service, "/turtle1/rotate_absolute/_action/cancel_goal");
    assert_eq!(n.result_service, "/turtle1/rotate_absolute/_action/get_result");
    assert_eq!(n.feedback_topic, "/turtle1/rotate_absolute/_action/feedback");
    assert_eq!(n.status_topic, "/turtle1/rotate_absolute/_action/status");
    let (rq, rr) = service_topic_names(&n.goal_service).unwrap();
    assert_eq!(rq, "rq/turtle1/rotate_absolute/_action/send_goalRequest");
    assert_eq!(rr, "rr/turtle1/rotate_absolute/_action/send_goalReply");
}
