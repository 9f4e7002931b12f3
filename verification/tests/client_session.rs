use ai_overlay::client::{extract_reply, AssistantClient, Role};

#[test]
fn first_request_carries_one_turn() {
    let client = AssistantClient::new(30);
    let req = client.prepare_request("llama3:latest", "hi");
    assert_eq!(req.model, "llama3:latest");
    assert_eq!(req.messages.len(), 1);
    assert!(matches!(req.messages[0].role, Role::User));
    assert_eq!(req.messages[0].content, "hi");
}

#[test]
fn cleared_history_sends_exactly_one_turn() {
    let mut client = AssistantClient::new(30);
    client.record_exchange("llama3:latest", "earlier", "answer");
    client.reset_history();
    let req = client.prepare_request("llama3:latest", "hi");
    assert_eq!(req.messages.len(), 1);
    assert!(matches!(req.messages[0].role, Role::User));
    assert_eq!(req.messages[0].content, "hi");
}

#[test]
fn recorded_exchanges_accumulate_in_order() {
    let mut client = AssistantClient::new(30);
    client.record_exchange("m", "q1", "a1");
    client.record_exchange("m", "q2", "a2");
    let req = client.prepare_request("m", "q3");
    let texts: Vec<&str> = req.messages.iter().map(|t| t.content.as_str()).collect();
    assert_eq!(texts, ["q1", "a1", "q2", "a2", "q3"]);
    assert!(matches!(req.messages[0].role, Role::User));
    assert!(matches!(req.messages[1].role, Role::Assistant));
    assert!(matches!(req.messages[4].role, Role::User));
}

#[test]
fn oldest_turns_are_evicted_at_the_bound() {
    let mut client = AssistantClient::new(2);
    client.record_exchange("m", "q1", "a1");
    client.record_exchange("m", "q2", "a2");
    let req = client.prepare_request("m", "q3");
    let texts: Vec<&str> = req.messages.iter().map(|t| t.content.as_str()).collect();
    assert_eq!(texts, ["q2", "a2", "q3"]);
}

#[test]
fn a_tiny_bound_is_raised_to_two() {
    let mut client = AssistantClient::new(0);
    client.record_exchange("m", "q1", "a1");
    let req = client.prepare_request("m", "q2");
    let texts: Vec<&str> = req.messages.iter().map(|t| t.content.as_str()).collect();
    assert_eq!(texts, ["q1", "a1", "q2"]);
}

#[test]
fn sessions_are_kept_apart_by_key() {
    let mut client = AssistantClient::new(30);
    client.record_exchange("alpha", "to alpha", "from alpha");
    client.record_exchange("beta", "to beta", "from beta");
    let req = client.prepare_request("alpha", "again");
    let texts: Vec<&str> = req.messages.iter().map(|t| t.content.as_str()).collect();
    assert_eq!(texts, ["to alpha", "from alpha", "again"]);
}

#[test]
fn preparing_does_not_record() {
    let client = AssistantClient::new(30);
    let _ = client.prepare_request("m", "first");
    let req = client.prepare_request("m", "second");
    assert_eq!(req.messages.len(), 1);
    assert_eq!(req.messages[0].content, "second");
}

#[test]
fn extract_reply_unwraps_content() {
    assert_eq!(extract_reply(Some(String::from("four"))), "four");
    assert_eq!(extract_reply(None), "");
}
