use callum_bm::contract::{
    execute, execute_create_poll, execute_vote_poll, instantiate, query, query_get_config,
    query_get_poll, Deps, DepsMut,
};
use callum_bm::error::ErrorKind;
use callum_bm::msg::{ExecuteMsg, GetPollResponse, InstantiateMsg, QueryMsg, QueryResponse};
use callum_bm::state::{Config, SPoll};
use cosmwasm_std::attr;
use cosmwasm_std::testing::{mock_dependencies, mock_env, mock_info, MockApi, MockQuerier, MockStorage};
use cosmwasm_std::{OwnedDeps, Response};

type TestDeps = OwnedDeps<MockStorage, MockApi, MockQuerier>;

fn writer(deps: &mut TestDeps) -> DepsMut<'_> {
    DepsMut { storage: &mut deps.storage, api: &deps.api }
}

fn reader(deps: &TestDeps) -> Deps<'_> {
    Deps { storage: &deps.storage, api: &deps.api }
}

fn create(deps: &mut TestDeps, name: &str) -> Result<Response, ErrorKind> {
    execute_create_poll(writer(deps), mock_env(), mock_info("voter", &[]), name.to_string())
        .map_err(|e| e.kind())
}

fn vote(deps: &mut TestDeps, name: &str, choice: &str) -> Result<Response, ErrorKind> {
    execute_vote_poll(
        writer(deps),
        mock_env(),
        mock_info("voter", &[]),
        name.to_string(),
        choice.to_string(),
    )
    .map_err(|e| e.kind())
}

fn poll(deps: &TestDeps, name: &str) -> Option<SPoll> {
    query_get_poll(reader(deps), name.to_string()).unwrap().poll
}

fn counted(name: &str, yes_votes: u64, no_votes: u64) -> Option<SPoll> {
    Some(SPoll { poll_name: name.to_string(), yes_votes, no_votes })
}

#[test]
fn whole_scenario_runs_as_described() {
    let mut deps = mock_dependencies();
    let env = mock_env();
    let info = mock_info("addr_sender", &[]);

    let msg = InstantiateMsg { admin_address: "admin_addr".to_string() };
    let resp = instantiate(writer(&mut deps), env.clone(), info.clone(), msg).unwrap();
    assert_eq!(resp.attributes, vec![attr("action", "instantiate")]);
    let config = query(reader(&deps), env.clone(), QueryMsg::GetConfig {}).unwrap();
    assert_eq!(config, QueryResponse::Config(Config { admin_address: "admin_addr".to_string() }));

    let msg = ExecuteMsg::CreatePollMsg { poll_name: "question1".to_string() };
    let resp = execute(writer(&mut deps), env.clone(), info.clone(), msg).unwrap();
    assert_eq!(resp.attributes, vec![attr("action", "poll_created")]);

    let msg = ExecuteMsg::VotePollMsg { poll_name: "question1".to_string(), choice: "yes".to_string() };
    let resp = execute(writer(&mut deps), env.clone(), info.clone(), msg).unwrap();
    assert_eq!(resp.attributes, vec![attr("action", "voted_yes")]);
    let msg = QueryMsg::GetPoll { poll_name: "question1".to_string() };
    let answer = query(reader(&deps), env.clone(), msg).unwrap();
    assert_eq!(answer, QueryResponse::Poll(GetPollResponse { poll: counted("question1", 1, 0) }));

    let msg = ExecuteMsg::VotePollMsg { poll_name: "question1".to_string(), choice: "no".to_string() };
    let resp = execute(writer(&mut deps), env.clone(), info.clone(), msg).unwrap();
    assert_eq!(resp.attributes, vec![attr("action", "poll_voted")]);
    let msg = QueryMsg::GetPoll { poll_name: "question1".to_string() };
    let answer = query(reader(&deps), env.clone(), msg).unwrap();
    assert_eq!(answer, QueryResponse::Poll(GetPollResponse { poll: counted("question1", 1, 1) }));

    let msg = QueryMsg::GetPoll { poll_name: "question2".to_string() };
    let answer = query(reader(&deps), env.clone(), msg).unwrap();
    assert_eq!(answer, QueryResponse::Poll(GetPollResponse { poll: None }));
}

#[test]
fn vote_maybe_is_refused_and_counts_nothing() {
    let mut deps = mock_dependencies();
    create(&mut deps, "question1").unwrap();
    vote(&mut deps, "question1", "yes").unwrap();
    vote(&mut deps, "question1", "no").unwrap();
    vote(&mut deps, "question1", "no").unwrap();

    assert_eq!(vote(&mut deps, "question1", "maybe"), Err(ErrorKind::InvalidChoice));
    assert_eq!(poll(&deps, "question1"), counted("question1", 1, 2));
}

#[test]
fn tokens_are_matched_exactly() {
    let mut deps = mock_dependencies();
    create(&mut deps, "q").unwrap();
    for token in ["Yes", "YES", "No", "NO", "", " yes", "yes ", "y", "n", "yesno", "true"] {
        assert_eq!(vote(&mut deps, "q", token), Err(ErrorKind::InvalidChoice), "token {token:?}");
    }
    assert_eq!(poll(&deps, "q"), counted("q", 0, 0));
}

#[test]
fn last_instantiation_wins() {
    let mut deps = mock_dependencies();
    let env = mock_env();
    let info = mock_info("addr_sender", &[]);

    let first = InstantiateMsg { admin_address: "first_admin".to_string() };
    let resp = instantiate(writer(&mut deps), env.clone(), info.clone(), first).unwrap();
    assert_eq!(resp.attributes, vec![attr("action", "instantiate")]);
    assert_eq!(
        query_get_config(reader(&deps)).unwrap(),
        Config { admin_address: "first_admin".to_string() }
    );

    let second = InstantiateMsg { admin_address: "second_admin".to_string() };
    let resp = instantiate(writer(&mut deps), env.clone(), info.clone(), second).unwrap();
    assert_eq!(resp.attributes, vec![attr("action", "instantiate")]);
    assert_eq!(
        query_get_config(reader(&deps)).unwrap(),
        Config { admin_address: "second_admin".to_string() }
    );
}

#[test]
fn rejected_instantiation_keeps_the_configuration() {
    let mut deps = mock_dependencies();
    let env = mock_env();
    let info = mock_info("addr_sender", &[]);
    let first = InstantiateMsg { admin_address: "first_admin".to_string() };
    instantiate(writer(&mut deps), env.clone(), info.clone(), first).unwrap();

    let bad = InstantiateMsg { admin_address: "ab".to_string() };
    let err = instantiate(writer(&mut deps), env.clone(), info.clone(), bad).unwrap_err();
    assert_eq!(err.kind(), ErrorKind::InvalidAddress);
    assert_eq!(
        query_get_config(reader(&deps)).unwrap(),
        Config { admin_address: "first_admin".to_string() }
    );
}

#[test]
fn instantiation_leaves_the_polls_alone() {
    let mut deps = mock_dependencies();
    create(&mut deps, "kept").unwrap();
    vote(&mut deps, "kept", "yes").unwrap();
    let msg = InstantiateMsg { admin_address: "admin_addr".to_string() };
    instantiate(writer(&mut deps), mock_env(), mock_info("s", &[]), msg).unwrap();
    assert_eq!(poll(&deps, "kept"), counted("kept", 1, 0));
}

#[test]
fn second_creation_is_refused_and_changes_nothing() {
    let mut deps = mock_dependencies();
    let resp = create(&mut deps, "n").unwrap();
    assert_eq!(resp.attributes, vec![attr("action", "poll_created")]);
    assert_eq!(create(&mut deps, "n"), Err(ErrorKind::DuplicatePoll));
    assert_eq!(poll(&deps, "n"), counted("n", 0, 0));
}

#[test]
fn second_creation_does_not_reset_the_counters() {
    let mut deps = mock_dependencies();
    create(&mut deps, "n").unwrap();
    vote(&mut deps, "n", "yes").unwrap();
    vote(&mut deps, "n", "no").unwrap();
    assert_eq!(create(&mut deps, "n"), Err(ErrorKind::DuplicatePoll));
    assert_eq!(poll(&deps, "n"), counted("n", 1, 1));
}

#[test]
fn vote_on_missing_poll_fails_for_every_token_and_creates_nothing() {
    let mut deps = mock_dependencies();
    create(&mut deps, "other").unwrap();
    for token in ["yes", "no", "maybe", ""] {
        assert_eq!(vote(&mut deps, "missing", token), Err(ErrorKind::PollNotFound));
        assert_eq!(poll(&deps, "missing"), None);
    }
    assert_eq!(poll(&deps, "other"), counted("other", 0, 0));
}

#[test]
fn votes_are_counted_in_any_order() {
    let mut deps = mock_dependencies();
    create(&mut deps, "a").unwrap();
    create(&mut deps, "b").unwrap();
    create(&mut deps, "c").unwrap();
    for token in ["yes", "no", "yes", "no", "yes"] {
        vote(&mut deps, "a", token).unwrap();
    }
    for token in ["no", "no", "yes", "yes", "yes"] {
        vote(&mut deps, "b", token).unwrap();
    }
    for token in ["yes", "yes", "yes", "no", "no"] {
        vote(&mut deps, "c", token).unwrap();
    }
    assert_eq!(poll(&deps, "a"), counted("a", 3, 2));
    assert_eq!(poll(&deps, "b"), counted("b", 3, 2));
    assert_eq!(poll(&deps, "c"), counted("c", 3, 2));
}

#[test]
fn many_votes_are_counted_exactly() {
    let mut deps = mock_dependencies();
    create(&mut deps, "busy").unwrap();
    for round in 0..300u64 {
        let resp = vote(&mut deps, "busy", "yes").unwrap();
        assert_eq!(resp.attributes, vec![attr("action", "voted_yes")]);
        if round % 3 == 0 {
            let resp = vote(&mut deps, "busy", "no").unwrap();
            assert_eq!(resp.attributes, vec![attr("action", "poll_voted")]);
        }
    }
    assert_eq!(poll(&deps, "busy"), counted("busy", 300, 100));
}

#[test]
fn rejected_votes_between_valid_ones_count_nothing() {
    let mut deps = mock_dependencies();
    create(&mut deps, "q").unwrap();
    vote(&mut deps, "q", "yes").unwrap();
    assert_eq!(vote(&mut deps, "q", "perhaps"), Err(ErrorKind::InvalidChoice));
    vote(&mut deps, "q", "no").unwrap();
    assert_eq!(vote(&mut deps, "elsewhere", "yes"), Err(ErrorKind::PollNotFound));
    vote(&mut deps, "q", "yes").unwrap();
    assert_eq!(poll(&deps, "q"), counted("q", 2, 1));
}

#[test]
fn missing_poll_is_answered_without_failure() {
    let deps = mock_dependencies();
    let answer = query_get_poll(reader(&deps), "never".to_string());
    assert_eq!(answer.unwrap(), GetPollResponse { poll: None });
    let answer = query(reader(&deps), mock_env(), QueryMsg::GetPoll { poll_name: "never".to_string() });
    assert_eq!(answer.unwrap(), QueryResponse::Poll(GetPollResponse { poll: None }));
}

#[test]
fn polls_do_not_disturb_each_other() {
    let mut deps = mock_dependencies();
    create(&mut deps, "a").unwrap();
    create(&mut deps, "ab").unwrap();
    create(&mut deps, "").unwrap();
    vote(&mut deps, "a", "yes").unwrap();
    vote(&mut deps, "ab", "no").unwrap();
    vote(&mut deps, "", "yes").unwrap();
    vote(&mut deps, "", "yes").unwrap();
    assert_eq!(poll(&deps, "a"), counted("a", 1, 0));
    assert_eq!(poll(&deps, "ab"), counted("ab", 0, 1));
    assert_eq!(poll(&deps, ""), counted("", 2, 0));
    assert_eq!(poll(&deps, "b"), None);
}

#[test]
fn poll_named_like_the_namespace_is_no_configuration() {
    let mut deps = mock_dependencies();
    create(&mut deps, "key").unwrap();
    assert!(query_get_config(reader(&deps)).is_err());
    let msg = InstantiateMsg { admin_address: "admin_addr".to_string() };
    instantiate(writer(&mut deps), mock_env(), mock_info("s", &[]), msg).unwrap();
    assert_eq!(poll(&deps, "key"), counted("key", 0, 0));
    assert_eq!(poll(&deps, ""), None);
}

#[test]
fn execute_dispatches_to_both_actions() {
    let mut deps = mock_dependencies();
    let env = mock_env();
    let info = mock_info("addr_sender", &[]);
    let msg = ExecuteMsg::VotePollMsg { poll_name: "p".to_string(), choice: "yes".to_string() };
    let err = execute(writer(&mut deps), env.clone(), info.clone(), msg).unwrap_err();
    assert_eq!(err.kind(), ErrorKind::PollNotFound);
    let msg = ExecuteMsg::CreatePollMsg { poll_name: "p".to_string() };
    execute(writer(&mut deps), env.clone(), info.clone(), msg).unwrap();
    let msg = ExecuteMsg::CreatePollMsg { poll_name: "p".to_string() };
    let err = execute(writer(&mut deps), env.clone(), info.clone(), msg).unwrap_err();
    assert_eq!(err.kind(), ErrorKind::DuplicatePoll);
    let msg = ExecuteMsg::VotePollMsg { poll_name: "p".to_string(), choice: "no".to_string() };
    let resp = execute(writer(&mut deps), env.clone(), info.clone(), msg).unwrap();
    assert_eq!(resp.attributes, vec![attr("action", "poll_voted")]);
    let msg = ExecuteMsg::VotePollMsg { poll_name: "p".to_string(), choice: "nope".to_string() };
    let err = execute(writer(&mut deps), env.clone(), info.clone(), msg).unwrap_err();
    assert_eq!(err.kind(), ErrorKind::InvalidChoice);
    assert_eq!(poll(&deps, "p"), counted("p", 0, 1));
}

#[test]
fn names_with_unusual_characters_are_kept_as_given() {
    let mut deps = mock_dependencies();
    let names = [
        "with \"quotes\"",
        "back\\slash",
        "line\nbreak\ttab\r",
        "control\u{0001}\u{001f}\u{0008}\u{000c}",
        "nul\u{0000}inside",
        "umlaut äöü ß",
        "日本語の質問",
        "emoji 🗳️",
        "[\"question1\",1,0]",
        " ",
    ];
    for name in names {
        create(&mut deps, name).unwrap();
        vote(&mut deps, name, "yes").unwrap();
        vote(&mut deps, name, "no").unwrap();
        vote(&mut deps, name, "no").unwrap();
    }
    for name in names {
        assert_eq!(poll(&deps, name), counted(name, 1, 2), "name {name:?}");
        assert_eq!(create(&mut deps, name), Err(ErrorKind::DuplicatePoll));
    }
}

#[test]
fn long_name_is_kept_as_given() {
    let mut deps = mock_dependencies();
    let name = "x".repeat(70_000);
    create(&mut deps, &name).unwrap();
    vote(&mut deps, &name, "yes").unwrap();
    assert_eq!(poll(&deps, &name), counted(&name, 1, 0));
    assert_eq!(poll(&deps, &"x".repeat(69_999)), None);
}

#[test]
fn receipt_carries_one_attribute_and_nothing_else() {
    let mut deps = mock_dependencies();
    let resp = create(&mut deps, "q").unwrap();
    assert_eq!(resp.attributes.len(), 1);
    assert_eq!(resp.attributes[0].key, "action");
    assert_eq!(resp.attributes[0].value, "poll_created");
    assert!(resp.messages.is_empty());
    assert!(resp.events.is_empty());
    assert!(resp.data.is_none());
    assert_eq!(resp, Response::new().add_attribute("action", "poll_created"));
}

#[test]
fn polls_are_never_lost_and_never_shrink() {
    let mut deps = mock_dependencies();
    create(&mut deps, "kept").unwrap();
    vote(&mut deps, "kept", "yes").unwrap();
    let mut last = poll(&deps, "kept").unwrap();
    let messages = [
        ExecuteMsg::CreatePollMsg { poll_name: "kept".to_string() },
        ExecuteMsg::VotePollMsg { poll_name: "kept".to_string(), choice: "no".to_string() },
        ExecuteMsg::VotePollMsg { poll_name: "kept".to_string(), choice: "never".to_string() },
        ExecuteMsg::CreatePollMsg { poll_name: "new".to_string() },
        ExecuteMsg::VotePollMsg { poll_name: "new".to_string(), choice: "yes".to_string() },
        ExecuteMsg::VotePollMsg { poll_name: "gone".to_string(), choice: "yes".to_string() },
        ExecuteMsg::VotePollMsg { poll_name: "kept".to_string(), choice: "yes".to_string() },
    ];
    for msg in messages {
        let _ = execute(writer(&mut deps), mock_env(), mock_info("v", &[]), msg);
        let now = poll(&deps, "kept").unwrap();
        assert_eq!(now.poll_name, "kept");
        assert!(now.yes_votes >= last.yes_votes);
        assert!(now.no_votes >= last.no_votes);
        last = now;
    }
    assert_eq!(poll(&deps, "kept"), counted("kept", 2, 1));
    assert_eq!(poll(&deps, "new"), counted("new", 1, 0));
}

#[test]
fn name_that_was_never_created_is_never_found() {
    let mut deps = mock_dependencies();
    let messages = [
        ExecuteMsg::CreatePollMsg { poll_name: "a".to_string() },
        ExecuteMsg::VotePollMsg { poll_name: "ghost".to_string(), choice: "yes".to_string() },
        ExecuteMsg::CreatePollMsg { poll_name: "ghost ".to_string() },
        ExecuteMsg::CreatePollMsg { poll_name: "ghos".to_string() },
        ExecuteMsg::VotePollMsg { poll_name: "a".to_string(), choice: "no".to_string() },
        ExecuteMsg::VotePollMsg { poll_name: "ghost".to_string(), choice: "no".to_string() },
    ];
    for msg in messages {
        let _ = execute(writer(&mut deps), mock_env(), mock_info("v", &[]), msg);
        assert_eq!(poll(&deps, "ghost"), None);
    }
    assert_eq!(vote(&mut deps, "ghost", "yes"), Err(ErrorKind::PollNotFound));
}

#[test]
fn execute_leaves_the_configuration_alone() {
    let mut deps = mock_dependencies();
    let msg = InstantiateMsg { admin_address: "admin_addr".to_string() };
    instantiate(writer(&mut deps), mock_env(), mock_info("s", &[]), msg).unwrap();
    create(&mut deps, "q").unwrap();
    vote(&mut deps, "q", "yes").unwrap();
    let _ = vote(&mut deps, "q", "maybe");
    let _ = create(&mut deps, "q");
    assert_eq!(
        query_get_config(reader(&deps)).unwrap(),
        Config { admin_address: "admin_addr".to_string() }
    );
}
