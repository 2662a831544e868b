//! End-to-end exercises of the registration, activation, wrap and unwrap
//! workflows, and of every error kind the registry can refuse with.

use wrapper::{
    execute, execute_register_collection, execute_unwrap, execute_wrap, instantiate, query,
    query_controller, reply, AssetAnswer, ContractError, ContractInfo, ExecuteMsg, InstantiateMsg,
    MirroredData, NftInfo, QueryAnswer, QueryMsg, Registry, Request, ServiceAnswers,
};

fn s(x: &str) -> String {
    x.to_string()
}

fn no_override() -> MirroredData {
    MirroredData { collection_name: None, collection_symbol: None, base_uri: None }
}

fn with_base_uri(base: &str) -> MirroredData {
    MirroredData { collection_name: None, collection_symbol: None, base_uri: Some(s(base)) }
}

fn col_info() -> Option<ContractInfo> {
    Some(ContractInfo { name: s("Originals"), symbol: s("ORIG") })
}

fn held_by(owner: &str, uri: &str) -> AssetAnswer {
    AssetAnswer {
        owner: Some(s(owner)),
        info: Some(NftInfo { token_uri: Some(s(uri)), extension: None }),
    }
}

/// A fresh registry under controller "ctrl", host address "wrapper".
fn fresh() -> Registry {
    instantiate(InstantiateMsg { controller: s("ctrl"), cw721_code_id: 42 })
}

/// A registry with "colA" registered (override `md`) and activated as
/// mirror "mirrorA".
fn registered(md: MirroredData) -> Registry {
    let mut reg = fresh();
    let r = execute_register_collection(
        &mut reg,
        &s("wrapper"),
        &s("ctrl"),
        s("colA"),
        md,
        col_info(),
    );
    assert!(r.is_ok());
    let r = reply(&mut reg, 1, s("mirrorA"));
    assert!(r.is_ok());
    reg
}

#[test]
fn instantiate_sets_up_the_registry() {
    let reg = fresh();
    assert_eq!(query_controller(&reg), s("ctrl"));
    assert_eq!(reg.cw721_code_id(), 42);
    assert_eq!(reg.total_wrapped(), 0);
}

#[test]
fn register_requires_the_controller() {
    let mut reg = fresh();
    let r = execute_register_collection(
        &mut reg,
        &s("wrapper"),
        &s("mallory"),
        s("colA"),
        no_override(),
        col_info(),
    );
    assert_eq!(r.unwrap_err(), ContractError::Unauthorized {});
    assert_eq!(reg.total_wrapped(), 0);
}

#[test]
fn register_refuses_a_failed_metadata_query() {
    let mut reg = fresh();
    let r = execute_register_collection(
        &mut reg,
        &s("wrapper"),
        &s("ctrl"),
        s("colA"),
        no_override(),
        None,
    );
    assert_eq!(r.unwrap_err(), ContractError::Unauthorized {});
    assert_eq!(reg.total_wrapped(), 0);
}

#[test]
fn register_emits_one_creation_request() {
    let mut reg = fresh();
    let r = execute_register_collection(
        &mut reg,
        &s("wrapper"),
        &s("ctrl"),
        s("colA"),
        no_override(),
        col_info(),
    )
    .unwrap();
    assert_eq!(
        r.requests,
        vec![Request::CreateMirror {
            correlation_token: 1,
            code_id: 42,
            name: s("Originals"),
            symbol: s("ORIG"),
            minter: s("wrapper"),
            admin: s("ctrl"),
        }]
    );
    assert_eq!(reg.total_wrapped(), 1);
}

#[test]
fn register_override_wins_field_by_field() {
    let mut reg = fresh();
    let md = MirroredData {
        collection_name: Some(s("Mirrors")),
        collection_symbol: None,
        base_uri: None,
    };
    let r = execute_register_collection(&mut reg, &s("wrapper"), &s("ctrl"), s("colA"), md, col_info())
        .unwrap();
    match &r.requests[0] {
        Request::CreateMirror { name, symbol, .. } => {
            assert_eq!(name, &s("Mirrors"));
            assert_eq!(symbol, &s("ORIG"));
        }
        other => panic!("unexpected request {:?}", other),
    }
}

#[test]
fn register_twice_is_a_no_op() {
    let mut reg = fresh();
    let first = execute_register_collection(
        &mut reg,
        &s("wrapper"),
        &s("ctrl"),
        s("colA"),
        no_override(),
        col_info(),
    )
    .unwrap();
    assert_eq!(first.requests.len(), 1);
    assert_eq!(reg.total_wrapped(), 1);
    let second = execute_register_collection(
        &mut reg,
        &s("wrapper"),
        &s("ctrl"),
        s("colA"),
        with_base_uri("https://other/"),
        col_info(),
    )
    .unwrap();
    assert_eq!(second.requests, vec![]);
    assert_eq!(reg.total_wrapped(), 1);
    match query(&reg, QueryMsg::WrapData { index: 1 }).unwrap() {
        QueryAnswer::WrapDataInfo { data } => {
            assert_eq!(data.mirrored_data.base_uri, None);
        }
        other => panic!("unexpected answer {:?}", other),
    }
}

#[test]
fn reply_activates_the_record_and_publishes_the_mirror() {
    let reg = registered(no_override());
    match query(&reg, QueryMsg::WrapData { index: 1 }).unwrap() {
        QueryAnswer::WrapDataInfo { data } => {
            assert!(data.active);
            assert_eq!(data.original_collection, s("colA"));
            assert_eq!(data.mirrored_collection, s("mirrorA"));
        }
        other => panic!("unexpected answer {:?}", other),
    }
    match query(&reg, QueryMsg::MirroredCollectionInfo { collection_address: s("mirrorA") })
        .unwrap()
    {
        QueryAnswer::MirroredCollectionInfo { index, data } => {
            assert_eq!(index, 1);
            assert!(data.active);
        }
        other => panic!("unexpected answer {:?}", other),
    }
}

#[test]
fn reply_with_an_unknown_token_is_not_found() {
    let mut reg = fresh();
    let r = reply(&mut reg, 7, s("mirrorA"));
    assert_eq!(r.unwrap_err(), ContractError::NotFound {});
}

#[test]
fn reply_twice_changes_nothing() {
    let mut reg = registered(no_override());
    let r = reply(&mut reg, 1, s("mirrorB"));
    assert!(r.is_ok());
    match query(&reg, QueryMsg::WrapData { index: 1 }).unwrap() {
        QueryAnswer::WrapDataInfo { data } => {
            assert_eq!(data.mirrored_collection, s("mirrorA"));
        }
        other => panic!("unexpected answer {:?}", other),
    }
    assert!(query(
        &reg,
        QueryMsg::MirroredCollectionInfo { collection_address: s("mirrorB") }
    )
    .is_err());
}

#[test]
fn reply_refuses_a_mirror_already_in_use() {
    let mut reg = registered(no_override());
    let r = execute_register_collection(
        &mut reg,
        &s("wrapper"),
        &s("ctrl"),
        s("colB"),
        no_override(),
        col_info(),
    );
    assert!(r.is_ok());
    let r = reply(&mut reg, 2, s("mirrorA"));
    assert_eq!(
        r.unwrap_err(),
        ContractError::CustomError { val: s("mirror collection already in use") }
    );
}

#[test]
fn wrap_of_an_unregistered_collection_is_not_allowed() {
    let reg = fresh();
    let r = execute_wrap(
        &reg,
        &s("wrapper"),
        &s("alice"),
        s("colA"),
        vec![s("7")],
        vec![held_by("alice", "orig://7")],
    );
    assert_eq!(r.unwrap_err(), ContractError::CollectionNotAllowed {});
}

#[test]
fn wrap_before_activation_is_deactivated() {
    let mut reg = fresh();
    execute_register_collection(
        &mut reg,
        &s("wrapper"),
        &s("ctrl"),
        s("colA"),
        no_override(),
        col_info(),
    )
    .unwrap();
    let r = execute_wrap(
        &reg,
        &s("wrapper"),
        &s("alice"),
        s("colA"),
        vec![s("7")],
        vec![held_by("alice", "orig://7")],
    );
    assert_eq!(r.unwrap_err(), ContractError::CollectionDeactivated {});
}

#[test]
fn wrap_emits_escrow_and_mint_per_asset() {
    let reg = registered(no_override());
    let r = execute_wrap(
        &reg,
        &s("wrapper"),
        &s("alice"),
        s("colA"),
        vec![s("7"), s("8")],
        vec![held_by("alice", "orig://7"), held_by("alice", "orig://8")],
    )
    .unwrap();
    assert_eq!(
        r.requests,
        vec![
            Request::Transfer { collection: s("colA"), recipient: s("wrapper"), token_id: s("7") },
            Request::Mint {
                collection: s("mirrorA"),
                owner: s("alice"),
                token_id: s("7"),
                token_uri: Some(s("orig://7")),
            },
            Request::Transfer { collection: s("colA"), recipient: s("wrapper"), token_id: s("8") },
            Request::Mint {
                collection: s("mirrorA"),
                owner: s("alice"),
                token_id: s("8"),
                token_uri: Some(s("orig://8")),
            },
        ]
    );
}

#[test]
fn wrap_of_no_assets_emits_nothing() {
    let reg = registered(no_override());
    let r = execute_wrap(&reg, &s("wrapper"), &s("alice"), s("colA"), vec![], vec![]).unwrap();
    assert_eq!(r.requests, vec![]);
}

#[test]
fn wrap_processes_duplicate_asset_ids_independently() {
    let reg = registered(no_override());
    let r = execute_wrap(
        &reg,
        &s("wrapper"),
        &s("alice"),
        s("colA"),
        vec![s("7"), s("7")],
        vec![held_by("alice", "orig://7"), held_by("alice", "orig://7")],
    )
    .unwrap();
    assert_eq!(r.requests.len(), 4);
}

#[test]
fn wrap_by_a_non_owner_names_the_asset() {
    let reg = registered(no_override());
    let r = execute_wrap(
        &reg,
        &s("wrapper"),
        &s("mallory"),
        s("colA"),
        vec![s("7")],
        vec![held_by("alice", "orig://7")],
    );
    assert_eq!(r.unwrap_err(), ContractError::NotOwnedBySender { val: s("7") });
}

#[test]
fn wrap_treats_a_failed_ownership_query_as_not_owned() {
    let reg = registered(no_override());
    let r = execute_wrap(
        &reg,
        &s("wrapper"),
        &s("alice"),
        s("colA"),
        vec![s("7")],
        vec![AssetAnswer { owner: None, info: Some(NftInfo { token_uri: None, extension: None }) }],
    );
    assert_eq!(r.unwrap_err(), ContractError::NotOwnedBySender { val: s("7") });
}

#[test]
fn wrap_reports_a_failed_info_query_with_the_asset() {
    let reg = registered(no_override());
    let r = execute_wrap(
        &reg,
        &s("wrapper"),
        &s("alice"),
        s("colA"),
        vec![s("7")],
        vec![AssetAnswer { owner: Some(s("alice")), info: None }],
    );
    assert_eq!(
        r.unwrap_err(),
        ContractError::CustomError { val: s("Cannot query token info of 7") }
    );
}

#[test]
fn wrap_is_all_or_nothing() {
    let reg = registered(no_override());
    let r = execute_wrap(
        &reg,
        &s("wrapper"),
        &s("alice"),
        s("colA"),
        vec![s("1"), s("2"), s("3")],
        vec![
            held_by("alice", "orig://1"),
            held_by("bob", "orig://2"),
            held_by("alice", "orig://3"),
        ],
    );
    assert_eq!(r.unwrap_err(), ContractError::NotOwnedBySender { val: s("2") });
}

#[test]
fn unwrap_of_an_unknown_mirror_is_not_allowed() {
    let reg = registered(no_override());
    let r = execute_unwrap(
        &reg,
        &s("alice"),
        s("colA"),
        vec![s("7")],
        vec![held_by("alice", "orig://7")],
    );
    assert_eq!(r.unwrap_err(), ContractError::CollectionNotAllowed {});
}

#[test]
fn unwrap_emits_burn_and_release_per_asset() {
    let reg = registered(no_override());
    let r = execute_unwrap(
        &reg,
        &s("alice"),
        s("mirrorA"),
        vec![s("7")],
        vec![held_by("alice", "mirror://7")],
    )
    .unwrap();
    assert_eq!(
        r.requests,
        vec![
            Request::Burn { collection: s("mirrorA"), token_id: s("7") },
            Request::Transfer { collection: s("colA"), recipient: s("alice"), token_id: s("7") },
        ]
    );
}

#[test]
fn unwrap_by_a_non_owner_names_the_asset() {
    let reg = registered(no_override());
    let r = execute_unwrap(
        &reg,
        &s("mallory"),
        s("mirrorA"),
        vec![s("7")],
        vec![held_by("alice", "mirror://7")],
    );
    assert_eq!(r.unwrap_err(), ContractError::NotOwnedBySender { val: s("7") });
}

#[test]
fn queries_miss_with_not_found() {
    let reg = fresh();
    assert!(query(&reg, QueryMsg::OriginalCollectionInfo { collection_address: s("colA") })
        .is_err());
    assert!(query(&reg, QueryMsg::MirroredCollectionInfo { collection_address: s("mirrorA") })
        .is_err());
    assert!(query(&reg, QueryMsg::WrapData { index: 1 }).is_err());
}

#[test]
fn queries_find_the_record_both_ways() {
    let reg = registered(no_override());
    match query(&reg, QueryMsg::Controller {}).unwrap() {
        QueryAnswer::Controller { controller } => assert_eq!(controller, s("ctrl")),
        other => panic!("unexpected answer {:?}", other),
    }
    match query(&reg, QueryMsg::OriginalCollectionInfo { collection_address: s("colA") }).unwrap()
    {
        QueryAnswer::OriginalCollectionInfo { index, data } => {
            assert_eq!(index, 1);
            assert_eq!(data.mirrored_collection, s("mirrorA"));
        }
        other => panic!("unexpected answer {:?}", other),
    }
}

#[test]
fn execute_dispatches_each_message() {
    let mut reg = fresh();
    let r = execute(
        &mut reg,
        &s("wrapper"),
        &s("ctrl"),
        ExecuteMsg::RegisterCollection {
            original_collection: s("colA"),
            new_collection: no_override(),
        },
        ServiceAnswers { contract_info: col_info(), assets: vec![] },
    )
    .unwrap();
    assert_eq!(r.requests.len(), 1);
    reply(&mut reg, 1, s("mirrorA")).unwrap();

    let r = execute(
        &mut reg,
        &s("wrapper"),
        &s("alice"),
        ExecuteMsg::Wrap { collection_address: s("colA"), token_ids: vec![s("9")] },
        ServiceAnswers { contract_info: None, assets: vec![held_by("alice", "orig://9")] },
    )
    .unwrap();
    assert_eq!(r.requests.len(), 2);

    let r = execute(
        &mut reg,
        &s("wrapper"),
        &s("alice"),
        ExecuteMsg::Unwrap { collection_address: s("mirrorA"), token_ids: vec![s("9")] },
        ServiceAnswers { contract_info: None, assets: vec![held_by("alice", "mirror://9")] },
    )
    .unwrap();
    assert_eq!(r.requests.len(), 2);
}

#[test]
fn responses_carry_advisory_attributes() {
    let reg = registered(no_override());
    let r = execute_wrap(
        &reg,
        &s("wrapper"),
        &s("alice"),
        s("colA"),
        vec![s("7"), s("8")],
        vec![held_by("alice", "orig://7"), held_by("alice", "orig://8")],
    )
    .unwrap();
    assert!(r.attributes.iter().any(|a| a.key == "method" && a.value == "wrap"));
    assert!(r.attributes.iter().any(|a| a.key == "token_ids" && a.value == "7,8"));
}
