//! Custody scenarios: the full register → activate → wrap → unwrap story,
//! the round trip of one asset, and metadata precedence for the mirrored
//! descriptor.

use std::collections::HashMap;

use wrapper::{
    execute_register_collection, execute_unwrap, execute_wrap, instantiate, query, reply,
    AssetAnswer, ContractError, ContractInfo, InstantiateMsg, MirroredData, NftInfo, QueryAnswer,
    QueryMsg, Registry, Request, Response,
};

fn s(x: &str) -> String {
    x.to_string()
}

/// A toy external collection service: who holds each (collection, asset).
struct Service {
    owners: HashMap<(String, String), String>,
}

impl Service {
    fn answer(&self, collection: &str, token_id: &str) -> AssetAnswer {
        AssetAnswer {
            owner: self.owners.get(&(s(collection), s(token_id))).cloned(),
            info: Some(NftInfo { token_uri: Some(s("orig://descriptor")), extension: None }),
        }
    }

    fn apply(&mut self, requests: &[Request]) {
        for r in requests {
            match r {
                Request::Transfer { collection, recipient, token_id } => {
                    self.owners.insert((collection.clone(), token_id.clone()), recipient.clone());
                }
                Request::Mint { collection, owner, token_id, .. } => {
                    self.owners.insert((collection.clone(), token_id.clone()), owner.clone());
                }
                Request::Burn { collection, token_id } => {
                    self.owners.remove(&(collection.clone(), token_id.clone()));
                }
                Request::CreateMirror { .. } => {}
            }
        }
    }
}

fn register_active(base_uri: Option<&str>) -> Registry {
    let mut reg = instantiate(InstantiateMsg { controller: s("ctrl"), cw721_code_id: 7 });
    let md = MirroredData {
        collection_name: None,
        collection_symbol: None,
        base_uri: base_uri.map(s),
    };
    execute_register_collection(
        &mut reg,
        &s("wrapper"),
        &s("ctrl"),
        s("colC"),
        md,
        Some(ContractInfo { name: s("C"), symbol: s("C") }),
    )
    .unwrap();
    reply(&mut reg, 1, s("mirrorC")).unwrap();
    reg
}

#[test]
fn round_trip_returns_the_original_and_leaves_no_mirror() {
    let reg = register_active(None);
    let mut svc = Service { owners: HashMap::new() };
    svc.owners.insert((s("colC"), s("T")), s("alice"));

    let wrap: Response = execute_wrap(
        &reg,
        &s("wrapper"),
        &s("alice"),
        s("colC"),
        vec![s("T")],
        vec![svc.answer("colC", "T")],
    )
    .unwrap();
    svc.apply(&wrap.requests);
    assert_eq!(svc.owners.get(&(s("colC"), s("T"))), Some(&s("wrapper")));
    assert_eq!(svc.owners.get(&(s("mirrorC"), s("T"))), Some(&s("alice")));

    let unwrap: Response = execute_unwrap(
        &reg,
        &s("alice"),
        s("mirrorC"),
        vec![s("T")],
        vec![svc.answer("mirrorC", "T")],
    )
    .unwrap();
    svc.apply(&unwrap.requests);
    assert_eq!(svc.owners.get(&(s("colC"), s("T"))), Some(&s("alice")));
    assert_eq!(svc.owners.get(&(s("mirrorC"), s("T"))), None);
}

#[test]
fn base_uri_overrides_the_reported_descriptor() {
    let reg = register_active(Some("https://x/"));
    let r = execute_wrap(
        &reg,
        &s("wrapper"),
        &s("alice"),
        s("colC"),
        vec![s("42")],
        vec![AssetAnswer {
            owner: Some(s("alice")),
            info: Some(NftInfo { token_uri: Some(s("orig://other")), extension: None }),
        }],
    )
    .unwrap();
    match &r.requests[1] {
        Request::Mint { token_uri, .. } => {
            assert_eq!(token_uri, &Some(s("https://x/42.json")));
        }
        other => panic!("unexpected request {:?}", other),
    }
}

#[test]
fn registration_activation_wrap_story() {
    let mut reg = instantiate(InstantiateMsg { controller: s("ctrl"), cw721_code_id: 7 });

    let r = execute_register_collection(
        &mut reg,
        &s("wrapper"),
        &s("ctrl"),
        s("colA"),
        MirroredData { collection_name: None, collection_symbol: None, base_uri: None },
        Some(ContractInfo { name: s("A"), symbol: s("A") }),
    )
    .unwrap();
    assert_eq!(reg.total_wrapped(), 1);
    assert_eq!(r.requests.len(), 1);
    match query(&reg, QueryMsg::WrapData { index: 1 }).unwrap() {
        QueryAnswer::WrapDataInfo { data } => assert!(!data.active),
        other => panic!("unexpected answer {:?}", other),
    }

    reply(&mut reg, 1, s("mirrorA")).unwrap();
    match query(&reg, QueryMsg::MirroredCollectionInfo { collection_address: s("mirrorA") })
        .unwrap()
    {
        QueryAnswer::MirroredCollectionInfo { index, data } => {
            assert_eq!(index, 1);
            assert!(data.active);
        }
        other => panic!("unexpected answer {:?}", other),
    }

    let r = execute_wrap(
        &reg,
        &s("wrapper"),
        &s("owner7"),
        s("colA"),
        vec![s("7")],
        vec![AssetAnswer {
            owner: Some(s("owner7")),
            info: Some(NftInfo { token_uri: None, extension: None }),
        }],
    )
    .unwrap();
    assert_eq!(r.requests.len(), 2);
    assert!(matches!(r.requests[0], Request::Transfer { .. }));
    assert!(matches!(r.requests[1], Request::Mint { .. }));

    let r = execute_wrap(
        &reg,
        &s("wrapper"),
        &s("mallory"),
        s("colA"),
        vec![s("7")],
        vec![AssetAnswer {
            owner: Some(s("owner7")),
            info: Some(NftInfo { token_uri: None, extension: None }),
        }],
    );
    assert_eq!(r.unwrap_err(), ContractError::NotOwnedBySender { val: s("7") });
}
