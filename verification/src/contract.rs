//! The operations: one-time setup, registration, the activation
//! continuation, wrap, unwrap, and the read-only queries. Each mutating
//! operation is proved to agree with its model in [`crate::model`]; each
//! keeps the registry well-formed. An operation that errors changes nothing
//! and emits nothing: the outbound requests of one call stand or fall
//! together, and the caller commits them only as one unit.

use vstd::prelude::*;
use vstd::string::StringExecFns;

use crate::error::{ContractError, ErrorView};
use crate::model::{
    lemma_register_preserves_wf, lemma_reply_preserves_wf, spec_instantiate, spec_register,
    spec_reply, spec_unwrap, spec_unwrap_assets, spec_wrap, spec_wrap_assets,
};
use crate::msg::{outcome_view, Attribute, ExecuteMsg, InstantiateMsg, QueryAnswer, QueryMsg, Request, RequestView, Response};
use crate::service::{AssetAnswer, ContractInfo, ServiceAnswers};
use crate::state::{clone_opt_string, MirroredData, WrapData};
use crate::store::Registry;

verus! {

/// An attribute naming the method that produced an outcome.
fn method_attr(method: &str) -> (r: Attribute) {
    Attribute { key: String::from_str("method"), value: String::from_str(method) }
}

/// The asset ids of one call, joined for an advisory attribute.
fn join_comma(items: &Vec<String>) -> (r: String) {
    let mut out = String::new();
    let mut i: usize = 0;
    while i < items.len()
        decreases items@.len() - i,
    {
        if i > 0 {
            out.append(",");
        }
        out.append(items[i].as_str());
        i += 1;
    }
    out
}

/// An outcome that emits no requests, tagged with its method.
fn empty_response(method: &str) -> (r: Response)
    ensures
        r@ == Seq::<RequestView>::empty(),
{
    let r = Response { requests: Vec::new(), attributes: vec![method_attr(method)] };
    proof {
        assert(r@ =~= Seq::<RequestView>::empty());
    }
    r
}

/// One-time setup: records the controlling authority and the code reference
/// for mirror collections, and starts the allocator at zero.
pub fn instantiate(msg: InstantiateMsg) -> (r: Registry)
    ensures
        r.inv(),
        r@ == spec_instantiate(msg.controller@, msg.cw721_code_id),
        r@.wf(),
{
    Registry::new(msg.controller, msg.cw721_code_id)
}

/// The configured controlling authority.
pub fn query_controller(registry: &Registry) -> (r: String)
    ensures
        r@ == registry@.controller,
{
    registry.controller().clone()
}

/// The read-only queries: the authority, the record registered for an
/// original collection, the record published for a mirror collection, and
/// the record under an id. A lookup that misses is refused as not found.
pub fn query(registry: &Registry, msg: QueryMsg) -> (r: Result<QueryAnswer, ContractError>)
    requires
        registry.inv(),
        registry@.wf(),
    ensures
        match msg {
            QueryMsg::Controller {} => r matches Ok(QueryAnswer::Controller { controller })
                && controller@ == registry@.controller,
            QueryMsg::OriginalCollectionInfo { collection_address } => {
                if registry@.originals.contains_key(collection_address@) {
                    r matches Ok(QueryAnswer::OriginalCollectionInfo { index, data })
                        && index == registry@.originals[collection_address@]
                        && data@ == registry@.records[index]
                } else {
                    r matches Err(e) && e@ == ErrorView::NotFound
                }
            },
            QueryMsg::MirroredCollectionInfo { collection_address } => {
                if registry@.mirrors.contains_key(collection_address@) {
                    r matches Ok(QueryAnswer::MirroredCollectionInfo { index, data })
                        && index == registry@.mirrors[collection_address@]
                        && data@ == registry@.records[index]
                } else {
                    r matches Err(e) && e@ == ErrorView::NotFound
                }
            },
            QueryMsg::WrapData { index } => {
                if registry@.records.contains_key(index) {
                    r matches Ok(QueryAnswer::WrapDataInfo { data })
                        && data@ == registry@.records[index]
                } else {
                    r matches Err(e) && e@ == ErrorView::NotFound
                }
            },
        },
{
    match msg {
        QueryMsg::Controller {} => Ok(
            QueryAnswer::Controller { controller: registry.controller().clone() },
        ),
        QueryMsg::OriginalCollectionInfo { collection_address } => {
            match registry.original_id(&collection_address) {
                None => Err(ContractError::NotFound {}),
                Some(index) => {
                    let data = match registry.record(index) {
                        Some(d) => d.clone(),
                        None => {
                            proof {
                                assert(false);
                            }
                            return Err(ContractError::NotFound {});
                        },
                    };
                    Ok(QueryAnswer::OriginalCollectionInfo { index, data })
                },
            }
        },
        QueryMsg::MirroredCollectionInfo { collection_address } => {
            match registry.mirror_id(&collection_address) {
                None => Err(ContractError::NotFound {}),
                Some(index) => {
                    let data = match registry.record(index) {
                        Some(d) => d.clone(),
                        None => {
                            proof {
                                assert(false);
                            }
                            return Err(ContractError::NotFound {});
                        },
                    };
                    Ok(QueryAnswer::MirroredCollectionInfo { index, data })
                },
            }
        },
        QueryMsg::WrapData { index } => {
            match registry.record(index) {
                None => Err(ContractError::NotFound {}),
                Some(d) => Ok(QueryAnswer::WrapDataInfo { data: d.clone() }),
            }
        },
    }
}

/// Registration: pairs an original collection with a mirror collection to
/// be created. Only the controlling authority may call it; a known original
/// is a successful no-op; otherwise the caller passes the original's
/// metadata as the service answered it (`None` for a failed query), the
/// override wins field by field, an inactive record is filed under the next
/// record id, and exactly one creation request is emitted carrying that id
/// as its correlation token.
pub fn execute_register_collection(
    registry: &mut Registry,
    self_addr: &String,
    sender: &String,
    original_collection: String,
    new_collection: MirroredData,
    contract_info: Option<ContractInfo>,
) -> (r: Result<Response, ContractError>)
    requires
        old(registry).inv(),
        old(registry)@.wf(),
        old(registry)@.total_wrapped < u64::MAX,
    ensures
        final(registry).inv(),
        final(registry)@.wf(),
        ({
            let (s2, out) = spec_register(
                old(registry)@,
                sender@,
                self_addr@,
                original_collection@,
                new_collection@,
                contract_info.deep_view(),
            );
            &&& final(registry)@ == s2
            &&& outcome_view(r) == out
        }),
{
    if !(*sender == *registry.controller()) {
        return Err(ContractError::Unauthorized {});
    }
    if registry.original_id(&original_collection).is_some() {
        let mut resp = empty_response("register_collection");
        resp.attributes.push(
            Attribute {
                key: String::from_str("original_collection"),
                value: original_collection,
            },
        );
        proof {
            assert(resp@ =~= Seq::<RequestView>::empty());
        }
        return Ok(resp);
    }
    match contract_info {
        None => Err(ContractError::Unauthorized {}),
        Some(info) => {
            let queried_name = info.name;
            let queried_symbol = info.symbol;
            let name = match &new_collection.collection_name {
                Some(n) => n.clone(),
                None => queried_name,
            };
            let symbol = match &new_collection.collection_symbol {
                Some(sym) => sym.clone(),
                None => queried_symbol,
            };
            let code_id = registry.cw721_code_id();
            let admin = registry.controller().clone();
            let minter = self_addr.clone();
            let echoed_collection = original_collection.clone();
            let data = WrapData {
                original_collection: original_collection.clone(),
                mirrored_collection: String::new(),
                mirrored_data: new_collection,
                active: false,
            };
            proof {
                assert(!registry@.records.contains_key((registry@.total_wrapped + 1) as u64));
                lemma_register_preserves_wf(
                    registry@,
                    sender@,
                    self_addr@,
                    original_collection@,
                    data.mirrored_data@,
                    contract_info.deep_view(),
                );
            }
            let id = registry.register_record(original_collection, data);
            let mut requests: Vec<Request> = Vec::new();
            requests.push(
                Request::CreateMirror { correlation_token: id, code_id, name, symbol, minter, admin },
            );
            let resp = Response {
                requests,
                attributes: vec![
                    method_attr("register_collection"),
                    Attribute {
                        key: String::from_str("original_collection"),
                        value: echoed_collection,
                    },
                ],
            };
            proof {
                let (s2, out) = spec_register(
                    old(registry)@,
                    sender@,
                    self_addr@,
                    original_collection@,
                    new_collection@,
                    contract_info.deep_view(),
                );
                assert(registry@ =~= s2);
                assert(resp@ =~= out->Ok_0);
            }
            Ok(resp)
        },
    }
}

/// The activation continuation, invoked when the creation request tagged
/// with the correlation token completes, carrying the identity of the
/// created mirror collection. It finalizes the record — mirror identity
/// stored, marked active — and publishes the mirror-to-record mapping; the
/// only place either happens. An unknown token is refused as not found; a
/// token already activated is a true no-op, so a repeated delivery changes
/// nothing; a mirror identity already published is refused, defensively.
pub fn reply(
    registry: &mut Registry,
    correlation_token: u64,
    mirror_collection: String,
) -> (r: Result<Response, ContractError>)
    requires
        old(registry).inv(),
        old(registry)@.wf(),
    ensures
        final(registry).inv(),
        final(registry)@.wf(),
        ({
            let (s2, out) = spec_reply(old(registry)@, correlation_token, mirror_collection@);
            &&& final(registry)@ == s2
            &&& outcome_view(r) == out
        }),
{
    let active = match registry.record(correlation_token) {
        None => {
            return Err(ContractError::NotFound {});
        },
        Some(d) => d.active,
    };
    if active {
        return Ok(empty_response("reply"));
    }
    if registry.mirror_id(&mirror_collection).is_some() {
        return Err(
            ContractError::CustomError {
                val: String::from_str("mirror collection already in use"),
            },
        );
    }
    proof {
        lemma_reply_preserves_wf(registry@, correlation_token, mirror_collection@);
    }
    registry.activate_record(correlation_token, mirror_collection);
    let resp = empty_response("reply");
    proof {
        let (s2, out) = spec_reply(old(registry)@, correlation_token, mirror_collection@);
        assert(registry@ =~= s2);
    }
    Ok(resp)
}

/// Wrap: escrow the named assets of a registered original collection and
/// mint their mirrors to the caller. The caller passes, for each asset id
/// in order, the service's answers about that asset (`None` for a query
/// that errored). The collection must be registered and active; each asset
/// must be confirmed as held by the caller — a failed ownership query
/// counts as not owned, deliberately — and its descriptive data readable.
/// Per asset, in order, an escrow transfer and a mirror mint are emitted;
/// the mint carries the computed descriptor. The first failing asset
/// refuses the whole call: nothing is emitted and nothing changes.
pub fn execute_wrap(
    registry: &Registry,
    self_addr: &String,
    sender: &String,
    collection_address: String,
    token_ids: Vec<String>,
    answers: Vec<AssetAnswer>,
) -> (r: Result<Response, ContractError>)
    requires
        registry.inv(),
        registry@.wf(),
        answers@.len() == token_ids@.len(),
    ensures
        outcome_view(r) == spec_wrap(
            registry@,
            self_addr@,
            sender@,
            collection_address@,
            token_ids.deep_view(),
            answers.deep_view(),
        ),
{
    let id = match registry.original_id(&collection_address) {
        None => {
            return Err(ContractError::CollectionNotAllowed {});
        },
        Some(id) => id,
    };
    let rec = match registry.record(id) {
        None => {
            proof {
                assert(false);
            }
            return Err(ContractError::CollectionNotAllowed {});
        },
        Some(d) => d,
    };
    if !rec.active {
        return Err(ContractError::CollectionDeactivated {});
    }
    let ghost grec = registry@.records[id];
    let ghost cc = collection_address@;
    let ghost sa = self_addr@;
    let ghost sd = sender@;
    let ghost tokens_dv = token_ids.deep_view();
    let ghost answers_dv = answers.deep_view();
    let mut requests: Vec<Request> = Vec::new();
    let n = token_ids.len();
    let mut i: usize = 0;
    proof {
        let full = spec_wrap_assets(grec, cc, sa, sd, tokens_dv, answers_dv);
        assert(requests.deep_view() =~= Seq::<RequestView>::empty());
        assert(tokens_dv.skip(0) =~= tokens_dv);
        assert(answers_dv.skip(0) =~= answers_dv);
        if full is Ok {
            assert(Seq::<RequestView>::empty() + full->Ok_0 =~= full->Ok_0);
        }
    }
    while i < n
        invariant
            i <= n,
            n == token_ids@.len(),
            answers@.len() == n,
            tokens_dv == token_ids.deep_view(),
            answers_dv == answers.deep_view(),
            grec == rec@,
            cc == collection_address@,
            sa == self_addr@,
            sd == sender@,
            registry@.originals.contains_key(cc),
            registry@.originals[cc] == id,
            registry@.records.contains_key(id),
            grec == registry@.records[id],
            grec.active,
            spec_wrap_assets(grec, cc, sa, sd, tokens_dv, answers_dv) == (match spec_wrap_assets(
                grec,
                cc,
                sa,
                sd,
                tokens_dv.skip(i as int),
                answers_dv.skip(i as int),
            ) {
                Ok(rest) => Ok::<Seq<RequestView>, ErrorView>(requests.deep_view() + rest),
                Err(e) => Err(e),
            }),
        decreases n - i,
    {
        proof {
            assert(tokens_dv.skip(i as int)[0] == tokens_dv[i as int]);
            assert(answers_dv.skip(i as int)[0] == answers_dv[i as int]);
            assert(tokens_dv[i as int] == token_ids@[i as int]@);
            assert(answers_dv[i as int] == answers@[i as int]@);
        }
        let token = &token_ids[i];
        let answer = &answers[i];
        let owned = match &answer.owner {
            Some(o) => *o == *sender,
            None => false,
        };
        if !owned {
            return Err(ContractError::NotOwnedBySender { val: token.clone() });
        }
        let info = match &answer.info {
            None => {
                let mut m = String::from_str("Cannot query token info of ");
                m.append(token.as_str());
                return Err(ContractError::CustomError { val: m });
            },
            Some(inf) => inf,
        };
        let token_uri: Option<String> = match &rec.mirrored_data.base_uri {
            Some(base) => {
                let mut u = base.clone();
                u.append(token.as_str());
                u.append(".json");
                Some(u)
            },
            None => clone_opt_string(&info.token_uri),
        };
        let ghost pre_reqs = requests.deep_view();
        requests.push(
            Request::Transfer {
                collection: collection_address.clone(),
                recipient: self_addr.clone(),
                token_id: token.clone(),
            },
        );
        requests.push(
            Request::Mint {
                collection: rec.mirrored_collection.clone(),
                owner: sender.clone(),
                token_id: token.clone(),
                token_uri,
            },
        );
        proof {
            let tv = RequestView::Transfer { collection: cc, recipient: sa, token_id: tokens_dv[i as int] };
            let mv = RequestView::Mint {
                collection: grec.mirrored_collection,
                owner: sd,
                token_id: tokens_dv[i as int],
                token_uri: crate::model::mirror_uri(
                    grec,
                    tokens_dv[i as int],
                    answers_dv[i as int].info->Some_0,
                ),
            };
            assert(requests.deep_view() =~= pre_reqs + seq![tv, mv]);
            assert(tokens_dv.skip(i as int).drop_first() =~= tokens_dv.skip(i + 1));
            assert(answers_dv.skip(i as int).drop_first() =~= answers_dv.skip(i + 1));
            let next = spec_wrap_assets(
                grec,
                cc,
                sa,
                sd,
                tokens_dv.skip(i + 1),
                answers_dv.skip(i + 1),
            );
            if next is Ok {
                assert(pre_reqs + (seq![tv, mv] + next->Ok_0) =~= (pre_reqs + seq![tv, mv])
                    + next->Ok_0);
            }
        }
        i += 1;
    }
    proof {
        assert(tokens_dv.skip(n as int).len() == 0);
        let last = spec_wrap_assets(
            grec,
            cc,
            sa,
            sd,
            tokens_dv.skip(n as int),
            answers_dv.skip(n as int),
        );
        assert(last is Ok);
        assert(requests.deep_view() + last->Ok_0 =~= requests.deep_view());
    }
    Ok(
        Response {
            requests,
            attributes: vec![
                method_attr("wrap"),
                Attribute {
                    key: String::from_str("collection_address"),
                    value: collection_address,
                },
                Attribute { key: String::from_str("token_ids"), value: join_comma(&token_ids) },
            ],
        },
    )
}

/// Unwrap: burn the named mirror assets and release the escrowed originals
/// back to the caller. Keyed by the mirror collection's identity, which
/// must be published — so its record is active; the check stands
/// defensively. The caller passes, for each asset id in order, the
/// service's answer about who holds the mirror asset (`None` for a query
/// that errored; only the holder answer is read here). Each asset must be
/// confirmed as held by the caller; per asset, in order, a mirror burn and
/// a release transfer are emitted. The first failing asset refuses the
/// whole call: nothing is emitted and nothing changes.
pub fn execute_unwrap(
    registry: &Registry,
    sender: &String,
    collection_address: String,
    token_ids: Vec<String>,
    answers: Vec<AssetAnswer>,
) -> (r: Result<Response, ContractError>)
    requires
        registry.inv(),
        registry@.wf(),
        answers@.len() == token_ids@.len(),
    ensures
        outcome_view(r) == spec_unwrap(
            registry@,
            sender@,
            collection_address@,
            token_ids.deep_view(),
            answers.deep_view(),
        ),
{
    let id = match registry.mirror_id(&collection_address) {
        None => {
            return Err(ContractError::CollectionNotAllowed {});
        },
        Some(id) => id,
    };
    let rec = match registry.record(id) {
        None => {
            proof {
                assert(false);
            }
            return Err(ContractError::CollectionNotAllowed {});
        },
        Some(d) => d,
    };
    if !rec.active {
        return Err(ContractError::CollectionDeactivated {});
    }
    let ghost grec = registry@.records[id];
    let ghost cc = collection_address@;
    let ghost sd = sender@;
    let ghost tokens_dv = token_ids.deep_view();
    let ghost answers_dv = answers.deep_view();
    let mut requests: Vec<Request> = Vec::new();
    let n = token_ids.len();
    let mut i: usize = 0;
    proof {
        let full = spec_unwrap_assets(grec, cc, sd, tokens_dv, answers_dv);
        assert(requests.deep_view() =~= Seq::<RequestView>::empty());
        assert(tokens_dv.skip(0) =~= tokens_dv);
        assert(answers_dv.skip(0) =~= answers_dv);
        if full is Ok {
            assert(Seq::<RequestView>::empty() + full->Ok_0 =~= full->Ok_0);
        }
    }
    while i < n
        invariant
            i <= n,
            n == token_ids@.len(),
            answers@.len() == n,
            tokens_dv == token_ids.deep_view(),
            answers_dv == answers.deep_view(),
            grec == rec@,
            cc == collection_address@,
            sd == sender@,
            registry@.mirrors.contains_key(cc),
            registry@.mirrors[cc] == id,
            registry@.records.contains_key(id),
            grec == registry@.records[id],
            grec.active,
            spec_unwrap_assets(grec, cc, sd, tokens_dv, answers_dv) == (match spec_unwrap_assets(
                grec,
                cc,
                sd,
                tokens_dv.skip(i as int),
                answers_dv.skip(i as int),
            ) {
                Ok(rest) => Ok::<Seq<RequestView>, ErrorView>(requests.deep_view() + rest),
                Err(e) => Err(e),
            }),
        decreases n - i,
    {
        proof {
            assert(tokens_dv.skip(i as int)[0] == tokens_dv[i as int]);
            assert(answers_dv.skip(i as int)[0] == answers_dv[i as int]);
            assert(tokens_dv[i as int] == token_ids@[i as int]@);
            assert(answers_dv[i as int] == answers@[i as int]@);
        }
        let token = &token_ids[i];
        let answer = &answers[i];
        let owned = match &answer.owner {
            Some(o) => *o == *sender,
            None => false,
        };
        if !owned {
            return Err(ContractError::NotOwnedBySender { val: token.clone() });
        }
        let ghost pre_reqs = requests.deep_view();
        requests.push(
            Request::Burn { collection: collection_address.clone(), token_id: token.clone() },
        );
        requests.push(
            Request::Transfer {
                collection: rec.original_collection.clone(),
                recipient: sender.clone(),
                token_id: token.clone(),
            },
        );
        proof {
            let bv = RequestView::Burn { collection: cc, token_id: tokens_dv[i as int] };
            let tv = RequestView::Transfer {
                collection: grec.original_collection,
                recipient: sd,
                token_id: tokens_dv[i as int],
            };
            assert(requests.deep_view() =~= pre_reqs + seq![bv, tv]);
            assert(tokens_dv.skip(i as int).drop_first() =~= tokens_dv.skip(i + 1));
            assert(answers_dv.skip(i as int).drop_first() =~= answers_dv.skip(i + 1));
            let next = spec_unwrap_assets(grec, cc, sd, tokens_dv.skip(i + 1), answers_dv.skip(i + 1));
            if next is Ok {
                assert(pre_reqs + (seq![bv, tv] + next->Ok_0) =~= (pre_reqs + seq![bv, tv])
                    + next->Ok_0);
            }
        }
        i += 1;
    }
    proof {
        assert(tokens_dv.skip(n as int).len() == 0);
        let last = spec_unwrap_assets(grec, cc, sd, tokens_dv.skip(n as int), answers_dv.skip(n as int));
        assert(last is Ok);
        assert(requests.deep_view() + last->Ok_0 =~= requests.deep_view());
    }
    Ok(
        Response {
            requests,
            attributes: vec![
                method_attr("unwrap"),
                Attribute {
                    key: String::from_str("collection_address"),
                    value: collection_address,
                },
                Attribute { key: String::from_str("token_ids"), value: join_comma(&token_ids) },
            ],
        },
    )
}

/// The single execution entry: dispatches a message to registration, wrap
/// or unwrap. The caller hands in every answer of the external collection
/// service the message might need: the collection metadata for a
/// registration, and one per-asset answer per requested asset id, in
/// order, for a wrap or unwrap.
pub fn execute(
    registry: &mut Registry,
    self_addr: &String,
    sender: &String,
    msg: ExecuteMsg,
    answers: ServiceAnswers,
) -> (r: Result<Response, ContractError>)
    requires
        old(registry).inv(),
        old(registry)@.wf(),
        msg matches ExecuteMsg::RegisterCollection { .. } ==> old(registry)@.total_wrapped
            < u64::MAX,
        msg matches ExecuteMsg::Wrap { token_ids, .. } ==> answers.assets@.len()
            == token_ids@.len(),
        msg matches ExecuteMsg::Unwrap { token_ids, .. } ==> answers.assets@.len()
            == token_ids@.len(),
    ensures
        final(registry).inv(),
        final(registry)@.wf(),
        match msg {
            ExecuteMsg::Wrap { collection_address, token_ids } => final(registry)@ == old(
                registry,
            )@ && outcome_view(r) == spec_wrap(
                old(registry)@,
                self_addr@,
                sender@,
                collection_address@,
                token_ids.deep_view(),
                answers.assets.deep_view(),
            ),
            ExecuteMsg::Unwrap { collection_address, token_ids } => final(registry)@ == old(
                registry,
            )@ && outcome_view(r) == spec_unwrap(
                old(registry)@,
                sender@,
                collection_address@,
                token_ids.deep_view(),
                answers.assets.deep_view(),
            ),
            ExecuteMsg::RegisterCollection { original_collection, new_collection } => ({
                let (s2, out) = spec_register(
                    old(registry)@,
                    sender@,
                    self_addr@,
                    original_collection@,
                    new_collection@,
                    answers.contract_info.deep_view(),
                );
                final(registry)@ == s2 && outcome_view(r) == out
            }),
        },
{
    match msg {
        ExecuteMsg::Wrap { collection_address, token_ids } => execute_wrap(
            registry,
            self_addr,
            sender,
            collection_address,
            token_ids,
            answers.assets,
        ),
        ExecuteMsg::Unwrap { collection_address, token_ids } => execute_unwrap(
            registry,
            sender,
            collection_address,
            token_ids,
            answers.assets,
        ),
        ExecuteMsg::RegisterCollection { original_collection, new_collection } => {
            execute_register_collection(
                registry,
                self_addr,
                sender,
                original_collection,
                new_collection,
                answers.contract_info,
            )
        },
    }
}

} // verus!
