//! The mathematical model of every operation: a function from the registry
//! model and the service's answers to the next registry model and the
//! outcome. The executable operations in [`crate::contract`] are proved to
//! agree with these functions, and the laws in [`crate::props`] are proved
//! about them.

use vstd::prelude::*;

use crate::error::ErrorView;
use crate::msg::RequestView;
use crate::service::{AssetAnswerView, ContractInfoView, NftInfoView};
use crate::state::WrapDataView;
use crate::store::{unset_collection, RegistryView};

verus! {

/// The registry right after setup: empty mappings, allocator at zero.
pub open spec fn spec_instantiate(controller: Seq<char>, cw721_code_id: u64) -> RegistryView {
    RegistryView {
        controller,
        cw721_code_id,
        originals: Map::<Seq<char>, u64>::empty(),
        mirrors: Map::<Seq<char>, u64>::empty(),
        records: Map::<u64, WrapDataView>::empty(),
        total_wrapped: 0,
    }
}

/// The mirror collection's name: the override when present, else the name
/// the original collection reports.
pub open spec fn merged_name(
    override_name: Option<Seq<char>>,
    info: ContractInfoView,
) -> Seq<char> {
    match override_name {
        Some(n) => n,
        None => info.name,
    }
}

/// The mirror collection's symbol: the override when present, else the
/// symbol the original collection reports.
pub open spec fn merged_symbol(
    override_symbol: Option<Seq<char>>,
    info: ContractInfoView,
) -> Seq<char> {
    match override_symbol {
        Some(sym) => sym,
        None => info.symbol,
    }
}

/// Registration. Only the controlling authority may register; registering a
/// known original collection again succeeds as a no-op; a failed metadata
/// query is refused with the authorization error kind, as the interface has
/// always reported it; otherwise the next record id is allocated, an
/// inactive record is filed, and exactly one creation request is emitted,
/// tagged with the new id as its correlation token.
pub open spec fn spec_register(
    s: RegistryView,
    sender: Seq<char>,
    self_addr: Seq<char>,
    original_collection: Seq<char>,
    new_collection: crate::state::MirroredDataView,
    contract_info: Option<ContractInfoView>,
) -> (RegistryView, Result<Seq<RequestView>, ErrorView>) {
    if sender != s.controller {
        (s, Err(ErrorView::Unauthorized))
    } else if s.originals.contains_key(original_collection) {
        (s, Ok(Seq::<RequestView>::empty()))
    } else {
        match contract_info {
            None => (s, Err(ErrorView::Unauthorized)),
            Some(info) => {
                let id = (s.total_wrapped + 1) as u64;
                let record = WrapDataView {
                    original_collection,
                    mirrored_collection: unset_collection(),
                    mirrored_data: new_collection,
                    active: false,
                };
                let s2 = RegistryView {
                    originals: s.originals.insert(original_collection, id),
                    records: s.records.insert(id, record),
                    total_wrapped: id,
                    ..s
                };
                let req = RequestView::CreateMirror {
                    correlation_token: id,
                    code_id: s.cw721_code_id,
                    name: merged_name(new_collection.collection_name, info),
                    symbol: merged_symbol(new_collection.collection_symbol, info),
                    minter: self_addr,
                    admin: s.controller,
                };
                (s2, Ok(seq![req]))
            },
        }
    }
}

/// The activation continuation. An unknown correlation token is a fatal
/// correlation bug; a token whose record is already active is a true no-op,
/// so a second delivery changes nothing; a mirror identity that is already
/// published is refused, defensively, so the mirror mapping stays
/// one-to-one. Otherwise the record takes the created identity, turns
/// active, and the mirror mapping is published: the only place either
/// happens.
pub open spec fn spec_reply(s: RegistryView, correlation_token: u64, mirror: Seq<char>) -> (
    RegistryView,
    Result<Seq<RequestView>, ErrorView>,
) {
    if !s.records.contains_key(correlation_token) {
        (s, Err(ErrorView::NotFound))
    } else if s.records[correlation_token].active {
        (s, Ok(Seq::<RequestView>::empty()))
    } else if s.mirrors.contains_key(mirror) {
        (s, Err(ErrorView::CustomError { val: "mirror collection already in use"@ }))
    } else {
        let record = WrapDataView {
            mirrored_collection: mirror,
            active: true,
            ..s.records[correlation_token]
        };
        let s2 = RegistryView {
            records: s.records.insert(correlation_token, record),
            mirrors: s.mirrors.insert(mirror, correlation_token),
            ..s
        };
        (s2, Ok(Seq::<RequestView>::empty()))
    }
}

/// The mirror asset's descriptive reference: when the record's override
/// names a base URI it is the base URI, then the asset id, then `.json`;
/// otherwise the original asset's own reference, unchanged.
pub open spec fn mirror_uri(rec: WrapDataView, token_id: Seq<char>, info: NftInfoView) -> Option<
    Seq<char>,
> {
    match rec.mirrored_data.base_uri {
        Some(base) => Some(base + token_id + ".json"@),
        None => info.token_uri,
    }
}

/// The error a failed asset-info query yields, carrying the asset id.
pub open spec fn info_query_error(token_id: Seq<char>) -> ErrorView {
    ErrorView::CustomError { val: "Cannot query token info of "@ + token_id }
}

/// The per-asset wrap loop. Each asset in order: the caller must be its
/// confirmed holder, else the whole operation fails for that asset; its
/// descriptive data must be readable, else the whole operation fails for
/// that asset; then an escrow transfer and a mirror mint are emitted. The
/// first failure wins and nothing is emitted at all.
pub open spec fn spec_wrap_assets(
    rec: WrapDataView,
    collection: Seq<char>,
    self_addr: Seq<char>,
    sender: Seq<char>,
    tokens: Seq<Seq<char>>,
    answers: Seq<AssetAnswerView>,
) -> Result<Seq<RequestView>, ErrorView>
    decreases tokens.len(),
{
    if tokens.len() == 0 {
        Ok(Seq::<RequestView>::empty())
    } else {
        let t = tokens[0];
        let a = answers[0];
        if a.owner != Some(sender) {
            Err(ErrorView::NotOwnedBySender { val: t })
        } else {
            match a.info {
                None => Err(info_query_error(t)),
                Some(info) => {
                    match spec_wrap_assets(
                        rec,
                        collection,
                        self_addr,
                        sender,
                        tokens.drop_first(),
                        answers.drop_first(),
                    ) {
                        Ok(rest) => Ok(
                            seq![
                                RequestView::Transfer {
                                    collection,
                                    recipient: self_addr,
                                    token_id: t,
                                },
                                RequestView::Mint {
                                    collection: rec.mirrored_collection,
                                    owner: sender,
                                    token_id: t,
                                    token_uri: mirror_uri(rec, t, info),
                                },
                            ] + rest,
                        ),
                        Err(e) => Err(e),
                    }
                },
            }
        }
    }
}

/// Wrap. The collection must be registered and its record active; then the
/// per-asset loop runs. The registry itself never changes.
pub open spec fn spec_wrap(
    s: RegistryView,
    self_addr: Seq<char>,
    sender: Seq<char>,
    collection: Seq<char>,
    tokens: Seq<Seq<char>>,
    answers: Seq<AssetAnswerView>,
) -> Result<Seq<RequestView>, ErrorView> {
    if !s.originals.contains_key(collection) {
        Err(ErrorView::CollectionNotAllowed)
    } else {
        let rec = s.records[s.originals[collection]];
        if !rec.active {
            Err(ErrorView::CollectionDeactivated)
        } else {
            spec_wrap_assets(rec, collection, self_addr, sender, tokens, answers)
        }
    }
}

/// The per-asset unwrap loop. Each asset in order: the caller must be the
/// confirmed holder of the mirror asset, else the whole operation fails for
/// that asset; then a mirror burn and a release transfer of the escrowed
/// original are emitted. The first failure wins and nothing is emitted at
/// all.
pub open spec fn spec_unwrap_assets(
    rec: WrapDataView,
    collection: Seq<char>,
    sender: Seq<char>,
    tokens: Seq<Seq<char>>,
    answers: Seq<AssetAnswerView>,
) -> Result<Seq<RequestView>, ErrorView>
    decreases tokens.len(),
{
    if tokens.len() == 0 {
        Ok(Seq::<RequestView>::empty())
    } else {
        let t = tokens[0];
        let a = answers[0];
        if a.owner != Some(sender) {
            Err(ErrorView::NotOwnedBySender { val: t })
        } else {
            match spec_unwrap_assets(rec, collection, sender, tokens.drop_first(), answers.drop_first()) {
                Ok(rest) => Ok(
                    seq![
                        RequestView::Burn { collection, token_id: t },
                        RequestView::Transfer {
                            collection: rec.original_collection,
                            recipient: sender,
                            token_id: t,
                        },
                    ] + rest,
                ),
                Err(e) => Err(e),
            }
        }
    }
}

/// Unwrap. Keyed by the mirror collection's identity: it must be published,
/// and the record behind it active — a published mirror always is, the
/// check stands defensively; then the per-asset loop runs. The registry
/// itself never changes.
pub open spec fn spec_unwrap(
    s: RegistryView,
    sender: Seq<char>,
    collection: Seq<char>,
    tokens: Seq<Seq<char>>,
    answers: Seq<AssetAnswerView>,
) -> Result<Seq<RequestView>, ErrorView> {
    if !s.mirrors.contains_key(collection) {
        Err(ErrorView::CollectionNotAllowed)
    } else {
        let rec = s.records[s.mirrors[collection]];
        if !rec.active {
            Err(ErrorView::CollectionDeactivated)
        } else {
            spec_unwrap_assets(rec, collection, sender, tokens, answers)
        }
    }
}

/// Registration keeps the registry well-formed: the allocated id is fresh,
/// the new record is inactive with the sentinel mirror identity, and no
/// existing mapping moves.
pub proof fn lemma_register_preserves_wf(
    s: RegistryView,
    sender: Seq<char>,
    self_addr: Seq<char>,
    original_collection: Seq<char>,
    new_collection: crate::state::MirroredDataView,
    contract_info: Option<ContractInfoView>,
)
    requires
        s.wf(),
        s.total_wrapped < u64::MAX,
    ensures
        spec_register(s, sender, self_addr, original_collection, new_collection, contract_info).0.wf(),
{
    let s2 = spec_register(s, sender, self_addr, original_collection, new_collection, contract_info).0;
    if sender == s.controller && !s.originals.contains_key(original_collection)
        && contract_info is Some {
        let id = (s.total_wrapped + 1) as u64;
        assert(!s.records.contains_key(id));
        assert forall|oc: Seq<char>| #[trigger] s2.originals.contains_key(oc) implies {
            &&& 1 <= s2.originals[oc] <= s2.total_wrapped
            &&& s2.records.contains_key(s2.originals[oc])
            &&& s2.records[s2.originals[oc]].original_collection == oc
        } by {
            if oc != original_collection {
                assert(s.originals.contains_key(oc));
            }
        }
        assert forall|id2: u64| #[trigger] s2.records.contains_key(id2) implies {
            &&& 1 <= id2 <= s2.total_wrapped
            &&& s2.originals.contains_key(s2.records[id2].original_collection)
            &&& s2.originals[s2.records[id2].original_collection] == id2
            &&& (s2.records[id2].active ==> s2.mirrors.contains_key(
                s2.records[id2].mirrored_collection,
            ) && s2.mirrors[s2.records[id2].mirrored_collection] == id2)
            &&& (!s2.records[id2].active ==> s2.records[id2].mirrored_collection
                == unset_collection())
        } by {
            if id2 != id {
                assert(s.records.contains_key(id2));
                assert(s.records[id2].original_collection != original_collection);
            }
        }
        assert forall|mc: Seq<char>| #[trigger] s2.mirrors.contains_key(mc) implies {
            &&& s2.records.contains_key(s2.mirrors[mc])
            &&& s2.records[s2.mirrors[mc]].active
            &&& s2.records[s2.mirrors[mc]].mirrored_collection == mc
        } by {
            assert(s.mirrors.contains_key(mc));
            assert(s.mirrors[mc] != id);
        }
    }
}

/// Activation keeps the registry well-formed: the record turns active with
/// its mirror identity published once, and no other mapping moves.
pub proof fn lemma_reply_preserves_wf(s: RegistryView, correlation_token: u64, mirror: Seq<char>)
    requires
        s.wf(),
    ensures
        spec_reply(s, correlation_token, mirror).0.wf(),
{
    let s2 = spec_reply(s, correlation_token, mirror).0;
    if s.records.contains_key(correlation_token) && !s.records[correlation_token].active
        && !s.mirrors.contains_key(mirror) {
        assert forall|mc: Seq<char>| #[trigger] s.mirrors.contains_key(mc) implies s.mirrors[mc]
            != correlation_token by {
            assert(s.records[s.mirrors[mc]].active);
        }
        assert forall|oc: Seq<char>| #[trigger] s2.originals.contains_key(oc) implies {
            &&& 1 <= s2.originals[oc] <= s2.total_wrapped
            &&& s2.records.contains_key(s2.originals[oc])
            &&& s2.records[s2.originals[oc]].original_collection == oc
        } by {
            assert(s.originals.contains_key(oc));
        }
        assert forall|id2: u64| #[trigger] s2.records.contains_key(id2) implies {
            &&& 1 <= id2 <= s2.total_wrapped
            &&& s2.originals.contains_key(s2.records[id2].original_collection)
            &&& s2.originals[s2.records[id2].original_collection] == id2
            &&& (s2.records[id2].active ==> s2.mirrors.contains_key(
                s2.records[id2].mirrored_collection,
            ) && s2.mirrors[s2.records[id2].mirrored_collection] == id2)
            &&& (!s2.records[id2].active ==> s2.records[id2].mirrored_collection
                == unset_collection())
        } by {
            assert(s.records.contains_key(id2));
            if id2 != correlation_token && s.records[id2].active {
                assert(s.mirrors.contains_key(s.records[id2].mirrored_collection));
                assert(s.records[id2].mirrored_collection != mirror);
            }
        }
        assert forall|mc: Seq<char>| #[trigger] s2.mirrors.contains_key(mc) implies {
            &&& s2.records.contains_key(s2.mirrors[mc])
            &&& s2.records[s2.mirrors[mc]].active
            &&& s2.records[s2.mirrors[mc]].mirrored_collection == mc
        } by {
            if mc != mirror {
                assert(s.mirrors.contains_key(mc));
            }
        }
    }
}

} // verus!
