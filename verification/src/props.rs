//! The laws of the registry, proved once and for all over the models in
//! [`crate::model`]: idempotent registration, no premature wrap, activation
//! exactly once, the all-or-nothing ownership gate, the wrap/unwrap round
//! trip, and metadata precedence. The round trip is stated over a small
//! semantics of the emitted requests: what each does to the ownership state
//! of the external collections.

use vstd::prelude::*;

use crate::error::ErrorView;
use crate::model::{
    mirror_uri, spec_register, spec_reply, spec_unwrap, spec_unwrap_assets, spec_wrap,
    spec_wrap_assets,
};
use crate::msg::RequestView;
use crate::service::{AssetAnswerView, ContractInfoView, NftInfoView};
use crate::state::{MirroredDataView, WrapDataView};
use crate::store::RegistryView;

verus! {

/// Registering the same original collection twice yields one record, one
/// allocator increment and one creation request — not two: the first call
/// registers, the second is a successful no-op that changes nothing and
/// emits nothing, whatever metadata or answers it is given.
pub proof fn lemma_register_idempotent(
    s: RegistryView,
    sender: Seq<char>,
    self_addr: Seq<char>,
    original_collection: Seq<char>,
    new_collection: MirroredDataView,
    contract_info: ContractInfoView,
    self_addr2: Seq<char>,
    new_collection2: MirroredDataView,
    contract_info2: Option<ContractInfoView>,
)
    requires
        sender == s.controller,
        !s.originals.contains_key(original_collection),
        s.total_wrapped < u64::MAX,
    ensures
        ({
            let (s1, out1) = spec_register(
                s,
                sender,
                self_addr,
                original_collection,
                new_collection,
                Some(contract_info),
            );
            let (s2, out2) = spec_register(
                s1,
                sender,
                self_addr2,
                original_collection,
                new_collection2,
                contract_info2,
            );
            &&& out1 is Ok && out1->Ok_0.len() == 1
            &&& s1.total_wrapped == s.total_wrapped + 1
            &&& s1.originals.contains_key(original_collection)
            &&& s2 == s1
            &&& out2 == Ok::<Seq<RequestView>, ErrorView>(Seq::<RequestView>::empty())
        }),
{
}

/// Wrap on a record that is not yet active always fails with the
/// deactivated-collection error, regardless of asset ownership.
pub proof fn lemma_no_premature_wrap(
    s: RegistryView,
    self_addr: Seq<char>,
    sender: Seq<char>,
    collection: Seq<char>,
    tokens: Seq<Seq<char>>,
    answers: Seq<AssetAnswerView>,
)
    requires
        s.originals.contains_key(collection),
        !s.records[s.originals[collection]].active,
    ensures
        spec_wrap(s, self_addr, sender, collection, tokens, answers) == Err::<
            Seq<RequestView>,
            ErrorView,
        >(ErrorView::CollectionDeactivated),
{
}

/// Delivering the continuation twice with the same correlation token does
/// not publish the mirror mapping twice and does not change the stored
/// mirror identity again: once the first delivery has succeeded, any later
/// delivery for that token — whatever identity it carries — leaves the
/// registry exactly as it was.
pub proof fn lemma_activation_exactly_once(
    s: RegistryView,
    correlation_token: u64,
    mirror: Seq<char>,
    mirror2: Seq<char>,
)
    requires
        spec_reply(s, correlation_token, mirror).1 is Ok,
    ensures
        ({
            let s1 = spec_reply(s, correlation_token, mirror).0;
            let (s2, out2) = spec_reply(s1, correlation_token, mirror2);
            &&& s1.records[correlation_token].active
            &&& s2 == s1
            &&& out2 is Ok
        }),
{
}

/// The wrap ownership gate: when the caller is not the confirmed holder of
/// asset `k`, and every earlier asset passed its checks, the whole wrap
/// fails with the not-owned error naming asset `k` — so zero requests are
/// emitted for assets before `k` as well.
pub proof fn lemma_wrap_assets_ownership_gate(
    rec: WrapDataView,
    collection: Seq<char>,
    self_addr: Seq<char>,
    sender: Seq<char>,
    tokens: Seq<Seq<char>>,
    answers: Seq<AssetAnswerView>,
    k: int,
)
    requires
        0 <= k < tokens.len(),
        answers.len() == tokens.len(),
        forall|j: int| 0 <= j < k ==> (#[trigger] answers[j].owner) == Some(sender)
            && answers[j].info is Some,
        answers[k].owner != Some(sender),
    ensures
        spec_wrap_assets(rec, collection, self_addr, sender, tokens, answers) == Err::<
            Seq<RequestView>,
            ErrorView,
        >(ErrorView::NotOwnedBySender { val: tokens[k] }),
    decreases k,
{
    if k > 0 {
        lemma_wrap_assets_ownership_gate(
            rec,
            collection,
            self_addr,
            sender,
            tokens.drop_first(),
            answers.drop_first(),
            k - 1,
        );
    }
}

/// The ownership gate at the wrap entry: on a registered, active
/// collection, a single disowned asset refuses the whole call.
pub proof fn lemma_wrap_ownership_gate(
    s: RegistryView,
    self_addr: Seq<char>,
    sender: Seq<char>,
    collection: Seq<char>,
    tokens: Seq<Seq<char>>,
    answers: Seq<AssetAnswerView>,
    k: int,
)
    requires
        s.originals.contains_key(collection),
        s.records[s.originals[collection]].active,
        0 <= k < tokens.len(),
        answers.len() == tokens.len(),
        forall|j: int| 0 <= j < k ==> (#[trigger] answers[j].owner) == Some(sender)
            && answers[j].info is Some,
        answers[k].owner != Some(sender),
    ensures
        spec_wrap(s, self_addr, sender, collection, tokens, answers) == Err::<
            Seq<RequestView>,
            ErrorView,
        >(ErrorView::NotOwnedBySender { val: tokens[k] }),
{
    lemma_wrap_assets_ownership_gate(
        s.records[s.originals[collection]],
        collection,
        self_addr,
        sender,
        tokens,
        answers,
        k,
    );
}

/// The unwrap ownership gate, symmetric to the wrap one.
pub proof fn lemma_unwrap_assets_ownership_gate(
    rec: WrapDataView,
    collection: Seq<char>,
    sender: Seq<char>,
    tokens: Seq<Seq<char>>,
    answers: Seq<AssetAnswerView>,
    k: int,
)
    requires
        0 <= k < tokens.len(),
        answers.len() == tokens.len(),
        forall|j: int| 0 <= j < k ==> (#[trigger] answers[j].owner) == Some(sender),
        answers[k].owner != Some(sender),
    ensures
        spec_unwrap_assets(rec, collection, sender, tokens, answers) == Err::<
            Seq<RequestView>,
            ErrorView,
        >(ErrorView::NotOwnedBySender { val: tokens[k] }),
    decreases k,
{
    if k > 0 {
        lemma_unwrap_assets_ownership_gate(
            rec,
            collection,
            sender,
            tokens.drop_first(),
            answers.drop_first(),
            k - 1,
        );
    }
}

/// The ownership gate at the unwrap entry: on a published, active mirror
/// collection, a single disowned asset refuses the whole call.
pub proof fn lemma_unwrap_ownership_gate(
    s: RegistryView,
    sender: Seq<char>,
    collection: Seq<char>,
    tokens: Seq<Seq<char>>,
    answers: Seq<AssetAnswerView>,
    k: int,
)
    requires
        s.mirrors.contains_key(collection),
        s.records[s.mirrors[collection]].active,
        0 <= k < tokens.len(),
        answers.len() == tokens.len(),
        forall|j: int| 0 <= j < k ==> (#[trigger] answers[j].owner) == Some(sender),
        answers[k].owner != Some(sender),
    ensures
        spec_unwrap(s, sender, collection, tokens, answers) == Err::<
            Seq<RequestView>,
            ErrorView,
        >(ErrorView::NotOwnedBySender { val: tokens[k] }),
{
    lemma_unwrap_assets_ownership_gate(
        s.records[s.mirrors[collection]],
        collection,
        sender,
        tokens,
        answers,
        k,
    );
}

/// What a successful unwrap emits, asset by asset: for the `j`-th asset
/// id, request `2j` is the burn of the mirror asset and request `2j + 1`
/// is the release transfer of the escrowed original back to the caller —
/// and every asset was confirmed as held by the caller.
pub proof fn lemma_unwrap_assets_ok(
    rec: WrapDataView,
    collection: Seq<char>,
    sender: Seq<char>,
    tokens: Seq<Seq<char>>,
    answers: Seq<AssetAnswerView>,
)
    requires
        answers.len() == tokens.len(),
        spec_unwrap_assets(rec, collection, sender, tokens, answers) is Ok,
    ensures
        ({
            let reqs = spec_unwrap_assets(rec, collection, sender, tokens, answers)->Ok_0;
            &&& reqs.len() == 2 * tokens.len()
            &&& forall|j: int| 0 <= j < tokens.len() ==> {
                &&& (#[trigger] answers[j].owner) == Some(sender)
                &&& reqs[2 * j] == RequestView::Burn { collection, token_id: tokens[j] }
                &&& reqs[2 * j + 1] == RequestView::Transfer {
                    collection: rec.original_collection,
                    recipient: sender,
                    token_id: tokens[j],
                }
            }
        }),
    decreases tokens.len(),
{
    if tokens.len() > 0 {
        lemma_unwrap_assets_ok(rec, collection, sender, tokens.drop_first(), answers.drop_first());
        let reqs = spec_unwrap_assets(rec, collection, sender, tokens, answers)->Ok_0;
        let rest = spec_unwrap_assets(
            rec,
            collection,
            sender,
            tokens.drop_first(),
            answers.drop_first(),
        )->Ok_0;
        assert forall|j: int| 0 <= j < tokens.len() implies {
            &&& (#[trigger] answers[j].owner) == Some(sender)
            &&& reqs[2 * j] == RequestView::Burn { collection, token_id: tokens[j] }
            &&& reqs[2 * j + 1] == RequestView::Transfer {
                collection: rec.original_collection,
                recipient: sender,
                token_id: tokens[j],
            }
        } by {
            if j > 0 {
                assert(answers.drop_first()[j - 1] == answers[j]);
                assert(tokens.drop_first()[j - 1] == tokens[j]);
                assert(reqs[2 * j] == rest[2 * (j - 1)]);
                assert(reqs[2 * j + 1] == rest[2 * (j - 1) + 1]);
            }
        }
    }
}

/// What a successful wrap emits, asset by asset: for the `j`-th asset id,
/// request `2j` is the escrow transfer of that asset to the system and
/// request `2j + 1` is the mirror mint to the caller carrying the computed
/// descriptor — and every asset was confirmed as held by the caller with
/// readable descriptive data.
pub proof fn lemma_wrap_assets_ok(
    rec: WrapDataView,
    collection: Seq<char>,
    self_addr: Seq<char>,
    sender: Seq<char>,
    tokens: Seq<Seq<char>>,
    answers: Seq<AssetAnswerView>,
)
    requires
        answers.len() == tokens.len(),
        spec_wrap_assets(rec, collection, self_addr, sender, tokens, answers) is Ok,
    ensures
        ({
            let reqs = spec_wrap_assets(rec, collection, self_addr, sender, tokens, answers)->Ok_0;
            &&& reqs.len() == 2 * tokens.len()
            &&& forall|j: int| 0 <= j < tokens.len() ==> {
                &&& (#[trigger] answers[j].owner) == Some(sender)
                &&& answers[j].info is Some
                &&& reqs[2 * j] == RequestView::Transfer {
                    collection,
                    recipient: self_addr,
                    token_id: tokens[j],
                }
                &&& reqs[2 * j + 1] == RequestView::Mint {
                    collection: rec.mirrored_collection,
                    owner: sender,
                    token_id: tokens[j],
                    token_uri: mirror_uri(rec, tokens[j], answers[j].info->Some_0),
                }
            }
        }),
    decreases tokens.len(),
{
    if tokens.len() > 0 {
        lemma_wrap_assets_ok(
            rec,
            collection,
            self_addr,
            sender,
            tokens.drop_first(),
            answers.drop_first(),
        );
        let reqs = spec_wrap_assets(rec, collection, self_addr, sender, tokens, answers)->Ok_0;
        let rest = spec_wrap_assets(
            rec,
            collection,
            self_addr,
            sender,
            tokens.drop_first(),
            answers.drop_first(),
        )->Ok_0;
        assert forall|j: int| 0 <= j < tokens.len() implies {
            &&& (#[trigger] answers[j].owner) == Some(sender)
            &&& answers[j].info is Some
            &&& reqs[2 * j] == RequestView::Transfer {
                collection,
                recipient: self_addr,
                token_id: tokens[j],
            }
            &&& reqs[2 * j + 1] == RequestView::Mint {
                collection: rec.mirrored_collection,
                owner: sender,
                token_id: tokens[j],
                token_uri: mirror_uri(rec, tokens[j], answers[j].info->Some_0),
            }
        } by {
            if j > 0 {
                assert(answers.drop_first()[j - 1] == answers[j]);
                assert(tokens.drop_first()[j - 1] == tokens[j]);
                assert(reqs[2 * j] == rest[2 * (j - 1)]);
                assert(reqs[2 * j + 1] == rest[2 * (j - 1) + 1]);
            }
        }
    }
}

/// Registering with a base URI and then wrapping an asset produces a
/// mirrored descriptor of exactly the base URI, the asset id and `.json`,
/// overriding whatever descriptor the original collection reports.
pub proof fn lemma_metadata_precedence(
    rec: WrapDataView,
    token_id: Seq<char>,
    info: NftInfoView,
    base: Seq<char>,
)
    requires
        rec.mirrored_data.base_uri == Some(base),
    ensures
        mirror_uri(rec, token_id, info) == Some(base + token_id + ".json"@),
{
}

/// Metadata precedence, end to end: registering an original collection
/// with a base URI in its override, activating the mirror, and wrapping an
/// asset of it emits a mint whose descriptor is exactly the base URI, the
/// asset id and `.json` — whatever descriptor the original collection
/// reports for the asset.
pub proof fn lemma_base_uri_governs_wrapped_descriptor(
    s: RegistryView,
    self_addr: Seq<char>,
    original_collection: Seq<char>,
    new_collection: MirroredDataView,
    base: Seq<char>,
    contract_info: ContractInfoView,
    mirror: Seq<char>,
    wrap_addr: Seq<char>,
    wrap_sender: Seq<char>,
    token_id: Seq<char>,
    info: NftInfoView,
)
    requires
        s.wf(),
        !s.originals.contains_key(original_collection),
        !s.mirrors.contains_key(mirror),
        s.total_wrapped < u64::MAX,
        new_collection.base_uri == Some(base),
    ensures
        ({
            let (s1, out1) = spec_register(
                s,
                s.controller,
                self_addr,
                original_collection,
                new_collection,
                Some(contract_info),
            );
            let id = (s.total_wrapped + 1) as u64;
            let (s2, out2) = spec_reply(s1, id, mirror);
            let wrap_out = spec_wrap(
                s2,
                wrap_addr,
                wrap_sender,
                original_collection,
                seq![token_id],
                seq![AssetAnswerView { owner: Some(wrap_sender), info: Some(info) }],
            );
            &&& out1 is Ok
            &&& out2 is Ok
            &&& wrap_out == Ok::<Seq<RequestView>, ErrorView>(
                seq![
                    RequestView::Transfer {
                        collection: original_collection,
                        recipient: wrap_addr,
                        token_id,
                    },
                    RequestView::Mint {
                        collection: mirror,
                        owner: wrap_sender,
                        token_id,
                        token_uri: Some(base + token_id + ".json"@),
                    },
                ],
            )
        }),
{
    let (s1, out1) = spec_register(
        s,
        s.controller,
        self_addr,
        original_collection,
        new_collection,
        Some(contract_info),
    );
    let id = (s.total_wrapped + 1) as u64;
    assert(!s.records.contains_key(id));
    let (s2, out2) = spec_reply(s1, id, mirror);
    let rec = s2.records[id];
    assert(rec.mirrored_data.base_uri == Some(base));
    let tokens = seq![token_id];
    let answers = seq![AssetAnswerView { owner: Some(wrap_sender), info: Some(info) }];
    assert(tokens.drop_first() =~= Seq::<Seq<char>>::empty());
    assert(answers.drop_first() =~= Seq::<AssetAnswerView>::empty());
    assert(spec_wrap_assets(
        rec,
        original_collection,
        wrap_addr,
        wrap_sender,
        tokens.drop_first(),
        answers.drop_first(),
    ) == Ok::<Seq<RequestView>, ErrorView>(Seq::<RequestView>::empty()));
    let tv = RequestView::Transfer {
        collection: original_collection,
        recipient: wrap_addr,
        token_id,
    };
    let mv = RequestView::Mint {
        collection: mirror,
        owner: wrap_sender,
        token_id,
        token_uri: Some(base + token_id + ".json"@),
    };
    assert(seq![tv, mv] + Seq::<RequestView>::empty() =~= seq![tv, mv]);
}

/// Ownership state of the external collections: who holds each asset,
/// keyed by collection identity and asset id.
#[verifier::ext_equal]
pub struct ServiceView {
    pub owners: Map<(Seq<char>, Seq<char>), Seq<char>>,
}

/// What one emitted request does to the external ownership state: a
/// transfer moves the asset to its recipient, a mint gives the new asset
/// to its owner, a burn destroys the asset, and creating a collection
/// holds no assets yet.
pub open spec fn apply_request(svc: ServiceView, r: RequestView) -> ServiceView {
    match r {
        RequestView::Transfer { collection, recipient, token_id } => ServiceView {
            owners: svc.owners.insert((collection, token_id), recipient),
        },
        RequestView::Mint { collection, owner, token_id, .. } => ServiceView {
            owners: svc.owners.insert((collection, token_id), owner),
        },
        RequestView::Burn { collection, token_id } => ServiceView {
            owners: svc.owners.remove((collection, token_id)),
        },
        RequestView::CreateMirror { .. } => svc,
    }
}

/// The emitted requests applied in order.
pub open spec fn apply_requests(svc: ServiceView, rs: Seq<RequestView>) -> ServiceView
    decreases rs.len(),
{
    if rs.len() == 0 {
        svc
    } else {
        apply_requests(apply_request(svc, rs[0]), rs.drop_first())
    }
}

/// The round trip: wrapping an asset of a registered, active collection
/// and then unwrapping the resulting mirror asset returns the original to
/// its owner and leaves no mirror-side record of the asset. Stated for a
/// mirror collection distinct from the original — a mirror is a newly
/// created collection of its own.
pub proof fn lemma_wrap_unwrap_round_trip(
    s: RegistryView,
    self_addr: Seq<char>,
    sender: Seq<char>,
    collection: Seq<char>,
    token_id: Seq<char>,
    info: NftInfoView,
    svc: ServiceView,
)
    requires
        s.wf(),
        s.originals.contains_key(collection),
        s.records[s.originals[collection]].active,
        s.records[s.originals[collection]].mirrored_collection != collection,
        svc.owners.contains_key((collection, token_id)),
        svc.owners[(collection, token_id)] == sender,
    ensures
        ({
            let rec = s.records[s.originals[collection]];
            let mirror = rec.mirrored_collection;
            let wrap_out = spec_wrap(
                s,
                self_addr,
                sender,
                collection,
                seq![token_id],
                seq![AssetAnswerView { owner: Some(sender), info: Some(info) }],
            );
            &&& wrap_out is Ok
            &&& ({
                let svc1 = apply_requests(svc, wrap_out->Ok_0);
                let unwrap_out = spec_unwrap(
                    s,
                    sender,
                    mirror,
                    seq![token_id],
                    seq![AssetAnswerView { owner: Some(svc1.owners[(mirror, token_id)]), info: None }],
                );
                &&& svc1.owners.contains_key((mirror, token_id))
                &&& svc1.owners[(mirror, token_id)] == sender
                &&& unwrap_out is Ok
                &&& ({
                    let svc2 = apply_requests(svc1, unwrap_out->Ok_0);
                    &&& svc2.owners.contains_key((collection, token_id))
                    &&& svc2.owners[(collection, token_id)] == sender
                    &&& !svc2.owners.contains_key((mirror, token_id))
                })
            })
        }),
{
    let id = s.originals[collection];
    let rec = s.records[id];
    let mirror = rec.mirrored_collection;
    let tokens = seq![token_id];
    let answers = seq![AssetAnswerView { owner: Some(sender), info: Some(info) }];
    assert(tokens.drop_first() =~= Seq::<Seq<char>>::empty());
    assert(answers.drop_first() =~= Seq::<AssetAnswerView>::empty());
    let tv = RequestView::Transfer { collection, recipient: self_addr, token_id };
    let mv = RequestView::Mint {
        collection: mirror,
        owner: sender,
        token_id,
        token_uri: mirror_uri(rec, token_id, info),
    };
    assert(spec_wrap_assets(
        rec,
        collection,
        self_addr,
        sender,
        tokens.drop_first(),
        answers.drop_first(),
    ) == Ok::<Seq<RequestView>, ErrorView>(Seq::<RequestView>::empty()));
    let wrap_out = spec_wrap(s, self_addr, sender, collection, tokens, answers);
    assert(seq![tv, mv] + Seq::<RequestView>::empty() =~= seq![tv, mv]);
    assert(wrap_out == Ok::<Seq<RequestView>, ErrorView>(seq![tv, mv]));
    let svc1 = apply_requests(svc, seq![tv, mv]);
    assert(seq![tv, mv].drop_first() =~= seq![mv]);
    assert(seq![mv].drop_first() =~= Seq::<RequestView>::empty());
    assert(seq![tv, mv][0] == tv);
    assert(seq![mv][0] == mv);
    let svc_a = apply_request(svc, tv);
    let svc_b = apply_request(svc_a, mv);
    assert(apply_requests(svc_b, Seq::<RequestView>::empty()) == svc_b);
    assert(apply_requests(svc_a, seq![mv]) == svc_b);
    assert(svc1 == svc_b);
    assert((collection, token_id) != (mirror, token_id));
    assert(svc1.owners[(mirror, token_id)] == sender);
    assert(s.mirrors.contains_key(mirror) && s.mirrors[mirror] == id);
    let answers2 = seq![AssetAnswerView { owner: Some(sender), info: None }];
    assert(answers2.drop_first() =~= Seq::<AssetAnswerView>::empty());
    let bv = RequestView::Burn { collection: mirror, token_id };
    let rv = RequestView::Transfer {
        collection: rec.original_collection,
        recipient: sender,
        token_id,
    };
    assert(spec_unwrap_assets(rec, mirror, sender, tokens.drop_first(), answers2.drop_first())
        == Ok::<Seq<RequestView>, ErrorView>(Seq::<RequestView>::empty()));
    let unwrap_out = spec_unwrap(s, sender, mirror, tokens, answers2);
    assert(seq![bv, rv] + Seq::<RequestView>::empty() =~= seq![bv, rv]);
    assert(unwrap_out == Ok::<Seq<RequestView>, ErrorView>(seq![bv, rv]));
    assert(rec.original_collection == collection);
    let svc2 = apply_requests(svc1, seq![bv, rv]);
    assert(seq![bv, rv].drop_first() =~= seq![rv]);
    assert(seq![rv].drop_first() =~= Seq::<RequestView>::empty());
    assert(seq![bv, rv][0] == bv);
    assert(seq![rv][0] == rv);
    let svc_c = apply_request(svc1, bv);
    let svc_d = apply_request(svc_c, rv);
    assert(apply_requests(svc_d, Seq::<RequestView>::empty()) == svc_d);
    assert(apply_requests(svc_c, seq![rv]) == svc_d);
    assert(svc2 == svc_d);
}

} // verus!
