//! The sources a lookup asks, in the order their outcomes are reported.
use vstd::prelude::*;

use crate::cache::{lemma_vin_keys_differ, vin_key_text};

verus! {

/// The ids of the registered sources, in registry order: the universal
/// sources, then tier S, tier A and tier B.
pub open spec fn registry_id_list() -> Seq<Seq<char>> {
    seq![
        "nhtsa_vpic"@,
        "nhtsa_recalls"@,
        "eu_safety_gate"@,
        "nl_rdw"@,
        "dk_dmr"@,
        "se_transportstyrelsen"@,
        "no_vegvesen"@,
        "pl_historiapojazdu"@,
        "cz_kontrolatachometru"@,
        "sk_stkonline"@,
        "si_avtolog"@,
        "ee_transpordiamet"@,
        "lv_csdd"@,
        "ua_hsc"@,
        "hr_hak"@,
        "lt_regitra"@,
        "is_samgongustofa"@,
        "es_dgt"@,
        "it_aci"@,
        "de_kba"@,
        "fr_histovec"@,
        "bg_mobile"@,
    ]
}

/// No two registered ids are equal, and none holds a `:`.
pub proof fn lemma_registry_ids_distinct()
    ensures
        forall|i: int, j: int|
            0 <= i < j < registry_id_list().len() ==> #[trigger] registry_id_list()[i]
                != #[trigger] registry_id_list()[j],
        forall|i: int| 0 <= i < registry_id_list().len() ==> !(#[trigger] registry_id_list()[i]).contains(':'),
{
    reveal_strlit("nhtsa_vpic");
    reveal_strlit("nhtsa_recalls");
    reveal_strlit("eu_safety_gate");
    reveal_strlit("nl_rdw");
    reveal_strlit("dk_dmr");
    reveal_strlit("se_transportstyrelsen");
    reveal_strlit("no_vegvesen");
    reveal_strlit("pl_historiapojazdu");
    reveal_strlit("cz_kontrolatachometru");
    reveal_strlit("sk_stkonline");
    reveal_strlit("si_avtolog");
    reveal_strlit("ee_transpordiamet");
    reveal_strlit("lv_csdd");
    reveal_strlit("ua_hsc");
    reveal_strlit("hr_hak");
    reveal_strlit("lt_regitra");
    reveal_strlit("is_samgongustofa");
    reveal_strlit("es_dgt");
    reveal_strlit("it_aci");
    reveal_strlit("de_kba");
    reveal_strlit("fr_histovec");
    reveal_strlit("bg_mobile");
    let ids = registry_id_list();
    assert forall|i: int, j: int| 0 <= i < j < ids.len() implies #[trigger] ids[i] != #[trigger] ids[j] by {
        assert(ids[i][0] != ids[j][0] || ids[i][1] != ids[j][1] || ids[i].len() != ids[j].len());
    }
    assert forall|i: int| 0 <= i < ids.len() implies !(#[trigger] ids[i]).contains(':') by {
        assert forall|k: int| 0 <= k < ids[i].len() implies ids[i][k] != ':' by {}
    }
}

/// For any VIN, the cache keys of two registered sources differ.
pub proof fn lemma_registry_keys_distinct(vin: Seq<char>)
    ensures
        forall|i: int, j: int|
            0 <= i < j < registry_id_list().len() ==> vin_key_text(#[trigger] registry_id_list()[i], vin)
                != vin_key_text(#[trigger] registry_id_list()[j], vin),
{
    lemma_registry_ids_distinct();
    let ids = registry_id_list();
    assert forall|i: int, j: int| 0 <= i < j < ids.len() implies vin_key_text(#[trigger] ids[i], vin)
        != vin_key_text(#[trigger] ids[j], vin) by {
        lemma_vin_keys_differ(ids[i], ids[j], vin);
    }
}

/// The ids of the registered sources, in registry order.  No two are equal
/// and none holds a `:`, so the cache keys of two sources never collide.
pub fn registry_ids() -> (r: Vec<&'static str>)
    ensures
        r@.len() == registry_id_list().len(),
        forall|i: int| 0 <= i < r@.len() ==> (#[trigger] r@[i])@ == registry_id_list()[i],
        forall|i: int, j: int| 0 <= i < j < r@.len() ==> (#[trigger] r@[i])@ != (#[trigger] r@[j])@,
        forall|i: int| 0 <= i < r@.len() ==> !(#[trigger] r@[i])@.contains(':'),
{
    let r: Vec<&'static str> = vec![
        "nhtsa_vpic",
        "nhtsa_recalls",
        "eu_safety_gate",
        "nl_rdw",
        "dk_dmr",
        "se_transportstyrelsen",
        "no_vegvesen",
        "pl_historiapojazdu",
        "cz_kontrolatachometru",
        "sk_stkonline",
        "si_avtolog",
        "ee_transpordiamet",
        "lv_csdd",
        "ua_hsc",
        "hr_hak",
        "lt_regitra",
        "is_samgongustofa",
        "es_dgt",
        "it_aci",
        "de_kba",
        "fr_histovec",
        "bg_mobile",
    ];
    proof {
        lemma_registry_ids_distinct();
        assert forall|i: int| 0 <= i < r@.len() implies (#[trigger] r@[i])@ == registry_id_list()[i] by {}
    }
    r
}

} // verus!
