use vstd::prelude::*;
use crate::iface::{Iface, IfaceV};
use crate::ipvlan::IpVlanInfoV;
use crate::text::{spec_dec_str, u32_to_dec_string};

verus! {

/// The registry as a sequence of record images.
pub open spec fn ifaces_view(v: Seq<Iface>) -> Seq<IfaceV> {
    v.map_values(|x: Iface| x@)
}

/// The index-to-name lookup the reconciliation pass performs: the name of the
/// first record whose kernel index, written in decimal, equals the key.
pub open spec fn spec_lookup_name(s: Seq<IfaceV>, key: Seq<char>) -> Option<Seq<char>>
    decreases s.len(),
{
    if s.len() == 0 {
        None
    } else if spec_dec_str(s[0].index as nat) == key {
        Some(s[0].name)
    } else {
        spec_lookup_name(s.drop_first(), key)
    }
}

/// One record after reconciliation against the snapshot `s`: an IPVLAN
/// record's base reference is rewritten to the referenced record's name; a
/// reference no record answers to is left unchanged, and every other record
/// is untouched. Reconciliation is best-effort and never fails.
pub open spec fn spec_resolve_iface(s: Seq<IfaceV>, f: IfaceV) -> IfaceV {
    if f.iface_type is IpVlan {
        match f.ip_vlan {
            Some(p) => match spec_lookup_name(s, p.base_iface) {
                Some(n) => (IfaceV {
                    ip_vlan: Some(IpVlanInfoV { base_iface: n, ..p }),
                    ..f
                }),
                None => f,
            },
            None => f,
        }
    } else {
        f
    }
}

/// The whole reconciliation pass: every record rewritten against the
/// snapshot as it stood when the pass began.
pub open spec fn spec_reconcile(s: Seq<IfaceV>) -> Seq<IfaceV> {
    Seq::new(s.len(), |i: int| spec_resolve_iface(s, s[i]))
}

/// The lookup depends only on the records' names and indices: two snapshots
/// that agree on those pointwise answer every key alike.
proof fn lemma_lookup_same(s1: Seq<IfaceV>, s2: Seq<IfaceV>, key: Seq<char>)
    requires
        s1.len() == s2.len(),
        forall|i: int|
            0 <= i < s1.len() ==> (#[trigger] s1[i]).name == s2[i].name && s1[i].index
                == s2[i].index,
    ensures
        spec_lookup_name(s1, key) == spec_lookup_name(s2, key),
    decreases s1.len(),
{
    if s1.len() > 0 {
        assert forall|i: int|
            0 <= i < s1.drop_first().len() implies (#[trigger] s1.drop_first()[i]).name
            == s2.drop_first()[i].name && s1.drop_first()[i].index
            == s2.drop_first()[i].index by {
            assert(s1.drop_first()[i] == s1[i + 1]);
            assert(s2.drop_first()[i] == s2[i + 1]);
        }
        lemma_lookup_same(s1.drop_first(), s2.drop_first(), key);
    }
}

/// A successful lookup always answers with the name of some record of the
/// snapshot.
proof fn lemma_lookup_returns_a_name(s: Seq<IfaceV>, key: Seq<char>)
    ensures
        match spec_lookup_name(s, key) {
            Some(n) => exists|k: int| 0 <= k < s.len() && (#[trigger] s[k]).name == n,
            None => true,
        },
    decreases s.len(),
{
    if s.len() > 0 {
        if spec_dec_str(s[0].index as nat) == key {
            assert(s[0].name == spec_lookup_name(s, key).unwrap());
        } else {
            lemma_lookup_returns_a_name(s.drop_first(), key);
            if spec_lookup_name(s, key) is Some {
                let n = spec_lookup_name(s, key).unwrap();
                let k = choose|k: int|
                    0 <= k < s.drop_first().len() && (#[trigger] s.drop_first()[k]).name == n;
                assert(s[k + 1].name == n);
            }
        }
    }
}

/// Reconciliation is idempotent: running the pass twice on the same registry
/// gives what one run gives — already-resolved names stay unchanged, and
/// already-unresolved references stay unchanged. The one family of inputs
/// left out by the premise: a registry in which some record is named exactly
/// like the decimal kernel index of a differently-named record, so that a
/// name written by the first run reads as an index to the second.
pub proof fn lemma_reconcile_idempotent(s: Seq<IfaceV>)
    requires
        forall|i: int|
            0 <= i < s.len() ==> (spec_lookup_name(s, (#[trigger] s[i]).name) is None
                || spec_lookup_name(s, s[i].name) == Some(s[i].name)),
    ensures
        spec_reconcile(spec_reconcile(s)) == spec_reconcile(s),
{
    let s1 = spec_reconcile(s);
    assert(s1.len() == s.len());
    assert forall|i: int|
        0 <= i < s1.len() implies (#[trigger] s1[i]).name == s[i].name && s1[i].index
        == s[i].index by {
        assert(s1[i] == spec_resolve_iface(s, s[i]));
    }
    assert forall|i: int| 0 <= i < s1.len() implies #[trigger] spec_resolve_iface(s1, s1[i])
        == s1[i] by {
        assert(s1[i] == spec_resolve_iface(s, s[i]));
        if s[i].iface_type is IpVlan && s[i].ip_vlan is Some {
            let p = s[i].ip_vlan.unwrap();
            lemma_lookup_same(s1, s, p.base_iface);
            match spec_lookup_name(s, p.base_iface) {
                Some(n) => {
                    lemma_lookup_returns_a_name(s, p.base_iface);
                    let k = choose|k: int| 0 <= k < s.len() && (#[trigger] s[k]).name == n;
                    lemma_lookup_same(s1, s, n);
                    let p1 = s1[i].ip_vlan.unwrap();
                    assert(p1.base_iface == n);
                    match spec_lookup_name(s, n) {
                        Some(m) => {
                            assert(m == n);
                            assert(spec_resolve_iface(s1, s1[i]) =~~= s1[i]);
                        },
                        None => {
                            assert(spec_resolve_iface(s1, s1[i]) == s1[i]);
                        },
                    }
                },
                None => {
                    assert(s1[i] == s[i]);
                    assert(spec_resolve_iface(s1, s1[i]) == s1[i]);
                },
            }
        } else {
            assert(s1[i] == s[i]);
        }
    }
    assert(spec_reconcile(s1) =~= s1);
}

/// One row of the lookup table: the record's kernel index in decimal, and
/// its name.
fn table_of(iface_states: &Vec<Iface>) -> (table: Vec<(String, String)>)
    ensures
        table@.len() == iface_states@.len(),
        forall|j: int| 0 <= j < table@.len() ==> (#[trigger] table@[j]).0@ == spec_dec_str(
            ifaces_view(iface_states@)[j].index as nat,
        ) && table@[j].1@ == ifaces_view(iface_states@)[j].name,
{
    let mut table: Vec<(String, String)> = Vec::new();
    let mut j: usize = 0;
    while j < iface_states.len()
        invariant
            j <= iface_states@.len(),
            table@.len() == j,
            forall|k: int| 0 <= k < j ==> (#[trigger] table@[k]).0@ == spec_dec_str(
                ifaces_view(iface_states@)[k].index as nat,
            ) && table@[k].1@ == ifaces_view(iface_states@)[k].name,
        decreases iface_states@.len() - j,
    {
        let key = u32_to_dec_string(iface_states[j].index);
        let name = iface_states[j].name.clone();
        table.push((key, name));
        j = j + 1;
    }
    table
}

/// First match in the lookup table, mirroring `spec_lookup_name` over the
/// snapshot the table was built from.
fn lookup_in_table(
    table: &Vec<(String, String)>,
    key: &String,
    Ghost(orig): Ghost<Seq<IfaceV>>,
) -> (r: Option<String>)
    requires
        table@.len() == orig.len(),
        forall|j: int| 0 <= j < table@.len() ==> (#[trigger] table@[j]).0@ == spec_dec_str(
            orig[j].index as nat,
        ) && table@[j].1@ == orig[j].name,
    ensures
        match r {
            Some(n) => spec_lookup_name(orig, key@) == Some(n@),
            None => spec_lookup_name(orig, key@) is None,
        },
{
    proof {
        assert(orig.skip(0) =~= orig);
    }
    let mut j: usize = 0;
    while j < table.len()
        invariant
            j <= table@.len(),
            table@.len() == orig.len(),
            forall|k: int| 0 <= k < table@.len() ==> (#[trigger] table@[k]).0@ == spec_dec_str(
                orig[k].index as nat,
            ) && table@[k].1@ == orig[k].name,
            spec_lookup_name(orig.skip(j as int), key@) == spec_lookup_name(orig, key@),
        decreases table@.len() - j,
    {
        proof {
            assert(orig.skip(j as int).drop_first() =~= orig.skip(j as int + 1));
            assert(orig.skip(j as int)[0] == orig[j as int]);
        }
        if table[j].0 == *key {
            return Some(table[j].1.clone());
        }
        j = j + 1;
    }
    proof {
        assert(orig.skip(orig.len() as int) =~= Seq::<IfaceV>::empty());
    }
    None
}

/// Rewrites the base reference of the record at `i` to the resolved name.
fn set_ip_vlan_base(iface_states: &mut Vec<Iface>, i: usize, n: &String)
    requires
        i < old(iface_states)@.len(),
        old(iface_states)@[i as int]@.iface_type is IpVlan,
        old(iface_states)@[i as int]@.ip_vlan is Some,
    ensures
        final(iface_states)@.len() == old(iface_states)@.len(),
        forall|k: int|
            0 <= k < old(iface_states)@.len() && k != i ==> final(iface_states)@[k]
                == old(iface_states)@[k],
        final(iface_states)@[i as int]@ == (IfaceV {
            ip_vlan: match old(iface_states)@[i as int]@.ip_vlan {
                Some(p) => Some(IpVlanInfoV { base_iface: n@, ..p }),
                None => None,
            },
            ..old(iface_states)@[i as int]@
        }),
{
    let el = &mut iface_states[i];
    match &mut el.ip_vlan {
        Some(info) => {
            info.base_iface = n.clone();
        },
        None => {},
    }
}

/// The reconciliation pass: resolves every IPVLAN record's numeric base
/// reference into the referenced interface's name, using the snapshot as it
/// stood when the pass began. A reference that nothing answers to stays
/// unchanged; reconciliation never fails.
pub fn convert_base_iface_index_to_name(iface_states: &mut Vec<Iface>)
    ensures
        ifaces_view(final(iface_states)@) == spec_reconcile(ifaces_view(old(iface_states)@)),
{
    let ghost orig = ifaces_view(iface_states@);
    let table = table_of(iface_states);
    let mut i: usize = 0;
    while i < iface_states.len()
        invariant
            i <= iface_states@.len(),
            iface_states@.len() == orig.len(),
            table@.len() == orig.len(),
            forall|j: int| 0 <= j < table@.len() ==> (#[trigger] table@[j]).0@ == spec_dec_str(
                orig[j].index as nat,
            ) && table@[j].1@ == orig[j].name,
            forall|k: int|
                0 <= k < i ==> ifaces_view(iface_states@)[k] == spec_resolve_iface(orig, orig[k]),
            forall|k: int| i <= k < orig.len() ==> (#[trigger] iface_states@[k])@ == orig[k],
        decreases iface_states@.len() - i,
    {
        let ghost prev = iface_states@;
        let is_target = match (&iface_states[i].iface_type, &iface_states[i].ip_vlan) {
            (crate::iface::IfaceType::IpVlan, Some(_)) => true,
            _ => false,
        };
        if is_target {
            let resolved = match &iface_states[i].ip_vlan {
                Some(info) => lookup_in_table(&table, &info.base_iface, Ghost(orig)),
                None => None,
            };
            match resolved {
                Some(n) => {
                    set_ip_vlan_base(iface_states, i, &n);
                },
                None => {},
            }
        }
        proof {
            assert forall|k: int| 0 <= k < orig.len() && k != i as int implies iface_states@[k]
                == prev[k] by {}
            assert forall|k: int| 0 <= k < i as int implies ifaces_view(iface_states@)[k]
                == spec_resolve_iface(orig, orig[k]) by {
                assert(ifaces_view(iface_states@)[k] == iface_states@[k]@);
                assert(ifaces_view(prev)[k] == prev[k]@);
            }
            assert forall|k: int| i as int + 1 <= k < orig.len() implies (#[trigger] iface_states@[k])@
                == orig[k] by {
                assert(iface_states@[k] == prev[k]);
            }
            assert(ifaces_view(iface_states@)[i as int] == iface_states@[i as int]@);
            assert(ifaces_view(iface_states@)[i as int] =~~= spec_resolve_iface(orig, orig[i as int]));
        }
        i = i + 1;
    }
    proof {
        assert(ifaces_view(iface_states@) =~~= spec_reconcile(orig));
    }
}

/// Tidy-up entry point for IPVLAN records after a snapshot has been
/// populated: runs the reconciliation pass.
pub fn ip_vlan_iface_tidy_up(iface_states: &mut Vec<Iface>)
    ensures
        ifaces_view(final(iface_states)@) == spec_reconcile(ifaces_view(old(iface_states)@)),
{
    convert_base_iface_index_to_name(iface_states);
}

} // verus!
