//! Assembling the service list from the directory tool's output: turning
//! tokenized listing lines into service records, folding in installed unit
//! files that are not loaded, and sorting the result by name. The process
//! invocation and the decoding of raw bytes into lines and tokens stay with
//! the caller; everything here is computation on plain values.

use vstd::prelude::*;
use crate::model::Service;
use crate::model::ServiceModel;

verus! {

/// The names of a run of service records, in order.
pub open spec fn names_of(services: Seq<ServiceModel>) -> Seq<Seq<char>> {
    services.map_values(|s: ServiceModel| s.name)
}

/// Whether `name` occurs among `names`.
pub open spec fn contains_name(names: Seq<Seq<char>>, name: Seq<char>) -> bool {
    exists|i: int| 0 <= i < names.len() && names[i] == name
}

/// Whether `name` is one of the listed names.
pub fn name_listed(names: &Vec<String>, name: &String) -> (r: bool)
    ensures
        r == contains_name(names.deep_view(), name@),
{
    let mut i: usize = 0;
    while i < names.len()
        invariant
            i <= names.len(),
            forall|k: int| 0 <= k < i ==> names.deep_view()[k] != name@,
        decreases names.len() - i,
    {
        if names[i] == *name {
            proof {
                assert(names.deep_view()[i as int] == name@);
            }
            return true;
        }
        i += 1;
    }
    false
}

/// Whether one of the service records carries `name`.
pub fn any_service_named(services: &Vec<Service>, name: &String) -> (r: bool)
    ensures
        r == contains_name(names_of(services.deep_view()), name@),
{
    let mut i: usize = 0;
    while i < services.len()
        invariant
            i <= services.len(),
            forall|k: int| 0 <= k < i ==> names_of(services.deep_view())[k] != name@,
        decreases services.len() - i,
    {
        if services[i].name == *name {
            proof {
                assert(names_of(services.deep_view())[i as int] == name@);
            }
            return true;
        }
        i += 1;
    }
    false
}

/// The record one listing line yields: the first four columns are name,
/// loaded state, active state and sub state; the origin flag says whether
/// the name is among the operator's own unit files.
pub open spec fn unit_record(parts: Seq<Seq<char>>, user_names: Seq<Seq<char>>) -> ServiceModel {
    ServiceModel {
        name: parts[0],
        loaded_state: parts[1],
        active_state: parts[2],
        sub_state: parts[3],
        is_user_config: contains_name(user_names, parts[0]),
    }
}

/// The records of a whole unit listing: every line with at least four
/// columns yields one, in order; shorter lines are skipped.
pub open spec fn parsed_units(
    lines: Seq<Seq<Seq<char>>>,
    user_names: Seq<Seq<char>>,
) -> Seq<ServiceModel> {
    lines.filter(|parts: Seq<Seq<char>>| parts.len() >= 4).map_values(
        |parts: Seq<Seq<char>>| unit_record(parts, user_names),
    )
}

/// Parse the tokenized lines of the unit listing into service records.
/// `user_names` holds the names of the operator's own unit files.
pub fn parse_unit_lines(lines: &Vec<Vec<String>>, user_names: &Vec<String>) -> (r: Vec<Service>)
    ensures
        r.deep_view() == parsed_units(lines.deep_view(), user_names.deep_view()),
{
    broadcast use Seq::lemma_filter_push;

    let ghost all: Seq<Seq<Seq<char>>> = lines.deep_view();
    let ghost long_enough = |parts: Seq<Seq<char>>| parts.len() >= 4;
    let ghost to_record = |parts: Seq<Seq<char>>| unit_record(parts, user_names.deep_view());
    let mut r: Vec<Service> = Vec::new();
    let mut i: usize = 0;
    while i < lines.len()
        invariant
            i <= lines.len(),
            all == lines.deep_view(),
            long_enough == (|parts: Seq<Seq<char>>| parts.len() >= 4),
            to_record == (|parts: Seq<Seq<char>>| unit_record(parts, user_names.deep_view())),
            r.deep_view() == all.take(i as int).filter(long_enough).map_values(to_record),
        decreases lines.len() - i,
    {
        proof {
            assert(all.take(i + 1) =~= all.take(i as int).push(all[i as int]));
        }
        let parts = &lines[i];
        if parts.len() >= 4 {
            let ghost prev = r.deep_view();
            let name = parts[0].clone();
            let is_config = name_listed(user_names, &name);
            r.push(
                Service {
                    name,
                    loaded_state: parts[1].clone(),
                    active_state: parts[2].clone(),
                    sub_state: parts[3].clone(),
                    is_user_config: is_config,
                },
            );
            proof {
                assert(parts.deep_view() == all[i as int]);
                assert(r.deep_view() =~= prev.push(to_record(all[i as int])));
            }
        }
        i += 1;
        proof {
            all.take(i - 1).lemma_filter_push(all[i - 1], long_enough);
            let prefix = all.take(i - 1).filter(long_enough);
            assert(prefix.push(all[i - 1]).map_values(to_record) =~= prefix.map_values(
                to_record,
            ).push(to_record(all[i - 1])));
            assert(r.deep_view() =~= all.take(i as int).filter(long_enough).map_values(to_record));
        }
    }
    proof {
        assert(all.take(lines.len() as int) =~= all);
    }
    r
}

/// The placeholder record for an installed unit file that is not loaded:
/// the directory reports nothing live about it, so it shows as unloaded,
/// inactive and dead.
pub open spec fn placeholder_record(name: Seq<char>, user_names: Seq<Seq<char>>) -> ServiceModel {
    ServiceModel {
        name,
        loaded_state: "unloaded"@,
        active_state: "inactive"@,
        sub_state: "dead"@,
        is_user_config: contains_name(user_names, name),
    }
}

/// The list after the unit-files pass: the loaded records, followed by a
/// placeholder for every unit-file name that no loaded record carries, in
/// listing order.
pub open spec fn merged_unit_files(
    services: Seq<ServiceModel>,
    file_names: Seq<Seq<char>>,
    user_names: Seq<Seq<char>>,
) -> Seq<ServiceModel> {
    services + file_names.filter(|n: Seq<char>| !contains_name(names_of(services), n)).map_values(
        |n: Seq<char>| placeholder_record(n, user_names),
    )
}

/// Append a placeholder record for every unit-file name that none of the
/// already-listed services carries.
pub fn merge_unit_files(
    services: Vec<Service>,
    file_names: &Vec<String>,
    user_names: &Vec<String>,
) -> (r: Vec<Service>)
    ensures
        r.deep_view() == merged_unit_files(
            services.deep_view(),
            file_names.deep_view(),
            user_names.deep_view(),
        ),
{
    broadcast use Seq::lemma_filter_push;

    let ghost base: Seq<ServiceModel> = services.deep_view();
    let ghost all_names: Seq<Seq<char>> = file_names.deep_view();
    let ghost fresh = |n: Seq<char>| !contains_name(names_of(base), n);
    let ghost to_placeholder = |n: Seq<char>| placeholder_record(n, user_names.deep_view());
    let mut fresh_files: Vec<Service> = Vec::new();
    let mut i: usize = 0;
    while i < file_names.len()
        invariant
            i <= file_names.len(),
            base == services.deep_view(),
            all_names == file_names.deep_view(),
            fresh == (|n: Seq<char>| !contains_name(names_of(base), n)),
            to_placeholder == (|n: Seq<char>| placeholder_record(n, user_names.deep_view())),
            fresh_files.deep_view() == all_names.take(i as int).filter(fresh).map_values(
                to_placeholder,
            ),
        decreases file_names.len() - i,
    {
        proof {
            assert(all_names.take(i + 1) =~= all_names.take(i as int).push(all_names[i as int]));
        }
        let name = file_names[i].clone();
        if !any_service_named(&services, &name) {
            let ghost prev = fresh_files.deep_view();
            let is_config = name_listed(user_names, &name);
            fresh_files.push(
                Service {
                    name,
                    loaded_state: "unloaded".to_string(),
                    active_state: "inactive".to_string(),
                    sub_state: "dead".to_string(),
                    is_user_config: is_config,
                },
            );
            proof {
                assert(fresh_files.deep_view() =~= prev.push(
                    to_placeholder(all_names[i as int]),
                ));
            }
        }
        i += 1;
        proof {
            all_names.take(i - 1).lemma_filter_push(all_names[i - 1], fresh);
            let prefix = all_names.take(i - 1).filter(fresh);
            assert(prefix.push(all_names[i - 1]).map_values(to_placeholder) =~= prefix.map_values(
                to_placeholder,
            ).push(to_placeholder(all_names[i - 1])));
            assert(fresh_files.deep_view() =~= all_names.take(i as int).filter(fresh).map_values(
                to_placeholder,
            ));
        }
    }
    proof {
        assert(all_names.take(file_names.len() as int) =~= all_names);
    }
    let mut r = services;
    let mut j: usize = 0;
    while j < fresh_files.len()
        invariant
            j <= fresh_files.len(),
            fresh_files.deep_view() == all_names.filter(fresh).map_values(to_placeholder),
            r.deep_view() == base + fresh_files.deep_view().take(j as int),
        decreases fresh_files.len() - j,
    {
        let ghost prev = r.deep_view();
        let next = fresh_files[j].clone();
        r.push(next);
        j += 1;
        proof {
            assert(r.deep_view() =~= prev.push(fresh_files.deep_view()[j - 1]));
            assert(r.deep_view() =~= base + fresh_files.deep_view().take(j as int));
        }
    }
    proof {
        assert(fresh_files.deep_view().take(fresh_files.len() as int) =~= fresh_files.deep_view());
        assert(r.deep_view() =~= merged_unit_files(base, all_names, user_names.deep_view()));
    }
    r
}

/// Lexicographic order on names: position by position by code point, a
/// proper prefix before its extensions, the empty name first.
pub open spec fn lex_le(a: Seq<char>, b: Seq<char>) -> bool
    decreases a.len(),
{
    if a.len() == 0 {
        true
    } else if b.len() == 0 {
        false
    } else if (a[0] as u32) == (b[0] as u32) {
        lex_le(a.drop_first(), b.drop_first())
    } else {
        (a[0] as u32) < (b[0] as u32)
    }
}

/// Any two names are ordered one way or the other.
pub proof fn lemma_lex_le_total(a: Seq<char>, b: Seq<char>)
    ensures
        lex_le(a, b) || lex_le(b, a),
    decreases a.len(),
{
    if a.len() > 0 && b.len() > 0 && (a[0] as u32) == (b[0] as u32) {
        lemma_lex_le_total(a.drop_first(), b.drop_first());
    }
}

/// The order chains: what is at most `b`, which is at most `c`, is at most
/// `c`.
pub proof fn lemma_lex_le_trans(a: Seq<char>, b: Seq<char>, c: Seq<char>)
    requires
        lex_le(a, b),
        lex_le(b, c),
    ensures
        lex_le(a, c),
    decreases a.len(),
{
    if a.len() > 0 && b.len() > 0 && c.len() > 0 && (a[0] as u32) == (b[0] as u32) && (b[0] as u32)
        == (c[0] as u32) {
        lemma_lex_le_trans(a.drop_first(), b.drop_first(), c.drop_first());
    }
}

/// Relies on `str`'s `<=` comparison: std documents that strings compare
/// lexicographically by their byte values, which for UTF-8 coincides with
/// comparing the characters' code points position by position.
#[verifier::external_body]
fn str_le(a: &str, b: &str) -> (r: bool)
    ensures
        r == lex_le(a@, b@),
{
    a <= b
}

/// The records stand in name order.
pub open spec fn sorted_by_name(services: Seq<ServiceModel>) -> bool {
    forall|i: int, j: int|
        0 <= i < j < services.len() ==> lex_le(services[i].name, services[j].name)
}

/// Sort the records by name. The result holds exactly the records that went
/// in, in name order.
pub fn sort_services_by_name(services: &mut Vec<Service>)
    ensures
        final(services).deep_view().to_multiset() == old(services).deep_view().to_multiset(),
        sorted_by_name(final(services).deep_view()),
{
    broadcast use vstd::seq_lib::to_multiset_remove;
    broadcast use vstd::seq_lib::to_multiset_insert;
    broadcast use vstd::multiset::group_multiset_axioms;

    if services.len() == 0 {
        return ;
    }
    let mut i: usize = 1;
    while i < services.len()
        invariant
            1 <= i <= services@.len(),
            services.deep_view().to_multiset() == old(services).deep_view().to_multiset(),
            sorted_by_name(services.deep_view().take(i as int)),
        decreases services@.len() - i,
    {
        let mut p: usize = i;
        while p > 0 && !str_le(services[p - 1].name.as_str(), services[i].name.as_str())
            invariant
                p <= i < services@.len(),
                forall|k: int|
                    p <= k < i ==> !lex_le(
                        services.deep_view()[k].name,
                        services.deep_view()[i as int].name,
                    ),
            decreases p,
        {
            p -= 1;
        }
        let ghost s0 = services.deep_view();
        let ghost i0 = i as int;
        let ghost p0 = p as int;
        let ghost xm = s0[i0];
        let x = services.remove(i);
        proof {
            assert(services.deep_view() =~= s0.remove(i0));
        }
        services.insert(p, x);
        i += 1;
        proof {
            let t = services.deep_view();
            assert(t =~= s0.remove(i0).insert(p0, xm));
            vstd::seq_lib::to_multiset_remove(s0, i0);
            vstd::seq_lib::to_multiset_insert(s0.remove(i0), p0, xm);
            assert(s0.to_multiset().contains(xm)) by {
                broadcast use vstd::seq_lib::to_multiset_contains;

                assert(s0.contains(xm));
            }
            assert(t.to_multiset() =~= s0.to_multiset());
            let pre = s0.take(i0);
            assert(forall|k: int| 0 <= k < i0 ==> #[trigger] pre[k] == s0[k]);
            assert(forall|k: int| 0 <= k < p0 ==> #[trigger] t[k] == s0[k]);
            assert(t[p0] == xm);
            assert(forall|k: int| p0 < k <= i0 ==> #[trigger] t[k] == s0[k - 1]);
            assert forall|a: int| p0 <= a < i0 implies lex_le(xm.name, s0[a].name) by {
                lemma_lex_le_total(s0[a].name, xm.name);
            }
            let u = t.take(i0 + 1);
            assert(forall|k: int| 0 <= k <= i0 ==> #[trigger] u[k] == t[k]);
            assert forall|a: int, b: int| 0 <= a < b <= i0 implies lex_le(
                u[a].name,
                u[b].name,
            ) by {
                if b < p0 {
                    assert(lex_le(pre[a].name, pre[b].name));
                } else if b == p0 {
                    if a == p0 - 1 {
                        assert(lex_le(s0[a].name, xm.name));
                    } else {
                        assert(lex_le(pre[a].name, pre[p0 - 1].name));
                        lemma_lex_le_trans(s0[a].name, s0[p0 - 1].name, xm.name);
                    }
                } else if a == p0 {
                    assert(lex_le(xm.name, s0[b - 1].name));
                } else if a < p0 {
                    assert(lex_le(pre[a].name, pre[b - 1].name));
                } else {
                    assert(lex_le(pre[a - 1].name, pre[b - 1].name));
                }
            }
            assert(sorted_by_name(t.take(i as int)));
        }
    }
    proof {
        assert(services.deep_view().take(services@.len() as int) =~= services.deep_view());
    }
}

/// The whole computation of one service-list poll, once the caller has run
/// the two listing commands and decoded their output into tokens: parse the
/// unit listing, append placeholders for installed unit files that no
/// loaded record carries, and sort everything by name. When the unit-files
/// listing failed, the caller passes no file names and the merge adds
/// nothing.
pub fn assemble_service_list(
    unit_lines: &Vec<Vec<String>>,
    file_names: &Vec<String>,
    user_names: &Vec<String>,
) -> (r: Vec<Service>)
    ensures
        r.deep_view().to_multiset() == merged_unit_files(
            parsed_units(unit_lines.deep_view(), user_names.deep_view()),
            file_names.deep_view(),
            user_names.deep_view(),
        ).to_multiset(),
        sorted_by_name(r.deep_view()),
{
    let parsed = parse_unit_lines(unit_lines, user_names);
    let mut merged = merge_unit_files(parsed, file_names, user_names);
    sort_services_by_name(&mut merged);
    merged
}

} // verus!
