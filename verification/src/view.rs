//! View filter: derives the currently visible subset of services from the
//! full list and the filter flag. Pure and order-preserving; safe to call
//! every cycle.

use vstd::prelude::*;
use crate::model::Service;
use crate::model::ServiceModel;

verus! {

/// Whether one service belongs in the view under the given filter flag:
/// every service when the flag is off, only operator-defined ones when it
/// is on.
pub open spec fn passes_filter(s: ServiceModel, show_only_filtered: bool) -> bool {
    !show_only_filtered || s.is_user_config
}

/// The visible subset of `services` under the filter flag, in the original
/// order: the whole list when the flag is off, the operator-defined services
/// when it is on.
pub open spec fn visible_model(services: Seq<ServiceModel>, show_only_filtered: bool) -> Seq<
    ServiceModel,
> {
    if show_only_filtered {
        services.filter(|s: ServiceModel| s.is_user_config)
    } else {
        services
    }
}

/// Build the visible service list for the current filter flag.
pub fn visible_services(services: &Vec<Service>, show_only_filtered: bool) -> (r: Vec<Service>)
    ensures
        r.deep_view() == visible_model(services.deep_view(), show_only_filtered),
{
    broadcast use Seq::lemma_filter_push;

    let ghost full: Seq<ServiceModel> = services.deep_view();
    let mut out: Vec<Service> = Vec::new();
    let mut i: usize = 0;
    while i < services.len()
        invariant
            i <= services.len(),
            full == services.deep_view(),
            out.deep_view() == visible_model(full.take(i as int), show_only_filtered),
        decreases services.len() - i,
    {
        proof {
            assert(full.take(i + 1) =~= full.take(i as int).push(full[i as int]));
        }
        if !show_only_filtered || services[i].is_user_config {
            let ghost prev = out.deep_view();
            let s = services[i].clone();
            proof {
                assert(s.deep_view() == full[i as int]);
            }
            out.push(s);
            proof {
                assert(out.deep_view() =~= prev.push(full[i as int]));
            }
        }
        i += 1;
        proof {
            full.take(i - 1).lemma_filter_push(full[i - 1], |s: ServiceModel| s.is_user_config);
            assert(out.deep_view() =~= visible_model(full.take(i as int), show_only_filtered));
        }
    }
    proof {
        assert(full.take(services.len() as int) =~= full);
    }
    out
}

/// Law: the view filter's output is a stable-ordered subset of its input
/// that satisfies the filter predicate exactly — it is never longer than the
/// input, every entry of it passes the filter, every input entry that passes
/// the filter appears in it, and with the flag off it is the input itself.
/// (Order preservation is definitional: the output is the input, or the
/// input's `filter`, which keeps the original order.)
pub proof fn lemma_view_filter_exact(services: Seq<ServiceModel>, show_only_filtered: bool)
    ensures
        visible_model(services, show_only_filtered).len() <= services.len(),
        forall|i: int|
            0 <= i < visible_model(services, show_only_filtered).len() ==> passes_filter(
                #[trigger] visible_model(services, show_only_filtered)[i],
                show_only_filtered,
            ),
        forall|i: int|
            0 <= i < services.len() && passes_filter(services[i], show_only_filtered)
                ==> visible_model(services, show_only_filtered).contains(services[i]),
        !show_only_filtered ==> visible_model(services, show_only_filtered) == services,
{
    broadcast use vstd::seq_lib::group_filter_ensures;

    if show_only_filtered {
        assert(forall|i: int|
            0 <= i < services.len() && passes_filter(services[i], show_only_filtered)
                ==> visible_model(services, show_only_filtered).contains(services[i])) by {
            assert forall|i: int|
                0 <= i < services.len() && passes_filter(services[i], show_only_filtered)
                implies visible_model(services, show_only_filtered).contains(services[i]) by {
                services.lemma_filter_contains(|s: ServiceModel| s.is_user_config, i);
            }
        }
    } else {
        assert(forall|i: int|
            0 <= i < services.len() ==> visible_model(services, show_only_filtered).contains(
                services[i],
            )) by {
            assert forall|i: int| 0 <= i < services.len() implies visible_model(
                services,
                show_only_filtered,
            ).contains(services[i]) by {
                assert(visible_model(services, show_only_filtered)[i] == services[i]);
            }
        }
    }
}

} // verus!
