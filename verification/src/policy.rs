use vstd::prelude::*;

use crate::context::Context;
use crate::registry::CommandId;
use crate::registry::all_ids;
use crate::registry::id_order;
use crate::registry::lemma_registry_complete;
use crate::seqs::lemma_filter_push;

verus! {

/// The availability table: whether command `id` is enabled under
/// context `c`.
///
/// File import/export and the whole-tree View commands need a loaded
/// tree; Back and Forward additionally need the matching navigation
/// history; Tree commands that act on a node (rotate, re-root, hide,
/// show, paint) further need a selection, while midpoint rooting and
/// clearing colours act on the whole tree; everything else is always
/// available.
pub open spec fn enabled_spec(c: Context, id: CommandId) -> bool {
    match id {
        CommandId::ImportAnnot => c.has_tree,
        CommandId::ExportTree => c.has_tree,
        CommandId::ExportImage => c.has_tree,
        CommandId::ViewBack => c.has_tree && c.can_go_back,
        CommandId::ViewForward => c.has_tree && c.can_go_forward,
        CommandId::ViewHome => c.has_tree,
        CommandId::ViewInfo => c.has_tree,
        CommandId::TreeRotate => c.has_tree && c.has_selection,
        CommandId::TreeRotateAll => c.has_tree && c.has_selection,
        CommandId::TreeReroot => c.has_tree && c.has_selection,
        CommandId::TreeHide => c.has_tree && c.has_selection,
        CommandId::TreeShow => c.has_tree && c.has_selection,
        CommandId::TreePaint => c.has_tree && c.has_selection,
        CommandId::TreeMidpoint => c.has_tree,
        CommandId::TreeClearColours => c.has_tree,
        CommandId::OpenFile => true,
        CommandId::OpenTree => true,
        CommandId::SelectAll => true,
        CommandId::ViewDrill => true,
        CommandId::ViewClimb => true,
        CommandId::ViewZoomIn => true,
        CommandId::ViewZoomOut => true,
        CommandId::ViewFit => true,
        CommandId::ViewFitLabels => true,
        CommandId::TreeOrderUp => true,
        CommandId::TreeOrderDown => true,
        CommandId::ShowHelp => true,
    }
}

/// The availability table as a predicate on command ids, for a fixed
/// context.
pub open spec fn enabled_pred(c: Context) -> spec_fn(CommandId) -> bool {
    |id: CommandId| enabled_spec(c, id)
}

/// The set of commands the policy enables under context `c`.
pub open spec fn enabled_set(c: Context) -> Set<CommandId> {
    Set::new(|id: CommandId| enabled_spec(c, id))
}

/// Whether command `id` is enabled under context `c`.
pub fn is_enabled(c: &Context, id: CommandId) -> (b: bool)
    ensures
        b == enabled_spec(*c, id),
{
    match id {
        CommandId::ImportAnnot
        | CommandId::ExportTree
        | CommandId::ExportImage
        | CommandId::ViewHome
        | CommandId::ViewInfo
        | CommandId::TreeMidpoint
        | CommandId::TreeClearColours => c.has_tree,
        CommandId::ViewBack => c.has_tree && c.can_go_back,
        CommandId::ViewForward => c.has_tree && c.can_go_forward,
        CommandId::TreeRotate
        | CommandId::TreeRotateAll
        | CommandId::TreeReroot
        | CommandId::TreeHide
        | CommandId::TreeShow
        | CommandId::TreePaint => c.has_tree && c.has_selection,
        CommandId::OpenFile
        | CommandId::OpenTree
        | CommandId::SelectAll
        | CommandId::ViewDrill
        | CommandId::ViewClimb
        | CommandId::ViewZoomIn
        | CommandId::ViewZoomOut
        | CommandId::ViewFit
        | CommandId::ViewFitLabels
        | CommandId::TreeOrderUp
        | CommandId::TreeOrderDown
        | CommandId::ShowHelp => true,
    }
}

/// The enabled commands under context `c`, in registry order.
///
/// The result is exactly the registry filtered by the availability
/// table; a command is in it if and only if the table enables it.
pub fn enabled_ids(c: &Context) -> (v: Vec<CommandId>)
    ensures
        v@ == id_order().filter(enabled_pred(*c)),
        forall|id: CommandId| #[trigger] v@.contains(id) <==> enabled_spec(*c, id),
        v@.no_duplicates(),
{
    let all = all_ids();
    let mut v: Vec<CommandId> = Vec::new();
    let mut i: usize = 0;
    while i < all.len()
        invariant
            all@ == id_order(),
            i <= all@.len(),
            v@ == id_order().subrange(0, i as int).filter(enabled_pred(*c)),
        decreases all@.len() - i,
    {
        let id = all[i];
        proof {
            assert(id_order().subrange(0, i + 1) =~= id_order().subrange(0, i as int).push(
                id_order()[i as int],
            ));
            lemma_filter_push(id_order().subrange(0, i as int), id_order()[i as int], enabled_pred(*c));
        }
        if is_enabled(c, id) {
            v.push(id);
        }
        i = i + 1;
    }
    proof {
        assert(id_order().subrange(0, id_order().len() as int) =~= id_order());
        lemma_registry_complete();
        crate::registry::lemma_registry_unique();
        crate::seqs::lemma_filter_no_duplicates(id_order(), enabled_pred(*c));
        assert forall|id: CommandId| #[trigger] v@.contains(id) <==> enabled_spec(*c, id) by {
            if v@.contains(id) {
                let j = choose|j: int| 0 <= j < v@.len() && v@[j] == id;
                id_order().lemma_filter_pred(enabled_pred(*c), j);
            }
            if enabled_spec(*c, id) {
                let k = choose|k: int| 0 <= k < id_order().len() && id_order()[k] == id;
                id_order().lemma_filter_contains(enabled_pred(*c), k);
            }
        }
    }
    v
}

/// Law: the policy agrees with the availability table, row by row,
/// for every context.
pub proof fn lemma_policy_matches_table(c: Context)
    ensures
        enabled_spec(c, CommandId::ImportAnnot) == c.has_tree,
        enabled_spec(c, CommandId::ExportTree) == c.has_tree,
        enabled_spec(c, CommandId::ExportImage) == c.has_tree,
        enabled_spec(c, CommandId::ViewBack) == (c.has_tree && c.can_go_back),
        enabled_spec(c, CommandId::ViewForward) == (c.has_tree && c.can_go_forward),
        enabled_spec(c, CommandId::ViewHome) == c.has_tree,
        enabled_spec(c, CommandId::ViewInfo) == c.has_tree,
        enabled_spec(c, CommandId::TreeRotate) == (c.has_tree && c.has_selection),
        enabled_spec(c, CommandId::TreeRotateAll) == (c.has_tree && c.has_selection),
        enabled_spec(c, CommandId::TreeReroot) == (c.has_tree && c.has_selection),
        enabled_spec(c, CommandId::TreeMidpoint) == c.has_tree,
        enabled_spec(c, CommandId::TreeHide) == (c.has_tree && c.has_selection),
        enabled_spec(c, CommandId::TreeShow) == (c.has_tree && c.has_selection),
        enabled_spec(c, CommandId::TreePaint) == (c.has_tree && c.has_selection),
        enabled_spec(c, CommandId::TreeClearColours) == c.has_tree,
        enabled_spec(c, CommandId::OpenFile),
        enabled_spec(c, CommandId::OpenTree),
        enabled_spec(c, CommandId::SelectAll),
        enabled_spec(c, CommandId::ShowHelp),
{
}

/// Law: the policy is deterministic and idempotent: evaluating it
/// twice on the same context yields the same enabled sequence and the
/// same enabled set.
pub proof fn lemma_policy_idempotent(c1: Context, c2: Context, v1: Seq<CommandId>, v2: Seq<CommandId>)
    requires
        c1 == c2,
        v1 == id_order().filter(enabled_pred(c1)),
        v2 == id_order().filter(enabled_pred(c2)),
    ensures
        v1 == v2,
        enabled_set(c1) == enabled_set(c2),
{
}

} // verus!
