use peartree::context::Context;
use peartree::policy::enabled_ids;
use peartree::policy::is_enabled;
use peartree::registry::CommandId;

fn ctx(has_tree: bool, has_selection: bool, can_go_back: bool, can_go_forward: bool) -> Context {
    Context {
        has_tree,
        has_selection,
        can_go_back,
        can_go_forward,
        has_history_root: false,
    }
}

fn contains(v: &[CommandId], id: CommandId) -> bool {
    v.iter().any(|x| *x == id)
}

#[test]
fn startup_context_is_all_false() {
    let c = Context::startup();
    assert!(!c.has_tree);
    assert!(!c.has_selection);
    assert!(!c.can_go_back);
    assert!(!c.can_go_forward);
    assert!(!c.has_history_root);
    assert_eq!(c, Context::default());
}

#[test]
fn startup_excludes_tree_dependent_commands() {
    let v = enabled_ids(&Context::startup());
    for id in [
        CommandId::ImportAnnot,
        CommandId::ExportTree,
        CommandId::ExportImage,
        CommandId::ViewBack,
        CommandId::ViewForward,
        CommandId::ViewHome,
        CommandId::ViewInfo,
        CommandId::TreeRotate,
        CommandId::TreeRotateAll,
        CommandId::TreeReroot,
        CommandId::TreeMidpoint,
        CommandId::TreeHide,
        CommandId::TreeShow,
        CommandId::TreePaint,
        CommandId::TreeClearColours,
    ] {
        assert!(!contains(&v, id), "{:?} must start disabled", id);
    }
    for id in [CommandId::OpenTree, CommandId::OpenFile, CommandId::SelectAll] {
        assert!(contains(&v, id), "{:?} must start enabled", id);
    }
}

#[test]
fn loading_a_tree_enables_exports_but_not_history() {
    let v = enabled_ids(&ctx(true, false, false, false));
    for id in [
        CommandId::ImportAnnot,
        CommandId::ExportTree,
        CommandId::ExportImage,
        CommandId::ViewHome,
    ] {
        assert!(contains(&v, id), "{:?} must be enabled once a tree is loaded", id);
    }
    assert!(!contains(&v, CommandId::ViewBack));
    assert!(!contains(&v, CommandId::ViewForward));
}

#[test]
fn navigation_follows_history_flags() {
    let back = enabled_ids(&ctx(true, false, true, false));
    assert!(contains(&back, CommandId::ViewBack));
    assert!(!contains(&back, CommandId::ViewForward));

    let forward = enabled_ids(&ctx(true, false, false, true));
    assert!(!contains(&forward, CommandId::ViewBack));
    assert!(contains(&forward, CommandId::ViewForward));

    // Without a tree the history flags alone enable nothing.
    let no_tree = enabled_ids(&ctx(false, false, true, true));
    assert!(!contains(&no_tree, CommandId::ViewBack));
    assert!(!contains(&no_tree, CommandId::ViewForward));
}

#[test]
fn node_commands_need_a_selection() {
    let tree_only = enabled_ids(&ctx(true, false, false, false));
    let selected = enabled_ids(&ctx(true, true, false, false));
    for id in [
        CommandId::TreeRotate,
        CommandId::TreeRotateAll,
        CommandId::TreeReroot,
        CommandId::TreeHide,
        CommandId::TreeShow,
        CommandId::TreePaint,
    ] {
        assert!(!contains(&tree_only, id), "{:?} needs a selection", id);
        assert!(contains(&selected, id), "{:?} enabled once selected", id);
    }
    // Whole-tree commands need no selection.
    assert!(contains(&tree_only, CommandId::TreeMidpoint));
    assert!(contains(&tree_only, CommandId::TreeClearColours));
}

/// The rule of every table row, checked on every reachable context.
#[test]
fn every_rule_holds_on_every_context() {
    let flags = [false, true];
    for &has_tree in &flags {
        for &has_selection in &flags {
            for &can_go_back in &flags {
                for &can_go_forward in &flags {
                    let c = ctx(has_tree, has_selection, can_go_back, can_go_forward);
                    let v = enabled_ids(&c);
                    for id in [
                        CommandId::ImportAnnot,
                        CommandId::ExportTree,
                        CommandId::ExportImage,
                        CommandId::ViewHome,
                        CommandId::ViewInfo,
                        CommandId::TreeMidpoint,
                        CommandId::TreeClearColours,
                    ] {
                        assert_eq!(contains(&v, id), has_tree);
                    }
                    assert_eq!(contains(&v, CommandId::ViewBack), has_tree && can_go_back);
                    assert_eq!(contains(&v, CommandId::ViewForward), has_tree && can_go_forward);
                    for id in [
                        CommandId::TreeRotate,
                        CommandId::TreeRotateAll,
                        CommandId::TreeReroot,
                        CommandId::TreeHide,
                        CommandId::TreeShow,
                        CommandId::TreePaint,
                    ] {
                        assert_eq!(contains(&v, id), has_tree && has_selection);
                    }
                    for id in [
                        CommandId::OpenFile,
                        CommandId::OpenTree,
                        CommandId::SelectAll,
                        CommandId::ViewDrill,
                        CommandId::ViewClimb,
                        CommandId::ViewZoomIn,
                        CommandId::ViewZoomOut,
                        CommandId::ViewFit,
                        CommandId::ViewFitLabels,
                        CommandId::TreeOrderUp,
                        CommandId::TreeOrderDown,
                        CommandId::ShowHelp,
                    ] {
                        assert!(contains(&v, id));
                    }
                    // Membership agrees with the single-command query.
                    for &id in v.iter() {
                        assert!(is_enabled(&c, id));
                    }
                }
            }
        }
    }
}

/// Applying the same context twice yields the same enabled set.
#[test]
fn policy_is_idempotent() {
    let flags = [false, true];
    for &has_tree in &flags {
        for &has_selection in &flags {
            for &can_go_back in &flags {
                for &can_go_forward in &flags {
                    let c = ctx(has_tree, has_selection, can_go_back, can_go_forward);
                    assert_eq!(enabled_ids(&c), enabled_ids(&c));
                }
            }
        }
    }
}
