use peartree::context::Context;
use peartree::menu::MenuEntry;
use peartree::menu::MenuState;
use peartree::menu::PredefinedItem;
use peartree::menu::build_menu_tree;
use peartree::menu::context_updates;
use peartree::registry::CommandId;
use peartree::registry::MenuGroup;
use peartree::registry::all_commands;
use peartree::registry::all_ids;
use peartree::registry::ids_in_group;

#[test]
fn registry_has_every_command_once() {
    let ids = all_ids();
    assert_eq!(ids.len(), 27);
    for i in 0..ids.len() {
        for j in 0..i {
            assert_ne!(ids[i], ids[j], "registry ids must be unique");
        }
    }
}

#[test]
fn tokens_are_stable_and_unique() {
    assert_eq!(CommandId::OpenFile.token(), "open-file");
    assert_eq!(CommandId::OpenTree.token(), "open-tree");
    assert_eq!(CommandId::ImportAnnot.token(), "import-annot");
    assert_eq!(CommandId::ExportTree.token(), "export-tree");
    assert_eq!(CommandId::ExportImage.token(), "export-image");
    assert_eq!(CommandId::SelectAll.token(), "select-all");
    assert_eq!(CommandId::ViewBack.token(), "view-back");
    assert_eq!(CommandId::ViewForward.token(), "view-forward");
    assert_eq!(CommandId::ViewDrill.token(), "view-drill");
    assert_eq!(CommandId::ViewClimb.token(), "view-climb");
    assert_eq!(CommandId::ViewHome.token(), "view-home");
    assert_eq!(CommandId::ViewZoomIn.token(), "view-zoom-in");
    assert_eq!(CommandId::ViewZoomOut.token(), "view-zoom-out");
    assert_eq!(CommandId::ViewFit.token(), "view-fit");
    assert_eq!(CommandId::ViewFitLabels.token(), "view-fit-labels");
    assert_eq!(CommandId::ViewInfo.token(), "view-info");
    assert_eq!(CommandId::TreeRotate.token(), "tree-rotate");
    assert_eq!(CommandId::TreeRotateAll.token(), "tree-rotate-all");
    assert_eq!(CommandId::TreeOrderUp.token(), "tree-order-up");
    assert_eq!(CommandId::TreeOrderDown.token(), "tree-order-down");
    assert_eq!(CommandId::TreeReroot.token(), "tree-reroot");
    assert_eq!(CommandId::TreeMidpoint.token(), "tree-midpoint");
    assert_eq!(CommandId::TreeHide.token(), "tree-hide");
    assert_eq!(CommandId::TreeShow.token(), "tree-show");
    assert_eq!(CommandId::TreePaint.token(), "tree-paint");
    assert_eq!(CommandId::TreeClearColours.token(), "tree-clear-colours");
    assert_eq!(CommandId::ShowHelp.token(), "show-help");

    let ids = all_ids();
    for i in 0..ids.len() {
        for j in 0..i {
            assert_ne!(ids[i].token(), ids[j].token(), "tokens must be unique");
        }
    }
}

#[test]
fn registry_entries_carry_labels_and_accelerators() {
    let specs = all_commands();
    assert_eq!(specs.len(), 27);
    let ids = all_ids();
    for (spec, id) in specs.iter().zip(ids.iter()) {
        assert_eq!(spec.id, *id);
        assert_eq!(spec.group, id.group());
        assert_eq!(spec.label, id.label());
        assert_eq!(spec.accelerator, id.accelerator());
    }
    assert_eq!(specs[0].label, "Open\u{2026}");
    assert_eq!(specs[0].accelerator, Some("CmdOrCtrl+O"));
    assert_eq!(specs[1].label, "Open Tree\u{2026}");
    assert_eq!(specs[1].accelerator, Some("CmdOrCtrl+Shift+O"));
    assert_eq!(CommandId::TreeRotate.accelerator(), None);
    assert_eq!(CommandId::TreeMidpoint.accelerator(), Some("CmdOrCtrl+M"));
    assert_eq!(CommandId::ShowHelp.label(), "PearTree Help");
}

#[test]
fn groups_partition_the_registry() {
    assert_eq!(
        ids_in_group(MenuGroup::File),
        vec![
            CommandId::OpenFile,
            CommandId::OpenTree,
            CommandId::ImportAnnot,
            CommandId::ExportTree,
            CommandId::ExportImage,
        ]
    );
    assert_eq!(ids_in_group(MenuGroup::Edit), vec![CommandId::SelectAll]);
    assert_eq!(ids_in_group(MenuGroup::View).len(), 10);
    assert_eq!(ids_in_group(MenuGroup::Tree).len(), 10);
    assert_eq!(ids_in_group(MenuGroup::Help), vec![CommandId::ShowHelp]);
    assert_eq!(ids_in_group(MenuGroup::AppMenu).len(), 0);
    assert_eq!(ids_in_group(MenuGroup::Window).len(), 0);
}

#[test]
fn menu_tree_matches_declared_layout() {
    let t = build_menu_tree();
    assert_eq!(t.submenus.len(), 7);

    let titles: Vec<&str> = t.submenus.iter().map(|s| s.title).collect();
    assert_eq!(titles, vec!["PearTree", "File", "Edit", "View", "Tree", "Window", "Help"]);

    let groups: Vec<MenuGroup> = t.submenus.iter().map(|s| s.group).collect();
    assert_eq!(
        groups,
        vec![
            MenuGroup::AppMenu,
            MenuGroup::File,
            MenuGroup::Edit,
            MenuGroup::View,
            MenuGroup::Tree,
            MenuGroup::Window,
            MenuGroup::Help,
        ]
    );

    let file = &t.submenus[1].entries;
    assert_eq!(
        *file,
        vec![
            MenuEntry::Command(CommandId::OpenFile),
            MenuEntry::Command(CommandId::OpenTree),
            MenuEntry::Command(CommandId::ImportAnnot),
            MenuEntry::Predefined(PredefinedItem::Separator),
            MenuEntry::Command(CommandId::ExportTree),
            MenuEntry::Command(CommandId::ExportImage),
            MenuEntry::Predefined(PredefinedItem::Separator),
            MenuEntry::Predefined(PredefinedItem::CloseWindow),
        ]
    );

    // Climb Out precedes Drill in the View submenu.
    let view = &t.submenus[3].entries;
    let climb = view.iter().position(|e| *e == MenuEntry::Command(CommandId::ViewClimb));
    let drill = view.iter().position(|e| *e == MenuEntry::Command(CommandId::ViewDrill));
    assert!(climb.unwrap() < drill.unwrap());
    assert_eq!(view.len(), 14);
    assert_eq!(t.submenus[4].entries.len(), 14);
    assert_eq!(
        t.submenus[5].entries,
        vec![
            MenuEntry::Predefined(PredefinedItem::Minimize),
            MenuEntry::Predefined(PredefinedItem::Maximize),
            MenuEntry::Predefined(PredefinedItem::Fullscreen),
        ]
    );
    assert_eq!(t.submenus[6].entries, vec![MenuEntry::Command(CommandId::ShowHelp)]);

    // Every registry command appears in the tree exactly once.
    for id in all_ids() {
        let mut count = 0;
        for submenu in &t.submenus {
            for entry in &submenu.entries {
                if *entry == MenuEntry::Command(id) {
                    count += 1;
                }
            }
        }
        assert_eq!(count, 1, "{:?} must appear exactly once", id);
    }
}

#[test]
fn context_updates_cover_every_command_in_order() {
    let c = Context {
        has_tree: true,
        has_selection: false,
        can_go_back: true,
        can_go_forward: false,
        has_history_root: false,
    };
    let updates = context_updates(&c);
    let ids = all_ids();
    assert_eq!(updates.len(), ids.len());
    for (u, id) in updates.iter().zip(ids.iter()) {
        assert_eq!(u.0, *id);
    }
    let lookup = |id: CommandId| updates.iter().find(|u| u.0 == id).unwrap().1;
    assert!(lookup(CommandId::ExportTree));
    assert!(lookup(CommandId::ViewBack));
    assert!(!lookup(CommandId::ViewForward));
    assert!(!lookup(CommandId::TreePaint));
    assert!(lookup(CommandId::OpenFile));
}

#[test]
fn menu_state_tracks_the_policy() {
    let mut s = MenuState::new();
    assert!(!s.is_command_enabled(CommandId::ExportTree));
    assert!(s.is_command_enabled(CommandId::OpenTree));
    assert!(!s.enabled_commands().contains(&CommandId::ExportTree));

    let loaded = Context {
        has_tree: true,
        has_selection: true,
        can_go_back: false,
        can_go_forward: false,
        has_history_root: true,
    };
    s.apply_context(loaded);
    assert!(s.is_command_enabled(CommandId::ExportTree));
    assert!(s.is_command_enabled(CommandId::TreeRotate));
    assert!(!s.is_command_enabled(CommandId::ViewBack));
    assert!(s.enabled_commands().contains(&CommandId::ExportTree));

    s.apply_context(Context::startup());
    assert!(!s.is_command_enabled(CommandId::ExportTree));
    assert_eq!(s.enabled_commands().clone(), {
        let fresh = MenuState::new();
        fresh.enabled_commands().clone()
    });
}
