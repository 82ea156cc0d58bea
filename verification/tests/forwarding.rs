use peartree::bridge::PickOutcome;
use peartree::bridge::PickedFile;
use peartree::bridge::resolve_outcome;
use peartree::bridge::tree_file_extensions;
use peartree::forwarder::EventForwarder;
use peartree::registry::CommandId;
use peartree::registry::all_ids;

/// N activations are delivered as exactly N messages, in activation
/// order, each payload verbatim.
#[test]
fn forwarder_delivers_each_activation_once_in_order() {
    let mut f = EventForwarder::new();
    assert_eq!(f.delivered_count(), 0);

    let activations = vec![
        "open-tree".to_string(),
        "tree-reroot".to_string(),
        "tree-reroot".to_string(),
        "view-back".to_string(),
    ];
    for a in &activations {
        f.forward(a.clone());
    }
    assert_eq!(f.delivered_count(), activations.len());
    assert_eq!(*f.delivered_log(), activations);
}

#[test]
fn forward_all_appends_in_order() {
    let mut f = EventForwarder::new();
    f.forward("show-help".to_string());
    let batch = vec!["view-fit".to_string(), "view-fit-labels".to_string()];
    f.forward_all(&batch);
    assert_eq!(
        *f.delivered_log(),
        vec!["show-help".to_string(), "view-fit".to_string(), "view-fit-labels".to_string()]
    );
}

#[test]
fn forwarder_relays_every_registry_token_unmodified() {
    let mut f = EventForwarder::new();
    let ids = all_ids();
    for id in &ids {
        f.forward(id.token().to_string());
    }
    assert_eq!(f.delivered_count(), ids.len());
    for (payload, id) in f.delivered_log().iter().zip(ids.iter()) {
        assert_eq!(payload, id.token());
    }
}

#[test]
fn cancelled_pick_is_reported_as_cancelled() {
    match resolve_outcome(PickedFile::NoChoice) {
        PickOutcome::Cancelled => {}
        PickOutcome::Loaded { .. } => panic!("a cancelled pick must not load"),
        PickOutcome::Failed { .. } => panic!("a cancelled pick is not a failure"),
    }
}

#[test]
fn chosen_file_loads_name_and_exact_content() {
    let outcome = resolve_outcome(PickedFile::Chosen {
        name: Some("finches.nwk".to_string()),
        read: Ok("((a:1,b:2):0.5,c:3);\n".to_string()),
    });
    match outcome {
        PickOutcome::Loaded { name, content } => {
            assert_eq!(name, "finches.nwk");
            assert_eq!(content, "((a:1,b:2):0.5,c:3);\n");
        }
        _ => panic!("a readable chosen file must load"),
    }
}

#[test]
fn nameless_path_falls_back_to_default_name() {
    let outcome = resolve_outcome(PickedFile::Chosen {
        name: None,
        read: Ok("(a,b);".to_string()),
    });
    match outcome {
        PickOutcome::Loaded { name, content } => {
            assert_eq!(name, "tree");
            assert_eq!(content, "(a,b);");
        }
        _ => panic!("a readable chosen file must load"),
    }
}

#[test]
fn read_failure_preserves_the_os_message() {
    let outcome = resolve_outcome(PickedFile::Chosen {
        name: Some("broken.tree".to_string()),
        read: Err("Permission denied (os error 13)".to_string()),
    });
    match outcome {
        PickOutcome::Failed { reason } => {
            assert_eq!(reason, "Permission denied (os error 13)");
        }
        _ => panic!("a failed read must be reported as Failed"),
    }
}

#[test]
fn path_resolution_failure_preserves_the_os_message() {
    let outcome = resolve_outcome(PickedFile::PathError("unsupported URI".to_string()));
    match outcome {
        PickOutcome::Failed { reason } => assert_eq!(reason, "unsupported URI"),
        _ => panic!("an unresolvable path must be reported as Failed"),
    }
}

#[test]
fn picker_filter_lists_the_tree_extensions() {
    assert_eq!(
        tree_file_extensions(),
        vec!["nex", "nexus", "tre", "tree", "nwk", "newick", "txt"]
    );
}
