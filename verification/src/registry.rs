use vstd::prelude::*;

verus! {

/// Stable identifier of one menu command.
///
/// The identifier's string token is the sole payload of forwarded
/// activation events; removing or renaming one is a breaking protocol
/// change for the presentation layer.
#[derive(Clone, Copy, PartialEq, Eq, Structural, Debug)]
pub enum CommandId {
    OpenFile,
    OpenTree,
    ImportAnnot,
    ExportTree,
    ExportImage,
    SelectAll,
    ViewBack,
    ViewForward,
    ViewDrill,
    ViewClimb,
    ViewHome,
    ViewZoomIn,
    ViewZoomOut,
    ViewFit,
    ViewFitLabels,
    ViewInfo,
    TreeRotate,
    TreeRotateAll,
    TreeOrderUp,
    TreeOrderDown,
    TreeReroot,
    TreeMidpoint,
    TreeHide,
    TreeShow,
    TreePaint,
    TreeClearColours,
    ShowHelp,
}

/// The menu group a command belongs to.
#[derive(Clone, Copy, PartialEq, Eq, Structural, Debug)]
pub enum MenuGroup {
    AppMenu,
    File,
    Edit,
    View,
    Tree,
    Window,
    Help,
}

/// The registry order: every command, in the order the menu declares them.
pub open spec fn id_order() -> Seq<CommandId> {
    seq![
        CommandId::OpenFile,
        CommandId::OpenTree,
        CommandId::ImportAnnot,
        CommandId::ExportTree,
        CommandId::ExportImage,
        CommandId::SelectAll,
        CommandId::ViewBack,
        CommandId::ViewForward,
        CommandId::ViewDrill,
        CommandId::ViewClimb,
        CommandId::ViewHome,
        CommandId::ViewZoomIn,
        CommandId::ViewZoomOut,
        CommandId::ViewFit,
        CommandId::ViewFitLabels,
        CommandId::ViewInfo,
        CommandId::TreeRotate,
        CommandId::TreeRotateAll,
        CommandId::TreeOrderUp,
        CommandId::TreeOrderDown,
        CommandId::TreeReroot,
        CommandId::TreeMidpoint,
        CommandId::TreeHide,
        CommandId::TreeShow,
        CommandId::TreePaint,
        CommandId::TreeClearColours,
        CommandId::ShowHelp,
    ]
}

impl CommandId {
    /// The string token of this command, as the native menu and the
    /// presentation layer both know it.
    pub open spec fn token_spec(self) -> Seq<char> {
        match self {
            CommandId::OpenFile => "open-file"@,
            CommandId::OpenTree => "open-tree"@,
            CommandId::ImportAnnot => "import-annot"@,
            CommandId::ExportTree => "export-tree"@,
            CommandId::ExportImage => "export-image"@,
            CommandId::SelectAll => "select-all"@,
            CommandId::ViewBack => "view-back"@,
            CommandId::ViewForward => "view-forward"@,
            CommandId::ViewDrill => "view-drill"@,
            CommandId::ViewClimb => "view-climb"@,
            CommandId::ViewHome => "view-home"@,
            CommandId::ViewZoomIn => "view-zoom-in"@,
            CommandId::ViewZoomOut => "view-zoom-out"@,
            CommandId::ViewFit => "view-fit"@,
            CommandId::ViewFitLabels => "view-fit-labels"@,
            CommandId::ViewInfo => "view-info"@,
            CommandId::TreeRotate => "tree-rotate"@,
            CommandId::TreeRotateAll => "tree-rotate-all"@,
            CommandId::TreeOrderUp => "tree-order-up"@,
            CommandId::TreeOrderDown => "tree-order-down"@,
            CommandId::TreeReroot => "tree-reroot"@,
            CommandId::TreeMidpoint => "tree-midpoint"@,
            CommandId::TreeHide => "tree-hide"@,
            CommandId::TreeShow => "tree-show"@,
            CommandId::TreePaint => "tree-paint"@,
            CommandId::TreeClearColours => "tree-clear-colours"@,
            CommandId::ShowHelp => "show-help"@,
        }
    }

    /// The string token of this command.
    pub fn token(self) -> (r: &'static str)
        ensures
            r@ == self.token_spec(),
    {
        match self {
            CommandId::OpenFile => "open-file",
            CommandId::OpenTree => "open-tree",
            CommandId::ImportAnnot => "import-annot",
            CommandId::ExportTree => "export-tree",
            CommandId::ExportImage => "export-image",
            CommandId::SelectAll => "select-all",
            CommandId::ViewBack => "view-back",
            CommandId::ViewForward => "view-forward",
            CommandId::ViewDrill => "view-drill",
            CommandId::ViewClimb => "view-climb",
            CommandId::ViewHome => "view-home",
            CommandId::ViewZoomIn => "view-zoom-in",
            CommandId::ViewZoomOut => "view-zoom-out",
            CommandId::ViewFit => "view-fit",
            CommandId::ViewFitLabels => "view-fit-labels",
            CommandId::ViewInfo => "view-info",
            CommandId::TreeRotate => "tree-rotate",
            CommandId::TreeRotateAll => "tree-rotate-all",
            CommandId::TreeOrderUp => "tree-order-up",
            CommandId::TreeOrderDown => "tree-order-down",
            CommandId::TreeReroot => "tree-reroot",
            CommandId::TreeMidpoint => "tree-midpoint",
            CommandId::TreeHide => "tree-hide",
            CommandId::TreeShow => "tree-show",
            CommandId::TreePaint => "tree-paint",
            CommandId::TreeClearColours => "tree-clear-colours",
            CommandId::ShowHelp => "show-help",
        }
    }

    /// The group this command belongs to.
    pub open spec fn group_spec(self) -> MenuGroup {
        match self {
            CommandId::OpenFile => MenuGroup::File,
            CommandId::OpenTree => MenuGroup::File,
            CommandId::ImportAnnot => MenuGroup::File,
            CommandId::ExportTree => MenuGroup::File,
            CommandId::ExportImage => MenuGroup::File,
            CommandId::SelectAll => MenuGroup::Edit,
            CommandId::ViewBack => MenuGroup::View,
            CommandId::ViewForward => MenuGroup::View,
            CommandId::ViewDrill => MenuGroup::View,
            CommandId::ViewClimb => MenuGroup::View,
            CommandId::ViewHome => MenuGroup::View,
            CommandId::ViewZoomIn => MenuGroup::View,
            CommandId::ViewZoomOut => MenuGroup::View,
            CommandId::ViewFit => MenuGroup::View,
            CommandId::ViewFitLabels => MenuGroup::View,
            CommandId::ViewInfo => MenuGroup::View,
            CommandId::TreeRotate => MenuGroup::Tree,
            CommandId::TreeRotateAll => MenuGroup::Tree,
            CommandId::TreeOrderUp => MenuGroup::Tree,
            CommandId::TreeOrderDown => MenuGroup::Tree,
            CommandId::TreeReroot => MenuGroup::Tree,
            CommandId::TreeMidpoint => MenuGroup::Tree,
            CommandId::TreeHide => MenuGroup::Tree,
            CommandId::TreeShow => MenuGroup::Tree,
            CommandId::TreePaint => MenuGroup::Tree,
            CommandId::TreeClearColours => MenuGroup::Tree,
            CommandId::ShowHelp => MenuGroup::Help,
        }
    }

    /// The group this command belongs to.
    pub fn group(self) -> (g: MenuGroup)
        ensures
            g == self.group_spec(),
    {
        match self {
            CommandId::OpenFile
            | CommandId::OpenTree
            | CommandId::ImportAnnot
            | CommandId::ExportTree
            | CommandId::ExportImage => MenuGroup::File,
            CommandId::SelectAll => MenuGroup::Edit,
            CommandId::ViewBack
            | CommandId::ViewForward
            | CommandId::ViewDrill
            | CommandId::ViewClimb
            | CommandId::ViewHome
            | CommandId::ViewZoomIn
            | CommandId::ViewZoomOut
            | CommandId::ViewFit
            | CommandId::ViewFitLabels
            | CommandId::ViewInfo => MenuGroup::View,
            CommandId::TreeRotate
            | CommandId::TreeRotateAll
            | CommandId::TreeOrderUp
            | CommandId::TreeOrderDown
            | CommandId::TreeReroot
            | CommandId::TreeMidpoint
            | CommandId::TreeHide
            | CommandId::TreeShow
            | CommandId::TreePaint
            | CommandId::TreeClearColours => MenuGroup::Tree,
            CommandId::ShowHelp => MenuGroup::Help,
        }
    }
}

impl CommandId {
    /// The human label of this command.
    pub open spec fn label_spec(self) -> Seq<char> {
        match self {
            CommandId::OpenFile => "Open\u{2026}"@,
            CommandId::OpenTree => "Open Tree\u{2026}"@,
            CommandId::ImportAnnot => "Import Annotations\u{2026}"@,
            CommandId::ExportTree => "Export Tree\u{2026}"@,
            CommandId::ExportImage => "Export Image\u{2026}"@,
            CommandId::SelectAll => "Select All"@,
            CommandId::ViewBack => "Back"@,
            CommandId::ViewForward => "Forward"@,
            CommandId::ViewDrill => "Drill into Subtree"@,
            CommandId::ViewClimb => "Climb Out One Level"@,
            CommandId::ViewHome => "Root"@,
            CommandId::ViewZoomIn => "Zoom In"@,
            CommandId::ViewZoomOut => "Zoom Out"@,
            CommandId::ViewFit => "Fit All"@,
            CommandId::ViewFitLabels => "Fit Labels"@,
            CommandId::ViewInfo => "Get Info..."@,
            CommandId::TreeRotate => "Rotate Node"@,
            CommandId::TreeRotateAll => "Rotate Clade"@,
            CommandId::TreeOrderUp => "Order Up"@,
            CommandId::TreeOrderDown => "Order Down"@,
            CommandId::TreeReroot => "Re-root Tree"@,
            CommandId::TreeMidpoint => "Midpoint Root"@,
            CommandId::TreeHide => "Hide Nodes"@,
            CommandId::TreeShow => "Show Nodes"@,
            CommandId::TreePaint => "Paint Node"@,
            CommandId::TreeClearColours => "Clear Colours"@,
            CommandId::ShowHelp => "PearTree Help"@,
        }
    }

    /// The human label of this command.
    pub fn label(self) -> (r: &'static str)
        ensures
            r@ == self.label_spec(),
    {
        match self {
            CommandId::OpenFile => "Open\u{2026}",
            CommandId::OpenTree => "Open Tree\u{2026}",
            CommandId::ImportAnnot => "Import Annotations\u{2026}",
            CommandId::ExportTree => "Export Tree\u{2026}",
            CommandId::ExportImage => "Export Image\u{2026}",
            CommandId::SelectAll => "Select All",
            CommandId::ViewBack => "Back",
            CommandId::ViewForward => "Forward",
            CommandId::ViewDrill => "Drill into Subtree",
            CommandId::ViewClimb => "Climb Out One Level",
            CommandId::ViewHome => "Root",
            CommandId::ViewZoomIn => "Zoom In",
            CommandId::ViewZoomOut => "Zoom Out",
            CommandId::ViewFit => "Fit All",
            CommandId::ViewFitLabels => "Fit Labels",
            CommandId::ViewInfo => "Get Info...",
            CommandId::TreeRotate => "Rotate Node",
            CommandId::TreeRotateAll => "Rotate Clade",
            CommandId::TreeOrderUp => "Order Up",
            CommandId::TreeOrderDown => "Order Down",
            CommandId::TreeReroot => "Re-root Tree",
            CommandId::TreeMidpoint => "Midpoint Root",
            CommandId::TreeHide => "Hide Nodes",
            CommandId::TreeShow => "Show Nodes",
            CommandId::TreePaint => "Paint Node",
            CommandId::TreeClearColours => "Clear Colours",
            CommandId::ShowHelp => "PearTree Help",
        }
    }

    /// The key combination bound to this command, if any.
    pub open spec fn accelerator_spec(self) -> Option<Seq<char>> {
        match self {
            CommandId::OpenFile => Some("CmdOrCtrl+O"@),
            CommandId::OpenTree => Some("CmdOrCtrl+Shift+O"@),
            CommandId::ImportAnnot => Some("CmdOrCtrl+Shift+A"@),
            CommandId::ExportTree => Some("CmdOrCtrl+E"@),
            CommandId::ExportImage => Some("CmdOrCtrl+Shift+E"@),
            CommandId::SelectAll => Some("CmdOrCtrl+A"@),
            CommandId::ViewBack => Some("CmdOrCtrl+["@),
            CommandId::ViewForward => Some("CmdOrCtrl+]"@),
            CommandId::ViewDrill => Some("CmdOrCtrl+Shift+."@),
            CommandId::ViewClimb => Some("CmdOrCtrl+Shift+,"@),
            CommandId::ViewHome => Some("CmdOrCtrl+\\"@),
            CommandId::ViewZoomIn => Some("CmdOrCtrl+="@),
            CommandId::ViewZoomOut => Some("CmdOrCtrl+-"@),
            CommandId::ViewFit => Some("CmdOrCtrl+0"@),
            CommandId::ViewFitLabels => Some("CmdOrCtrl+Shift+0"@),
            CommandId::ViewInfo => Some("CmdOrCtrl+I"@),
            CommandId::TreeRotate => None,
            CommandId::TreeRotateAll => None,
            CommandId::TreeOrderUp => Some("CmdOrCtrl+D"@),
            CommandId::TreeOrderDown => Some("CmdOrCtrl+U"@),
            CommandId::TreeReroot => None,
            CommandId::TreeMidpoint => Some("CmdOrCtrl+M"@),
            CommandId::TreeHide => None,
            CommandId::TreeShow => None,
            CommandId::TreePaint => None,
            CommandId::TreeClearColours => None,
            CommandId::ShowHelp => Some("CmdOrCtrl+?"@),
        }
    }

    /// The key combination bound to this command, if any.
    pub fn accelerator(self) -> (r: Option<&'static str>)
        ensures
            (r is Some) == (self.accelerator_spec() is Some),
            r is Some ==> r->0@ == self.accelerator_spec()->0,
    {
        match self {
            CommandId::OpenFile => Some("CmdOrCtrl+O"),
            CommandId::OpenTree => Some("CmdOrCtrl+Shift+O"),
            CommandId::ImportAnnot => Some("CmdOrCtrl+Shift+A"),
            CommandId::ExportTree => Some("CmdOrCtrl+E"),
            CommandId::ExportImage => Some("CmdOrCtrl+Shift+E"),
            CommandId::SelectAll => Some("CmdOrCtrl+A"),
            CommandId::ViewBack => Some("CmdOrCtrl+["),
            CommandId::ViewForward => Some("CmdOrCtrl+]"),
            CommandId::ViewDrill => Some("CmdOrCtrl+Shift+."),
            CommandId::ViewClimb => Some("CmdOrCtrl+Shift+,"),
            CommandId::ViewHome => Some("CmdOrCtrl+\\"),
            CommandId::ViewZoomIn => Some("CmdOrCtrl+="),
            CommandId::ViewZoomOut => Some("CmdOrCtrl+-"),
            CommandId::ViewFit => Some("CmdOrCtrl+0"),
            CommandId::ViewFitLabels => Some("CmdOrCtrl+Shift+0"),
            CommandId::ViewInfo => Some("CmdOrCtrl+I"),
            CommandId::TreeRotate => None,
            CommandId::TreeRotateAll => None,
            CommandId::TreeOrderUp => Some("CmdOrCtrl+D"),
            CommandId::TreeOrderDown => Some("CmdOrCtrl+U"),
            CommandId::TreeReroot => None,
            CommandId::TreeMidpoint => Some("CmdOrCtrl+M"),
            CommandId::TreeHide => None,
            CommandId::TreeShow => None,
            CommandId::TreePaint => None,
            CommandId::TreeClearColours => None,
            CommandId::ShowHelp => Some("CmdOrCtrl+?"),
        }
    }
}

/// One registry entry: a command with its label, optional accelerator
/// and group. Created once at startup; never mutated.
pub struct CommandSpec {
    pub id: CommandId,
    pub label: &'static str,
    pub accelerator: Option<&'static str>,
    pub group: MenuGroup,
}

/// Whether `s` is the registry entry belonging to command `id`.
pub open spec fn spec_matches_id(s: CommandSpec, id: CommandId) -> bool {
    &&& s.id == id
    &&& s.label@ == id.label_spec()
    &&& (s.accelerator is Some) == (id.accelerator_spec() is Some)
    &&& (s.accelerator is Some ==> s.accelerator->0@ == id.accelerator_spec()->0)
    &&& s.group == id.group_spec()
}

/// Every registry entry, in registry order: the single source of truth
/// both the menu controller and the availability policy consume.
pub fn all_commands() -> (v: Vec<CommandSpec>)
    ensures
        v@.len() == id_order().len(),
        forall|i: int| 0 <= i < v@.len() ==> spec_matches_id(#[trigger] v@[i], id_order()[i]),
{
    let ids = all_ids();
    let mut v: Vec<CommandSpec> = Vec::new();
    let mut i: usize = 0;
    while i < ids.len()
        invariant
            ids@ == id_order(),
            i <= ids@.len(),
            v@.len() == i,
            forall|j: int| 0 <= j < i ==> spec_matches_id(#[trigger] v@[j], id_order()[j]),
        decreases ids@.len() - i,
    {
        let id = ids[i];
        v.push(CommandSpec { id, label: id.label(), accelerator: id.accelerator(), group: id.group() });
        i = i + 1;
    }
    v
}

/// The registry restricted to one group, as a predicate on command ids.
pub open spec fn group_pred(g: MenuGroup) -> spec_fn(CommandId) -> bool {
    |id: CommandId| id.group_spec() == g
}

/// The command ids of group `g`, in registry order.
pub fn ids_in_group(g: MenuGroup) -> (v: Vec<CommandId>)
    ensures
        v@ == id_order().filter(group_pred(g)),
        forall|id: CommandId| #[trigger] v@.contains(id) <==> id.group_spec() == g,
        v@.no_duplicates(),
{
    let ids = all_ids();
    let mut v: Vec<CommandId> = Vec::new();
    let mut i: usize = 0;
    while i < ids.len()
        invariant
            ids@ == id_order(),
            i <= ids@.len(),
            v@ == id_order().subrange(0, i as int).filter(group_pred(g)),
        decreases ids@.len() - i,
    {
        let id = ids[i];
        proof {
            assert(id_order().subrange(0, i + 1) =~= id_order().subrange(0, i as int).push(
                id_order()[i as int],
            ));
            crate::seqs::lemma_filter_push(id_order().subrange(0, i as int), id_order()[i as int], group_pred(g));
        }
        if id.group() == g {
            v.push(id);
        }
        i = i + 1;
    }
    proof {
        assert(id_order().subrange(0, id_order().len() as int) =~= id_order());
        lemma_registry_complete();
        lemma_registry_unique();
        crate::seqs::lemma_filter_no_duplicates(id_order(), group_pred(g));
        assert forall|id: CommandId| #[trigger] v@.contains(id) <==> id.group_spec() == g by {
            if v@.contains(id) {
                let j = choose|j: int| 0 <= j < v@.len() && v@[j] == id;
                id_order().lemma_filter_pred(group_pred(g), j);
            }
            if id.group_spec() == g {
                let k = choose|k: int| 0 <= k < id_order().len() && id_order()[k] == id;
                id_order().lemma_filter_contains(group_pred(g), k);
            }
        }
    }
    v
}

/// Every command id, in registry order.
pub fn all_ids() -> (v: Vec<CommandId>)
    ensures
        v@ == id_order(),
{
    let mut v: Vec<CommandId> = Vec::new();
    v.push(CommandId::OpenFile);
    v.push(CommandId::OpenTree);
    v.push(CommandId::ImportAnnot);
    v.push(CommandId::ExportTree);
    v.push(CommandId::ExportImage);
    v.push(CommandId::SelectAll);
    v.push(CommandId::ViewBack);
    v.push(CommandId::ViewForward);
    v.push(CommandId::ViewDrill);
    v.push(CommandId::ViewClimb);
    v.push(CommandId::ViewHome);
    v.push(CommandId::ViewZoomIn);
    v.push(CommandId::ViewZoomOut);
    v.push(CommandId::ViewFit);
    v.push(CommandId::ViewFitLabels);
    v.push(CommandId::ViewInfo);
    v.push(CommandId::TreeRotate);
    v.push(CommandId::TreeRotateAll);
    v.push(CommandId::TreeOrderUp);
    v.push(CommandId::TreeOrderDown);
    v.push(CommandId::TreeReroot);
    v.push(CommandId::TreeMidpoint);
    v.push(CommandId::TreeHide);
    v.push(CommandId::TreeShow);
    v.push(CommandId::TreePaint);
    v.push(CommandId::TreeClearColours);
    v.push(CommandId::ShowHelp);
    proof {
        assert(v@ =~= id_order());
    }
    v
}

/// Law: the registry is complete: every command id appears in it.
pub proof fn lemma_registry_complete()
    ensures
        forall|id: CommandId| id_order().contains(id),
{
    assert forall|id: CommandId| id_order().contains(id) by {
        match id {
            CommandId::OpenFile => assert(id_order()[0] == id),
            CommandId::OpenTree => assert(id_order()[1] == id),
            CommandId::ImportAnnot => assert(id_order()[2] == id),
            CommandId::ExportTree => assert(id_order()[3] == id),
            CommandId::ExportImage => assert(id_order()[4] == id),
            CommandId::SelectAll => assert(id_order()[5] == id),
            CommandId::ViewBack => assert(id_order()[6] == id),
            CommandId::ViewForward => assert(id_order()[7] == id),
            CommandId::ViewDrill => assert(id_order()[8] == id),
            CommandId::ViewClimb => assert(id_order()[9] == id),
            CommandId::ViewHome => assert(id_order()[10] == id),
            CommandId::ViewZoomIn => assert(id_order()[11] == id),
            CommandId::ViewZoomOut => assert(id_order()[12] == id),
            CommandId::ViewFit => assert(id_order()[13] == id),
            CommandId::ViewFitLabels => assert(id_order()[14] == id),
            CommandId::ViewInfo => assert(id_order()[15] == id),
            CommandId::TreeRotate => assert(id_order()[16] == id),
            CommandId::TreeRotateAll => assert(id_order()[17] == id),
            CommandId::TreeOrderUp => assert(id_order()[18] == id),
            CommandId::TreeOrderDown => assert(id_order()[19] == id),
            CommandId::TreeReroot => assert(id_order()[20] == id),
            CommandId::TreeMidpoint => assert(id_order()[21] == id),
            CommandId::TreeHide => assert(id_order()[22] == id),
            CommandId::TreeShow => assert(id_order()[23] == id),
            CommandId::TreePaint => assert(id_order()[24] == id),
            CommandId::TreeClearColours => assert(id_order()[25] == id),
            CommandId::ShowHelp => assert(id_order()[26] == id),
        }
    }
}

/// Law: command ids are unique across the registry.
#[verifier::rlimit(60)]
pub proof fn lemma_registry_unique()
    ensures
        id_order().no_duplicates(),
{
}

} // verus!
