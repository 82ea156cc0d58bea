use vstd::prelude::*;

use crate::context::Context;
use crate::context::startup_context;
use crate::policy::enabled_pred;
use crate::policy::enabled_spec;
use crate::policy::enabled_ids;
use crate::policy::is_enabled;
use crate::registry::CommandId;
use crate::registry::MenuGroup;
use crate::registry::all_ids;
use crate::registry::id_order;
use crate::registry::lemma_registry_complete;

verus! {

/// A menu item the OS provides ready-made; the shell never receives
/// activation events it must forward for these.
#[derive(Clone, Copy, PartialEq, Eq, Structural, Debug)]
pub enum PredefinedItem {
    About,
    Separator,
    Services,
    Hide,
    HideOthers,
    ShowAll,
    Quit,
    CloseWindow,
    Cut,
    CopyText,
    Paste,
    Minimize,
    Maximize,
    Fullscreen,
}

/// One entry of a submenu: a registry command or a predefined item.
#[derive(Clone, Copy, PartialEq, Eq, Structural, Debug)]
pub enum MenuEntry {
    Command(CommandId),
    Predefined(PredefinedItem),
}

/// One submenu: its group, its title, and its entries in declared
/// order.
pub struct SubmenuModel {
    pub group: MenuGroup,
    pub title: &'static str,
    pub entries: Vec<MenuEntry>,
}

/// The whole menu: an ordered hierarchy of submenus, built once from
/// the command registry and owned by the menu controller; the native
/// menu widget is a projection of it, never a second source of truth.
pub struct MenuTree {
    pub submenus: Vec<SubmenuModel>,
}

/// The application submenu's entries.
pub open spec fn app_menu_entries() -> Seq<MenuEntry> {
    seq![
        MenuEntry::Predefined(PredefinedItem::About),
        MenuEntry::Predefined(PredefinedItem::Separator),
        MenuEntry::Predefined(PredefinedItem::Services),
        MenuEntry::Predefined(PredefinedItem::Separator),
        MenuEntry::Predefined(PredefinedItem::Hide),
        MenuEntry::Predefined(PredefinedItem::HideOthers),
        MenuEntry::Predefined(PredefinedItem::ShowAll),
        MenuEntry::Predefined(PredefinedItem::Separator),
        MenuEntry::Predefined(PredefinedItem::Quit),
    ]
}

/// The File submenu's entries.
pub open spec fn file_menu_entries() -> Seq<MenuEntry> {
    seq![
        MenuEntry::Command(CommandId::OpenFile),
        MenuEntry::Command(CommandId::OpenTree),
        MenuEntry::Command(CommandId::ImportAnnot),
        MenuEntry::Predefined(PredefinedItem::Separator),
        MenuEntry::Command(CommandId::ExportTree),
        MenuEntry::Command(CommandId::ExportImage),
        MenuEntry::Predefined(PredefinedItem::Separator),
        MenuEntry::Predefined(PredefinedItem::CloseWindow),
    ]
}

/// The Edit submenu's entries.
pub open spec fn edit_menu_entries() -> Seq<MenuEntry> {
    seq![
        MenuEntry::Predefined(PredefinedItem::Separator),
        MenuEntry::Predefined(PredefinedItem::Cut),
        MenuEntry::Predefined(PredefinedItem::CopyText),
        MenuEntry::Predefined(PredefinedItem::Paste),
        MenuEntry::Command(CommandId::SelectAll),
    ]
}

/// The View submenu's entries.
pub open spec fn view_menu_entries() -> Seq<MenuEntry> {
    seq![
        MenuEntry::Command(CommandId::ViewBack),
        MenuEntry::Command(CommandId::ViewForward),
        MenuEntry::Predefined(PredefinedItem::Separator),
        MenuEntry::Command(CommandId::ViewClimb),
        MenuEntry::Command(CommandId::ViewDrill),
        MenuEntry::Command(CommandId::ViewHome),
        MenuEntry::Predefined(PredefinedItem::Separator),
        MenuEntry::Command(CommandId::ViewZoomIn),
        MenuEntry::Command(CommandId::ViewZoomOut),
        MenuEntry::Predefined(PredefinedItem::Separator),
        MenuEntry::Command(CommandId::ViewFit),
        MenuEntry::Command(CommandId::ViewFitLabels),
        MenuEntry::Predefined(PredefinedItem::Separator),
        MenuEntry::Command(CommandId::ViewInfo),
    ]
}

/// The Tree submenu's entries.
pub open spec fn tree_menu_entries() -> Seq<MenuEntry> {
    seq![
        MenuEntry::Command(CommandId::TreeRotate),
        MenuEntry::Command(CommandId::TreeRotateAll),
        MenuEntry::Predefined(PredefinedItem::Separator),
        MenuEntry::Command(CommandId::TreeOrderUp),
        MenuEntry::Command(CommandId::TreeOrderDown),
        MenuEntry::Predefined(PredefinedItem::Separator),
        MenuEntry::Command(CommandId::TreeReroot),
        MenuEntry::Command(CommandId::TreeMidpoint),
        MenuEntry::Predefined(PredefinedItem::Separator),
        MenuEntry::Command(CommandId::TreeHide),
        MenuEntry::Command(CommandId::TreeShow),
        MenuEntry::Predefined(PredefinedItem::Separator),
        MenuEntry::Command(CommandId::TreePaint),
        MenuEntry::Command(CommandId::TreeClearColours),
    ]
}

/// The Window submenu's entries.
pub open spec fn window_menu_entries() -> Seq<MenuEntry> {
    seq![
        MenuEntry::Predefined(PredefinedItem::Minimize),
        MenuEntry::Predefined(PredefinedItem::Maximize),
        MenuEntry::Predefined(PredefinedItem::Fullscreen),
    ]
}

/// The Help submenu's entries.
pub open spec fn help_menu_entries() -> Seq<MenuEntry> {
    seq![MenuEntry::Command(CommandId::ShowHelp)]
}

/// The commands a run of entries mentions, in order, separators and
/// predefined items dropped.
pub open spec fn entry_commands(entries: Seq<MenuEntry>) -> Seq<CommandId> {
    entries.filter(|e: MenuEntry| e is Command).map_values(|e: MenuEntry| e->Command_0)
}

/// Every registry command in the order the menu presents them.
pub open spec fn menu_command_order() -> Seq<CommandId> {
    seq![
        CommandId::OpenFile,
        CommandId::OpenTree,
        CommandId::ImportAnnot,
        CommandId::ExportTree,
        CommandId::ExportImage,
        CommandId::SelectAll,
        CommandId::ViewBack,
        CommandId::ViewForward,
        CommandId::ViewClimb,
        CommandId::ViewDrill,
        CommandId::ViewHome,
        CommandId::ViewZoomIn,
        CommandId::ViewZoomOut,
        CommandId::ViewFit,
        CommandId::ViewFitLabels,
        CommandId::ViewInfo,
        CommandId::TreeRotate,
        CommandId::TreeRotateAll,
        CommandId::TreeOrderUp,
        CommandId::TreeOrderDown,
        CommandId::TreeReroot,
        CommandId::TreeMidpoint,
        CommandId::TreeHide,
        CommandId::TreeShow,
        CommandId::TreePaint,
        CommandId::TreeClearColours,
        CommandId::ShowHelp,
    ]
}

/// Law: the declared menu tree is a faithful projection of the
/// command registry: reading its submenus in order yields every
/// registry command exactly once, and nothing else.
#[verifier::rlimit(80)]
pub proof fn lemma_menu_covers_registry()
    ensures
        entry_commands(app_menu_entries()) + entry_commands(file_menu_entries())
            + entry_commands(edit_menu_entries()) + entry_commands(view_menu_entries())
            + entry_commands(tree_menu_entries()) + entry_commands(window_menu_entries())
            + entry_commands(help_menu_entries()) =~= menu_command_order(),
        menu_command_order().no_duplicates(),
        forall|id: CommandId| menu_command_order().contains(id),
{
    reveal_with_fuel(Seq::<MenuEntry>::filter, 16);
    assert(entry_commands(app_menu_entries()) =~= Seq::<CommandId>::empty());
    assert(entry_commands(file_menu_entries()) =~= seq![
        CommandId::OpenFile,
        CommandId::OpenTree,
        CommandId::ImportAnnot,
        CommandId::ExportTree,
        CommandId::ExportImage,
    ]);
    assert(entry_commands(edit_menu_entries()) =~= seq![CommandId::SelectAll]);
    assert(entry_commands(view_menu_entries()) =~= seq![
        CommandId::ViewBack,
        CommandId::ViewForward,
        CommandId::ViewClimb,
        CommandId::ViewDrill,
        CommandId::ViewHome,
        CommandId::ViewZoomIn,
        CommandId::ViewZoomOut,
        CommandId::ViewFit,
        CommandId::ViewFitLabels,
        CommandId::ViewInfo,
    ]);
    assert(entry_commands(tree_menu_entries()) =~= seq![
        CommandId::TreeRotate,
        CommandId::TreeRotateAll,
        CommandId::TreeOrderUp,
        CommandId::TreeOrderDown,
        CommandId::TreeReroot,
        CommandId::TreeMidpoint,
        CommandId::TreeHide,
        CommandId::TreeShow,
        CommandId::TreePaint,
        CommandId::TreeClearColours,
    ]);
    assert(entry_commands(window_menu_entries()) =~= Seq::<CommandId>::empty());
    assert(entry_commands(help_menu_entries()) =~= seq![CommandId::ShowHelp]);
    assert forall|id: CommandId| menu_command_order().contains(id) by {
        match id {
            CommandId::OpenFile => assert(menu_command_order()[0] == id),
            CommandId::OpenTree => assert(menu_command_order()[1] == id),
            CommandId::ImportAnnot => assert(menu_command_order()[2] == id),
            CommandId::ExportTree => assert(menu_command_order()[3] == id),
            CommandId::ExportImage => assert(menu_command_order()[4] == id),
            CommandId::SelectAll => assert(menu_command_order()[5] == id),
            CommandId::ViewBack => assert(menu_command_order()[6] == id),
            CommandId::ViewForward => assert(menu_command_order()[7] == id),
            CommandId::ViewClimb => assert(menu_command_order()[8] == id),
            CommandId::ViewDrill => assert(menu_command_order()[9] == id),
            CommandId::ViewHome => assert(menu_command_order()[10] == id),
            CommandId::ViewZoomIn => assert(menu_command_order()[11] == id),
            CommandId::ViewZoomOut => assert(menu_command_order()[12] == id),
            CommandId::ViewFit => assert(menu_command_order()[13] == id),
            CommandId::ViewFitLabels => assert(menu_command_order()[14] == id),
            CommandId::ViewInfo => assert(menu_command_order()[15] == id),
            CommandId::TreeRotate => assert(menu_command_order()[16] == id),
            CommandId::TreeRotateAll => assert(menu_command_order()[17] == id),
            CommandId::TreeOrderUp => assert(menu_command_order()[18] == id),
            CommandId::TreeOrderDown => assert(menu_command_order()[19] == id),
            CommandId::TreeReroot => assert(menu_command_order()[20] == id),
            CommandId::TreeMidpoint => assert(menu_command_order()[21] == id),
            CommandId::TreeHide => assert(menu_command_order()[22] == id),
            CommandId::TreeShow => assert(menu_command_order()[23] == id),
            CommandId::TreePaint => assert(menu_command_order()[24] == id),
            CommandId::TreeClearColours => assert(menu_command_order()[25] == id),
            CommandId::ShowHelp => assert(menu_command_order()[26] == id),
        }
    }
}

/// Whether submenu `s` is the declared submenu of group `g` with
/// title `title` and entries `entries`.
pub open spec fn submenu_is(s: SubmenuModel, g: MenuGroup, title: Seq<char>, entries: Seq<
    MenuEntry,
>) -> bool {
    s.group == g && s.title@ == title && s.entries@ == entries
}

/// Builds the menu tree, once, at startup: every submenu, entry and
/// separator in declared order.
pub fn build_menu_tree() -> (t: MenuTree)
    ensures
        t.submenus@.len() == 7,
        submenu_is(t.submenus@[0], MenuGroup::AppMenu, "PearTree"@, app_menu_entries()),
        submenu_is(t.submenus@[1], MenuGroup::File, "File"@, file_menu_entries()),
        submenu_is(t.submenus@[2], MenuGroup::Edit, "Edit"@, edit_menu_entries()),
        submenu_is(t.submenus@[3], MenuGroup::View, "View"@, view_menu_entries()),
        submenu_is(t.submenus@[4], MenuGroup::Tree, "Tree"@, tree_menu_entries()),
        submenu_is(t.submenus@[5], MenuGroup::Window, "Window"@, window_menu_entries()),
        submenu_is(t.submenus@[6], MenuGroup::Help, "Help"@, help_menu_entries()),
{
    let mut app: Vec<MenuEntry> = Vec::new();
    app.push(MenuEntry::Predefined(PredefinedItem::About));
    app.push(MenuEntry::Predefined(PredefinedItem::Separator));
    app.push(MenuEntry::Predefined(PredefinedItem::Services));
    app.push(MenuEntry::Predefined(PredefinedItem::Separator));
    app.push(MenuEntry::Predefined(PredefinedItem::Hide));
    app.push(MenuEntry::Predefined(PredefinedItem::HideOthers));
    app.push(MenuEntry::Predefined(PredefinedItem::ShowAll));
    app.push(MenuEntry::Predefined(PredefinedItem::Separator));
    app.push(MenuEntry::Predefined(PredefinedItem::Quit));
    proof {
        assert(app@ =~= app_menu_entries());
    }

    let mut file: Vec<MenuEntry> = Vec::new();
    file.push(MenuEntry::Command(CommandId::OpenFile));
    file.push(MenuEntry::Command(CommandId::OpenTree));
    file.push(MenuEntry::Command(CommandId::ImportAnnot));
    file.push(MenuEntry::Predefined(PredefinedItem::Separator));
    file.push(MenuEntry::Command(CommandId::ExportTree));
    file.push(MenuEntry::Command(CommandId::ExportImage));
    file.push(MenuEntry::Predefined(PredefinedItem::Separator));
    file.push(MenuEntry::Predefined(PredefinedItem::CloseWindow));
    proof {
        assert(file@ =~= file_menu_entries());
    }

    let mut edit: Vec<MenuEntry> = Vec::new();
    edit.push(MenuEntry::Predefined(PredefinedItem::Separator));
    edit.push(MenuEntry::Predefined(PredefinedItem::Cut));
    edit.push(MenuEntry::Predefined(PredefinedItem::CopyText));
    edit.push(MenuEntry::Predefined(PredefinedItem::Paste));
    edit.push(MenuEntry::Command(CommandId::SelectAll));
    proof {
        assert(edit@ =~= edit_menu_entries());
    }

    let mut view: Vec<MenuEntry> = Vec::new();
    view.push(MenuEntry::Command(CommandId::ViewBack));
    view.push(MenuEntry::Command(CommandId::ViewForward));
    view.push(MenuEntry::Predefined(PredefinedItem::Separator));
    view.push(MenuEntry::Command(CommandId::ViewClimb));
    view.push(MenuEntry::Command(CommandId::ViewDrill));
    view.push(MenuEntry::Command(CommandId::ViewHome));
    view.push(MenuEntry::Predefined(PredefinedItem::Separator));
    view.push(MenuEntry::Command(CommandId::ViewZoomIn));
    view.push(MenuEntry::Command(CommandId::ViewZoomOut));
    view.push(MenuEntry::Predefined(PredefinedItem::Separator));
    view.push(MenuEntry::Command(CommandId::ViewFit));
    view.push(MenuEntry::Command(CommandId::ViewFitLabels));
    view.push(MenuEntry::Predefined(PredefinedItem::Separator));
    view.push(MenuEntry::Command(CommandId::ViewInfo));
    proof {
        assert(view@ =~= view_menu_entries());
    }

    let mut tree: Vec<MenuEntry> = Vec::new();
    tree.push(MenuEntry::Command(CommandId::TreeRotate));
    tree.push(MenuEntry::Command(CommandId::TreeRotateAll));
    tree.push(MenuEntry::Predefined(PredefinedItem::Separator));
    tree.push(MenuEntry::Command(CommandId::TreeOrderUp));
    tree.push(MenuEntry::Command(CommandId::TreeOrderDown));
    tree.push(MenuEntry::Predefined(PredefinedItem::Separator));
    tree.push(MenuEntry::Command(CommandId::TreeReroot));
    tree.push(MenuEntry::Command(CommandId::TreeMidpoint));
    tree.push(MenuEntry::Predefined(PredefinedItem::Separator));
    tree.push(MenuEntry::Command(CommandId::TreeHide));
    tree.push(MenuEntry::Command(CommandId::TreeShow));
    tree.push(MenuEntry::Predefined(PredefinedItem::Separator));
    tree.push(MenuEntry::Command(CommandId::TreePaint));
    tree.push(MenuEntry::Command(CommandId::TreeClearColours));
    proof {
        assert(tree@ =~= tree_menu_entries());
    }

    let mut window: Vec<MenuEntry> = Vec::new();
    window.push(MenuEntry::Predefined(PredefinedItem::Minimize));
    window.push(MenuEntry::Predefined(PredefinedItem::Maximize));
    window.push(MenuEntry::Predefined(PredefinedItem::Fullscreen));
    proof {
        assert(window@ =~= window_menu_entries());
    }

    let mut help: Vec<MenuEntry> = Vec::new();
    help.push(MenuEntry::Command(CommandId::ShowHelp));
    proof {
        assert(help@ =~= help_menu_entries());
    }

    let mut submenus: Vec<SubmenuModel> = Vec::new();
    submenus.push(SubmenuModel { group: MenuGroup::AppMenu, title: "PearTree", entries: app });
    submenus.push(SubmenuModel { group: MenuGroup::File, title: "File", entries: file });
    submenus.push(SubmenuModel { group: MenuGroup::Edit, title: "Edit", entries: edit });
    submenus.push(SubmenuModel { group: MenuGroup::View, title: "View", entries: view });
    submenus.push(SubmenuModel { group: MenuGroup::Tree, title: "Tree", entries: tree });
    submenus.push(SubmenuModel { group: MenuGroup::Window, title: "Window", entries: window });
    submenus.push(SubmenuModel { group: MenuGroup::Help, title: "Help", entries: help });
    MenuTree { submenus }
}

/// The native enabled-flag updates one context change calls for: every
/// registry command, in registry order, paired with the enabled state
/// the availability policy assigns it.
///
/// The shell walks this list and toggles each native item; a native
/// item the platform omitted is skipped there, never escalated.
pub fn context_updates(c: &Context) -> (u: Vec<(CommandId, bool)>)
    ensures
        u@.len() == id_order().len(),
        forall|i: int|
            0 <= i < u@.len() ==> (#[trigger] u@[i]).0 == id_order()[i] && u@[i].1 == enabled_spec(
                *c,
                id_order()[i],
            ),
{
    let ids = all_ids();
    let mut u: Vec<(CommandId, bool)> = Vec::new();
    let mut i: usize = 0;
    while i < ids.len()
        invariant
            ids@ == id_order(),
            i <= ids@.len(),
            u@.len() == i,
            forall|j: int|
                0 <= j < i ==> (#[trigger] u@[j]).0 == id_order()[j] && u@[j].1 == enabled_spec(
                    *c,
                    id_order()[j],
                ),
        decreases ids@.len() - i,
    {
        let id = ids[i];
        u.push((id, is_enabled(c, id)));
        i = i + 1;
    }
    u
}

/// The owned state container of the menu controller: the current
/// context and the enabled set derived from it.
///
/// The enabled set is never stored as independent truth: it is always
/// exactly the availability policy's output on the stored context, so
/// native enabled-state can never drift from the declared rules.
pub struct MenuState {
    ctx: Context,
    enabled: Vec<CommandId>,
}

impl MenuState {
    /// The context the presentation layer last applied.
    pub closed spec fn context(self) -> Context {
        self.ctx
    }

    /// The enabled commands derived from that context.
    pub closed spec fn enabled_seq(self) -> Seq<CommandId> {
        self.enabled@
    }

    /// The container's invariant: the enabled set is exactly the
    /// policy's output on the stored context.
    pub open spec fn wf(self) -> bool {
        self.enabled_seq() == id_order().filter(enabled_pred(self.context()))
    }

    /// A fresh container holding the startup context.
    pub fn new() -> (s: MenuState)
        ensures
            s.wf(),
            s.context() == startup_context(),
    {
        let c = Context::startup();
        let enabled = enabled_ids(&c);
        MenuState { ctx: c, enabled }
    }

    /// Replaces the context with the snapshot the presentation layer
    /// handed over and recomputes the enabled set through the policy:
    /// the single update entry point.
    pub fn apply_context(&mut self, c: Context)
        ensures
            final(self).wf(),
            final(self).context() == c,
            final(self).enabled_seq() == id_order().filter(enabled_pred(c)),
    {
        let enabled = enabled_ids(&c);
        self.ctx = c;
        self.enabled = enabled;
    }

    /// Whether one command is enabled under the stored context.
    pub fn is_command_enabled(&self, id: CommandId) -> (b: bool)
        ensures
            b == enabled_spec(self.context(), id),
    {
        is_enabled(&self.ctx, id)
    }

    /// Read access to the enabled commands, in registry order.
    pub fn enabled_commands(&self) -> (v: &Vec<CommandId>)
        ensures
            v@ == self.enabled_seq(),
    {
        &self.enabled
    }
}

/// Law: a well-formed state's enabled set holds a command if and only
/// if the availability policy enables it under the stored context —
/// there is no path that toggles a command outside a policy
/// evaluation.
pub proof fn lemma_state_matches_policy(s: MenuState)
    requires
        s.wf(),
    ensures
        forall|id: CommandId| #[trigger] s.enabled_seq().contains(id) <==> enabled_spec(
            s.context(),
            id,
        ),
{
    lemma_registry_complete();
    assert forall|id: CommandId| #[trigger] s.enabled_seq().contains(id) <==> enabled_spec(
        s.context(),
        id,
    ) by {
        if s.enabled_seq().contains(id) {
            let j = choose|j: int| 0 <= j < s.enabled_seq().len() && s.enabled_seq()[j] == id;
            id_order().lemma_filter_pred(enabled_pred(s.context()), j);
        }
        if enabled_spec(s.context(), id) {
            let k = choose|k: int| 0 <= k < id_order().len() && id_order()[k] == id;
            id_order().lemma_filter_contains(enabled_pred(s.context()), k);
        }
    }
}

} // verus!
