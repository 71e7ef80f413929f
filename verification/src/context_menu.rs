//! Context menu logic: parsing menu item identifiers into actions, what each
//! action needs done, placing the menu on screen, and the handling of key
//! and mouse input on an open menu.
use vstd::prelude::*;
use crate::diagnostics::format::has_prefix;
use crate::text::{starts_with, str_eq, string_of};

verus! {

/// Context menu action types.
#[derive(Debug, Clone, PartialEq, Eq)]
pub enum ContextMenuAction {
    Copy,
    Paste,
    SelectAll,
    ClearSelection,
    Search,
    NewTab,
    SplitHorizontal,
    SplitVertical,
    OpenUrl(String),
    CopyUrl(String),
    OpenFile(String),
    CopyPath(String),
    PluginAction(String),
}

/// A context menu action with its text as characters.
pub enum ActionView {
    Copy,
    Paste,
    SelectAll,
    ClearSelection,
    Search,
    NewTab,
    SplitHorizontal,
    SplitVertical,
    OpenUrl(Seq<char>),
    CopyUrl(Seq<char>),
    OpenFile(Seq<char>),
    CopyPath(Seq<char>),
    PluginAction(Seq<char>),
}

impl View for ContextMenuAction {
    type V = ActionView;

    open spec fn view(&self) -> ActionView {
        match self {
            ContextMenuAction::Copy => ActionView::Copy,
            ContextMenuAction::Paste => ActionView::Paste,
            ContextMenuAction::SelectAll => ActionView::SelectAll,
            ContextMenuAction::ClearSelection => ActionView::ClearSelection,
            ContextMenuAction::Search => ActionView::Search,
            ContextMenuAction::NewTab => ActionView::NewTab,
            ContextMenuAction::SplitHorizontal => ActionView::SplitHorizontal,
            ContextMenuAction::SplitVertical => ActionView::SplitVertical,
            ContextMenuAction::OpenUrl(s) => ActionView::OpenUrl(s@),
            ContextMenuAction::CopyUrl(s) => ActionView::CopyUrl(s@),
            ContextMenuAction::OpenFile(s) => ActionView::OpenFile(s@),
            ContextMenuAction::CopyPath(s) => ActionView::CopyPath(s@),
            ContextMenuAction::PluginAction(s) => ActionView::PluginAction(s@),
        }
    }
}

/// The action a menu item identifier names: the fixed actions by name; the
/// URL and file actions when the item carries its target; any identifier
/// beginning with `plugin.` as a plugin action.
pub open spec fn parse_action(id: Seq<char>, data: Option<Seq<char>>) -> Option<ActionView> {
    if id == "copy"@ {
        Some(ActionView::Copy)
    } else if id == "paste"@ {
        Some(ActionView::Paste)
    } else if id == "select_all"@ {
        Some(ActionView::SelectAll)
    } else if id == "clear_selection"@ {
        Some(ActionView::ClearSelection)
    } else if id == "search"@ {
        Some(ActionView::Search)
    } else if id == "new_tab"@ {
        Some(ActionView::NewTab)
    } else if id == "split_horizontal"@ {
        Some(ActionView::SplitHorizontal)
    } else if id == "split_vertical"@ {
        Some(ActionView::SplitVertical)
    } else if id == "open_url"@ {
        match data { Some(d) => Some(ActionView::OpenUrl(d)), None => None }
    } else if id == "copy_url"@ {
        match data { Some(d) => Some(ActionView::CopyUrl(d)), None => None }
    } else if id == "open_file"@ {
        match data { Some(d) => Some(ActionView::OpenFile(d)), None => None }
    } else if id == "copy_path"@ {
        match data { Some(d) => Some(ActionView::CopyPath(d)), None => None }
    } else if has_prefix(id, "plugin."@) {
        Some(ActionView::PluginAction(id))
    } else {
        None
    }
}

/// Each menu identifier names its own action: the fixed identifiers their
/// fixed actions, the URL and file identifiers the action on the item's
/// target (none without one), and `plugin.` identifiers a plugin action
/// carrying the whole identifier.
pub proof fn lemma_parse_action(id: Seq<char>, d: Seq<char>)
    ensures
        parse_action("copy"@, None) == Some(ActionView::Copy),
        parse_action("paste"@, None) == Some(ActionView::Paste),
        parse_action("select_all"@, None) == Some(ActionView::SelectAll),
        parse_action("clear_selection"@, None) == Some(ActionView::ClearSelection),
        parse_action("search"@, None) == Some(ActionView::Search),
        parse_action("new_tab"@, None) == Some(ActionView::NewTab),
        parse_action("split_horizontal"@, None) == Some(ActionView::SplitHorizontal),
        parse_action("split_vertical"@, None) == Some(ActionView::SplitVertical),
        parse_action("open_url"@, Some(d)) == Some(ActionView::OpenUrl(d)),
        parse_action("copy_url"@, Some(d)) == Some(ActionView::CopyUrl(d)),
        parse_action("open_file"@, Some(d)) == Some(ActionView::OpenFile(d)),
        parse_action("copy_path"@, Some(d)) == Some(ActionView::CopyPath(d)),
        parse_action("open_url"@, None) is None,
        parse_action(id, Some(d)) matches Some(ActionView::PluginAction(p)) ==> p == id,
{
    reveal_strlit("copy");
    reveal_strlit("paste");
    reveal_strlit("select_all");
    reveal_strlit("clear_selection");
    reveal_strlit("search");
    reveal_strlit("new_tab");
    reveal_strlit("split_horizontal");
    reveal_strlit("split_vertical");
    reveal_strlit("open_url");
    reveal_strlit("copy_url");
    reveal_strlit("open_file");
    reveal_strlit("copy_path");
    // The identifiers differ at these positions.
    assert("copy"@[0] == 'c' && "copy"@.len() == 4);
    assert("paste"@[0] == 'p');
    assert("select_all"@[1] == 'e' && "search"@[1] == 'e' && "select_all"@[2] == 'l' && "search"@[2] == 'a');
    assert("clear_selection"@[0] == 'c' && "clear_selection"@[1] == 'l');
    assert("new_tab"@[0] == 'n');
    assert("split_horizontal"@[6] == 'h' && "split_vertical"@[6] == 'v' && "split_horizontal"@[0] == 's');
    assert("split_vertical"@[0] == 's' && "split_vertical"@[1] == 'p');
    assert("open_url"@[5] == 'u' && "open_file"@[5] == 'f' && "open_url"@[0] == 'o' && "open_file"@[0] == 'o');
    assert("copy_url"@[5] == 'u' && "copy_path"@[5] == 'p' && "copy_url"@[0] == 'c' && "copy_path"@[0] == 'c');
    assert("copy_url"@[1] == 'o' && "copy_path"@[1] == 'o');
}

/// The view of an optional action.
pub open spec fn action_opt_view(a: Option<ContextMenuAction>) -> Option<ActionView> {
    match a {
        Some(x) => Some(x@),
        None => None,
    }
}

/// The view of an optional text.
pub open spec fn text_opt(t: Option<&str>) -> Option<Seq<char>> {
    match t {
        Some(s) => Some(s@),
        None => None,
    }
}

/// A copy of an optional text.
fn data_string(data: Option<&str>) -> (r: Option<String>)
    ensures
        match data {
            Some(d) => (r matches Some(s) && s@ == d@),
            None => r is None,
        },
{
    match data {
        Some(d) => Some(string_of(d)),
        None => None,
    }
}

impl ContextMenuAction {
    /// Parse an action from a menu item's identifier and data.
    pub fn from_id(id: &str, data: Option<&str>) -> (r: Option<Self>)
        ensures
            action_opt_view(r) == parse_action(id@, text_opt(data)),
    {
        proof {
            reveal_strlit("copy");
            reveal_strlit("paste");
            reveal_strlit("select_all");
            reveal_strlit("clear_selection");
            reveal_strlit("search");
            reveal_strlit("new_tab");
            reveal_strlit("split_horizontal");
            reveal_strlit("split_vertical");
            reveal_strlit("open_url");
            reveal_strlit("copy_url");
            reveal_strlit("open_file");
            reveal_strlit("copy_path");
        }
        if str_eq(id, "copy") {
            Some(ContextMenuAction::Copy)
        } else if str_eq(id, "paste") {
            Some(ContextMenuAction::Paste)
        } else if str_eq(id, "select_all") {
            Some(ContextMenuAction::SelectAll)
        } else if str_eq(id, "clear_selection") {
            Some(ContextMenuAction::ClearSelection)
        } else if str_eq(id, "search") {
            Some(ContextMenuAction::Search)
        } else if str_eq(id, "new_tab") {
            Some(ContextMenuAction::NewTab)
        } else if str_eq(id, "split_horizontal") {
            Some(ContextMenuAction::SplitHorizontal)
        } else if str_eq(id, "split_vertical") {
            Some(ContextMenuAction::SplitVertical)
        } else if str_eq(id, "open_url") {
            match data_string(data) { Some(d) => Some(ContextMenuAction::OpenUrl(d)), None => None }
        } else if str_eq(id, "copy_url") {
            match data_string(data) { Some(d) => Some(ContextMenuAction::CopyUrl(d)), None => None }
        } else if str_eq(id, "open_file") {
            match data_string(data) { Some(d) => Some(ContextMenuAction::OpenFile(d)), None => None }
        } else if str_eq(id, "copy_path") {
            match data_string(data) { Some(d) => Some(ContextMenuAction::CopyPath(d)), None => None }
        } else if starts_with(id, "plugin.") {
            Some(ContextMenuAction::PluginAction(string_of(id)))
        } else {
            None
        }
    }
}

/// What carrying out an action needs from the outside world.
#[derive(Debug, Clone, PartialEq, Eq)]
pub enum DispatchStep {
    /// Open a URL or file with the default application
    OpenExternally(String),
    /// Put text on the clipboard
    CopyToClipboard(String),
    /// Nothing beyond noting the action
    Note,
}

/// The outside work an action needs: opening its URL or file, or copying
/// its URL or path; nothing for the other actions.
pub fn dispatch_step(action: &ContextMenuAction) -> (r: DispatchStep)
    ensures
        match action {
            ContextMenuAction::OpenUrl(t) | ContextMenuAction::OpenFile(t) => r == DispatchStep::OpenExternally(*t),
            ContextMenuAction::CopyUrl(t) | ContextMenuAction::CopyPath(t) => r == DispatchStep::CopyToClipboard(*t),
            _ => r == DispatchStep::Note,
        },
{
    match action {
        ContextMenuAction::OpenUrl(t) | ContextMenuAction::OpenFile(t) => DispatchStep::OpenExternally(t.clone()),
        ContextMenuAction::CopyUrl(t) | ContextMenuAction::CopyPath(t) => DispatchStep::CopyToClipboard(t.clone()),
        _ => DispatchStep::Note,
    }
}

// ==================== Placement ====================

/// Approximate width of a context menu, in cells.
pub const MENU_WIDTH: u16 = 30;

/// Where a menu at `(x, y)` with `item_count` items is shown so that it stays
/// on a grid of `cols` by `rows`: moved left and up when it would overflow
/// (its height counts the items and two border rows).
pub fn adjust_menu_position(x: u16, y: u16, item_count: u16, cols: u16, rows: u16) -> (r: (u16, u16))
    requires
        x + MENU_WIDTH <= u16::MAX,
        item_count + 2 <= u16::MAX,
        y + item_count + 2 <= u16::MAX,
    ensures
        r.0 == (if x + MENU_WIDTH > cols { if cols >= MENU_WIDTH { cols - MENU_WIDTH } else { 0 } } else { x as int }),
        r.1 == (if y + item_count + 2 > rows { if rows >= item_count + 2 { rows - item_count - 2 } else { 0 } } else { y as int }),
        r.0 <= x && r.1 <= y,
        cols >= MENU_WIDTH ==> r.0 + MENU_WIDTH <= cols,
        rows >= item_count + 2 ==> r.1 + item_count + 2 <= rows,
        x + MENU_WIDTH <= cols ==> r.0 == x,
        y + item_count + 2 <= rows ==> r.1 == y,
{
    let height: u16 = item_count + 2;
    let nx = if x + MENU_WIDTH > cols {
        if cols >= MENU_WIDTH { cols - MENU_WIDTH } else { 0 }
    } else {
        x
    };
    let ny = if y + height > rows {
        if rows >= height { rows - height } else { 0 }
    } else {
        y
    };
    (nx, ny)
}

/// Height of the menu surface: the items and two border rows, at most 20.
pub fn menu_surface_height(item_count: u16) -> (h: u16)
    requires
        item_count + 2 <= u16::MAX,
    ensures
        h == (if item_count + 2 > 20 { 20 } else { item_count + 2 }),
{
    let h = item_count + 2;
    if h > 20 { 20 } else { h }
}

// ==================== Input ====================

/// What the menu logic knows of one item.
#[derive(Debug, Clone)]
pub struct MenuItemInfo {
    pub id: String,
    pub enabled: bool,
    pub separator: bool,
}

/// One input event on the open menu.
#[derive(Debug, Clone, Copy, PartialEq, Eq, Structural)]
pub enum MenuInput {
    Up,
    Down,
    Enter,
    Escape,
    /// Left button pressed on a screen row of the menu surface
    Click(u16),
    /// Pointer moved over a screen row of the menu surface
    Hover(u16),
    /// Any other input
    Other,
}

/// What the menu does with an input event.
#[derive(Debug, Clone, PartialEq, Eq)]
pub enum MenuOutcome {
    /// Move the selection up
    SelectPrevious,
    /// Move the selection down
    SelectNext,
    /// The item with this identifier was chosen; the menu closes
    Choose(String),
    /// Close the menu without choosing
    Close,
    /// Highlight the item at this index
    Highlight(usize),
    /// Nothing happens
    Ignore,
}

/// The item under a screen row: rows start below the top border.
pub open spec fn row_item(row: u16) -> int {
    if row >= 1 { row - 1 } else { 0 }
}

/// The menu's answer to one input event, given its items and selection.
pub fn menu_input(items: &Vec<MenuItemInfo>, selected: usize, input: MenuInput) -> (r: MenuOutcome)
    ensures
        match input {
            MenuInput::Up => r == MenuOutcome::SelectPrevious,
            MenuInput::Down => r == MenuOutcome::SelectNext,
            MenuInput::Enter => if selected < items@.len() && items@[selected as int].enabled {
                r == MenuOutcome::Choose(items@[selected as int].id)
            } else {
                r == MenuOutcome::Ignore
            },
            MenuInput::Escape => r == MenuOutcome::Close,
            MenuInput::Click(row) => {
                let i = row_item(row);
                if i < items@.len() && items@[i].enabled && !items@[i].separator {
                    r == MenuOutcome::Choose(items@[i].id)
                } else {
                    r == MenuOutcome::Ignore
                }
            },
            MenuInput::Hover(row) => {
                let i = row_item(row);
                if i < items@.len() && !items@[i].separator {
                    r == MenuOutcome::Highlight(i as usize)
                } else {
                    r == MenuOutcome::Ignore
                }
            },
            MenuInput::Other => r == MenuOutcome::Ignore,
        },
{
    match input {
        MenuInput::Up => MenuOutcome::SelectPrevious,
        MenuInput::Down => MenuOutcome::SelectNext,
        MenuInput::Enter => {
            if selected < items.len() && items[selected].enabled {
                MenuOutcome::Choose(items[selected].id.clone())
            } else {
                MenuOutcome::Ignore
            }
        },
        MenuInput::Escape => MenuOutcome::Close,
        MenuInput::Click(row) => {
            let i: usize = if row >= 1 { (row - 1) as usize } else { 0 };
            if i < items.len() && items[i].enabled && !items[i].separator {
                MenuOutcome::Choose(items[i].id.clone())
            } else {
                MenuOutcome::Ignore
            }
        },
        MenuInput::Hover(row) => {
            let i: usize = if row >= 1 { (row - 1) as usize } else { 0 };
            if i < items.len() && !items[i].separator {
                MenuOutcome::Highlight(i)
            } else {
                MenuOutcome::Ignore
            }
        },
        MenuInput::Other => MenuOutcome::Ignore,
    }
}

} // verus!
