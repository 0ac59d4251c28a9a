//! Menu descriptions: in-window menu items and the native menu bar model.
use vstd::prelude::*;
use vstd::string::*;

verus! {

/// Modifier keys of a menu shortcut.
#[derive(Debug, Clone, Copy, PartialEq, Eq, Default, Structural)]
pub struct MenuModifiers {
    pub command: bool,
    pub shift: bool,
    pub option: bool,
    pub control: bool,
}

/// No modifier at all.
pub open spec fn no_modifiers() -> MenuModifiers {
    MenuModifiers { command: false, shift: false, option: false, control: false }
}

impl MenuModifiers {
    /// No modifiers.
    pub fn none() -> (r: MenuModifiers)
        ensures
            r == no_modifiers(),
    {
        MenuModifiers { command: false, shift: false, option: false, control: false }
    }

    /// Command alone.
    pub fn command() -> (r: MenuModifiers)
        ensures
            r == (MenuModifiers { command: true, ..no_modifiers() }),
    {
        MenuModifiers { command: true, shift: false, option: false, control: false }
    }

    /// Shift alone.
    pub fn shift() -> (r: MenuModifiers)
        ensures
            r == (MenuModifiers { shift: true, ..no_modifiers() }),
    {
        MenuModifiers { command: false, shift: true, option: false, control: false }
    }

    /// Option alone.
    pub fn option() -> (r: MenuModifiers)
        ensures
            r == (MenuModifiers { option: true, ..no_modifiers() }),
    {
        MenuModifiers { command: false, shift: false, option: true, control: false }
    }

    /// Control alone.
    pub fn control() -> (r: MenuModifiers)
        ensures
            r == (MenuModifiers { control: true, ..no_modifiers() }),
    {
        MenuModifiers { command: false, shift: false, option: false, control: true }
    }

    /// These modifiers plus command.
    pub fn with_command(self) -> (r: MenuModifiers)
        ensures
            r == (MenuModifiers { command: true, ..self }),
    {
        MenuModifiers { command: true, ..self }
    }

    /// These modifiers plus shift.
    pub fn with_shift(self) -> (r: MenuModifiers)
        ensures
            r == (MenuModifiers { shift: true, ..self }),
    {
        MenuModifiers { shift: true, ..self }
    }

    /// These modifiers plus option.
    pub fn with_option(self) -> (r: MenuModifiers)
        ensures
            r == (MenuModifiers { option: true, ..self }),
    {
        MenuModifiers { option: true, ..self }
    }

    /// These modifiers plus control.
    pub fn with_control(self) -> (r: MenuModifiers)
        ensures
            r == (MenuModifiers { control: true, ..self }),
    {
        MenuModifiers { control: true, ..self }
    }
}

/// The upper-case form of an ASCII letter; any other character unchanged.
pub open spec fn ascii_upper(c: char) -> char {
    match c {
        'a' => 'A',
        'b' => 'B',
        'c' => 'C',
        'd' => 'D',
        'e' => 'E',
        'f' => 'F',
        'g' => 'G',
        'h' => 'H',
        'i' => 'I',
        'j' => 'J',
        'k' => 'K',
        'l' => 'L',
        'm' => 'M',
        'n' => 'N',
        'o' => 'O',
        'p' => 'P',
        'q' => 'Q',
        'r' => 'R',
        's' => 'S',
        't' => 'T',
        'u' => 'U',
        'v' => 'V',
        'w' => 'W',
        'x' => 'X',
        'y' => 'Y',
        'z' => 'Z',
        _ => c,
    }
}

fn to_ascii_upper(c: char) -> (r: char)
    ensures
        r == ascii_upper(c),
{
    match c {
        'a' => 'A',
        'b' => 'B',
        'c' => 'C',
        'd' => 'D',
        'e' => 'E',
        'f' => 'F',
        'g' => 'G',
        'h' => 'H',
        'i' => 'I',
        'j' => 'J',
        'k' => 'K',
        'l' => 'L',
        'm' => 'M',
        'n' => 'N',
        'o' => 'O',
        'p' => 'P',
        'q' => 'Q',
        'r' => 'R',
        's' => 'S',
        't' => 'T',
        'u' => 'U',
        'v' => 'V',
        'w' => 'W',
        'x' => 'X',
        'y' => 'Y',
        'z' => 'Z',
        _ => c,
    }
}

/// Relies on `String::push`: appends one character.
#[verifier::external_body]
fn push_char(s: &mut String, c: char)
    ensures
        final(s)@ == old(s)@.push(c),
{
    s.push(c)
}

/// `text` when `on`, else nothing.
pub open spec fn part_if(on: bool, text: Seq<char>) -> Seq<char> {
    if on {
        text
    } else {
        Seq::empty()
    }
}

/// The text shown for a shortcut: `Ctrl+`, `Opt+`, `Shift+`, `Cmd+` for the
/// modifiers present, in that order, then the key in upper case.
pub open spec fn shortcut_text(m: MenuModifiers, key: char) -> Seq<char> {
    part_if(m.control, "Ctrl+"@) + part_if(m.option, "Opt+"@) + part_if(m.shift, "Shift+"@) + part_if(
        m.command,
        "Cmd+"@,
    ) + seq![ascii_upper(key)]
}

/// A keyboard shortcut: a key with modifiers.
#[derive(Debug, Clone, Copy, PartialEq, Eq, Structural)]
pub struct MenuShortcut {
    pub key: char,
    pub modifiers: MenuModifiers,
}

impl MenuShortcut {
    /// Command + `key`.
    pub fn cmd(key: char) -> (r: MenuShortcut)
        ensures
            r == (MenuShortcut { key, modifiers: MenuModifiers { command: true, ..no_modifiers() } }),
    {
        MenuShortcut { key, modifiers: MenuModifiers::command() }
    }

    /// Command + Shift + `key`.
    pub fn cmd_shift(key: char) -> (r: MenuShortcut)
        ensures
            r == (MenuShortcut { key, modifiers: MenuModifiers { command: true, shift: true, ..no_modifiers() } }),
    {
        MenuShortcut { key, modifiers: MenuModifiers::command().with_shift() }
    }

    /// Command + Option + `key`.
    pub fn cmd_option(key: char) -> (r: MenuShortcut)
        ensures
            r == (MenuShortcut { key, modifiers: MenuModifiers { command: true, option: true, ..no_modifiers() } }),
    {
        MenuShortcut { key, modifiers: MenuModifiers::command().with_option() }
    }

    /// `key` with the given modifiers.
    pub fn with_modifiers(key: char, modifiers: MenuModifiers) -> (r: MenuShortcut)
        ensures
            r == (MenuShortcut { key, modifiers }),
    {
        MenuShortcut { key, modifiers }
    }

    /// The shortcut as shown in a menu, such as `Ctrl+Shift+S`.
    pub fn display_string(&self) -> (r: String)
        ensures
            r@ == shortcut_text(self.modifiers, self.key),
    {
        let mut s = String::new();
        if self.modifiers.control {
            s.append("Ctrl+");
        }
        if self.modifiers.option {
            s.append("Opt+");
        }
        if self.modifiers.shift {
            s.append("Shift+");
        }
        if self.modifiers.command {
            s.append("Cmd+");
        }
        push_char(&mut s, to_ascii_upper(self.key));
        assert(s@ =~= shortcut_text(self.modifiers, self.key));
        s
    }
}

/// An item of an in-window menu. Its action is named by a number that the
/// owner of the menu maps to a callback.
#[derive(Debug)]
pub struct MenuItem {
    label: String,
    shortcut: Option<String>,
    enabled: bool,
    checked: bool,
    submenu: Option<Vec<MenuItem>>,
    action: Option<u64>,
}

impl MenuItem {
    pub closed spec fn label_spec(&self) -> Seq<char> {
        self.label@
    }

    pub closed spec fn shortcut_spec(&self) -> Option<Seq<char>> {
        match self.shortcut {
            Some(s) => Some(s@),
            None => None,
        }
    }

    pub closed spec fn enabled_spec(&self) -> bool {
        self.enabled
    }

    pub closed spec fn checked_spec(&self) -> bool {
        self.checked
    }

    pub closed spec fn submenu_len(&self) -> Option<nat> {
        match self.submenu {
            Some(v) => Some(v@.len()),
            None => None,
        }
    }

    pub closed spec fn action_spec(&self) -> Option<u64> {
        self.action
    }

    /// An enabled, unchecked item labelled `label`.
    pub fn new(label: &str) -> (r: MenuItem)
        ensures
            r.label_spec() == label@,
            r.shortcut_spec() is None,
            r.enabled_spec(),
            !r.checked_spec(),
            r.submenu_len() is None,
            r.action_spec() is None,
    {
        MenuItem { label: label.to_owned(), shortcut: None, enabled: true, checked: false, submenu: None, action: None }
    }

    /// A separator: an item with an empty label that cannot be selected.
    pub fn separator() -> (r: MenuItem)
        ensures
            r.label_spec().len() == 0,
            r.shortcut_spec() is None,
            !r.enabled_spec(),
            !r.checked_spec(),
            r.submenu_len() is None,
            r.action_spec() is None,
    {
        MenuItem { label: String::new(), shortcut: None, enabled: false, checked: false, submenu: None, action: None }
    }

    /// The same item showing `shortcut`.
    pub fn shortcut(self, shortcut: &str) -> (r: MenuItem)
        ensures
            r.shortcut_spec() == Some(shortcut@),
            r.label_spec() == self.label_spec(),
            r.enabled_spec() == self.enabled_spec(),
            r.checked_spec() == self.checked_spec(),
            r.submenu_len() == self.submenu_len(),
            r.action_spec() == self.action_spec(),
    {
        MenuItem { shortcut: Some(shortcut.to_owned()), ..self }
    }

    /// The same item, enabled or not.
    pub fn enabled(self, enabled: bool) -> (r: MenuItem)
        ensures
            r.enabled_spec() == enabled,
            r.label_spec() == self.label_spec(),
            r.shortcut_spec() == self.shortcut_spec(),
            r.checked_spec() == self.checked_spec(),
            r.submenu_len() == self.submenu_len(),
            r.action_spec() == self.action_spec(),
    {
        MenuItem { enabled, ..self }
    }

    /// The same item, checked or not.
    pub fn checked(self, checked: bool) -> (r: MenuItem)
        ensures
            r.checked_spec() == checked,
            r.label_spec() == self.label_spec(),
            r.shortcut_spec() == self.shortcut_spec(),
            r.enabled_spec() == self.enabled_spec(),
            r.submenu_len() == self.submenu_len(),
            r.action_spec() == self.action_spec(),
    {
        MenuItem { checked, ..self }
    }

    /// The same item, opening `items` as a submenu.
    pub fn submenu(self, items: Vec<MenuItem>) -> (r: MenuItem)
        ensures
            r.submenu_len() == Some(items.len() as nat),
            r.label_spec() == self.label_spec(),
            r.shortcut_spec() == self.shortcut_spec(),
            r.enabled_spec() == self.enabled_spec(),
            r.checked_spec() == self.checked_spec(),
            r.action_spec() == self.action_spec(),
    {
        MenuItem { submenu: Some(items), ..self }
    }

    /// The same item, reporting `action` when selected.
    pub fn on_select(self, action: u64) -> (r: MenuItem)
        ensures
            r.action_spec() == Some(action),
            r.label_spec() == self.label_spec(),
            r.shortcut_spec() == self.shortcut_spec(),
            r.enabled_spec() == self.enabled_spec(),
            r.checked_spec() == self.checked_spec(),
            r.submenu_len() == self.submenu_len(),
    {
        MenuItem { action: Some(action), ..self }
    }

    /// True for a separator: an item with an empty label.
    pub fn is_separator(&self) -> (r: bool)
        ensures
            r == (self.label_spec().len() == 0),
    {
        self.label.as_str().is_empty()
    }

    /// The label.
    pub fn label(&self) -> (r: &str)
        ensures
            r@ == self.label_spec(),
    {
        self.label.as_str()
    }

    /// Whether the item can be selected.
    pub fn is_enabled(&self) -> (r: bool)
        ensures
            r == self.enabled_spec(),
    {
        self.enabled
    }

    /// Whether the item shows a check mark.
    pub fn is_checked(&self) -> (r: bool)
        ensures
            r == self.checked_spec(),
    {
        self.checked
    }

    /// The action reported when the item is selected.
    pub fn action(&self) -> (r: Option<u64>)
        ensures
            r == self.action_spec(),
    {
        self.action
    }
}

/// A new menu item labelled `label`.
pub fn menu_item(label: &str) -> (r: MenuItem)
    ensures
        r.label_spec() == label@,
        r.shortcut_spec() is None,
        r.enabled_spec(),
        !r.checked_spec(),
        r.submenu_len() is None,
        r.action_spec() is None,
{
    MenuItem::new(label)
}

/// A new menu separator.
pub fn menu_separator() -> (r: MenuItem)
    ensures
        r.label_spec().len() == 0,
        !r.enabled_spec(),
{
    MenuItem::separator()
}

/// An item of a native menu.
#[derive(Debug)]
pub struct NativeMenuItem {
    pub label: String,
    pub shortcut: Option<MenuShortcut>,
    pub enabled: bool,
    pub checked: bool,
    pub submenu: Option<Vec<NativeMenuItem>>,
    pub action: Option<u64>,
    pub id: Option<String>,
}

impl NativeMenuItem {
    /// An enabled, unchecked item labelled `label`.
    pub fn new(label: &str) -> (r: NativeMenuItem)
        ensures
            r.label@ == label@,
            r.shortcut is None,
            r.enabled,
            !r.checked,
            r.submenu is None,
            r.action is None,
            r.id is None,
    {
        NativeMenuItem {
            label: label.to_owned(),
            shortcut: None,
            enabled: true,
            checked: false,
            submenu: None,
            action: None,
            id: None,
        }
    }

    /// A separator: empty label, no submenu, disabled.
    pub fn separator() -> (r: NativeMenuItem)
        ensures
            r.label@.len() == 0,
            r.shortcut is None,
            !r.enabled,
            !r.checked,
            r.submenu is None,
            r.action is None,
            r.id is None,
    {
        NativeMenuItem {
            label: String::new(),
            shortcut: None,
            enabled: false,
            checked: false,
            submenu: None,
            action: None,
            id: None,
        }
    }

    /// True for a separator: an empty label and no submenu.
    pub fn is_separator(&self) -> (r: bool)
        ensures
            r == (self.label@.len() == 0 && self.submenu is None),
    {
        self.label.as_str().is_empty() && self.submenu.is_none()
    }

    /// The same item with shortcut Command + `key`.
    pub fn shortcut_cmd(self, key: char) -> (r: NativeMenuItem)
        ensures
            r == (NativeMenuItem {
                shortcut: Some(MenuShortcut { key, modifiers: MenuModifiers { command: true, ..no_modifiers() } }),
                ..self
            }),
    {
        NativeMenuItem { shortcut: Some(MenuShortcut::cmd(key)), ..self }
    }

    /// The same item with shortcut Command + Shift + `key`.
    pub fn shortcut_cmd_shift(self, key: char) -> (r: NativeMenuItem)
        ensures
            r == (NativeMenuItem {
                shortcut: Some(MenuShortcut { key, modifiers: MenuModifiers { command: true, shift: true, ..no_modifiers() } }),
                ..self
            }),
    {
        NativeMenuItem { shortcut: Some(MenuShortcut::cmd_shift(key)), ..self }
    }

    /// The same item with shortcut Command + Option + `key`.
    pub fn shortcut_cmd_option(self, key: char) -> (r: NativeMenuItem)
        ensures
            r == (NativeMenuItem {
                shortcut: Some(MenuShortcut { key, modifiers: MenuModifiers { command: true, option: true, ..no_modifiers() } }),
                ..self
            }),
    {
        NativeMenuItem { shortcut: Some(MenuShortcut::cmd_option(key)), ..self }
    }

    /// The same item with `shortcut`.
    pub fn shortcut(self, shortcut: MenuShortcut) -> (r: NativeMenuItem)
        ensures
            r == (NativeMenuItem { shortcut: Some(shortcut), ..self }),
    {
        NativeMenuItem { shortcut: Some(shortcut), ..self }
    }

    /// The same item, enabled or not.
    pub fn enabled(self, enabled: bool) -> (r: NativeMenuItem)
        ensures
            r == (NativeMenuItem { enabled, ..self }),
    {
        NativeMenuItem { enabled, ..self }
    }

    /// The same item, checked or not.
    pub fn checked(self, checked: bool) -> (r: NativeMenuItem)
        ensures
            r == (NativeMenuItem { checked, ..self }),
    {
        NativeMenuItem { checked, ..self }
    }

    /// The same item, opening `items` as a submenu.
    pub fn submenu(self, items: Vec<NativeMenuItem>) -> (r: NativeMenuItem)
        ensures
            r == (NativeMenuItem { submenu: Some(items), ..self }),
    {
        NativeMenuItem { submenu: Some(items), ..self }
    }

    /// The same item, reporting `action` when selected.
    pub fn on_select(self, action: u64) -> (r: NativeMenuItem)
        ensures
            r == (NativeMenuItem { action: Some(action), ..self }),
    {
        NativeMenuItem { action: Some(action), ..self }
    }

    /// The same item with identifier `id`.
    pub fn id(self, id: &str) -> (r: NativeMenuItem)
        ensures
            r.id matches Some(s) && s@ == id@,
            r.label == self.label,
            r.shortcut == self.shortcut,
            r.enabled == self.enabled,
            r.checked == self.checked,
            r.submenu == self.submenu,
            r.action == self.action,
    {
        NativeMenuItem { id: Some(id.to_owned()), ..self }
    }
}

/// A menu of a native menu bar: a title and its items.
#[derive(Debug)]
pub struct NativeMenu {
    pub title: String,
    pub items: Vec<NativeMenuItem>,
}

impl NativeMenu {
    /// An empty menu titled `title`.
    pub fn new(title: &str) -> (r: NativeMenu)
        ensures
            r.title@ == title@,
            r.items.len() == 0,
    {
        NativeMenu { title: title.to_owned(), items: Vec::new() }
    }

    /// A menu titled `title` holding `items`.
    pub fn with_items(title: &str, items: Vec<NativeMenuItem>) -> (r: NativeMenu)
        ensures
            r.title@ == title@,
            r.items == items,
    {
        NativeMenu { title: title.to_owned(), items }
    }

    /// The same menu with `item` added at the end.
    pub fn add_item(self, item: NativeMenuItem) -> (r: NativeMenu)
        ensures
            r.title == self.title,
            r.items@ == self.items@.push(item),
    {
        let mut m = self;
        m.items.push(item);
        m
    }

    /// The same menu with a separator added at the end.
    pub fn add_separator(self) -> (r: NativeMenu)
        ensures
            r.title == self.title,
            r.items.len() == self.items.len() + 1,
            r.items@.take(self.items.len() as int) == self.items@,
            r.items@.last().label@.len() == 0,
            r.items@.last().submenu is None,
    {
        let mut m = self;
        m.items.push(NativeMenuItem::separator());
        assert(m.items@.take(self.items.len() as int) =~= self.items@);
        m
    }

    /// The same menu with `items` added at the end, in order.
    pub fn add_items(self, items: Vec<NativeMenuItem>) -> (r: NativeMenu)
        ensures
            r.title == self.title,
            r.items@ == self.items@ + items@,
    {
        let mut m = self;
        let mut more = items;
        m.items.append(&mut more);
        m
    }
}

/// Standard actions of a native application menu.
#[derive(Debug, Clone, Copy, PartialEq, Eq, Structural)]
pub enum StandardAction {
    About,
    Preferences,
    Hide,
    HideOthers,
    ShowAll,
    Quit,
    Undo,
    Redo,
    Cut,
    Copy,
    Paste,
    SelectAll,
    Delete,
    Minimize,
    Zoom,
    BringAllToFront,
    Close,
}

/// A native menu bar: its menus, and which standard menus the host adds.
#[derive(Debug)]
pub struct NativeMenuBar {
    pub app_name: Option<String>,
    pub menus: Vec<NativeMenu>,
    pub include_app_menu: bool,
    pub include_edit_menu: bool,
    pub include_window_menu: bool,
}

impl NativeMenuBar {
    /// A bar with no menus of its own and all standard menus.
    pub fn new() -> (r: NativeMenuBar)
        ensures
            r.app_name is None,
            r.menus.len() == 0,
            r.include_app_menu,
            r.include_edit_menu,
            r.include_window_menu,
    {
        NativeMenuBar {
            app_name: None,
            menus: Vec::new(),
            include_app_menu: true,
            include_edit_menu: true,
            include_window_menu: true,
        }
    }

    /// The same bar with the application named `name`.
    pub fn app_name(self, name: &str) -> (r: NativeMenuBar)
        ensures
            r.app_name matches Some(s) && s@ == name@,
            r.menus == self.menus,
            r.include_app_menu == self.include_app_menu,
            r.include_edit_menu == self.include_edit_menu,
            r.include_window_menu == self.include_window_menu,
    {
        NativeMenuBar { app_name: Some(name.to_owned()), ..self }
    }

    /// The same bar with `menu` added at the end.
    pub fn add_menu(self, menu: NativeMenu) -> (r: NativeMenuBar)
        ensures
            r.app_name == self.app_name,
            r.menus@ == self.menus@.push(menu),
            r.include_app_menu == self.include_app_menu,
            r.include_edit_menu == self.include_edit_menu,
            r.include_window_menu == self.include_window_menu,
    {
        let mut b = self;
        b.menus.push(menu);
        b
    }

    /// The same bar, with or without the standard application menu.
    pub fn include_app_menu(self, on: bool) -> (r: NativeMenuBar)
        ensures
            r == (NativeMenuBar { include_app_menu: on, ..self }),
    {
        NativeMenuBar { include_app_menu: on, ..self }
    }

    /// The same bar, with or without the standard edit menu.
    pub fn include_edit_menu(self, on: bool) -> (r: NativeMenuBar)
        ensures
            r == (NativeMenuBar { include_edit_menu: on, ..self }),
    {
        NativeMenuBar { include_edit_menu: on, ..self }
    }

    /// The same bar, with or without the standard window menu.
    pub fn include_window_menu(self, on: bool) -> (r: NativeMenuBar)
        ensures
            r == (NativeMenuBar { include_window_menu: on, ..self }),
    {
        NativeMenuBar { include_window_menu: on, ..self }
    }

    /// A "File" menu holding `items`.
    pub fn file_menu(items: Vec<NativeMenuItem>) -> (r: NativeMenu)
        ensures
            r.title@ == "File"@,
            r.items == items,
    {
        NativeMenu::with_items("File", items)
    }

    /// The usual "File" menu: New, Open..., Save, Save As... and Close, with
    /// their shortcuts and two separators.
    pub fn standard_file_menu() -> (r: NativeMenu)
        ensures
            r.title@ == "File"@,
            r.items.len() == 7,
            r.items[0].label@ == "New"@,
            r.items[0].shortcut == Some(MenuShortcut::cmd_spec('n')),
            r.items[1].label@ == "Open..."@,
            r.items[1].shortcut == Some(MenuShortcut::cmd_spec('o')),
            r.items[2].label@.len() == 0,
            r.items[2].submenu is None,
            r.items[3].label@ == "Save"@,
            r.items[3].shortcut == Some(MenuShortcut::cmd_spec('s')),
            r.items[4].label@ == "Save As..."@,
            r.items[4].shortcut == Some(MenuShortcut { key: 's', modifiers: MenuModifiers { command: true, shift: true, ..no_modifiers() } }),
            r.items[5].label@.len() == 0,
            r.items[5].submenu is None,
            r.items[6].label@ == "Close"@,
            r.items[6].shortcut == Some(MenuShortcut::cmd_spec('w')),
    {
        let items = vec![
            NativeMenuItem::new("New").shortcut_cmd('n'),
            NativeMenuItem::new("Open...").shortcut_cmd('o'),
            NativeMenuItem::separator(),
            NativeMenuItem::new("Save").shortcut_cmd('s'),
            NativeMenuItem::new("Save As...").shortcut_cmd_shift('s'),
            NativeMenuItem::separator(),
            NativeMenuItem::new("Close").shortcut_cmd('w'),
        ];
        NativeMenu::with_items("File", items)
    }

    /// A "View" menu holding `items`.
    pub fn view_menu(items: Vec<NativeMenuItem>) -> (r: NativeMenu)
        ensures
            r.title@ == "View"@,
            r.items == items,
    {
        NativeMenu::with_items("View", items)
    }

    /// A "Help" menu holding `items`.
    pub fn help_menu(items: Vec<NativeMenuItem>) -> (r: NativeMenu)
        ensures
            r.title@ == "Help"@,
            r.items == items,
    {
        NativeMenu::with_items("Help", items)
    }
}

impl MenuShortcut {
    /// Command + `key`.
    pub open spec fn cmd_spec(key: char) -> MenuShortcut {
        MenuShortcut { key, modifiers: MenuModifiers { command: true, ..no_modifiers() } }
    }
}

/// A new native menu item labelled `label`.
pub fn native_menu_item(label: &str) -> (r: NativeMenuItem)
    ensures
        r.label@ == label@,
        r.shortcut is None,
        r.enabled,
        !r.checked,
        r.submenu is None,
        r.action is None,
        r.id is None,
{
    NativeMenuItem::new(label)
}

/// A new native separator.
pub fn native_separator() -> (r: NativeMenuItem)
    ensures
        r.label@.len() == 0,
        r.submenu is None,
        !r.enabled,
{
    NativeMenuItem::separator()
}

/// A new empty native menu titled `title`.
pub fn native_menu(title: &str) -> (r: NativeMenu)
    ensures
        r.title@ == title@,
        r.items.len() == 0,
{
    NativeMenu::new(title)
}

/// A new native menu bar.
pub fn native_menu_bar() -> (r: NativeMenuBar)
    ensures
        r.app_name is None,
        r.menus.len() == 0,
        r.include_app_menu,
        r.include_edit_menu,
        r.include_window_menu,
{
    NativeMenuBar::new()
}

} // verus!
