//! The platform-agnostic menu builder. A [`Menu`] is an ordered sequence of entries; a submenu
//! is stored in line, between a [`MenuEntry::BeginSubmenu`] and its matching
//! [`MenuEntry::EndSubmenu`], so the entry sequence is always bracket-balanced and lists every
//! item in display order, depth first.
use crate::hotkey::HotKey;
use vstd::prelude::*;

verus! {

/// The caller-chosen identifier of a custom menu item, reported back when the item is clicked.
#[derive(Clone, Copy, Debug, PartialEq, Eq, Structural, Hash, PartialOrd, Ord)]
pub struct MenuId(pub u32);

/// Which kind of menu an activation came from.
#[derive(Clone, Copy, Debug, PartialEq, Eq, Structural, Hash)]
pub enum MenuType {
    MenuBar,
    SystemTray,
}

/// A menu item with a built-in meaning. Not every platform has every action.
#[derive(Clone, Debug, PartialEq, Eq)]
pub enum MenuItem {
    Separator,
    /// "About" the application of this name.
    About(String),
    Hide,
    Services,
    HideOthers,
    ShowAll,
    CloseWindow,
    Quit,
    Copy,
    Cut,
    Undo,
    Redo,
    SelectAll,
    Paste,
    EnterFullScreen,
    Minimize,
    Zoom,
}

impl MenuItem {
    pub fn duplicate(&self) -> (r: MenuItem)
        ensures
            r == *self,
    {
        match self {
            MenuItem::Separator => MenuItem::Separator,
            MenuItem::About(name) => MenuItem::About(name.clone()),
            MenuItem::Hide => MenuItem::Hide,
            MenuItem::Services => MenuItem::Services,
            MenuItem::HideOthers => MenuItem::HideOthers,
            MenuItem::ShowAll => MenuItem::ShowAll,
            MenuItem::CloseWindow => MenuItem::CloseWindow,
            MenuItem::Quit => MenuItem::Quit,
            MenuItem::Copy => MenuItem::Copy,
            MenuItem::Cut => MenuItem::Cut,
            MenuItem::Undo => MenuItem::Undo,
            MenuItem::Redo => MenuItem::Redo,
            MenuItem::SelectAll => MenuItem::SelectAll,
            MenuItem::Paste => MenuItem::Paste,
            MenuItem::EnterFullScreen => MenuItem::EnterFullScreen,
            MenuItem::Minimize => MenuItem::Minimize,
            MenuItem::Zoom => MenuItem::Zoom,
        }
    }
}

/// What a custom menu item shows and reports: its identifier, title, optional keyboard
/// accelerator, and whether it starts enabled and checked.
#[derive(Clone, Debug, PartialEq, Eq)]
pub struct MenuItemAttributes {
    pub id: MenuId,
    pub title: String,
    pub accelerator: Option<HotKey>,
    pub enabled: bool,
    pub selected: bool,
}

impl MenuItemAttributes {
    /// An enabled, unchecked item without accelerator.
    pub fn new(id: MenuId, title: &str) -> (r: MenuItemAttributes)
        ensures
            r.id == id,
            r.title@ == title@,
            r.accelerator is None,
            r.enabled,
            !r.selected,
    {
        MenuItemAttributes {
            id,
            title: title.to_owned(),
            accelerator: None,
            enabled: true,
            selected: false,
        }
    }

    pub fn with_accelerators(self, accelerator: HotKey) -> (r: MenuItemAttributes)
        ensures
            r == (MenuItemAttributes { accelerator: Some(accelerator), ..self }),
    {
        MenuItemAttributes { accelerator: Some(accelerator), ..self }
    }

    pub fn with_enabled(self, enabled: bool) -> (r: MenuItemAttributes)
        ensures
            r == (MenuItemAttributes { enabled, ..self }),
    {
        MenuItemAttributes { enabled, ..self }
    }

    pub fn with_selected(self, selected: bool) -> (r: MenuItemAttributes)
        ensures
            r == (MenuItemAttributes { selected, ..self }),
    {
        MenuItemAttributes { selected, ..self }
    }

    pub fn id(&self) -> (r: MenuId)
        ensures
            r == self.id,
    {
        self.id
    }

    pub fn duplicate(&self) -> (r: MenuItemAttributes)
        ensures
            r == *self,
    {
        MenuItemAttributes {
            id: self.id,
            title: self.title.clone(),
            accelerator: self.accelerator,
            enabled: self.enabled,
            selected: self.selected,
        }
    }
}

/// A handle on a custom item added to a menu, by which the item can be changed once the menu
/// is materialized.
#[derive(Clone, Copy, Debug, PartialEq, Eq, Structural, Hash)]
pub struct CustomMenuItem {
    pub id: MenuId,
}

impl CustomMenuItem {
    pub fn id(&self) -> (r: MenuId)
        ensures
            r == self.id,
    {
        self.id
    }
}

/// One entry of a menu's sequence.
#[derive(Clone, Debug, PartialEq, Eq)]
pub enum MenuEntry {
    Custom(MenuItemAttributes),
    Native(MenuItem),
    /// Opens a submenu of this title; the entries up to the matching `EndSubmenu` are its
    /// items.
    BeginSubmenu { title: String, enabled: bool },
    EndSubmenu,
}

/// How an entry changes the submenu nesting depth.
pub open spec fn depth_change(e: MenuEntry) -> int {
    match e {
        MenuEntry::BeginSubmenu { .. } => 1,
        MenuEntry::EndSubmenu => -1,
        _ => 0,
    }
}

/// The nesting depth after the entries `s`.
pub open spec fn depth(s: Seq<MenuEntry>) -> int
    decreases s.len(),
{
    if s.len() == 0 {
        0
    } else {
        depth(s.drop_last()) + depth_change(s.last())
    }
}

/// Every submenu that is opened is closed later, and none is closed that was not opened.
pub open spec fn balanced(s: Seq<MenuEntry>) -> bool {
    &&& depth(s) == 0
    &&& forall|i: int| 0 <= i <= s.len() ==> depth(#[trigger] s.take(i)) >= 0
}

proof fn lemma_depth_concat(a: Seq<MenuEntry>, b: Seq<MenuEntry>)
    ensures
        depth(a + b) == depth(a) + depth(b),
    decreases b.len(),
{
    if b.len() > 0 {
        assert((a + b).drop_last() =~= a + b.drop_last());
        assert((a + b).last() == b.last());
        lemma_depth_concat(a, b.drop_last());
    } else {
        assert(a + b =~= a);
    }
}

/// Wrapping a balanced sequence in a submenu and appending it to a balanced sequence keeps it
/// balanced.
proof fn lemma_append_submenu_balanced(
    outer: Seq<MenuEntry>,
    title: String,
    enabled: bool,
    inner: Seq<MenuEntry>,
)
    requires
        balanced(outer),
        balanced(inner),
    ensures
        balanced(
            outer + seq![MenuEntry::BeginSubmenu { title, enabled }] + inner + seq![
                MenuEntry::EndSubmenu,
            ],
        ),
{
    let open = seq![MenuEntry::BeginSubmenu { title, enabled }];
    let close = seq![MenuEntry::EndSubmenu];
    let s = outer + open + inner + close;
    assert(depth(open) == 1) by {
        assert(open.drop_last() =~= Seq::<MenuEntry>::empty());
        assert(depth(open.drop_last()) == 0);
        assert(open.last() == MenuEntry::BeginSubmenu { title, enabled });
    }
    assert(depth(close) == -1) by {
        assert(close.drop_last() =~= Seq::<MenuEntry>::empty());
        assert(depth(close.drop_last()) == 0);
        assert(close.last() == MenuEntry::EndSubmenu);
    }
    lemma_depth_concat(outer, open);
    lemma_depth_concat(outer + open, inner);
    lemma_depth_concat(outer + open + inner, close);
    assert forall|i: int| 0 <= i <= s.len() implies depth(#[trigger] s.take(i)) >= 0 by {
        let n = outer.len() as int;
        let m = inner.len() as int;
        if i <= n {
            assert(s.take(i) =~= outer.take(i));
        } else if i <= n + 1 + m {
            let j = i - n - 1;
            assert(s.take(i) =~= outer + open + inner.take(j));
            lemma_depth_concat(outer + open, inner.take(j));
            assert(depth(inner.take(j)) >= 0);
        } else {
            assert(s.take(i) =~= s);
        }
    }
}

/// A menu under construction: an ordered, balanced sequence of entries. Building has no
/// side effect, and the same menu can be materialized any number of times.
#[derive(Clone, Debug)]
pub struct Menu {
    entries: Vec<MenuEntry>,
}

impl View for Menu {
    type V = Seq<MenuEntry>;

    closed spec fn view(&self) -> Seq<MenuEntry> {
        self.entries@
    }
}

impl Menu {
    pub open spec fn wf(&self) -> bool {
        balanced(self@)
    }

    pub fn new() -> (r: Menu)
        ensures
            r@ == Seq::<MenuEntry>::empty(),
            r.wf(),
    {
        let r = Menu { entries: Vec::new() };
        assert forall|i: int| 0 <= i <= r@.len() implies depth(#[trigger] r@.take(i)) >= 0 by {
            assert(r@.take(i) =~= Seq::<MenuEntry>::empty());
        }
        r
    }

    /// A menu meant to pop up, such as a tray menu. Its entries are kept like any other menu's.
    pub fn new_popup_menu() -> (r: Menu)
        ensures
            r@ == Seq::<MenuEntry>::empty(),
            r.wf(),
    {
        Menu::new()
    }

    proof fn lemma_push_flat_balanced(s: Seq<MenuEntry>, e: MenuEntry)
        requires
            balanced(s),
            depth_change(e) == 0,
        ensures
            balanced(s.push(e)),
    {
        let t = s.push(e);
        assert(t.drop_last() =~= s);
        assert forall|i: int| 0 <= i <= t.len() implies depth(#[trigger] t.take(i)) >= 0 by {
            if i <= s.len() {
                assert(t.take(i) =~= s.take(i));
            } else {
                assert(t.take(i) =~= t);
            }
        }
    }

    /// Appends a custom item and returns a handle on it.
    pub fn add_item(&mut self, attributes: MenuItemAttributes) -> (r: CustomMenuItem)
        requires
            old(self).wf(),
        ensures
            final(self).wf(),
            final(self)@ == old(self)@.push(MenuEntry::Custom(attributes)),
            r.id == attributes.id,
    {
        let id = attributes.id;
        proof {
            Menu::lemma_push_flat_balanced(self@, MenuEntry::Custom(attributes));
        }
        self.entries.push(MenuEntry::Custom(attributes));
        CustomMenuItem { id }
    }

    /// Appends an item with a built-in meaning, or a separator.
    pub fn add_native_item(&mut self, item: MenuItem)
        requires
            old(self).wf(),
        ensures
            final(self).wf(),
            final(self)@ == old(self)@.push(MenuEntry::Native(item)),
    {
        proof {
            Menu::lemma_push_flat_balanced(self@, MenuEntry::Native(item));
        }
        self.entries.push(MenuEntry::Native(item));
    }

    /// Appends `submenu` as a submenu of this title.
    pub fn add_submenu(&mut self, title: &str, enabled: bool, submenu: Menu)
        requires
            old(self).wf(),
            submenu.wf(),
        ensures
            final(self).wf(),
            final(self)@.len() == old(self)@.len() + submenu@.len() + 2,
            final(self)@.take(old(self)@.len() as int) == old(self)@,
            final(self)@[old(self)@.len() as int] matches MenuEntry::BeginSubmenu { title: t, enabled: e }
                && t@ == title@ && e == enabled,
            final(self)@.subrange(
                old(self)@.len() + 1int,
                old(self)@.len() + 1int + submenu@.len(),
            ) == submenu@,
            final(self)@.last() == MenuEntry::EndSubmenu,
    {
        let title = title.to_owned();
        proof {
            lemma_append_submenu_balanced(self@, title, enabled, submenu@);
        }
        let ghost before = self@;
        self.entries.push(MenuEntry::BeginSubmenu { title, enabled });
        let mut rest = submenu.entries;
        self.entries.append(&mut rest);
        self.entries.push(MenuEntry::EndSubmenu);
        assert(self@ =~= before + seq![MenuEntry::BeginSubmenu { title, enabled }] + submenu@
            + seq![MenuEntry::EndSubmenu]);
        assert(self@.take(before.len() as int) =~= before);
        assert(self@.subrange(before.len() + 1int, before.len() + 1int + submenu@.len()) =~= submenu@);
    }

    /// Gives up the menu for its entries, in order.
    pub fn into_entries(self) -> (r: Vec<MenuEntry>)
        ensures
            r@ == self@,
    {
        self.entries
    }

    /// The entries, in order.
    pub fn entries(&self) -> (r: &Vec<MenuEntry>)
        ensures
            r@ == self@,
    {
        &self.entries
    }
}

impl Default for Menu {
    fn default() -> (r: Menu)
        ensures
            r@ == Seq::<MenuEntry>::empty(),
            r.wf(),
    {
        Menu::new()
    }
}

} // verus!
