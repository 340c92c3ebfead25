//! Materialization of a menu for a native backend, and routing of native activations back to
//! the application.
//!
//! A [`MaterializedMenu`] owns the entries of the menu it was made from. Each entry's native
//! identifier is its position plus one, so identifiers are scoped to one materialization and
//! never collide across menus. The backend builds native objects from [`MaterializedMenu::plan`],
//! reports each native activation to [`MaterializedMenu::dispatch`], and applies the updates
//! that the live-mutation methods return. Once released, a materialized menu routes nothing.
use crate::menu::{CustomMenuItem, Menu, MenuEntry, MenuId, MenuItem, MenuItemAttributes, MenuType};
use crate::platform::Platform;
use vstd::prelude::*;

verus! {

/// A click on a custom menu item, as the application's event loop receives it.
#[derive(Clone, Copy, Debug, PartialEq, Eq, Structural, Hash)]
pub struct MenuEvent {
    pub menu_id: MenuId,
    pub origin: MenuType,
}

/// Turns native clicks of one menu into menu events carrying that menu's origin.
#[derive(Clone, Copy, Debug, PartialEq, Eq, Structural)]
pub struct MenuHandler {
    pub menu_type: MenuType,
}

impl MenuHandler {
    pub fn new(menu_type: MenuType) -> (r: MenuHandler)
        ensures
            r.menu_type == menu_type,
    {
        MenuHandler { menu_type }
    }

    /// The event for a click on the custom item `menu_id`.
    pub fn send_click_event(&self, menu_id: u32) -> (r: MenuEvent)
        ensures
            r == (MenuEvent { menu_id: MenuId(menu_id), origin: self.menu_type }),
    {
        MenuEvent { menu_id: MenuId(menu_id), origin: self.menu_type }
    }
}

/// Whether `platform` has a native construct for `item`. Actions without one are left out of
/// the native menu, silently.
pub open spec fn spec_supports(platform: Platform, item: MenuItem) -> bool {
    match platform {
        Platform::MacOs => true,
        Platform::Linux => match item {
            MenuItem::Separator | MenuItem::About(_) | MenuItem::Hide | MenuItem::CloseWindow
            | MenuItem::Quit | MenuItem::Copy | MenuItem::Cut | MenuItem::SelectAll
            | MenuItem::Paste => true,
            _ => false,
        },
        Platform::Windows => match item {
            MenuItem::Separator | MenuItem::Cut | MenuItem::Copy | MenuItem::Paste => true,
            _ => false,
        },
    }
}

pub fn supports(platform: Platform, item: &MenuItem) -> (r: bool)
    ensures
        r == spec_supports(platform, *item),
{
    match platform {
        Platform::MacOs => true,
        Platform::Linux => match item {
            MenuItem::Separator | MenuItem::About(_) | MenuItem::Hide | MenuItem::CloseWindow
            | MenuItem::Quit | MenuItem::Copy | MenuItem::Cut | MenuItem::SelectAll
            | MenuItem::Paste => true,
            _ => false,
        },
        Platform::Windows => match item {
            MenuItem::Separator | MenuItem::Cut | MenuItem::Copy | MenuItem::Paste => true,
            _ => false,
        },
    }
}

/// The virtual-key code that, pressed with Control, performs an edit action: C for Copy, X
/// for Cut, V for Paste.
pub fn edit_shortcut_key(item: &MenuItem) -> (r: Option<u16>)
    ensures
        r == (match *item {
            MenuItem::Copy => Some(0x43u16),
            MenuItem::Cut => Some(0x58u16),
            MenuItem::Paste => Some(0x56u16),
            _ => None,
        }),
{
    match item {
        MenuItem::Copy => Some(0x43),
        MenuItem::Cut => Some(0x58),
        MenuItem::Paste => Some(0x56),
        _ => None,
    }
}

/// One step of building a native menu, in display order.
#[derive(Clone, Debug, PartialEq, Eq)]
pub enum NativeOp {
    /// An interactive item whose activation is reported under `native_id`.
    Item {
        native_id: usize,
        title: String,
        accelerator: Option<crate::hotkey::HotKey>,
        enabled: bool,
        selected: bool,
    },
    /// The platform's built-in item for `action`, reported under `native_id`.
    Action { native_id: usize, action: MenuItem },
    Separator,
    /// Opens a submenu; the steps up to the matching `EndSubmenu` fill it.
    BeginSubmenu { title: String, enabled: bool },
    EndSubmenu,
}

/// Whether an entry yields a native construct on `platform`.
pub open spec fn lowers(e: MenuEntry, platform: Platform) -> bool {
    match e {
        MenuEntry::Native(item) => spec_supports(platform, item),
        _ => true,
    }
}

/// The native construct for the entry at position `pos`.
pub open spec fn op_of(e: MenuEntry, pos: int) -> NativeOp {
    match e {
        MenuEntry::Custom(a) => NativeOp::Item {
            native_id: (pos + 1) as usize,
            title: a.title,
            accelerator: a.accelerator,
            enabled: a.enabled,
            selected: a.selected,
        },
        MenuEntry::Native(item) => if item is Separator {
            NativeOp::Separator
        } else {
            NativeOp::Action { native_id: (pos + 1) as usize, action: item }
        },
        MenuEntry::BeginSubmenu { title, enabled } => NativeOp::BeginSubmenu { title, enabled },
        MenuEntry::EndSubmenu => NativeOp::EndSubmenu,
    }
}

/// The positions of the entries that yield a native construct, in order.
pub open spec fn lowered_positions(s: Seq<MenuEntry>, platform: Platform) -> Seq<int>
    decreases s.len(),
{
    if s.len() == 0 {
        Seq::empty()
    } else {
        let prev = lowered_positions(s.drop_last(), platform);
        if lowers(s.last(), platform) {
            prev.push(s.len() - 1)
        } else {
            prev
        }
    }
}

/// The native construction steps for the entries `s`.
pub open spec fn ops_of(s: Seq<MenuEntry>, platform: Platform) -> Seq<NativeOp> {
    lowered_positions(s, platform).map_values(|pos: int| op_of(s[pos], pos))
}

/// What a native activation amounts to.
#[derive(Clone, Debug, PartialEq, Eq)]
pub enum Dispatch {
    /// A custom item was clicked: deliver this event.
    Activated(MenuEvent),
    /// A built-in item was activated: perform this action.
    Native(MenuItem),
    /// Nothing to do.
    Ignored,
}

/// A change to a live custom item.
#[derive(Clone, Debug, PartialEq, Eq)]
pub enum ItemChange {
    Enabled(bool),
    Title(String),
    Selected(bool),
}

impl ItemChange {
    pub fn duplicate(&self) -> (r: ItemChange)
        ensures
            r == *self,
    {
        match self {
            ItemChange::Enabled(e) => ItemChange::Enabled(*e),
            ItemChange::Title(t) => ItemChange::Title(t.clone()),
            ItemChange::Selected(s) => ItemChange::Selected(*s),
        }
    }
}

/// A change for the backend to apply to the native item `native_id`, at once.
#[derive(Clone, Debug, PartialEq, Eq)]
pub struct ItemUpdate {
    pub native_id: usize,
    pub change: ItemChange,
}

pub open spec fn apply_change(a: MenuItemAttributes, change: ItemChange) -> MenuItemAttributes {
    match change {
        ItemChange::Enabled(enabled) => MenuItemAttributes { enabled, ..a },
        ItemChange::Title(title) => MenuItemAttributes { title, ..a },
        ItemChange::Selected(selected) => MenuItemAttributes { selected, ..a },
    }
}

pub open spec fn is_custom_with(e: MenuEntry, id: MenuId) -> bool {
    e matches MenuEntry::Custom(a) && a.id == id
}

/// The outcome of changing the custom item `id` of a menu with entries `before`: when the menu
/// is live and has such an item, the first one is changed and an update for its native item
/// is returned; otherwise nothing changes and no update is returned.
pub open spec fn updated(
    before: Seq<MenuEntry>,
    live: bool,
    id: MenuId,
    change: ItemChange,
    r: Option<ItemUpdate>,
    after: Seq<MenuEntry>,
) -> bool {
    &&& r is None <==> (!live || forall|p: int| 0 <= p < before.len() ==> !is_custom_with(
        #[trigger] before[p],
        id,
    ))
    &&& r is None ==> after == before
    &&& r matches Some(u) ==> {
        let p = u.native_id - 1;
        &&& 1 <= u.native_id <= before.len()
        &&& is_custom_with(before[p], id)
        &&& forall|q: int| 0 <= q < p ==> !is_custom_with(#[trigger] before[q], id)
        &&& u.change == change
        &&& after == before.update(
            p,
            MenuEntry::Custom(apply_change(before[p]->Custom_0, change)),
        )
    }
}

/// `ids` are the native identifiers of the custom items among `entries`, each once, in order.
pub open spec fn released_ids(entries: Seq<MenuEntry>, ids: Seq<usize>) -> bool {
    &&& forall|i: int, j: int| 0 <= i < j < ids.len() ==> ids[i] < ids[j]
    &&& forall|k: int|
        0 <= k < ids.len() ==> 1 <= #[trigger] ids[k] <= entries.len() && entries[ids[k] - 1] is Custom
    &&& forall|p: int|
        0 <= p < entries.len() && #[trigger] entries[p] is Custom ==> ids.contains((p + 1) as usize)
}

/// A menu made native for one owner: a window's menu bar or a tray. It owns the entries that
/// native identifiers are looked up in, for as long as it is live.
#[derive(Debug)]
pub struct MaterializedMenu {
    handler: MenuHandler,
    platform: Platform,
    entries: Vec<MenuEntry>,
    live: bool,
}

impl MaterializedMenu {
    /// The entries that native identifiers are looked up in.
    pub closed spec fn spec_entries(&self) -> Seq<MenuEntry> {
        self.entries@
    }

    pub closed spec fn spec_origin(&self) -> MenuType {
        self.handler.menu_type
    }

    pub closed spec fn spec_platform(&self) -> Platform {
        self.platform
    }

    /// Whether the menu is live: not yet released by its owner.
    pub closed spec fn spec_live(&self) -> bool {
        self.live
    }

    /// What activating the native item `native_id` amounts to.
    pub open spec fn spec_dispatch(&self, native_id: usize) -> Dispatch {
        let s = self.spec_entries();
        if !self.spec_live() || native_id == 0 || native_id > s.len() {
            Dispatch::Ignored
        } else {
            match s[native_id - 1] {
                MenuEntry::Custom(a) => Dispatch::Activated(
                    MenuEvent { menu_id: a.id, origin: self.spec_origin() },
                ),
                MenuEntry::Native(item) => if !(item is Separator) && spec_supports(
                    self.spec_platform(),
                    item,
                ) {
                    Dispatch::Native(item)
                } else {
                    Dispatch::Ignored
                },
                _ => Dispatch::Ignored,
            }
        }
    }

    /// Materializes `menu` for an owner of kind `origin` on `platform`.
    pub fn new(menu: Menu, origin: MenuType, platform: Platform) -> (r: MaterializedMenu)
        ensures
            r.spec_entries() == menu@,
            r.spec_origin() == origin,
            r.spec_platform() == platform,
            r.spec_live(),
    {
        MaterializedMenu {
            handler: MenuHandler::new(origin),
            platform,
            entries: menu.into_entries(),
            live: true,
        }
    }

    pub fn origin(&self) -> (r: MenuType)
        ensures
            r == self.spec_origin(),
    {
        self.handler.menu_type
    }

    pub fn platform(&self) -> (r: Platform)
        ensures
            r == self.spec_platform(),
    {
        self.platform
    }

    pub fn is_live(&self) -> (r: bool)
        ensures
            r == self.spec_live(),
    {
        self.live
    }

    /// The native construction steps: one per entry that the platform can show, in entry
    /// order. Actions the platform lacks are left out.
    pub fn plan(&self) -> (r: Vec<NativeOp>)
        ensures
            r@ == ops_of(self.spec_entries(), self.spec_platform()),
    {
        let ghost s = self.entries@;
        let mut ops: Vec<NativeOp> = Vec::new();
        let mut i: usize = 0;
        while i < self.entries.len()
            invariant
                s == self.entries@,
                i <= s.len(),
                ops@ == lowered_positions(s.take(i as int), self.platform).map_values(
                    |pos: int| op_of(s[pos], pos),
                ),
            decreases s.len() - i,
        {
            let ghost before = ops@;
            let e = &self.entries[i];
            let lowered = match e {
                MenuEntry::Native(item) => supports(self.platform, item),
                _ => true,
            };
            if lowered {
                let op = match e {
                    MenuEntry::Custom(a) => NativeOp::Item {
                        native_id: i + 1,
                        title: a.title.clone(),
                        accelerator: a.accelerator,
                        enabled: a.enabled,
                        selected: a.selected,
                    },
                    MenuEntry::Native(item) => match item {
                        MenuItem::Separator => NativeOp::Separator,
                        _ => NativeOp::Action { native_id: i + 1, action: item.duplicate() },
                    },
                    MenuEntry::BeginSubmenu { title, enabled } => NativeOp::BeginSubmenu {
                        title: title.clone(),
                        enabled: *enabled,
                    },
                    MenuEntry::EndSubmenu => NativeOp::EndSubmenu,
                };
                ops.push(op);
            }
            proof {
                let t = s.take(i + 1);
                assert(t.drop_last() =~= s.take(i as int));
                assert(t.last() == s[i as int]);
                let f = |pos: int| op_of(s[pos], pos);
                let prev = lowered_positions(s.take(i as int), self.platform);
                if lowered {
                    assert(prev.push(i as int).map_values(f) =~= prev.map_values(f).push(
                        f(i as int),
                    ));
                }
            }
            i = i + 1;
        }
        assert(s.take(s.len() as int) =~= s);
        ops
    }

    /// Routes the activation of the native item `native_id`. A custom item yields exactly one
    /// menu event with its identifier and this menu's origin; separators, submenu titles,
    /// unknown identifiers and any activation after release yield nothing.
    pub fn dispatch(&self, native_id: usize) -> (r: Dispatch)
        ensures
            r == self.spec_dispatch(native_id),
    {
        if !self.live || native_id == 0 || native_id > self.entries.len() {
            return Dispatch::Ignored;
        }
        match &self.entries[native_id - 1] {
            MenuEntry::Custom(a) => Dispatch::Activated(self.handler.send_click_event(a.id.0)),
            MenuEntry::Native(item) => {
                let is_separator = match item {
                    MenuItem::Separator => true,
                    _ => false,
                };
                if !is_separator && supports(self.platform, item) {
                    Dispatch::Native(item.duplicate())
                } else {
                    Dispatch::Ignored
                }
            },
            _ => Dispatch::Ignored,
        }
    }

    fn update(&mut self, id: MenuId, change: ItemChange) -> (r: Option<ItemUpdate>)
        ensures
            final(self).spec_origin() == old(self).spec_origin(),
            final(self).spec_platform() == old(self).spec_platform(),
            final(self).spec_live() == old(self).spec_live(),
            updated(
                old(self).spec_entries(),
                old(self).spec_live(),
                id,
                change,
                r,
                final(self).spec_entries(),
            ),
    {
        if !self.live {
            return None;
        }
        let mut i: usize = 0;
        while i < self.entries.len()
            invariant
                i <= self.entries.len(),
                self.live,
                old(self).live,
                self.handler == old(self).handler,
                self.platform == old(self).platform,
                self.entries@ == old(self).entries@,
                forall|q: int| 0 <= q < i ==> !is_custom_with(#[trigger] self.entries@[q], id),
            decreases self.entries.len() - i,
        {
            let attributes = match &self.entries[i] {
                MenuEntry::Custom(a) => if a.id == id {
                    Some(a.duplicate())
                } else {
                    None
                },
                _ => None,
            };
            match attributes {
                Some(a) => {
                    let changed = match change.duplicate() {
                        ItemChange::Enabled(enabled) => MenuItemAttributes { enabled, ..a },
                        ItemChange::Title(title) => MenuItemAttributes { title, ..a },
                        ItemChange::Selected(selected) => MenuItemAttributes { selected, ..a },
                    };
                    self.entries.set(i, MenuEntry::Custom(changed));
                    return Some(ItemUpdate { native_id: i + 1, change });
                },
                None => {},
            }
            i = i + 1;
        }
        None
    }

    /// Enables or disables the custom item of `item`, if this menu is live and has it.
    pub fn set_enabled(&mut self, item: &CustomMenuItem, enabled: bool) -> (r: Option<ItemUpdate>)
        ensures
            final(self).spec_origin() == old(self).spec_origin(),
            final(self).spec_platform() == old(self).spec_platform(),
            final(self).spec_live() == old(self).spec_live(),
            updated(
                old(self).spec_entries(),
                old(self).spec_live(),
                item.id,
                ItemChange::Enabled(enabled),
                r,
                final(self).spec_entries(),
            ),
    {
        self.update(item.id, ItemChange::Enabled(enabled))
    }

    /// Retitles the custom item of `item`, if this menu is live and has it.
    pub fn set_title(&mut self, item: &CustomMenuItem, title: &str) -> (r: Option<ItemUpdate>)
        ensures
            final(self).spec_origin() == old(self).spec_origin(),
            final(self).spec_platform() == old(self).spec_platform(),
            final(self).spec_live() == old(self).spec_live(),
            exists|t: String|
                t@ == title@ && updated(
                    old(self).spec_entries(),
                    old(self).spec_live(),
                    item.id,
                    ItemChange::Title(t),
                    r,
                    final(self).spec_entries(),
                ),
    {
        let t = title.to_owned();
        let ghost g = t;
        let r = self.update(item.id, ItemChange::Title(t));
        assert(g@ == title@);
        r
    }

    /// Checks or unchecks the custom item of `item`, if this menu is live and has it.
    pub fn set_selected(&mut self, item: &CustomMenuItem, selected: bool) -> (r: Option<ItemUpdate>)
        ensures
            final(self).spec_origin() == old(self).spec_origin(),
            final(self).spec_platform() == old(self).spec_platform(),
            final(self).spec_live() == old(self).spec_live(),
            updated(
                old(self).spec_entries(),
                old(self).spec_live(),
                item.id,
                ItemChange::Selected(selected),
                r,
                final(self).spec_entries(),
            ),
    {
        self.update(item.id, ItemChange::Selected(selected))
    }

    /// Releases the menu when its owner is destroyed. Returns the native identifiers of the
    /// custom items, in order, whose activation callbacks the backend disconnects; the lookup
    /// entries are dropped after that, and from then on every activation is ignored.
    pub fn release(&mut self) -> (r: Vec<usize>)
        ensures
            !final(self).spec_live(),
            final(self).spec_entries().len() == 0,
            final(self).spec_origin() == old(self).spec_origin(),
            final(self).spec_platform() == old(self).spec_platform(),
            !old(self).spec_live() ==> r@.len() == 0,
            old(self).spec_live() ==> released_ids(old(self).spec_entries(), r@),
    {
        let mut ids: Vec<usize> = Vec::new();
        if self.live {
            let mut i: usize = 0;
            while i < self.entries.len()
                invariant
                    i <= self.entries.len(),
                    self.entries@ == old(self).entries@,
                    forall|a: int, b: int| 0 <= a < b < ids@.len() ==> ids@[a] < ids@[b],
                    forall|k: int|
                        0 <= k < ids@.len() ==> 1 <= #[trigger] ids@[k] <= i
                            && self.entries@[ids@[k] - 1] is Custom,
                    forall|p: int|
                        0 <= p < i && #[trigger] self.entries@[p] is Custom ==> ids@.contains(
                            (p + 1) as usize,
                        ),
                decreases self.entries.len() - i,
            {
                let custom = match &self.entries[i] {
                    MenuEntry::Custom(_) => true,
                    _ => false,
                };
                let ghost before = ids@;
                if custom {
                    ids.push(i + 1);
                    proof {
                        assert forall|p: int|
                            0 <= p < i + 1 && #[trigger] self.entries@[p] is Custom implies ids@.contains(
                            (p + 1) as usize,
                        ) by {
                            if p < i {
                                let k = choose|k: int| 0 <= k < before.len() && before[k] == (p + 1) as usize;
                                assert(ids@[k] == before[k]);
                            } else {
                                assert(ids@[before.len() as int] == (p + 1) as usize);
                            }
                        }
                    }
                }
                i = i + 1;
            }
        }
        self.live = false;
        self.entries = Vec::new();
        ids
    }
}

/// The native construction steps keep the menu's order: they correspond one to one, in the
/// same order, to the entries the platform can show, and each step is the construct for its
/// entry. Submenu boundaries are entries like any other, so each submenu's items stay between
/// its opening and closing step, in order.
pub proof fn lemma_plan_order(s: Seq<MenuEntry>, platform: Platform)
    ensures
        ({
            let pos = lowered_positions(s, platform);
            let ops = ops_of(s, platform);
            &&& ops.len() == pos.len()
            &&& forall|i: int, j: int| 0 <= i < j < pos.len() ==> pos[i] < pos[j]
            &&& forall|k: int|
                0 <= k < pos.len() ==> 0 <= #[trigger] pos[k] < s.len() && lowers(s[pos[k]], platform)
                    && ops[k] == op_of(s[pos[k]], pos[k])
            &&& forall|p: int| 0 <= p < s.len() && lowers(#[trigger] s[p], platform) ==> pos.contains(p)
        }),
    decreases s.len(),
{
    if s.len() > 0 {
        let t = s.drop_last();
        lemma_plan_order(t, platform);
        let prev = lowered_positions(t, platform);
        let pos = lowered_positions(s, platform);
        assert forall|p: int| 0 <= p < s.len() && lowers(#[trigger] s[p], platform) implies pos.contains(p) by {
            if p < s.len() - 1 {
                assert(t[p] == s[p]);
                let k = choose|k: int| 0 <= k < prev.len() && prev[k] == p;
                assert(pos[k] == p);
            } else {
                assert(pos[prev.len() as int] == p);
            }
        }
    }
}

/// Activating the native item of a custom entry yields exactly the event for that entry's
/// identifier, with this menu's origin; activating a built-in action yields that action; a
/// separator yields nothing.
pub proof fn lemma_activation_routing(m: MaterializedMenu, k: int)
    requires
        m.spec_live(),
        0 <= k < ops_of(m.spec_entries(), m.spec_platform()).len(),
    ensures
        ({
            let s = m.spec_entries();
            match ops_of(s, m.spec_platform())[k] {
                NativeOp::Item { native_id, .. } => {
                    &&& s[native_id - 1] is Custom
                    &&& m.spec_dispatch(native_id) == Dispatch::Activated(
                        MenuEvent { menu_id: s[native_id - 1]->Custom_0.id, origin: m.spec_origin() },
                    )
                },
                NativeOp::Action { native_id, action } => m.spec_dispatch(native_id)
                    == Dispatch::Native(action),
                _ => true,
            }
        }),
{
    lemma_plan_order(m.spec_entries(), m.spec_platform());
    assert(m.entries.len() == m.entries@.len());
    let s = m.spec_entries();
    let pos = lowered_positions(s, m.spec_platform());
    assert(0 <= pos[k] < s.len());
}

/// A separator's native position never yields an event.
pub proof fn lemma_separator_is_silent(m: MaterializedMenu, native_id: usize)
    requires
        1 <= native_id <= m.spec_entries().len(),
        m.spec_entries()[native_id - 1] == MenuEntry::Native(MenuItem::Separator),
    ensures
        m.spec_dispatch(native_id) == Dispatch::Ignored,
{
}

/// Once its owner has released a materialized menu, no activation yields anything, whatever
/// native callback may still fire.
pub proof fn lemma_released_menu_is_silent(m: MaterializedMenu, native_id: usize)
    requires
        !m.spec_live(),
    ensures
        m.spec_dispatch(native_id) == Dispatch::Ignored,
{
}

} // verus!
