//! A tray icon with an optional menu. The tray's menu reports its clicks with the
//! [`MenuType::SystemTray`] origin and can be replaced at any time.
use crate::menu::{Menu, MenuType};
use crate::menu_bridge::{released_ids, Dispatch, MaterializedMenu, NativeOp, ops_of};
use crate::platform::Platform;
use vstd::prelude::*;

verus! {

/// Encoded image data for a tray icon, handed to the platform as is.
#[derive(Clone, Debug, PartialEq, Eq)]
pub struct Icon {
    pub bytes: Vec<u8>,
}

impl Icon {
    pub fn from_bytes(bytes: Vec<u8>) -> (r: Icon)
        ensures
            r.bytes == bytes,
    {
        Icon { bytes }
    }
}

/// What a tray is made from: its icon and, optionally, its menu.
#[derive(Debug)]
pub struct SystemTrayBuilder {
    pub icon: Icon,
    pub menu: Option<Menu>,
}

impl SystemTrayBuilder {
    pub fn new(icon: Icon, menu: Option<Menu>) -> (r: SystemTrayBuilder)
        ensures
            r.icon == icon,
            r.menu == menu,
    {
        SystemTrayBuilder { icon, menu }
    }

    /// The tray, with its menu materialized for `platform`.
    pub fn build(self, platform: Platform) -> (r: SystemTray)
        ensures
            r.spec_icon() == self.icon,
            r.spec_platform() == platform,
            r.spec_menu() is Some <==> self.menu is Some,
            self.menu matches Some(m) ==> {
                let mm = r.spec_menu()->Some_0;
                &&& mm.spec_entries() == m@
                &&& mm.spec_origin() == MenuType::SystemTray
                &&& mm.spec_platform() == platform
                &&& mm.spec_live()
            },
    {
        let menu = match self.menu {
            Some(m) => Some(MaterializedMenu::new(m, MenuType::SystemTray, platform)),
            None => None,
        };
        SystemTray { icon: self.icon, menu, platform }
    }
}

/// A tray icon and its materialized menu, if it has one.
#[derive(Debug)]
pub struct SystemTray {
    icon: Icon,
    menu: Option<MaterializedMenu>,
    platform: Platform,
}

impl SystemTray {
    pub closed spec fn spec_icon(&self) -> Icon {
        self.icon
    }

    pub closed spec fn spec_menu(&self) -> Option<MaterializedMenu> {
        self.menu
    }

    pub closed spec fn spec_platform(&self) -> Platform {
        self.platform
    }

    pub fn icon(&self) -> (r: &Icon)
        ensures
            *r == self.spec_icon(),
    {
        &self.icon
    }

    /// Gives up the tray for its materialized menu, to hand the menu to a native backend.
    pub fn into_menu(self) -> (r: Option<MaterializedMenu>)
        ensures
            r == self.spec_menu(),
    {
        self.menu
    }

    /// Sets a new tray icon; the menu stays as it is.
    pub fn set_icon(&mut self, icon: Icon)
        ensures
            final(self).spec_icon() == icon,
            final(self).spec_menu() == old(self).spec_menu(),
            final(self).spec_platform() == old(self).spec_platform(),
    {
        self.icon = icon;
    }

    /// Replaces the tray menu. The old menu, if any, is released first: the returned
    /// identifiers are those whose native callbacks the backend disconnects.
    pub fn set_menu(&mut self, menu: Option<Menu>) -> (r: Vec<usize>)
        ensures
            final(self).spec_icon() == old(self).spec_icon(),
            final(self).spec_platform() == old(self).spec_platform(),
            match old(self).spec_menu() {
                Some(m) => if m.spec_live() {
                    released_ids(m.spec_entries(), r@)
                } else {
                    r@.len() == 0
                },
                None => r@.len() == 0,
            },
            final(self).spec_menu() is Some <==> menu is Some,
            menu matches Some(m) ==> {
                let mm = final(self).spec_menu()->Some_0;
                &&& mm.spec_entries() == m@
                &&& mm.spec_origin() == MenuType::SystemTray
                &&& mm.spec_platform() == old(self).spec_platform()
                &&& mm.spec_live()
            },
    {
        let released = match self.menu.take() {
            Some(mut m) => m.release(),
            None => Vec::new(),
        };
        self.menu = match menu {
            Some(m) => Some(MaterializedMenu::new(m, MenuType::SystemTray, self.platform)),
            None => None,
        };
        released
    }

    /// The native construction steps of the tray menu; none without a menu.
    pub fn plan(&self) -> (r: Vec<NativeOp>)
        ensures
            r@ == match self.spec_menu() {
                Some(m) => ops_of(m.spec_entries(), m.spec_platform()),
                None => Seq::empty(),
            },
    {
        match &self.menu {
            Some(m) => m.plan(),
            None => Vec::new(),
        }
    }

    /// Routes the activation of an item of the tray menu.
    pub fn dispatch(&self, native_id: usize) -> (r: Dispatch)
        ensures
            r == match self.spec_menu() {
                Some(m) => m.spec_dispatch(native_id),
                None => Dispatch::Ignored,
            },
    {
        match &self.menu {
            Some(m) => m.dispatch(native_id),
            None => Dispatch::Ignored,
        }
    }
}

} // verus!
