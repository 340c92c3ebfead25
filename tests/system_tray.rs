use tao::menu::{Menu, MenuId, MenuItemAttributes, MenuType};
use tao::menu_bridge::{Dispatch, MenuEvent, NativeOp};
use tao::platform::Platform;
use tao::system_tray::{Icon, SystemTrayBuilder};

fn tray_menu(id: u32, title: &str) -> Menu {
    let mut menu = Menu::new_popup_menu();
    menu.add_item(MenuItemAttributes::new(MenuId(id), title));
    menu
}

#[test]
fn tray_build_materializes_the_menu() {
    let tray = SystemTrayBuilder::new(Icon::from_bytes(vec![1, 2, 3]), Some(tray_menu(10, "Open")))
        .build(Platform::Linux);
    assert_eq!(tray.icon().bytes, vec![1, 2, 3]);
    assert_eq!(tray.plan().len(), 1);
    assert_eq!(
        tray.dispatch(1),
        Dispatch::Activated(MenuEvent { menu_id: MenuId(10), origin: MenuType::SystemTray })
    );
}

#[test]
fn tray_without_menu_ignores_clicks() {
    let tray = SystemTrayBuilder::new(Icon::from_bytes(vec![]), None).build(Platform::MacOs);
    assert!(tray.plan().is_empty());
    assert_eq!(tray.dispatch(1), Dispatch::Ignored);
}

#[test]
fn tray_set_icon_keeps_menu() {
    let mut tray = SystemTrayBuilder::new(Icon::from_bytes(vec![1]), Some(tray_menu(1, "A")))
        .build(Platform::Windows);
    tray.set_icon(Icon::from_bytes(vec![9, 9]));
    assert_eq!(tray.icon().bytes, vec![9, 9]);
    assert_eq!(tray.plan().len(), 1);
}

#[test]
fn tray_set_menu_releases_the_old_one() {
    let mut tray = SystemTrayBuilder::new(Icon::from_bytes(vec![1]), Some(tray_menu(1, "Old")))
        .build(Platform::Linux);
    let released = tray.set_menu(Some(tray_menu(2, "New")));
    assert_eq!(released, vec![1]);
    assert_eq!(
        tray.dispatch(1),
        Dispatch::Activated(MenuEvent { menu_id: MenuId(2), origin: MenuType::SystemTray })
    );
    assert!(matches!(&tray.plan()[0], NativeOp::Item { title, .. } if title == "New"));
    assert_eq!(tray.set_menu(None), vec![1]);
    assert_eq!(tray.dispatch(1), Dispatch::Ignored);
    assert!(tray.set_menu(None).is_empty());
}
