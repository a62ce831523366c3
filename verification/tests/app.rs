use office_tray::app::{
    Application, Directive, Lifecycle, Platform, StartCause, StartupPlan, UserEvent,
    QUIT_DIAGNOSTIC, QUIT_EXIT_CODE,
};
use office_tray::icon::{load_icon, IconError, IconImage};
use office_tray::menu::{MenuEvent, MenuId};

fn application(platform: Platform) -> Application {
    Application::new(MenuId::new("1001"), MenuId::new("1002"), platform)
}

fn click(id: &str) -> UserEvent {
    UserEvent::MenuEvent(MenuEvent { id: MenuId::new(id) })
}

fn icon() -> IconImage {
    IconImage::from_rgba(vec![0, 0, 0, 255], 1, 1).unwrap()
}

fn nothing() -> StartupPlan {
    StartupPlan { build_tray_icon: false, wake_run_loop: false }
}

fn is_quit(directive: Directive) -> bool {
    matches!(directive, Directive::Exit { diagnostic: "Quit", code: 0 })
}

#[test]
fn a_new_application_waits_for_the_loop() {
    let app = application(Platform::Other);
    assert_eq!(app.phase(), Lifecycle::Uninitialized);
    assert_eq!(app.platform(), Platform::Other);
    assert!(app.tray_icon().is_none());
    assert_eq!(app.menu_item().title().text(), "Intra Office AI");
    assert!(!app.menu_item().title().is_enabled());
    assert_eq!(app.menu_item().quit().text(), "Quit");
    assert!(app.menu_item().quit().is_enabled());
    assert!(*app.menu_item().title().id() == MenuId::new("1001"));
    assert!(*app.menu_item().quit().id() == MenuId::new("1002"));
}

#[test]
fn quit_scenario_from_loop_start_to_exit() {
    let mut app = application(Platform::Other);
    let plan = app.new_events(StartCause::Init);
    assert_eq!(plan, StartupPlan { build_tray_icon: true, wake_run_loop: false });
    let (menu, diagnostics) = app.new_tray_menu(Ok(()), Ok(()));
    assert!(diagnostics.is_empty());
    let tray = app.new_tray_icon(icon(), menu);
    assert!(app.install_tray_icon(tray));
    let held = app.tray_icon().unwrap();
    assert_eq!(held.tooltip(), "Intra Office AI");
    assert_eq!(held.menu().len(), 2);
    assert_eq!(held.menu().get(0).unwrap().text(), "Intra Office AI");
    assert_eq!(held.menu().get(1).unwrap().text(), "Quit");
    assert_eq!(held.icon().rgba(), &vec![0u8, 0, 0, 255]);
    match app.user_event(click("1002")) {
        Directive::Exit { diagnostic, code } => {
            assert_eq!(diagnostic, "Quit");
            assert_eq!(code, 0);
        }
        Directive::Continue => panic!("a click on quit ends the application"),
    }
}

#[test]
fn a_click_on_the_title_changes_nothing() {
    let mut app = application(Platform::Other);
    app.new_events(StartCause::Init);
    let (menu, _) = app.new_tray_menu(Ok(()), Ok(()));
    let tray = app.new_tray_icon(icon(), menu);
    assert!(app.install_tray_icon(tray));
    assert!(matches!(app.user_event(click("1001")), Directive::Continue));
    assert_eq!(app.phase(), Lifecycle::Running);
    assert_eq!(app.platform(), Platform::Other);
    assert_eq!(app.tray_icon().unwrap().menu().len(), 2);
    assert!(*app.menu_item().title().id() == MenuId::new("1001"));
    assert!(*app.menu_item().quit().id() == MenuId::new("1002"));
}

#[test]
fn a_missing_icon_asset_leaves_no_tray_icon() {
    let mut app = application(Platform::Other);
    let plan = app.new_events(StartCause::Init);
    assert!(plan.build_tray_icon);
    let failure = load_icon("png", None).unwrap_err();
    assert_eq!(failure, IconError::Unreadable);
    assert_eq!(failure.message(), "Failed to open icon path");
    assert!(app.tray_icon().is_none());
}

#[test]
fn only_the_id_of_quit_ends_the_application() {
    let mut app = application(Platform::Linux);
    assert!(is_quit(app.user_event(click("1002"))));
    assert!(matches!(app.user_event(click("1001")), Directive::Continue));
    assert!(matches!(app.user_event(click("1003")), Directive::Continue));
    assert!(matches!(app.user_event(click("")), Directive::Continue));
    assert!(matches!(app.user_event(click("10020")), Directive::Continue));
    assert!(matches!(app.user_event(click("100")), Directive::Continue));
    assert_eq!(app.phase(), Lifecycle::Uninitialized);
    assert!(app.tray_icon().is_none());
}

#[test]
fn the_exit_after_quit_is_clean() {
    assert_eq!(QUIT_DIAGNOSTIC, "Quit");
    assert_eq!(QUIT_EXIT_CODE, 0);
}

#[test]
fn a_click_is_wrapped_with_its_id() {
    let UserEvent::MenuEvent(event) = UserEvent::from(MenuEvent { id: MenuId::new("55") });
    assert!(event.id == MenuId::new("55"));
}

#[test]
fn the_menu_is_title_then_quit_on_every_platform() {
    for platform in [Platform::Linux, Platform::MacOs, Platform::Other] {
        let app = application(platform);
        let (menu, diagnostics) = app.new_tray_menu(Ok(()), Ok(()));
        assert!(diagnostics.is_empty());
        assert_eq!(menu.len(), 2);
        let title = menu.get(0).unwrap();
        assert_eq!(title.text(), "Intra Office AI");
        assert!(!title.is_enabled());
        assert!(*title.id() == MenuId::new("1001"));
        let quit = menu.get(1).unwrap();
        assert_eq!(quit.text(), "Quit");
        assert!(quit.is_enabled());
        assert!(*quit.id() == MenuId::new("1002"));
    }
}

#[test]
fn the_menu_is_built_on_with_what_the_platform_took() {
    let app = application(Platform::Other);
    let (menu, diagnostics) = app.new_tray_menu(Err(String::from("NotInitialized")), Ok(()));
    assert_eq!(diagnostics, vec![String::from("NotInitialized")]);
    assert_eq!(menu.len(), 1);
    assert_eq!(menu.get(0).unwrap().text(), "Quit");

    let (menu, diagnostics) = app.new_tray_menu(Ok(()), Err(String::from("second")));
    assert_eq!(diagnostics, vec![String::from("second")]);
    assert_eq!(menu.len(), 1);
    assert_eq!(menu.get(0).unwrap().text(), "Intra Office AI");

    let (menu, diagnostics) =
        app.new_tray_menu(Err(String::from("first")), Err(String::from("second")));
    assert_eq!(diagnostics, vec![String::from("first"), String::from("second")]);
    assert_eq!(menu.len(), 0);
}

#[test]
fn the_tray_icon_is_asked_for_once_at_loop_start() {
    let mut app = application(Platform::Other);
    assert_eq!(app.new_events(StartCause::Poll), nothing());
    assert_eq!(app.new_events(StartCause::WaitCancelled), nothing());
    assert_eq!(app.new_events(StartCause::ResumeTimeReached), nothing());
    assert_eq!(app.phase(), Lifecycle::Uninitialized);
    assert_eq!(
        app.new_events(StartCause::Init),
        StartupPlan { build_tray_icon: true, wake_run_loop: false }
    );
    assert_eq!(app.phase(), Lifecycle::Running);
    assert_eq!(app.new_events(StartCause::Init), nothing());
    assert_eq!(app.new_events(StartCause::Poll), nothing());
    assert_eq!(app.phase(), Lifecycle::Running);
}

#[test]
fn the_run_loop_is_woken_where_the_platform_needs_it() {
    let mut app = application(Platform::MacOs);
    assert_eq!(
        app.new_events(StartCause::Init),
        StartupPlan { build_tray_icon: true, wake_run_loop: true }
    );
    assert_eq!(app.new_events(StartCause::Init), nothing());
}

#[test]
fn the_tray_icon_is_built_elsewhere_with_a_toolkit_thread() {
    let mut app = application(Platform::Linux);
    assert_eq!(app.new_events(StartCause::Init), nothing());
    assert_eq!(app.phase(), Lifecycle::Running);
    let (menu, _) = app.new_tray_menu(Ok(()), Ok(()));
    let tray = app.new_tray_icon(icon(), menu);
    assert!(!app.install_tray_icon(tray));
    assert!(app.tray_icon().is_none());
}

#[test]
fn no_tray_icon_is_taken_before_the_loop_starts() {
    let mut app = application(Platform::Other);
    let (menu, _) = app.new_tray_menu(Ok(()), Ok(()));
    let tray = app.new_tray_icon(icon(), menu);
    assert!(!app.install_tray_icon(tray));
    assert!(app.tray_icon().is_none());
    assert_eq!(app.phase(), Lifecycle::Uninitialized);
}

#[test]
fn a_second_tray_icon_is_not_taken() {
    let mut app = application(Platform::MacOs);
    app.new_events(StartCause::Init);
    let first = IconImage::from_rgba(vec![1, 1, 1, 1], 1, 1).unwrap();
    let second = IconImage::from_rgba(vec![2, 2, 2, 2], 1, 1).unwrap();
    let (menu, _) = app.new_tray_menu(Ok(()), Ok(()));
    let tray = app.new_tray_icon(first, menu);
    assert!(app.install_tray_icon(tray));
    let (menu, _) = app.new_tray_menu(Ok(()), Ok(()));
    let tray = app.new_tray_icon(second, menu);
    assert!(!app.install_tray_icon(tray));
    assert_eq!(app.tray_icon().unwrap().icon().rgba(), &vec![1u8, 1, 1, 1]);
}

#[test]
fn the_tray_icon_has_the_application_name_as_tooltip() {
    let app = application(Platform::Other);
    let (menu, _) = app.new_tray_menu(Ok(()), Err(String::from("rejected")));
    let tray = app.new_tray_icon(icon(), menu);
    assert_eq!(tray.tooltip(), "Intra Office AI");
    assert_eq!(tray.menu().len(), 1);
    assert_eq!((tray.icon().width(), tray.icon().height()), (1, 1));
}

#[test]
fn window_events_and_resuming_do_nothing() {
    let mut app = application(Platform::Other);
    app.resumed();
    app.window_event();
    assert_eq!(app.phase(), Lifecycle::Uninitialized);
    assert!(app.tray_icon().is_none());
    app.new_events(StartCause::Init);
    let (menu, _) = app.new_tray_menu(Ok(()), Ok(()));
    let tray = app.new_tray_icon(icon(), menu);
    app.install_tray_icon(tray);
    app.resumed();
    app.window_event();
    assert_eq!(app.phase(), Lifecycle::Running);
    assert_eq!(app.tray_icon().unwrap().menu().len(), 2);
}

#[test]
fn the_platform_families_differ_in_where_the_tray_icon_is_built() {
    assert!(!Platform::Linux.builds_tray_on_loop_start());
    assert!(Platform::MacOs.builds_tray_on_loop_start());
    assert!(Platform::Other.builds_tray_on_loop_start());
    assert!(!Platform::Linux.wakes_run_loop());
    assert!(Platform::MacOs.wakes_run_loop());
    assert!(!Platform::Other.wakes_run_loop());
    assert!(Platform::Linux.runs_toolkit_thread());
    assert!(!Platform::MacOs.runs_toolkit_thread());
    assert!(!Platform::Other.runs_toolkit_thread());
}
