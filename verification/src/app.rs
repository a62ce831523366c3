use vstd::prelude::*;

use crate::icon::IconImage;
use crate::menu::{
    appended, quit_entry, title_entry, Menu, MenuEvent, MenuId, MenuItemView, TrayIconMenuItem,
    TrayIconMenuItemView,
};
use crate::tray::{TrayIcon, TrayIconView};
use crate::APP_TITLE;

verus! {

/// What the application prints when it ends on a click on quit.
pub const QUIT_DIAGNOSTIC: &'static str = "Quit";

/// The exit code of an application that ends on a click on quit.
pub const QUIT_EXIT_CODE: i32 = 0;

/// An event that is handed to the application through the event loop.
#[derive(Debug)]
pub enum UserEvent {
    /// A click on a menu entry.
    MenuEvent(MenuEvent),
}

impl From<MenuEvent> for UserEvent {
    /// Wraps a click as it comes from the tray subsystem, to be handed to
    /// the event loop.
    fn from(event: MenuEvent) -> (wrapped: UserEvent) {
        UserEvent::MenuEvent(event)
    }
}

impl vstd::std_specs::convert::FromSpecImpl<MenuEvent> for UserEvent {
    open spec fn obeys_from_spec() -> bool {
        true
    }

    open spec fn from_spec(event: MenuEvent) -> UserEvent {
        UserEvent::MenuEvent(event)
    }
}

impl UserEvent {
    /// The identifier of the menu entry that the event is about.
    pub open spec fn menu_id(self) -> Seq<char> {
        match self {
            UserEvent::MenuEvent(event) => event.id@,
        }
    }
}

/// Why the event loop hands a new batch of events over.
#[derive(Debug, Clone, Copy, PartialEq, Eq, Structural)]
pub enum StartCause {
    /// A timer that the loop waited for has run out.
    ResumeTimeReached,
    /// An event came in before the timer ran out.
    WaitCancelled,
    /// The loop polls.
    Poll,
    /// The loop has just started.
    Init,
}

/// The platform family, chosen once when the application starts.
#[derive(Debug, Clone, Copy, PartialEq, Eq, Structural)]
pub enum Platform {
    /// The tray needs a toolkit with a main loop of its own, on a thread
    /// of its own, and the tray icon is built there.
    Linux,
    /// The run loop has to be woken before a new tray icon shows.
    MacOs,
    /// Any other platform.
    Other,
}

impl Platform {
    /// The application builds the tray icon itself, when the loop starts.
    pub open spec fn spec_builds_tray_on_loop_start(self) -> bool {
        !(self is Linux)
    }

    /// The run loop is woken once the tray icon is built.
    pub open spec fn spec_wakes_run_loop(self) -> bool {
        self is MacOs
    }

    /// The tray icon is built on a toolkit thread that is started with the
    /// application.
    pub open spec fn spec_runs_toolkit_thread(self) -> bool {
        self is Linux
    }

    #[verifier::when_used_as_spec(spec_builds_tray_on_loop_start)]
    pub fn builds_tray_on_loop_start(self) -> (yes: bool)
        ensures
            yes == self.spec_builds_tray_on_loop_start(),
    {
        match self {
            Platform::Linux => false,
            _ => true,
        }
    }

    #[verifier::when_used_as_spec(spec_wakes_run_loop)]
    pub fn wakes_run_loop(self) -> (yes: bool)
        ensures
            yes == self.spec_wakes_run_loop(),
    {
        match self {
            Platform::MacOs => true,
            _ => false,
        }
    }

    #[verifier::when_used_as_spec(spec_runs_toolkit_thread)]
    pub fn runs_toolkit_thread(self) -> (yes: bool)
        ensures
            yes == self.spec_runs_toolkit_thread(),
    {
        match self {
            Platform::Linux => true,
            _ => false,
        }
    }
}

/// Where the application stands in its life. It leaves `Running` only by
/// ending the process.
#[derive(Debug, Clone, Copy, PartialEq, Eq, Structural)]
pub enum Lifecycle {
    /// The event loop has not started yet.
    Uninitialized,
    /// The event loop has started.
    Running,
}

/// What is to be done after a batch of events was announced.
#[derive(Debug, Clone, Copy, PartialEq, Eq, Structural)]
pub struct StartupPlan {
    /// Build the tray icon and hand it to the application.
    pub build_tray_icon: bool,
    /// Wake the platform's run loop, so that the icon shows at once.
    pub wake_run_loop: bool,
}

/// What is to be done after a user event.
#[derive(Debug, Clone, Copy)]
pub enum Directive {
    /// Nothing: the event loop goes on.
    Continue,
    /// Print the diagnostic and end the process at once with the code.
    Exit { diagnostic: &'static str, code: i32 },
}

impl Directive {
    /// The directive that ends the application after a click on quit.
    pub open spec fn is_quit(self) -> bool {
        &&& self matches Directive::Exit { diagnostic, code }
        &&& diagnostic@ == QUIT_DIAGNOSTIC@
        &&& code == QUIT_EXIT_CODE
    }
}

/// The application as values.
pub struct ApplicationView {
    pub phase: Lifecycle,
    pub platform: Platform,
    pub tray_icon: Option<TrayIconView>,
    pub menu_item: TrayIconMenuItemView,
}

impl ApplicationView {
    /// The two menu entries are what they are meant to be, and a tray icon
    /// is held only once the loop has started, on a platform where the
    /// application builds it.
    pub open spec fn wf(self) -> bool {
        &&& self.menu_item.wf()
        &&& self.tray_icon is Some ==> {
            &&& self.phase is Running
            &&& self.platform.builds_tray_on_loop_start()
        }
    }

    /// The application as it starts.
    pub open spec fn initial(title_id: Seq<char>, quit_id: Seq<char>, platform: Platform) -> Self {
        ApplicationView {
            phase: Lifecycle::Uninitialized,
            platform,
            tray_icon: None,
            menu_item: TrayIconMenuItemView {
                title: title_entry(title_id),
                quit: quit_entry(quit_id),
            },
        }
    }

    /// The announcement is the one with which the application starts to
    /// run: the first that says that the loop has started.
    pub open spec fn starts_on(self, cause: StartCause) -> bool {
        self.phase is Uninitialized && cause is Init
    }

    /// The application after a batch of events was announced.
    pub open spec fn new_events(self, cause: StartCause) -> Self {
        if self.starts_on(cause) {
            ApplicationView { phase: Lifecycle::Running, ..self }
        } else {
            self
        }
    }

    /// What is to be done after a batch of events was announced.
    pub open spec fn startup_plan(self, cause: StartCause) -> StartupPlan {
        if self.starts_on(cause) {
            StartupPlan {
                build_tray_icon: self.platform.builds_tray_on_loop_start(),
                wake_run_loop: self.platform.wakes_run_loop(),
            }
        } else {
            StartupPlan { build_tray_icon: false, wake_run_loop: false }
        }
    }

    /// The application takes a tray icon now: it runs, holds none yet, and
    /// is on a platform where it builds the icon itself.
    pub open spec fn accepts_tray_icon(self) -> bool {
        &&& self.phase is Running
        &&& self.tray_icon is None
        &&& self.platform.builds_tray_on_loop_start()
    }

    /// The application after it was handed a tray icon.
    pub open spec fn install_tray_icon(self, tray: TrayIconView) -> Self {
        if self.accepts_tray_icon() {
            ApplicationView { tray_icon: Some(tray), ..self }
        } else {
            self
        }
    }

    /// The event is a click on quit: its identifier has the text of the
    /// quit entry's identifier.
    pub open spec fn quits_on(self, event: UserEvent) -> bool {
        event.menu_id() == self.menu_item.quit.id
    }

    /// The tray menu after the platform answered the two appends: the
    /// title, then quit, each only if the platform took it.
    pub open spec fn tray_menu(
        self,
        title_outcome: Result<(), String>,
        quit_outcome: Result<(), String>,
    ) -> Seq<MenuItemView> {
        appended(
            appended(Seq::empty(), self.menu_item.title, title_outcome),
            self.menu_item.quit,
            quit_outcome,
        )
    }
}

/// The words of the platform about an append that it rejected.
pub open spec fn rejection(outcome: Result<(), String>) -> Seq<Seq<char>> {
    match outcome {
        Ok(_) => Seq::empty(),
        Err(reason) => seq![reason@],
    }
}

/// The texts of a run of strings.
pub open spec fn texts(lines: Seq<String>) -> Seq<Seq<char>> {
    lines.map_values(|line: String| line@)
}

/// The application: the two menu entries, and the tray icon once there is
/// one.
#[derive(Debug)]
pub struct Application {
    tray_icon: Option<TrayIcon>,
    menu_item: TrayIconMenuItem,
    platform: Platform,
    phase: Lifecycle,
}

impl View for Application {
    type V = ApplicationView;

    closed spec fn view(&self) -> ApplicationView {
        ApplicationView {
            phase: self.phase,
            platform: self.platform,
            tray_icon: match self.tray_icon {
                Some(tray) => Some(tray@),
                None => None,
            },
            menu_item: self.menu_item@,
        }
    }
}

impl Application {
    #[verifier::type_invariant]
    closed spec fn inv(&self) -> bool {
        self@.wf()
    }

    /// The application before the event loop starts: it holds no tray icon
    /// and the two menu entries, under the identifiers that the tray
    /// subsystem gave them.
    pub fn new(title_id: MenuId, quit_id: MenuId, platform: Platform) -> (app: Application)
        ensures
            app@ == ApplicationView::initial(title_id@, quit_id@, platform),
            app@.wf(),
    {
        let menu_item = TrayIconMenuItem::new(title_id, quit_id);
        Application { tray_icon: None, menu_item, platform, phase: Lifecycle::Uninitialized }
    }

    /// Takes the click on a menu entry: a click on quit ends the process,
    /// any other is passed over. The application itself stays as it is.
    pub fn user_event(&mut self, event: UserEvent) -> (directive: Directive)
        ensures
            *final(self) == *old(self),
            old(self)@.quits_on(event) ==> directive.is_quit(),
            !old(self)@.quits_on(event) ==> directive is Continue,
    {
        match event {
            UserEvent::MenuEvent(menu_event) => {
                let MenuEvent { id } = menu_event;
                if *self.menu_item.quit().id() == id {
                    Directive::Exit { diagnostic: QUIT_DIAGNOSTIC, code: QUIT_EXIT_CODE }
                } else {
                    Directive::Continue
                }
            },
        }
    }

    /// Takes the announcement of a new batch of events. The first
    /// announcement that the loop has started makes the application run,
    /// and the plan then says what the platform asks for; every other
    /// announcement changes nothing and asks for nothing.
    pub fn new_events(&mut self, cause: StartCause) -> (plan: StartupPlan)
        ensures
            final(self)@ == old(self)@.new_events(cause),
            plan == old(self)@.startup_plan(cause),
            final(self)@.wf(),
    {
        proof {
            use_type_invariant(&*self);
        }
        match (self.phase, cause) {
            (Lifecycle::Uninitialized, StartCause::Init) => {
                self.phase = Lifecycle::Running;
                StartupPlan {
                    build_tray_icon: self.platform.builds_tray_on_loop_start(),
                    wake_run_loop: self.platform.wakes_run_loop(),
                }
            },
            _ => StartupPlan { build_tray_icon: false, wake_run_loop: false },
        }
    }

    /// Takes the tray icon that was built after the loop started, and holds
    /// it from then on. An icon that comes before the loop has started, a
    /// second icon, or one on a platform where the icon is built elsewhere
    /// is not taken, and the application stays as it is.
    pub fn install_tray_icon(&mut self, tray: TrayIcon) -> (installed: bool)
        ensures
            installed == old(self)@.accepts_tray_icon(),
            final(self)@ == old(self)@.install_tray_icon(tray@),
            final(self)@.wf(),
    {
        proof {
            use_type_invariant(&*self);
        }
        let accepted = match self.phase {
            Lifecycle::Running => {
                self.tray_icon.is_none() && self.platform.builds_tray_on_loop_start()
            },
            Lifecycle::Uninitialized => false,
        };
        if accepted {
            self.tray_icon = Some(tray);
        }
        accepted
    }

    /// The tray menu, from what the platform answered when it was asked to
    /// append the title and then quit. A rejected entry is left out and the
    /// platform's words about it are returned to be logged, in the order
    /// of the appends.
    pub fn new_tray_menu(
        &self,
        title_outcome: Result<(), String>,
        quit_outcome: Result<(), String>,
    ) -> (built: (Menu, Vec<String>))
        ensures
            built.0@ == self@.tray_menu(title_outcome, quit_outcome),
            texts(built.1@) == rejection(title_outcome) + rejection(quit_outcome),
    {
        let mut menu = Menu::new();
        let mut diagnostics: Vec<String> = Vec::new();
        if let Some(line) = menu.append(self.menu_item.title().clone(), title_outcome) {
            diagnostics.push(line);
        }
        let ghost after_title = diagnostics@;
        assert(texts(after_title) =~= rejection(title_outcome));
        if let Some(line) = menu.append(self.menu_item.quit().clone(), quit_outcome) {
            diagnostics.push(line);
        }
        assert(texts(diagnostics@) =~= texts(after_title) + rejection(quit_outcome));
        (menu, diagnostics)
    }

    /// The tray icon of the application: the decoded picture, the
    /// application's name as the tooltip, and the menu.
    pub fn new_tray_icon(&self, icon: IconImage, menu: Menu) -> (tray: TrayIcon)
        ensures
            tray@ == (TrayIconView { icon: icon@, tooltip: APP_TITLE@, menu: menu@ }),
    {
        TrayIcon::new(icon, APP_TITLE, menu)
    }

    /// The loop resumes: nothing is done.
    pub fn resumed(&mut self)
        ensures
            *final(self) == *old(self),
    {
    }

    /// An event of a window: nothing is done, as the application has no
    /// window.
    pub fn window_event(&mut self)
        ensures
            *final(self) == *old(self),
    {
    }

    pub fn tray_icon(&self) -> (tray: Option<&TrayIcon>)
        ensures
            match tray {
                Some(held) => self@.tray_icon == Some(held@),
                None => self@.tray_icon is None,
            },
            self@.wf(),
    {
        proof {
            use_type_invariant(self);
        }
        self.tray_icon.as_ref()
    }

    pub fn menu_item(&self) -> (pair: &TrayIconMenuItem)
        ensures
            pair@ == self@.menu_item,
    {
        &self.menu_item
    }

    pub fn platform(&self) -> (platform: Platform)
        ensures
            platform == self@.platform,
    {
        self.platform
    }

    pub fn phase(&self) -> (phase: Lifecycle)
        ensures
            phase == self@.phase,
    {
        self.phase
    }
}

/// One thing that happens to the application.
pub enum Step {
    /// A new batch of events is announced.
    NewEvents(StartCause),
    /// The loop resumes.
    Resumed,
    /// An event of a window comes in.
    WindowEvent,
    /// A user event comes in.
    UserEvent(UserEvent),
    /// A tray icon is handed to the application.
    InstallTrayIcon(TrayIconView),
}

/// The step that announces that the loop has started.
pub open spec fn loop_start() -> Step {
    Step::NewEvents(StartCause::Init)
}

impl ApplicationView {
    /// The application after one step.
    pub open spec fn step(self, step: Step) -> Self {
        match step {
            Step::NewEvents(cause) => self.new_events(cause),
            Step::InstallTrayIcon(tray) => self.install_tray_icon(tray),
            _ => self,
        }
    }

    /// On this step the application asks for its tray icon to be built.
    pub open spec fn asks_for_tray_icon(self, step: Step) -> bool {
        step matches Step::NewEvents(cause) && self.startup_plan(cause).build_tray_icon
    }

    /// On this step the application takes a tray icon.
    pub open spec fn takes_tray_icon(self, step: Step) -> bool {
        step is InstallTrayIcon && self.accepts_tray_icon()
    }

    /// The application after a run of steps.
    pub open spec fn run(self, steps: Seq<Step>) -> Self
        decreases steps.len(),
    {
        if steps.len() == 0 {
            self
        } else {
            self.run(steps.drop_last()).step(steps.last())
        }
    }

    /// How often the application asks for its tray icon to be built in a
    /// run of steps.
    pub open spec fn tray_icons_asked_for(self, steps: Seq<Step>) -> nat
        decreases steps.len(),
    {
        if steps.len() == 0 {
            0
        } else {
            let before = steps.drop_last();
            let now: nat = if self.run(before).asks_for_tray_icon(steps.last()) {
                1
            } else {
                0
            };
            self.tray_icons_asked_for(before) + now
        }
    }

    /// How often the application takes a tray icon in a run of steps.
    pub open spec fn tray_icons_taken(self, steps: Seq<Step>) -> nat
        decreases steps.len(),
    {
        if steps.len() == 0 {
            0
        } else {
            let before = steps.drop_last();
            let now: nat = if self.run(before).takes_tray_icon(steps.last()) {
                1
            } else {
                0
            };
            self.tray_icons_taken(before) + now
        }
    }
}

/// What a run of steps comes to. The application stays well formed, on its
/// platform and with its menu entries. It runs at the end just if it ran
/// before or the loop's start was among the steps. A tray icon that it held
/// before it still holds. It asked for a tray icon just if it began to run
/// in these steps, on a platform where it builds the icon itself. It took a
/// tray icon just if it held none before and holds one at the end.
proof fn lemma_run(app: ApplicationView, steps: Seq<Step>)
    requires
        app.wf(),
    ensures
        app.run(steps).wf(),
        app.run(steps).platform == app.platform,
        app.run(steps).menu_item == app.menu_item,
        app.run(steps).phase is Running <==> app.phase is Running || steps.contains(loop_start()),
        app.tray_icon is Some ==> app.run(steps).tray_icon == app.tray_icon,
        app.tray_icons_asked_for(steps) <= 1,
        app.tray_icons_asked_for(steps) == 1 <==> (app.phase is Uninitialized
            && app.run(steps).phase is Running
            && app.platform.builds_tray_on_loop_start()),
        app.tray_icons_taken(steps) <= 1,
        app.tray_icons_taken(steps) == 1 <==> (app.tray_icon is None
            && app.run(steps).tray_icon is Some),
    decreases steps.len(),
{
    if steps.len() > 0 {
        let before = steps.drop_last();
        lemma_run(app, before);
        assert(steps.contains(loop_start()) <==> {
            ||| before.contains(loop_start())
            ||| steps.last() == loop_start()
        }) by {
            if steps.contains(loop_start()) {
                let i = choose|i: int| 0 <= i < steps.len() && steps[i] == loop_start();
                if i < steps.len() - 1 {
                    assert(before[i] == loop_start());
                }
            }
            if before.contains(loop_start()) {
                let i = choose|i: int| 0 <= i < before.len() && before[i] == loop_start();
                assert(steps[i] == loop_start());
            }
            if steps.last() == loop_start() {
                assert(steps[steps.len() - 1] == loop_start());
            }
        }
    }
}

/// Whatever happens, the application stays well formed: it holds a tray
/// icon only while it runs, and its menu entries stay what they are.
pub proof fn lemma_run_keeps_wf(app: ApplicationView, steps: Seq<Step>)
    requires
        app.wf(),
    ensures
        app.run(steps).wf(),
        app.run(steps).menu_item == app.menu_item,
        app.run(steps).platform == app.platform,
{
    lemma_run(app, steps);
}

/// In the whole life of an application its tray icon is asked for at most
/// once and taken at most once.
pub proof fn lemma_tray_icon_at_most_once(app: ApplicationView, steps: Seq<Step>)
    requires
        app.wf(),
    ensures
        app.tray_icons_asked_for(steps) <= 1,
        app.tray_icons_taken(steps) <= 1,
{
    lemma_run(app, steps);
}

/// Before the loop's start is announced no tray icon is asked for, none is
/// taken, and the application holds none.
pub proof fn lemma_no_tray_icon_before_loop_start(app: ApplicationView, steps: Seq<Step>)
    requires
        app.wf(),
        app.phase is Uninitialized,
        !steps.contains(loop_start()),
    ensures
        app.tray_icons_asked_for(steps) == 0,
        app.tray_icons_taken(steps) == 0,
        app.run(steps).tray_icon is None,
        app.run(steps).phase is Uninitialized,
{
    lemma_run(app, steps);
}

/// Once the loop's start was announced the tray icon has been asked for
/// exactly once, where the application builds it itself; where it is built
/// on a toolkit thread, the application never asks for it.
pub proof fn lemma_tray_icon_asked_for_at_loop_start(app: ApplicationView, steps: Seq<Step>)
    requires
        app.wf(),
        app.phase is Uninitialized,
        steps.contains(loop_start()),
    ensures
        app.run(steps).phase is Running,
        app.platform.builds_tray_on_loop_start() ==> app.tray_icons_asked_for(steps) == 1,
        !app.platform.builds_tray_on_loop_start() ==> app.tray_icons_asked_for(steps) == 0,
        !app.platform.builds_tray_on_loop_start() ==> app.tray_icons_taken(steps) == 0,
{
    lemma_run(app, steps);
}

/// Where the platform takes both entries, the tray menu holds exactly two:
/// the disabled title, then the enabled quit entry. The platform family
/// plays no part.
pub proof fn lemma_tray_menu_is_title_then_quit(
    app: ApplicationView,
    title_outcome: Result<(), String>,
    quit_outcome: Result<(), String>,
)
    requires
        app.wf(),
        title_outcome is Ok,
        quit_outcome is Ok,
    ensures
        app.tray_menu(title_outcome, quit_outcome) == seq![
            title_entry(app.menu_item.title.id),
            quit_entry(app.menu_item.quit.id),
        ],
        app.tray_menu(title_outcome, quit_outcome).len() == 2,
        !app.tray_menu(title_outcome, quit_outcome)[0].enabled,
        app.tray_menu(title_outcome, quit_outcome)[1].enabled,
{
    assert(app.tray_menu(title_outcome, quit_outcome) =~= seq![
        title_entry(app.menu_item.title.id),
        quit_entry(app.menu_item.quit.id),
    ]);
}

} // verus!
