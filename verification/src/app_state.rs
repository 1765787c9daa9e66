//! The state of the terminal front end and what the keys do to it.
//!
//! The state changes here; whatever takes time, such as loading lists or
//! running a job, is handed to the caller as a command.

use vstd::prelude::*;
use crate::aggregate::{count_outdated, outdated_among};
use crate::jobs::{position, EntryView, TaskStore};
use crate::manager::{scoped, supports_global};
use crate::package::{package_views, ManagerStatus, Operation, Package, PackageView};
use crate::text::{
    chars_of, copy_str, decimal, decimal_of, join2, join3, push_decimal, push_str, same_text,
    string_of, views_of,
};
use crate::tui::{
    apply_search_filter, confirm_uninstall, confirm_update, filtered, keep_selection, modal_answer,
    next_of, previous_of, select_next, InputMode, Key, ModalDecision, ModalState, PendingAction,
};
use crate::view::View as Screen;

verus! {

/// A key with the control key held or not.
#[derive(Debug, Clone, Copy, PartialEq, Eq, Structural)]
pub struct KeyEvent {
    pub key: Key,
    pub control: bool,
}

/// What the caller is asked to do after a key.
#[derive(Debug)]
pub enum Command {
    /// Load the packages of the selected manager; the answer carries the
    /// number of the request.
    LoadPackages { request: u64 },
    /// Look again which managers are there, then load the packages.
    RefreshManagers,
    /// Carry out the action that the user confirmed.
    Perform { action: PendingAction },
    /// Cancel the job.
    CancelJob { id: String },
}

/// The state of the front end.
pub struct App {
    pub current_view: Screen,
    pub input_mode: InputMode,
    pub managers: Vec<ManagerStatus>,
    pub selected_manager_index: usize,
    pub packages: Vec<Package>,
    pub packages_all: Vec<Package>,
    pub selected_package_index: usize,
    pub selected_action_index: usize,
    pub global: bool,
    pub current_job: Option<String>,
    pub search_query: String,
    pub should_quit: bool,
    pub should_redraw: bool,
    pub status_message: String,
    pub show_help: bool,
    pub modal: Option<ModalState>,
    pub pending_action: Option<PendingAction>,
    pub last_view: Option<Screen>,
    pub load_packages_request_id: u64,
}

impl App {
    /// The name of the selected manager.
    pub open spec fn manager_name(self) -> Option<Seq<char>> {
        if self.selected_manager_index < self.managers@.len() {
            Some(self.managers@[self.selected_manager_index as int].name@)
        } else {
            None
        }
    }

    /// The name of the selected package.
    pub open spec fn package_name(self) -> Option<Seq<char>> {
        if self.selected_package_index < self.packages@.len() {
            Some(self.packages@[self.selected_package_index as int].name@)
        } else {
            None
        }
    }

    /// Whether the state shows `text` as its status and asks to be drawn.
    pub open spec fn says(self, text: Seq<char>) -> bool {
        self.status_message@ == text && self.should_redraw
    }

    /// The state at the start: the dashboard, nothing loaded.
    pub fn new() -> (app: App)
        ensures
            app.current_view == Screen::Dashboard,
            app.input_mode == InputMode::Normal,
            app.managers@.len() == 0,
            app.packages@.len() == 0,
            app.packages_all@.len() == 0,
            app.selected_manager_index == 0,
            app.selected_package_index == 0,
            app.selected_action_index == 0,
            !app.global,
            app.current_job is None,
            app.search_query@.len() == 0,
            !app.should_quit,
            !app.show_help,
            app.modal is None,
            app.pending_action is None,
            app.last_view is None,
            app.load_packages_request_id == 0,
            app.says("正在初始化..."@),
    {
        App {
            current_view: Screen::Dashboard,
            input_mode: InputMode::Normal,
            managers: Vec::new(),
            selected_manager_index: 0,
            packages: Vec::new(),
            packages_all: Vec::new(),
            selected_package_index: 0,
            selected_action_index: 0,
            global: false,
            current_job: None,
            search_query: String::new(),
            should_quit: false,
            should_redraw: true,
            status_message: copy_str("正在初始化..."),
            show_help: false,
            modal: None,
            pending_action: None,
            last_view: None,
            load_packages_request_id: 0,
        }
    }

    /// The name of the selected manager.
    pub fn selected_manager_name(&self) -> (r: Option<&str>)
        ensures
            match r {
                Some(name) => self.manager_name() == Some(name@),
                None => self.manager_name() is None,
            },
    {
        if self.selected_manager_index < self.managers.len() {
            Some(self.managers[self.selected_manager_index].name.as_str())
        } else {
            None
        }
    }

    /// The selected package.
    pub fn selected_package(&self) -> (r: Option<&Package>)
        ensures
            match r {
                Some(p) => self.selected_package_index < self.packages@.len() && *p
                    == self.packages@[self.selected_package_index as int],
                None => self.selected_package_index >= self.packages@.len(),
            },
    {
        if self.selected_package_index < self.packages.len() {
            Some(&self.packages[self.selected_package_index])
        } else {
            None
        }
    }
}

impl App {
    /// Moves the selection to the next package, around the end.
    pub fn select_next_package(&mut self)
        ensures
            *final(self) == (App {
                selected_package_index: next_of(
                    old(self).selected_package_index as int,
                    old(self).packages@.len() as int,
                ) as usize,
                ..*old(self)
            }),
    {
        self.selected_package_index = select_next(
            self.selected_package_index,
            self.packages.len(),
        );
    }

    /// Moves the selection to the package before, around the start.
    pub fn select_previous_package(&mut self)
        ensures
            *final(self) == (App {
                selected_package_index: previous_of(
                    old(self).selected_package_index as int,
                    old(self).packages@.len() as int,
                ) as usize,
                ..*old(self)
            }),
    {
        if self.packages.len() > 0 {
            if self.selected_package_index == 0 {
                self.selected_package_index = self.packages.len() - 1;
            } else {
                self.selected_package_index = self.selected_package_index - 1;
            }
        }
    }

    /// Moves the selection to the next manager, around the end.
    pub fn select_next_manager(&mut self)
        ensures
            *final(self) == (App {
                selected_manager_index: next_of(
                    old(self).selected_manager_index as int,
                    old(self).managers@.len() as int,
                ) as usize,
                ..*old(self)
            }),
    {
        self.selected_manager_index = select_next(
            self.selected_manager_index,
            self.managers.len(),
        );
    }

    /// Moves the selection to the manager before, around the start.
    pub fn select_previous_manager(&mut self)
        ensures
            *final(self) == (App {
                selected_manager_index: previous_of(
                    old(self).selected_manager_index as int,
                    old(self).managers@.len() as int,
                ) as usize,
                ..*old(self)
            }),
    {
        if self.managers.len() > 0 {
            if self.selected_manager_index == 0 {
                self.selected_manager_index = self.managers.len() - 1;
            } else {
                self.selected_manager_index = self.selected_manager_index - 1;
            }
        }
    }

    /// Shows or hides the help.
    pub fn toggle_help(&mut self)
        ensures
            *final(self) == (App {
                show_help: !old(self).show_help,
                should_redraw: true,
                ..*old(self)
            }),
    {
        self.show_help = !self.show_help;
        self.should_redraw = true;
    }

    /// Closes the dialog and drops what waited for an answer.
    pub fn close_modal(&mut self)
        ensures
            *final(self) == (App {
                modal: None,
                pending_action: None,
                should_redraw: true,
                ..*old(self)
            }),
    {
        self.modal = None;
        self.pending_action = None;
        self.should_redraw = true;
    }

    /// Asks to end the program.
    pub fn quit(&mut self)
        ensures
            *final(self) == (App { should_quit: true, should_redraw: true, ..*old(self) }),
    {
        self.should_quit = true;
        self.should_redraw = true;
    }
}


/// The state after the search was entered: the query is empty and a hint
/// is shown.
pub open spec fn search_entered(old: App, new: App) -> bool {
    &&& new.search_query@.len() == 0
    &&& new.status_message@ == "Search: type to filter, Enter to apply"@
    &&& new == (App {
        input_mode: InputMode::Search,
        search_query: new.search_query,
        status_message: new.status_message,
        ..old
    })
}

/// The state after the packages were filtered anew by the query: all
/// packages for an empty query; else those whose name holds the query, and
/// the selection goes to the first where it points past them.
pub open spec fn refiltered(old: App, new: App) -> bool {
    &&& package_views(new.packages@) == filtered(
        package_views(old.packages_all@),
        old.search_query@,
        old.packages_all@.len() as int,
    )
    &&& new == (App {
        packages: new.packages,
        selected_package_index: if old.search_query@.len() > 0 && old.selected_package_index
            >= new.packages@.len() {
            0
        } else {
            old.selected_package_index
        },
        ..old
    })
}

/// The state after the search was left, with the query kept or cleared.
pub open spec fn search_left(old: App, clear: bool, new: App) -> bool {
    &&& new.search_query@ == if clear {
        Seq::empty()
    } else {
        old.search_query@
    }
    &&& new.status_message@ == "Search exited"@
    &&& refiltered(
        App {
            input_mode: InputMode::Normal,
            search_query: new.search_query,
            status_message: new.status_message,
            ..old
        },
        new,
    )
}

/// The state after the menu of actions was asked for: it opens where a
/// package is selected.
pub open spec fn menu_entered(old: App, new: App) -> bool {
    if old.package_name() is Some {
        &&& new.status_message@ == "选择操作: j/k 移动, Enter 执行, Esc 取消"@
        &&& new == (App {
            input_mode: InputMode::ActionMenu,
            selected_action_index: 0,
            status_message: new.status_message,
            should_redraw: true,
            ..old
        })
    } else {
        new == old
    }
}

/// The state after the menu of actions was left.
pub open spec fn menu_left(old: App, new: App) -> bool {
    &&& new.status_message@ == "操作菜单已退出"@
    &&& new == (App {
        input_mode: InputMode::Normal,
        selected_action_index: 0,
        status_message: new.status_message,
        should_redraw: true,
        ..old
    })
}

/// The state after the scope was asked to change: it changes where the
/// selected manager tells scopes apart.
pub open spec fn scope_toggled(old: App, new: App, done: bool) -> bool {
    &&& done == (old.manager_name() matches Some(name) && scoped(name))
    &&& if done {
        &&& new.status_message@ == if old.global {
            "切换到 本地 模式"@
        } else {
            "切换到 全局 模式"@
        }
        &&& new == (App {
            global: !old.global,
            status_message: new.status_message,
            should_redraw: true,
            ..old
        })
    } else {
        new == old
    }
}

/// The state after the loading of packages was asked for: the request has
/// the next number.
pub open spec fn load_scheduled(old: App, new: App) -> bool {
    &&& new.status_message@ == "Loading packages..."@
    &&& new == (App {
        load_packages_request_id: if old.load_packages_request_id == u64::MAX {
            0
        } else {
            (old.load_packages_request_id + 1) as u64
        },
        status_message: new.status_message,
        should_redraw: true,
        ..old
    })
}

/// The state after the user was asked to confirm an update or a removal
/// of the selected package: nothing happens where no manager or no
/// package is selected.
pub open spec fn confirmation_asked(old: App, update: bool, force: bool, new: App) -> bool {
    match (old.manager_name(), old.package_name()) {
        (Some(manager), Some(package)) => {
            &&& new.pending_action matches Some(action)
            &&& if update {
                action matches PendingAction::Update { manager: m, package: p } && m@ == manager
                    && p@ == package
            } else {
                action matches PendingAction::Uninstall { manager: m, package: p, force: f }
                    && m@ == manager && p@ == package && f == force
            }
            &&& new.modal matches Some(ModalState::Confirm { title, message })
            &&& title@ == if update {
                "Update Package"@
            } else {
                "Uninstall Package"@
            }
            &&& message@ == (if update {
                "Update "@
            } else {
                "Uninstall "@
            }) + package + " from "@ + manager + "?"@
            &&& new == (App {
                pending_action: new.pending_action,
                modal: new.modal,
                should_redraw: true,
                ..old
            })
        },
        _ => new == old,
    }
}

impl App {
    /// Enters the search.
    pub fn enter_search_mode(&mut self)
        ensures
            search_entered(*old(self), *final(self)),
    {
        self.input_mode = InputMode::Search;
        self.search_query = String::new();
        self.status_message = copy_str("Search: type to filter, Enter to apply");
    }

    /// Filters the packages anew by the query.
    pub fn apply_search_filter(&mut self)
        ensures
            refiltered(*old(self), *final(self)),
    {
        self.packages = apply_search_filter(&self.packages_all, self.search_query.as_str());
        let searching = !same_text(self.search_query.as_str(), "");
        proof {
            reveal_strlit("");
            assert(""@ =~= Seq::<char>::empty());
            if self.search_query@.len() == 0 {
                assert(self.search_query@ =~= Seq::<char>::empty());
            }
        }
        if searching && self.selected_package_index >= self.packages.len() {
            self.selected_package_index = 0;
        }
    }

    /// Leaves the search, with the query cleared or kept.
    pub fn exit_search_mode(&mut self, clear: bool)
        ensures
            search_left(*old(self), clear, *final(self)),
    {
        self.input_mode = InputMode::Normal;
        if clear {
            self.search_query = String::new();
        }
        self.status_message = copy_str("Search exited");
        self.apply_search_filter();
    }

    /// Opens the menu of actions for the selected package.
    pub fn enter_action_menu(&mut self)
        ensures
            menu_entered(*old(self), *final(self)),
    {
        if self.selected_package_index < self.packages.len() {
            self.input_mode = InputMode::ActionMenu;
            self.selected_action_index = 0;
            self.status_message = copy_str("选择操作: j/k 移动, Enter 执行, Esc 取消");
            self.should_redraw = true;
        }
    }

    /// Leaves the menu of actions.
    pub fn exit_action_menu(&mut self)
        ensures
            menu_left(*old(self), *final(self)),
    {
        self.input_mode = InputMode::Normal;
        self.selected_action_index = 0;
        self.status_message = copy_str("操作菜单已退出");
        self.should_redraw = true;
    }

    /// Moves to the next of the two actions.
    pub fn select_next_action(&mut self)
        ensures
            *final(self) == (App {
                selected_action_index: next_of(old(self).selected_action_index as int, 2)
                    as usize,
                should_redraw: true,
                ..*old(self)
            }),
    {
        self.selected_action_index = select_next(self.selected_action_index, 2);
        self.should_redraw = true;
    }

    /// Moves to the action before.
    pub fn select_previous_action(&mut self)
        ensures
            *final(self) == (App {
                selected_action_index: if old(self).selected_action_index == 0 {
                    1
                } else {
                    (old(self).selected_action_index - 1) as usize
                },
                should_redraw: true,
                ..*old(self)
            }),
    {
        if self.selected_action_index == 0 {
            self.selected_action_index = 1;
        } else {
            self.selected_action_index = self.selected_action_index - 1;
        }
        self.should_redraw = true;
    }

    /// Opens the details of the selected package.
    pub fn open_package_detail(&mut self)
        ensures
            match old(self).package_name() {
                Some(name) => final(self).current_view matches Screen::PackageDetail(n) && n@
                    == name && *final(self) == (App {
                    current_view: final(self).current_view,
                    last_view: Some(old(self).current_view),
                    should_redraw: true,
                    ..*old(self)
                }),
                None => *final(self) == *old(self),
            },
    {
        if self.selected_package_index < self.packages.len() {
            let name = self.packages[self.selected_package_index].name.clone();
            let mut view = Screen::PackageDetail(name);
            std::mem::swap(&mut self.current_view, &mut view);
            self.last_view = Some(view);
            self.should_redraw = true;
        }
    }

    /// Opens the details of the selected manager.
    pub fn open_manager_detail(&mut self)
        ensures
            match old(self).manager_name() {
                Some(name) => final(self).current_view matches Screen::ManagerDetail(n) && n@
                    == name && *final(self) == (App {
                    current_view: final(self).current_view,
                    last_view: Some(old(self).current_view),
                    should_redraw: true,
                    ..*old(self)
                }),
                None => *final(self) == *old(self),
            },
    {
        if self.selected_manager_index < self.managers.len() {
            let name = self.managers[self.selected_manager_index].name.clone();
            let mut view = Screen::ManagerDetail(name);
            std::mem::swap(&mut self.current_view, &mut view);
            self.last_view = Some(view);
            self.should_redraw = true;
        }
    }

    /// Goes back from a detail view: to the view it was opened from, or to
    /// the dashboard.
    pub fn close_detail_view(&mut self)
        ensures
            *final(self) == (App {
                current_view: match old(self).last_view {
                    Some(view) => view,
                    None => Screen::Dashboard,
                },
                last_view: None,
                should_redraw: true,
                ..*old(self)
            }),
    {
        let mut last: Option<Screen> = None;
        std::mem::swap(&mut self.last_view, &mut last);
        self.current_view = crate::view::close_detail_view(last);
        self.should_redraw = true;
    }

    /// Changes between the global and the local scope, where the selected
    /// manager tells them apart.
    pub fn toggle_global(&mut self) -> (done: bool)
        ensures
            scope_toggled(*old(self), *final(self), done),
    {
        let supported = match self.selected_manager_name() {
            Some(name) => supports_global(name),
            None => false,
        };
        if supported {
            self.global = !self.global;
            self.status_message = if self.global {
                copy_str("切换到 全局 模式")
            } else {
                copy_str("切换到 本地 模式")
            };
            self.should_redraw = true;
        }
        supported
    }

    /// Asks for the packages of the selected manager to be loaded, and
    /// hands out the number of the request.
    pub fn schedule_load_packages(&mut self) -> (request: u64)
        ensures
            load_scheduled(*old(self), *final(self)),
            request == final(self).load_packages_request_id,
    {
        self.load_packages_request_id = if self.load_packages_request_id == u64::MAX {
            0
        } else {
            self.load_packages_request_id + 1
        };
        self.status_message = copy_str("Loading packages...");
        self.should_redraw = true;
        self.load_packages_request_id
    }

    /// Asks the user to confirm an update of the selected package.
    pub fn request_update_selected(&mut self)
        ensures
            confirmation_asked(*old(self), true, false, *final(self)),
    {
        if self.selected_manager_index < self.managers.len() && self.selected_package_index
            < self.packages.len() {
            let (action, modal) = confirm_update(
                self.managers[self.selected_manager_index].name.as_str(),
                self.packages[self.selected_package_index].name.as_str(),
            );
            self.pending_action = Some(action);
            self.modal = Some(modal);
            self.should_redraw = true;
        }
    }

    /// Asks the user to confirm the removal of the selected package.
    pub fn request_uninstall_selected(&mut self, force: bool)
        ensures
            confirmation_asked(*old(self), false, force, *final(self)),
    {
        if self.selected_manager_index < self.managers.len() && self.selected_package_index
            < self.packages.len() {
            let (action, modal) = confirm_uninstall(
                self.managers[self.selected_manager_index].name.as_str(),
                self.packages[self.selected_package_index].name.as_str(),
                force,
            );
            self.pending_action = Some(action);
            self.modal = Some(modal);
            self.should_redraw = true;
        }
    }
}


/// The index of the first of the first `n` managers with the name `name`.
pub open spec fn manager_index(managers: Seq<ManagerStatus>, name: Seq<char>, n: int) -> Option<
    int,
>
    decreases n,
{
    if n <= 0 {
        None
    } else {
        match manager_index(managers, name, n - 1) {
            Some(i) => Some(i),
            None => if managers[n - 1].name@ == name {
                Some(n - 1)
            } else {
                None
            },
        }
    }
}

/// The managers with the counts of the manager `name` set to those of
/// `packages`.
pub open spec fn counted(managers: Seq<ManagerStatus>, name: Seq<char>, packages: Seq<PackageView>)
    -> Seq<ManagerStatus> {
    match manager_index(managers, name, managers.len() as int) {
        Some(i) => managers.update(
            i,
            ManagerStatus {
                package_count: packages.len() as usize,
                outdated_count: outdated_among(packages, packages.len() as int) as usize,
                ..managers[i]
            },
        ),
        None => managers,
    }
}

/// The state after the list of managers was replaced: the selection goes
/// to the first where it points past the list. Where `announce`, the
/// status says that the list was refreshed and for which scope.
pub open spec fn managers_set(old: App, managers: Vec<ManagerStatus>, announce: bool, new: App)
    -> bool {
    &&& new.status_message@ == if !announce {
        old.status_message@
    } else if old.global {
        "管理器状态已刷新 (全局模式)"@
    } else {
        "管理器状态已刷新 (本地模式)"@
    }
    &&& new == (App {
        managers,
        selected_manager_index: if old.selected_manager_index >= managers@.len() {
            0
        } else {
            old.selected_manager_index
        },
        status_message: new.status_message,
        should_redraw: announce || old.should_redraw,
        ..old
    })
}

/// Whether the answer to the request `request` for the manager `name` is
/// still wanted: no later request was made, and the manager is still the
/// selected one.
pub open spec fn wanted(app: App, request: u64, name: Seq<char>) -> bool {
    app.load_packages_request_id == request && app.manager_name() == Some(name)
}

/// The state after the packages of the manager `name` arrived: they are
/// filtered by the query, the first is selected, the status says how many
/// are shown, and the counts of the manager are set.
pub open spec fn packages_loaded(old: App, name: Seq<char>, packages: Vec<Package>, new: App)
    -> bool {
    &&& package_views(new.packages@) == filtered(
        package_views(packages@),
        old.search_query@,
        packages@.len() as int,
    )
    &&& new.status_message@ == "Loaded "@ + decimal(new.packages@.len())
        + " packages"@
    &&& new.managers@ == counted(old.managers@, name, package_views(packages@))
    &&& new == (App {
        packages_all: packages,
        packages: new.packages,
        selected_package_index: 0,
        status_message: new.status_message,
        managers: new.managers,
        should_redraw: true,
        ..old
    })
}

/// The state after the loading of packages failed.
pub open spec fn load_failed(old: App, reason: Seq<char>, new: App) -> bool {
    &&& new.status_message@ == "Failed to load packages: "@ + reason
    &&& new == (App { status_message: new.status_message, should_redraw: true, ..old })
}

impl App {
    /// Replaces the list of managers.
    pub fn set_managers(&mut self, managers: Vec<ManagerStatus>, announce: bool)
        ensures
            managers_set(*old(self), managers, announce, *final(self)),
    {
        self.selected_manager_index = keep_selection(self.selected_manager_index, managers.len());
        self.managers = managers;
        if announce {
            self.status_message = if self.global {
                copy_str("管理器状态已刷新 (全局模式)")
            } else {
                copy_str("管理器状态已刷新 (本地模式)")
            };
            self.should_redraw = true;
        }
    }

    /// Sets the counts of the manager `name` to those of all packages.
    pub fn update_manager_counts(&mut self, name: &str)
        ensures
            final(self).managers@ == counted(
                old(self).managers@,
                name@,
                package_views(old(self).packages_all@),
            ),
            *final(self) == (App { managers: final(self).managers, ..*old(self) }),
    {
        let total = self.packages_all.len();
        let outdated = count_outdated(&self.packages_all);
        let ghost all = self.managers@;
        let mut i: usize = 0;
        while i < self.managers.len()
            invariant
                i <= self.managers.len(),
                self.managers@ == all,
                *self == *old(self),
                total == old(self).packages_all@.len(),
                outdated == outdated_among(
                    package_views(old(self).packages_all@),
                    old(self).packages_all@.len() as int,
                ),
                manager_index(all, name@, i as int) is None,
            decreases self.managers.len() - i,
        {
            if same_text(self.managers[i].name.as_str(), name) {
                let m = &self.managers[i];
                let entry = ManagerStatus {
                    name: m.name.clone(),
                    version: m.version.clone(),
                    available: m.available,
                    package_count: total,
                    outdated_count: outdated,
                };
                self.managers.set(i, entry);
                proof {
                    lemma_manager_index_found(all, name@, i as int, all.len() as int);
                    assert(package_views(old(self).packages_all@).len() == total);
                }
                return ;
            }
            i = i + 1;
        }
    }

    /// Takes the answer to the request `request` for the packages of the
    /// manager `name`. An answer that is no longer wanted is dropped.
    pub fn finish_load(&mut self, request: u64, name: &str, answer: Result<Vec<Package>, String>)
        ensures
            !wanted(*old(self), request, name@) ==> *final(self) == *old(self),
            wanted(*old(self), request, name@) ==> match answer {
                Ok(packages) => packages_loaded(*old(self), name@, packages, *final(self)),
                Err(reason) => load_failed(*old(self), reason@, *final(self)),
            },
    {
        if self.load_packages_request_id != request {
            return ;
        }
        let selected = match self.selected_manager_name() {
            Some(current) => same_text(current, name),
            None => false,
        };
        if !selected {
            return ;
        }
        match answer {
            Ok(packages) => {
                self.packages_all = packages;
                self.packages = apply_search_filter(
                    &self.packages_all,
                    self.search_query.as_str(),
                );
                self.selected_package_index = 0;
                let count = decimal_of(self.packages.len() as u64);
                self.status_message = join3("Loaded ", count.as_str(), " packages");
                self.should_redraw = true;
                self.update_manager_counts(name);
            },
            Err(reason) => {
                self.status_message = join2("Failed to load packages: ", reason.as_str());
                self.should_redraw = true;
            },
        }
    }
}

/// Where none of the first `i` managers has the name and the one at `i`
/// has it, the name is found at `i`.
pub proof fn lemma_manager_index_found(managers: Seq<ManagerStatus>, name: Seq<char>, i: int, n: int)
    requires
        0 <= i < n <= managers.len(),
        manager_index(managers, name, i) is None,
        managers[i].name@ == name,
    ensures
        manager_index(managers, name, n) == Some(i),
    decreases n - i,
{
    if n > i + 1 {
        lemma_manager_index_found(managers, name, i, n - 1);
    }
}


/// The word for an operation in the reports of a job.
pub open spec fn operation_word(operation: Operation) -> Seq<char> {
    match operation {
        Operation::Update => "更新"@,
        Operation::Uninstall => "卸载"@,
        Operation::Install => "安装"@,
    }
}

/// The report of a job that has ended, as the dialog shows it.
pub open spec fn report(
    target: Seq<char>,
    operation: Operation,
    error: Option<Seq<char>>,
    failed: bool,
) -> Seq<char> {
    if !failed {
        target + " 已成功"@ + operation_word(operation)
    } else {
        target + " "@ + operation_word(operation) + "失败\n错误: "@ + match error {
            Some(e) => e,
            None => "未知错误"@,
        }
    }
}

/// The state after the job `id` ended: the status says so, and a dialog
/// reports the outcome.
pub open spec fn job_reported(
    old: App,
    id: Seq<char>,
    target: Seq<char>,
    operation: Operation,
    outcome: Result<(), String>,
    new: App,
) -> bool {
    &&& new.status_message@ == "Job "@ + id + " finished"@
    &&& match outcome {
        Ok(_) => new.modal matches Some(ModalState::Success { title, message }) && title@
            == "任务完成 / Task Completed"@ && message@ == report(target, operation, None, false),
        Err(e) => new.modal matches Some(ModalState::Error { title, message }) && title@
            == "任务失败 / Task Failed"@ && message@ == report(
            target,
            operation,
            Some(e@),
            true,
        ),
    }
    &&& new == (App {
        status_message: new.status_message,
        modal: new.modal,
        should_redraw: true,
        ..old
    })
}

/// The state after the log of the current job was asked for: a dialog
/// shows it where there is a current job.
pub open spec fn logs_shown(old: App, store: Seq<EntryView>, new: App) -> bool {
    match old.current_job {
        Some(id) => {
            &&& new.modal matches Some(ModalState::Logs { title, lines })
            &&& title@ == "Job "@ + id@
            &&& views_of(lines@) == match position(store, id@) {
                Some(i) => store[i].job.logs,
                None => Seq::empty(),
            }
            &&& new == (App { modal: new.modal, should_redraw: true, ..old })
        },
        None => new == old,
    }
}

/// The state after the selected action of the menu was chosen: the menu
/// closes, and the user is asked to confirm the update or the removal.
pub open spec fn action_chosen(old: App, new: App) -> bool {
    exists|mid: App| #[trigger]
        menu_left(old, mid) && if old.manager_name() is Some && old.package_name() is Some
            && old.selected_action_index <= 1 {
            confirmation_asked(mid, old.selected_action_index == 0, false, new)
        } else {
            new == mid
        }
}

impl App {
    /// Notes that the job `id` was started: it is the current job.
    pub fn job_started(&mut self, id: &str)
        ensures
            final(self).current_job matches Some(current) && current@ == id@,
            final(self).status_message@ == "Job "@ + id@ + " running"@,
            *final(self) == (App {
                current_job: final(self).current_job,
                status_message: final(self).status_message,
                should_redraw: true,
                ..*old(self)
            }),
    {
        self.current_job = Some(copy_str(id));
        self.status_message = join3("Job ", id, " running");
        self.should_redraw = true;
    }

    /// Notes the progress of the job `id`.
    pub fn job_progress(&mut self, id: &str, progress: u32)
        ensures
            final(self).status_message@ == "Job "@ + id@ + " running ("@ + decimal(
                progress as nat,
            ) + "%)"@,
            *final(self) == (App {
                status_message: final(self).status_message,
                should_redraw: true,
                ..*old(self)
            }),
    {
        let mut text = chars_of("Job ");
        push_str(&mut text, id);
        push_str(&mut text, " running (");
        push_decimal(&mut text, progress as u64);
        push_str(&mut text, "%)");
        self.status_message = string_of(&text);
        self.should_redraw = true;
    }

    /// Notes that the job `id` was canceled.
    pub fn job_canceled(&mut self, id: &str)
        ensures
            final(self).status_message@ == "Job "@ + id@ + " canceled"@,
            *final(self) == (App {
                status_message: final(self).status_message,
                should_redraw: true,
                ..*old(self)
            }),
    {
        self.status_message = join3("Job ", id, " canceled");
        self.should_redraw = true;
    }

    /// Reports the end of the job `id` in a dialog.
    pub fn job_finished(
        &mut self,
        id: &str,
        target: &str,
        operation: Operation,
        outcome: Result<(), String>,
    )
        ensures
            job_reported(*old(self), id@, target@, operation, outcome, *final(self)),
    {
        let word = match operation {
            Operation::Update => "更新",
            Operation::Uninstall => "卸载",
            Operation::Install => "安装",
        };
        let mut text = chars_of(target);
        self.modal = Some(
            match &outcome {
                Ok(_) => {
                    push_str(&mut text, " 已成功");
                    push_str(&mut text, word);
                    ModalState::Success {
                        title: copy_str("任务完成 / Task Completed"),
                        message: string_of(&text),
                    }
                },
                Err(e) => {
                    push_str(&mut text, " ");
                    push_str(&mut text, word);
                    push_str(&mut text, "失败\n错误: ");
                    push_str(&mut text, e.as_str());
                    ModalState::Error {
                        title: copy_str("任务失败 / Task Failed"),
                        message: string_of(&text),
                    }
                },
            },
        );
        self.status_message = join3("Job ", id, " finished");
        self.should_redraw = true;
    }

    /// Shows the log of the current job in a dialog.
    pub fn show_logs_modal(&mut self, store: &TaskStore)
        ensures
            logs_shown(*old(self), store@, *final(self)),
    {
        let (title, lines) = match &self.current_job {
            Some(id) => (join2("Job ", id.as_str()), store.get_task_logs(id.as_str())),
            None => {
                return ;
            },
        };
        self.modal = Some(ModalState::Logs { title, lines });
        self.should_redraw = true;
    }

    /// Carries out the selected action of the menu: the menu closes, and
    /// the user is asked to confirm.
    pub fn execute_selected_action(&mut self)
        ensures
            action_chosen(*old(self), *final(self)),
    {
        let ready = self.selected_manager_index < self.managers.len()
            && self.selected_package_index < self.packages.len();
        let choice = self.selected_action_index;
        self.exit_action_menu();
        let ghost mid = *self;
        if ready && choice == 0 {
            self.request_update_selected();
        } else if ready && choice == 1 {
            self.request_uninstall_selected(false);
        }
        assert(menu_left(*old(self), mid));
    }
}


impl App {
    /// The state with the selection on the next package.
    pub open spec fn next_package(self) -> App {
        App {
            selected_package_index: next_of(
                self.selected_package_index as int,
                self.packages@.len() as int,
            ) as usize,
            ..self
        }
    }

    /// The state with the selection on the package before.
    pub open spec fn previous_package(self) -> App {
        App {
            selected_package_index: previous_of(
                self.selected_package_index as int,
                self.packages@.len() as int,
            ) as usize,
            ..self
        }
    }

    /// The state with the selection on the next manager.
    pub open spec fn next_manager(self) -> App {
        App {
            selected_manager_index: next_of(
                self.selected_manager_index as int,
                self.managers@.len() as int,
            ) as usize,
            ..self
        }
    }

    /// The state with the selection on the manager before.
    pub open spec fn previous_manager(self) -> App {
        App {
            selected_manager_index: previous_of(
                self.selected_manager_index as int,
                self.managers@.len() as int,
            ) as usize,
            ..self
        }
    }

    /// The state that asks to be drawn.
    pub open spec fn redrawn(self) -> App {
        App { should_redraw: true, ..self }
    }

    /// The state with the dialog closed.
    pub open spec fn modal_closed(self) -> App {
        App { modal: None, pending_action: None, should_redraw: true, ..self }
    }

    /// The state back from a detail view.
    pub open spec fn detail_closed(self) -> App {
        App {
            current_view: match self.last_view {
                Some(view) => view,
                None => Screen::Dashboard,
            },
            last_view: None,
            should_redraw: true,
            ..self
        }
    }
}

/// Whether `commands` asks for the packages to be loaded under the number
/// of the last request of `new`, and for nothing else.
pub open spec fn asks_load(new: App, commands: Seq<Command>) -> bool {
    commands.len() == 1 && (commands[0] matches Command::LoadPackages { request } && request
        == new.load_packages_request_id)
}

/// Whether `commands` asks to look again which managers are there, and
/// for nothing else.
pub open spec fn asks_refresh(commands: Seq<Command>) -> bool {
    commands.len() == 1 && commands[0] is RefreshManagers
}

/// Whether `commands` asks for the current job of `old` to be canceled,
/// and for nothing at all where there is none.
pub open spec fn asks_cancel(old: App, commands: Seq<Command>) -> bool {
    match old.current_job {
        Some(current) => commands.len() == 1 && (commands[0] matches Command::CancelJob { id }
            && id@ == current@),
        None => commands.len() == 0,
    }
}

/// What a key does in a list of packages, on the dashboard and in the
/// details of a manager alike: `j` and `k` or the arrows move the
/// selection, `/` starts a search, `a` or Enter opens the menu of actions,
/// `u` and `d` ask to update or to remove, `c` cancels the current job,
/// and `g` changes the scope. `None` for every other key.
pub open spec fn list_key(old: App, key: Key, new: App, commands: Seq<Command>) -> Option<bool> {
    if key == Key::Char('j') || key == Key::Down {
        Some(new == old.next_package() && commands.len() == 0)
    } else if key == Key::Char('k') || key == Key::Up {
        Some(new == old.previous_package() && commands.len() == 0)
    } else if key == Key::Char('/') {
        Some(search_entered(old, new) && commands.len() == 0)
    } else if key == Key::Char('a') || key == Key::Enter {
        Some(menu_entered(old, new) && commands.len() == 0)
    } else if key == Key::Char('u') {
        Some(confirmation_asked(old, true, false, new) && commands.len() == 0)
    } else if key == Key::Char('d') {
        Some(confirmation_asked(old, false, false, new) && commands.len() == 0)
    } else if key == Key::Char('c') {
        Some(new == old && asks_cancel(old, commands))
    } else if key == Key::Char('g') {
        Some(
            exists|done: bool| #[trigger]
                scope_toggled(old, new, done) && if done {
                    asks_refresh(commands)
                } else {
                    commands.len() == 0
                },
        )
    } else {
        None
    }
}

/// What a key does on the dashboard: what it does in a list of packages,
/// and `h` and `l` or the arrows change the manager and load its
/// packages, `r` looks again which managers are there, `m` opens the
/// details of the manager, and `L` shows the log of the current job.
pub open spec fn dashboard_key(
    old: App,
    key: Key,
    store: Seq<EntryView>,
    new: App,
    commands: Seq<Command>,
) -> bool {
    if key == Key::Char('h') || key == Key::Left {
        load_scheduled(old.previous_manager(), new) && asks_load(new, commands)
    } else if key == Key::Char('l') || key == Key::Right {
        load_scheduled(old.next_manager(), new) && asks_load(new, commands)
    } else if key == Key::Char('r') {
        new == old && asks_refresh(commands)
    } else if key == Key::Char('m') {
        commands.len() == 0 && match old.manager_name() {
            Some(name) => new.current_view matches Screen::ManagerDetail(n) && n@ == name && new
                == (App {
                current_view: new.current_view,
                last_view: Some(old.current_view),
                should_redraw: true,
                ..old
            }),
            None => new == old,
        }
    } else if key == Key::Char('L') {
        logs_shown(old, store, new) && commands.len() == 0
    } else {
        match list_key(old, key, new, commands) {
            Some(done) => done,
            None => new == old && commands.len() == 0,
        }
    }
}

/// What a key does in the details of a manager: what it does in a list of
/// packages, and `b` or Escape goes back, and `r` loads the packages anew.
pub open spec fn manager_key(old: App, key: Key, new: App, commands: Seq<Command>) -> bool {
    if key == Key::Char('b') || key == Key::Esc {
        new == old.detail_closed() && commands.len() == 0
    } else if key == Key::Char('r') {
        load_scheduled(old, new) && asks_load(new, commands)
    } else {
        match list_key(old, key, new, commands) {
            Some(done) => done,
            None => new == old && commands.len() == 0,
        }
    }
}

/// What a key does in the details of a package: `b` or Escape goes back.
pub open spec fn package_key(old: App, key: Key, new: App) -> bool {
    if key == Key::Char('b') || key == Key::Esc {
        new == old.detail_closed()
    } else {
        new == old
    }
}

/// The state after the query was changed to `query` and the packages
/// were filtered anew.
pub open spec fn query_set(old: App, query: Seq<char>, new: App) -> bool {
    exists|mid: App| #[trigger]
        refiltered(mid, new) && mid.search_query@ == query && mid == (App {
            search_query: mid.search_query,
            ..old
        })
}

/// What a key does in the search: Escape leaves it and clears the query,
/// Enter leaves it and keeps the query, Backspace takes the last
/// character off the query, and a character typed without the control
/// key is added to it.
pub open spec fn search_key(old: App, event: KeyEvent, new: App) -> bool {
    match event.key {
        Key::Esc => search_left(old, true, new),
        Key::Enter => search_left(old, false, new),
        Key::Backspace => query_set(
            old,
            if old.search_query@.len() > 0 {
                old.search_query@.drop_last()
            } else {
                old.search_query@
            },
            new,
        ),
        Key::Char(c) => if event.control {
            new == old
        } else {
            query_set(old, old.search_query@.push(c), new)
        },
        _ => new == old,
    }
}

/// What a key does in the menu of actions: Escape leaves it, `j` and `k`
/// or the arrows move between the actions, and Enter chooses.
pub open spec fn menu_key(old: App, key: Key, new: App) -> bool {
    if key == Key::Esc {
        menu_left(old, new)
    } else if key == Key::Char('j') || key == Key::Down {
        new == (App {
            selected_action_index: next_of(old.selected_action_index as int, 2) as usize,
            should_redraw: true,
            ..old
        })
    } else if key == Key::Char('k') || key == Key::Up {
        new == (App {
            selected_action_index: if old.selected_action_index == 0 {
                1
            } else {
                (old.selected_action_index - 1) as usize
            },
            should_redraw: true,
            ..old
        })
    } else if key == Key::Enter {
        action_chosen(old, new)
    } else {
        new == old
    }
}

/// What a key does to the dialog on screen: it closes or stays as
/// `modal_answer` says, and a confirmation that is given hands the action
/// that waited to the caller.
pub open spec fn modal_key(old: App, key: Key, new: App, commands: Seq<Command>) -> bool {
    match old.modal {
        None => new == old && commands.len() == 0,
        Some(modal) => match modal_answer(modal, key) {
            ModalDecision::Stay => new == old && commands.len() == 0,
            ModalDecision::Close => new == old.modal_closed() && commands.len() == 0,
            ModalDecision::Confirm => new == old.modal_closed() && match old.pending_action {
                Some(waiting) => commands.len() == 1 && (commands[0] matches Command::Perform {
                    action,
                } && action == waiting),
                None => commands.len() == 0,
            },
        },
    }
}

/// What a key does to the state. Control and `c`, and `q`, ask to end the
/// program; `?` shows or hides the help; with a dialog on screen the key
/// goes to the dialog; else it goes to the search, to the menu of actions
/// or to the view on screen, and the state asks to be drawn.
pub open spec fn key_handled(
    old: App,
    event: KeyEvent,
    store: Seq<EntryView>,
    new: App,
    commands: Seq<Command>,
) -> bool {
    if (event.control && event.key == Key::Char('c')) || event.key == Key::Char('q') {
        new == (App { should_quit: true, should_redraw: true, ..old }) && commands.len() == 0
    } else if event.key == Key::Char('?') {
        new == (App { show_help: !old.show_help, should_redraw: true, ..old }) && commands.len()
            == 0
    } else {
        exists|mid: App| #[trigger]
            mid.redrawn() == new && if old.modal is Some {
                modal_key(old, event.key, mid, commands)
            } else {
                match old.input_mode {
                    InputMode::Search => search_key(old, event, mid) && commands.len() == 0,
                    InputMode::ActionMenu => menu_key(old, event.key, mid) && commands.len()
                        == 0,
                    InputMode::Normal => match old.current_view {
                        Screen::Dashboard => dashboard_key(old, event.key, store, mid, commands),
                        Screen::ManagerDetail(_) => manager_key(old, event.key, mid, commands),
                        Screen::PackageDetail(_) => package_key(old, event.key, mid)
                            && commands.len() == 0,
                    },
                }
            }
    }
}


impl App {
    /// Asks for the current job to be canceled.
    pub fn cancel_current_job(&self) -> (commands: Vec<Command>)
        ensures
            asks_cancel(*self, commands@),
    {
        let mut commands: Vec<Command> = Vec::new();
        match &self.current_job {
            Some(id) => {
                commands.push(Command::CancelJob { id: id.clone() });
            },
            None => {},
        }
        commands
    }

    /// What a key does in a list of packages; nothing is handed out for a
    /// key that means nothing there.
    fn handle_list_key(&mut self, key: Key) -> (r: Option<Vec<Command>>)
        ensures
            match r {
                Some(commands) => list_key(*old(self), key, *final(self), commands@) == Some(
                    true,
                ),
                None => list_key(*old(self), key, *final(self), Seq::empty()) is None
                    && *final(self) == *old(self),
            },
    {
        let none: Vec<Command> = Vec::new();
        if key == Key::Char('j') || key == Key::Down {
            self.select_next_package();
            Some(none)
        } else if key == Key::Char('k') || key == Key::Up {
            self.select_previous_package();
            Some(none)
        } else if key == Key::Char('/') {
            self.enter_search_mode();
            Some(none)
        } else if key == Key::Char('a') || key == Key::Enter {
            self.enter_action_menu();
            Some(none)
        } else if key == Key::Char('u') {
            self.request_update_selected();
            Some(none)
        } else if key == Key::Char('d') {
            self.request_uninstall_selected(false);
            Some(none)
        } else if key == Key::Char('c') {
            Some(self.cancel_current_job())
        } else if key == Key::Char('g') {
            let done = self.toggle_global();
            let mut commands = none;
            if done {
                commands.push(Command::RefreshManagers);
            }
            assert(scope_toggled(*old(self), *self, done));
            Some(commands)
        } else {
            None
        }
    }

    /// What a key does on the dashboard.
    pub fn handle_dashboard_keys(&mut self, key: Key, store: &TaskStore) -> (commands: Vec<
        Command,
    >)
        ensures
            dashboard_key(*old(self), key, store@, *final(self), commands@),
    {
        let mut commands: Vec<Command> = Vec::new();
        if key == Key::Char('h') || key == Key::Left {
            self.select_previous_manager();
            let request = self.schedule_load_packages();
            commands.push(Command::LoadPackages { request });
            commands
        } else if key == Key::Char('l') || key == Key::Right {
            self.select_next_manager();
            let request = self.schedule_load_packages();
            commands.push(Command::LoadPackages { request });
            commands
        } else if key == Key::Char('r') {
            commands.push(Command::RefreshManagers);
            commands
        } else if key == Key::Char('m') {
            self.open_manager_detail();
            commands
        } else if key == Key::Char('L') {
            self.show_logs_modal(store);
            commands
        } else {
            match self.handle_list_key(key) {
                Some(asked) => asked,
                None => commands,
            }
        }
    }

    /// What a key does in the details of a manager.
    pub fn handle_manager_keys(&mut self, key: Key) -> (commands: Vec<Command>)
        ensures
            manager_key(*old(self), key, *final(self), commands@),
    {
        let mut commands: Vec<Command> = Vec::new();
        if key == Key::Char('b') || key == Key::Esc {
            self.close_detail_view();
            commands
        } else if key == Key::Char('r') {
            let request = self.schedule_load_packages();
            commands.push(Command::LoadPackages { request });
            commands
        } else {
            match self.handle_list_key(key) {
                Some(asked) => asked,
                None => commands,
            }
        }
    }

    /// What a key does in the details of a package.
    pub fn handle_package_keys(&mut self, key: Key)
        ensures
            package_key(*old(self), key, *final(self)),
    {
        if key == Key::Char('b') || key == Key::Esc {
            self.close_detail_view();
        }
    }

    /// Sets the query and filters the packages anew.
    fn set_query(&mut self, query: String)
        ensures
            query_set(*old(self), query@, *final(self)),
    {
        self.search_query = query;
        let ghost mid = *self;
        self.apply_search_filter();
        assert(refiltered(mid, *self));
    }

    /// What a key does in the search.
    pub fn handle_search_keys(&mut self, event: KeyEvent)
        ensures
            search_key(*old(self), event, *final(self)),
    {
        match event.key {
            Key::Esc => {
                self.exit_search_mode(true);
            },
            Key::Enter => {
                self.exit_search_mode(false);
            },
            Key::Backspace => {
                let mut query = chars_of(self.search_query.as_str());
                if query.len() > 0 {
                    query.pop();
                }
                self.set_query(string_of(&query));
            },
            Key::Char(c) => {
                if !event.control {
                    let mut query = chars_of(self.search_query.as_str());
                    query.push(c);
                    self.set_query(string_of(&query));
                }
            },
            _ => {},
        }
    }

    /// What a key does in the menu of actions.
    pub fn handle_action_menu_keys(&mut self, key: Key)
        ensures
            menu_key(*old(self), key, *final(self)),
    {
        if key == Key::Esc {
            self.exit_action_menu();
        } else if key == Key::Char('j') || key == Key::Down {
            self.select_next_action();
        } else if key == Key::Char('k') || key == Key::Up {
            self.select_previous_action();
        } else if key == Key::Enter {
            self.execute_selected_action();
        }
    }

    /// What a key does to the dialog on screen.
    pub fn handle_modal_key(&mut self, key: Key) -> (commands: Vec<Command>)
        ensures
            modal_key(*old(self), key, *final(self), commands@),
    {
        let mut commands: Vec<Command> = Vec::new();
        let answer = match &self.modal {
            Some(modal) => crate::tui::handle_modal_key(modal, key),
            None => ModalDecision::Stay,
        };
        match answer {
            ModalDecision::Stay => {},
            ModalDecision::Close => {
                self.close_modal();
            },
            ModalDecision::Confirm => {
                let mut waiting: Option<PendingAction> = None;
                std::mem::swap(&mut self.pending_action, &mut waiting);
                self.close_modal();
                match waiting {
                    Some(action) => {
                        commands.push(Command::Perform { action });
                    },
                    None => {},
                }
            },
        }
        commands
    }

    /// What a key does to the state, and what the caller is to do after it.
    pub fn handle_key_event(&mut self, event: KeyEvent, store: &TaskStore) -> (commands: Vec<
        Command,
    >)
        ensures
            key_handled(*old(self), event, store@, *final(self), commands@),
    {
        if (event.control && event.key == Key::Char('c')) || event.key == Key::Char('q') {
            self.quit();
            return Vec::new();
        }
        if event.key == Key::Char('?') {
            self.toggle_help();
            return Vec::new();
        }
        let commands = if self.modal.is_some() {
            self.handle_modal_key(event.key)
        } else {
            match self.input_mode {
                InputMode::Search => {
                    self.handle_search_keys(event);
                    Vec::new()
                },
                InputMode::ActionMenu => {
                    self.handle_action_menu_keys(event.key);
                    Vec::new()
                },
                InputMode::Normal => match &self.current_view {
                    Screen::Dashboard => self.handle_dashboard_keys(event.key, store),
                    Screen::ManagerDetail(_) => self.handle_manager_keys(event.key),
                    Screen::PackageDetail(_) => {
                        self.handle_package_keys(event.key);
                        Vec::new()
                    },
                },
            }
        };
        let ghost mid = *self;
        self.should_redraw = true;
        assert(mid.redrawn() == *self);
        commands
    }
}

} // verus!
