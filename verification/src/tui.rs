//! What the terminal front end decides without drawing: which mode it is
//! in, where the selection moves, which packages a search
//! shows, and what a key does to a dialog.

use vstd::prelude::*;
use crate::package::{package_views, Operation, Package, PackageView};
use crate::text::{
    chars_of, contains, copy_str, find, has_infix, lowercase, lowered, push_str, string_of,
};

verus! {

/// What the keys mean at the moment.
#[derive(Debug, Clone, Copy, PartialEq, Eq, Structural)]
pub enum InputMode {
    Normal,
    Search,
    ActionMenu,
}

/// An operation that waits for the user to confirm it.
#[derive(Debug, Clone)]
pub enum PendingAction {
    Update { manager: String, package: String },
    Uninstall { manager: String, package: String, force: bool },
}

/// The dialog on screen.
#[derive(Debug, Clone)]
pub enum ModalState {
    Confirm { title: String, message: String },
    Logs { title: String, lines: Vec<String> },
    Success { title: String, message: String },
    Error { title: String, message: String },
}

/// A key as the front end tells them apart.
#[derive(Debug, Clone, Copy, PartialEq, Eq, Structural)]
pub enum Key {
    Char(char),
    Up,
    Down,
    Left,
    Right,
    Enter,
    Esc,
    Backspace,
    Other,
}

/// What a key does to the dialog on screen.
#[derive(Debug, Clone, Copy, PartialEq, Eq, Structural)]
pub enum ModalDecision {
    /// The dialog stays.
    Stay,
    /// The dialog closes, and what was pending is dropped.
    Close,
    /// The dialog closes, and what was pending is carried out.
    Confirm,
}

/// The line at the foot of the screen that shows the mode and a message.
#[derive(Debug, Clone)]
pub struct StatusBar {
    mode: InputMode,
    message: String,
}

/// The line above it that shows which keys do what.
#[derive(Debug, Clone)]
pub struct UsageBar {
    text: String,
}

/// The name that the status bar shows for a mode.
pub open spec fn mode_label(mode: InputMode) -> Seq<char> {
    match mode {
        InputMode::Normal => "NORMAL"@,
        InputMode::Search => "SEARCH"@,
        InputMode::ActionMenu => "ACTION"@,
    }
}

impl StatusBar {
    /// The mode shown.
    pub closed spec fn shown_mode(&self) -> InputMode {
        self.mode
    }

    /// The message shown.
    pub closed spec fn shown_message(&self) -> Seq<char> {
        self.message@
    }

    pub fn new(mode: InputMode, message: String) -> (bar: StatusBar)
        ensures
            bar.shown_mode() == mode,
            bar.shown_message() == message@,
    {
        StatusBar { mode, message }
    }

    /// The message shown.
    pub fn message(&self) -> (r: &str)
        ensures
            r@ == self.shown_message(),
    {
        self.message.as_str()
    }

    /// The name shown for the mode.
    pub fn mode_text(&self) -> (r: &'static str)
        ensures
            r@ == mode_label(self.shown_mode()),
    {
        match self.mode {
            InputMode::Normal => "NORMAL",
            InputMode::Search => "SEARCH",
            InputMode::ActionMenu => "ACTION",
        }
    }

    /// Whether the message tells of updates, and is shown as a warning.
    pub fn has_update_warning(&self) -> (r: bool)
        ensures
            r == (has_infix(self.shown_message(), "⚠️"@) || has_infix(
                self.shown_message(),
                "可更新"@,
            )),
    {
        let m = chars_of(self.message.as_str());
        contains(&m, "⚠️") || contains(&m, "可更新")
    }
}

impl UsageBar {
    /// The text shown.
    pub closed spec fn shown(&self) -> Seq<char> {
        self.text@
    }

    pub fn new(text: String) -> (bar: UsageBar)
        ensures
            bar.shown() == text@,
    {
        UsageBar { text }
    }

    /// The text shown.
    pub fn text(&self) -> (r: &str)
        ensures
            r@ == self.shown(),
    {
        self.text.as_str()
    }
}

/// The selection after a step down a list of `len` items: the next item,
/// the first after the last, and no move in an empty list.
pub open spec fn next_of(index: int, len: int) -> int {
    if len <= 0 {
        index
    } else {
        (index + 1) % len
    }
}

/// The selection after a step up a list of `len` items: the item before,
/// the last before the first, and no move in an empty list.
pub open spec fn previous_of(index: int, len: int) -> int {
    if len <= 0 {
        index
    } else if index == 0 {
        len - 1
    } else {
        index - 1
    }
}

/// The selection after a step down.
pub fn select_next(index: usize, len: usize) -> (r: usize)
    ensures
        r == next_of(index as int, len as int),
        len > 0 ==> r < len,
{
    if len == 0 {
        return index;
    }
    let inside = index % len;
    proof {
        vstd::arithmetic::div_mod::lemma_add_mod_noop(index as int, 1, len as int);
        vstd::arithmetic::div_mod::lemma_mod_twice(index as int, len as int);
        if len == 1 {
            assert((inside + 1) % 1 == 0);
        } else {
            vstd::arithmetic::div_mod::lemma_small_mod(1, len as nat);
        }
    }
    if inside + 1 == len {
        proof {
            vstd::arithmetic::div_mod::lemma_mod_self_0(len as int);
        }
        0
    } else {
        proof {
            vstd::arithmetic::div_mod::lemma_small_mod((inside + 1) as nat, len as nat);
        }
        inside + 1
    }
}

/// The selection after a step up.
pub fn select_previous(index: usize, len: usize) -> (r: usize)
    ensures
        r == previous_of(index as int, len as int),
        index < len ==> r < len,
{
    if len == 0 {
        index
    } else if index == 0 {
        len - 1
    } else {
        index - 1
    }
}

/// A step down and a step up lead back.
pub proof fn law_selection_round_trip(index: int, len: int)
    requires
        0 <= index < len,
    ensures
        previous_of(next_of(index, len), len) == index,
        next_of(previous_of(index, len), len) == index,
        0 <= next_of(index, len) < len,
        0 <= previous_of(index, len) < len,
{
    if index + 1 < len {
        assert((index + 1) % len == index + 1) by (nonlinear_arith)
            requires
                0 <= index + 1 < len,
        ;
    } else {
        assert((index + 1) % len == 0) by (nonlinear_arith)
            requires
                index + 1 == len,
                len > 0,
        ;
    }
    if index > 0 {
        assert((index - 1 + 1) % len == index) by (nonlinear_arith)
            requires
                0 <= index < len,
        ;
    } else {
        assert((len - 1 + 1) % len == 0) by (nonlinear_arith)
            requires
                len > 0,
        ;
    }
}

/// The part of a list of `len` items that a window of `height` lines shows
/// when the item `selected` is to be seen: the first item shown and the
/// item after the last one shown.
pub open spec fn window_of(selected: int, height: int, len: int) -> (int, int) {
    let lines = if height < 1 {
        1
    } else {
        height
    };
    let offset = if selected + 1 > lines {
        selected + 1 - lines
    } else {
        0
    };
    let end = if offset + lines < len {
        offset + lines
    } else {
        len
    };
    (
        offset,
        if end < offset {
            offset
        } else {
            end
        },
    )
}

/// The part of a list that a window shows.
pub fn list_window(selected: usize, height: usize, len: usize) -> (r: (usize, usize))
    requires
        selected < usize::MAX,
    ensures
        (r.0 as int, r.1 as int) == window_of(selected as int, height as int, len as int),
        r.0 <= r.1,
        selected < len ==> r.0 <= selected < r.1 <= len,
{
    let lines: usize = if height < 1 {
        1
    } else {
        height
    };
    let offset: usize = if selected + 1 > lines {
        selected + 1 - lines
    } else {
        0
    };
    let end: usize = if len > offset && len - offset > lines {
        offset + lines
    } else {
        len
    };
    (
        offset,
        if end < offset {
            offset
        } else {
            end
        },
    )
}

/// Whether a package is shown for a search: its name holds the query,
/// both in lowercase. Every package is shown for an empty query.
pub open spec fn shown_for(p: PackageView, query: Seq<char>) -> bool {
    query.len() == 0 || has_infix(lowered(p.name), lowered(query))
}

/// The packages among the first `n` of `all` that are shown for `query`.
pub open spec fn filtered(all: Seq<PackageView>, query: Seq<char>, n: int) -> Seq<PackageView>
    decreases n,
{
    if n <= 0 {
        Seq::empty()
    } else if shown_for(all[n - 1], query) {
        filtered(all, query, n - 1).push(all[n - 1])
    } else {
        filtered(all, query, n - 1)
    }
}

/// The packages that are shown for a search.
pub fn apply_search_filter(all: &Vec<Package>, query: &str) -> (r: Vec<Package>)
    ensures
        package_views(r@) == filtered(package_views(all@), query@, all.len() as int),
{
    let empty = chars_of(query).len() == 0;
    let wanted = chars_of(lowercase(query).as_str());
    let mut out: Vec<Package> = Vec::new();
    let mut i: usize = 0;
    assert(package_views(out@) =~= filtered(package_views(all@), query@, 0));
    while i < all.len()
        invariant
            i <= all.len(),
            empty == (query@.len() == 0),
            wanted@ == lowered(query@),
            package_views(out@) == filtered(package_views(all@), query@, i as int),
        decreases all.len() - i,
    {
        assert(package_views(all@)[i as int] == all@[i as int]@);
        let name = chars_of(lowercase(all[i].name.as_str()).as_str());
        if empty || find(&name, &wanted).is_some() {
            let ghost before = package_views(out@);
            let p = all[i].copy();
            out.push(p);
            assert(package_views(out@) =~= before.push(p@));
        }
        i = i + 1;
    }
    out
}

/// The selection after the list changed under it: it stays where it still
/// points at an item, else it goes to the first.
pub fn keep_selection(index: usize, len: usize) -> (r: usize)
    ensures
        r == if index >= len {
            0
        } else {
            index
        },
{
    if index >= len {
        0
    } else {
        index
    }
}

/// What a key does to a dialog: a confirmation is answered by `y` or
/// Enter and dropped by `n` or Escape, a log closes on Escape, and a
/// report closes on any key.
pub open spec fn modal_answer(modal: ModalState, key: Key) -> ModalDecision {
    match modal {
        ModalState::Confirm { .. } => if key == Key::Char('y') || key == Key::Enter {
            ModalDecision::Confirm
        } else if key == Key::Char('n') || key == Key::Esc {
            ModalDecision::Close
        } else {
            ModalDecision::Stay
        },
        ModalState::Logs { .. } => if key == Key::Esc {
            ModalDecision::Close
        } else {
            ModalDecision::Stay
        },
        _ => ModalDecision::Close,
    }
}

/// What a key does to a dialog.
pub fn handle_modal_key(modal: &ModalState, key: Key) -> (r: ModalDecision)
    ensures
        r == modal_answer(*modal, key),
{
    match modal {
        ModalState::Confirm { .. } => {
            if key == Key::Char('y') || key == Key::Enter {
                ModalDecision::Confirm
            } else if key == Key::Char('n') || key == Key::Esc {
                ModalDecision::Close
            } else {
                ModalDecision::Stay
            }
        },
        ModalState::Logs { .. } => {
            if key == Key::Esc {
                ModalDecision::Close
            } else {
                ModalDecision::Stay
            }
        },
        _ => ModalDecision::Close,
    }
}

/// The question that asks to confirm an update.
pub fn confirm_update(manager: &str, package: &str) -> (r: (PendingAction, ModalState))
    ensures
        r.0 matches PendingAction::Update { manager: m, package: p } && m@ == manager@ && p@
            == package@,
        r.1 matches ModalState::Confirm { title, message } && title@ == "Update Package"@
            && message@ == "Update "@ + package@ + " from "@ + manager@ + "?"@,
{
    let mut text = chars_of("Update ");
    push_str(&mut text, package);
    push_str(&mut text, " from ");
    push_str(&mut text, manager);
    push_str(&mut text, "?");
    (
        PendingAction::Update { manager: copy_str(manager), package: copy_str(package) },
        ModalState::Confirm { title: copy_str("Update Package"), message: string_of(&text) },
    )
}

/// The question that asks to confirm the removal of a package.
pub fn confirm_uninstall(manager: &str, package: &str, force: bool) -> (r: (
    PendingAction,
    ModalState,
))
    ensures
        r.0 matches PendingAction::Uninstall { manager: m, package: p, force: f } && m@
            == manager@ && p@ == package@ && f == force,
        r.1 matches ModalState::Confirm { title, message } && title@ == "Uninstall Package"@
            && message@ == "Uninstall "@ + package@ + " from "@ + manager@ + "?"@,
{
    let mut text = chars_of("Uninstall ");
    push_str(&mut text, package);
    push_str(&mut text, " from ");
    push_str(&mut text, manager);
    push_str(&mut text, "?");
    (
        PendingAction::Uninstall {
            manager: copy_str(manager),
            package: copy_str(package),
            force,
        },
        ModalState::Confirm { title: copy_str("Uninstall Package"), message: string_of(&text) },
    )
}

/// The operation that a confirmed action starts.
pub fn operation_of(action: &PendingAction) -> (r: Operation)
    ensures
        r == match action {
            PendingAction::Update { .. } => Operation::Update,
            PendingAction::Uninstall { .. } => Operation::Uninstall,
        },
{
    match action {
        PendingAction::Update { .. } => Operation::Update,
        PendingAction::Uninstall { .. } => Operation::Uninstall,
    }
}

/// How many of the `width` cells of a progress bar are filled at
/// `progress` percent.
pub open spec fn filled_cells(progress: nat, width: nat) -> nat {
    let cells = progress * width / 100;
    if cells < width {
        cells
    } else {
        width
    }
}

/// How many cells of a progress bar are filled.
pub fn progress_cells(progress: u32, width: usize) -> (r: usize)
    ensures
        r == filled_cells(progress as nat, width as nat),
        r <= width,
{
    assert((progress as u128) * (width as u128) <= 0xffff_ffff * 0xffff_ffff_ffff_ffff)
        by (nonlinear_arith)
        requires
            progress <= 0xffff_ffff,
            width <= 0xffff_ffff_ffff_ffff,
    ;
    let cells: u128 = (progress as u128) * (width as u128) / 100;
    if cells < width as u128 {
        cells as usize
    } else {
        width
    }
}

} // verus!
