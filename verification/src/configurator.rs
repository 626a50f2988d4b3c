//! Decides, from a plain snapshot of the application's menu bar, whether and
//! how to designate a Windows menu: the submenu of the first top-level item
//! titled exactly "Window" becomes the application-wide Windows menu; a
//! missing menu bar is worth one warning and nothing more; a missing "Window"
//! item is an expected condition and changes nothing.
//!
//! Menu handles are opaque to this logic: an adapter numbers the submenus it
//! sees and keeps the mapping back to the toolkit's objects.

use vstd::prelude::*;
use vstd::string::StrSliceExecFns;

verus! {

/// An opaque submenu handle, as numbered by the adapter that sampled the
/// menu bar.
pub type SubmenuId = u64;

/// One top-level entry of the menu bar: its title and the submenu attached
/// beneath it, if any.
pub struct MenuItem {
    pub title: String,
    pub submenu: Option<SubmenuId>,
}

/// The application's menu bar: its top-level items, in order.
pub struct MenuBar {
    pub items: Vec<MenuItem>,
}

/// The menu state this component reads and mutates: the menu bar, absent
/// until the host has built it, and the currently designated Windows menu.
pub struct MenuState {
    pub main_menu: Option<MenuBar>,
    pub windows_menu: Option<SubmenuId>,
}

/// The one action an invocation of the configurator may take.
#[derive(PartialEq, Eq, Structural, Clone, Copy, Debug)]
pub enum ConfigureAction {
    /// The menu bar is absent: emit exactly one warning, change nothing.
    WarnMainMenuMissing,
    /// No item is titled "Window": emit nothing, change nothing.
    LeaveUnchanged,
    /// Designate this handle (the first "Window" item's submenu, absent when
    /// that item carries none) as the Windows menu.
    SetWindowsMenu(Option<SubmenuId>),
}

/// The title that marks the menu item whose submenu becomes the Windows menu.
pub open spec fn spec_window_title() -> Seq<char> {
    "Window"@
}

/// The first item of `items` whose title equals `title` exactly, if any.
pub open spec fn spec_first_titled(items: Seq<MenuItem>, title: Seq<char>) -> Option<MenuItem>
    decreases items.len(),
{
    if items.len() == 0 {
        None
    } else if items[0].title@ == title {
        Some(items[0])
    } else {
        spec_first_titled(items.drop_first(), title)
    }
}

/// The items of an optional menu bar, as a sequence.
pub open spec fn spec_bar_items(m: Option<MenuBar>) -> Option<Seq<MenuItem>> {
    match m {
        None => None,
        Some(bar) => Some(bar.items@),
    }
}

/// The action owed for a menu bar in the given shape.
pub open spec fn spec_decide(main_menu: Option<Seq<MenuItem>>) -> ConfigureAction {
    match main_menu {
        None => ConfigureAction::WarnMainMenuMissing,
        Some(items) => match spec_first_titled(items, spec_window_title()) {
            None => ConfigureAction::LeaveUnchanged,
            Some(item) => ConfigureAction::SetWindowsMenu(item.submenu),
        },
    }
}

/// The menu state after `a` is carried out on `s`: only a designation
/// touches it, and only its Windows-menu field.
pub open spec fn spec_apply(s: MenuState, a: ConfigureAction) -> MenuState {
    match a {
        ConfigureAction::SetWindowsMenu(sub) => MenuState {
            main_menu: s.main_menu,
            windows_menu: sub,
        },
        _ => s,
    }
}

/// What one invocation does to the menu state: the state afterwards, and
/// whether the warning diagnostic is owed.
pub open spec fn spec_configure(s: MenuState) -> (MenuState, bool) {
    let a = spec_decide(spec_bar_items(s.main_menu));
    (spec_apply(s, a), a is WarnMainMenuMissing)
}

/// Exact, case-sensitive equality of two strings: true just when their
/// character sequences coincide.
pub fn str_eq(a: &str, b: &str) -> (r: bool)
    ensures
        r <==> a@ == b@,
{
    let a_len = a.unicode_len();
    let b_len = b.unicode_len();
    if a_len != b_len {
        return false;
    }
    let mut i: usize = 0;
    while i < a_len
        invariant
            a_len == a@.len(),
            a_len == b@.len(),
            i <= a_len,
            forall|j: int| 0 <= j < i ==> a@[j] == b@[j],
        decreases a_len - i,
    {
        if a.get_char(i) != b.get_char(i) {
            return false;
        }
        i += 1;
    }
    proof {
        assert(a@ =~= b@);
    }
    true
}

/// A first-match search that finds nothing has looked at every item: no title
/// of `items` equals `title`, and conversely.
pub proof fn lemma_first_titled_none(items: Seq<MenuItem>, title: Seq<char>)
    ensures
        spec_first_titled(items, title) is None <==> (forall|j: int|
            0 <= j < items.len() ==> items[j].title@ != title),
    decreases items.len(),
{
    if items.len() > 0 {
        lemma_first_titled_none(items.drop_first(), title);
        assert(forall|j: int|
            1 <= j < items.len() ==> items[j] == items.drop_first()[j - 1]);
    }
}

/// The first-match search returns exactly the item at the least index whose
/// title equals `title`.
pub proof fn lemma_first_titled_some(items: Seq<MenuItem>, title: Seq<char>, i: int)
    requires
        0 <= i < items.len(),
        items[i].title@ == title,
        forall|j: int| 0 <= j < i ==> items[j].title@ != title,
    ensures
        spec_first_titled(items, title) == Some(items[i]),
    decreases items.len(),
{
    if i > 0 {
        lemma_first_titled_some(items.drop_first(), title, i - 1);
    }
}

/// Index of the first item of `items` whose title equals `title`, by exact,
/// case-sensitive comparison; `None` when no title matches.
pub fn find_item_titled(items: &Vec<MenuItem>, title: &str) -> (r: Option<usize>)
    ensures
        match r {
            Some(i) => i < items@.len() && items@[i as int].title@ == title@
                && forall|j: int| 0 <= j < i ==> items@[j].title@ != title@,
            None => forall|j: int| 0 <= j < items@.len() ==> items@[j].title@ != title@,
        },
{
    let n = items.len();
    let mut k: usize = 0;
    while k < n
        invariant
            n == items@.len(),
            k <= n,
            forall|j: int| 0 <= j < k ==> items@[j].title@ != title@,
        decreases n - k,
    {
        if str_eq(items[k].title.as_str(), title) {
            return Some(k);
        }
        k += 1;
    }
    None
}

/// Decides the one action owed for the menu bar as sampled: a warning when
/// the bar is absent, nothing when no item is titled "Window", and otherwise
/// the designation of the first such item's submenu.
pub fn decide(main_menu: &Option<MenuBar>) -> (a: ConfigureAction)
    ensures
        a == spec_decide(spec_bar_items(*main_menu)),
{
    match main_menu {
        None => ConfigureAction::WarnMainMenuMissing,
        Some(bar) => match find_item_titled(&bar.items, "Window") {
            None => {
                proof {
                    lemma_first_titled_none(bar.items@, spec_window_title());
                }
                ConfigureAction::LeaveUnchanged
            },
            Some(i) => {
                proof {
                    lemma_first_titled_some(bar.items@, spec_window_title(), i as int);
                }
                ConfigureAction::SetWindowsMenu(bar.items[i].submenu)
            },
        },
    }
}

/// One-shot attempt to designate the "Window" submenu as the Windows menu.
///
/// The state afterwards, and whether the one warning diagnostic is owed, are
/// exactly what [`spec_configure`] gives for the state before. Every state is
/// accepted and no failure is ever surfaced to the caller: the two early-exit
/// shapes end in an unchanged state.
pub fn configure_window_menu(state: &mut MenuState) -> (warned: bool)
    ensures
        *final(state) == spec_configure(*old(state)).0,
        warned == spec_configure(*old(state)).1,
{
    let action = decide(&state.main_menu);
    match action {
        ConfigureAction::WarnMainMenuMissing => true,
        ConfigureAction::LeaveUnchanged => false,
        ConfigureAction::SetWindowsMenu(sub) => {
            state.windows_menu = sub;
            false
        },
    }
}

/// With no menu bar, an invocation owes exactly the one warning and leaves
/// every part of the menu state as it was.
pub proof fn lemma_missing_menu_warns(s: MenuState)
    requires
        s.main_menu is None,
    ensures
        spec_configure(s) == (s, true),
{
}

/// With a menu bar none of whose items is titled "Window", an invocation owes
/// no diagnostic and leaves every part of the menu state as it was.
pub proof fn lemma_no_window_item_no_change(s: MenuState, bar: MenuBar)
    requires
        s.main_menu == Some(bar),
        forall|j: int| 0 <= j < bar.items@.len() ==> bar.items@[j].title@ != spec_window_title(),
    ensures
        spec_configure(s) == (s, false),
{
    lemma_first_titled_none(bar.items@, spec_window_title());
}

/// With an item titled "Window" present, the first such item's submenu — that
/// exact handle — becomes the designated Windows menu; the menu bar itself is
/// untouched and no warning is owed.
pub proof fn lemma_window_item_designates_submenu(s: MenuState, bar: MenuBar, i: int)
    requires
        s.main_menu == Some(bar),
        0 <= i < bar.items@.len(),
        bar.items@[i].title@ == spec_window_title(),
        forall|j: int| 0 <= j < i ==> bar.items@[j].title@ != spec_window_title(),
    ensures
        spec_configure(s).0.main_menu == s.main_menu,
        spec_configure(s).0.windows_menu == bar.items@[i].submenu,
        !spec_configure(s).1,
{
    lemma_first_titled_some(bar.items@, spec_window_title(), i);
}

/// The procedure is idempotent: a second invocation on the state the first
/// one produced — the menu bar unchanged — produces that state again, and owes
/// a warning exactly when the first one did.
pub proof fn lemma_configure_idempotent(s: MenuState)
    ensures
        spec_configure(spec_configure(s).0).0 == spec_configure(s).0,
        spec_configure(spec_configure(s).0).1 == spec_configure(s).1,
{
    let s1 = spec_configure(s).0;
    assert(s1.main_menu == s.main_menu);
}

} // verus!
