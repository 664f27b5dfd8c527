//! The system-tray context menu: an ordered sequence of entries, built once at
//! startup and never changed afterwards.

use vstd::prelude::*;

verus! {

/// A selectable entry of the tray menu: a stable id, used when a tray event is
/// matched, and a display label.
pub struct MenuItem {
    pub id: String,
    pub label: String,
}

/// One entry of the tray menu: a selectable item, or a native separator.
pub enum TrayEntry {
    Item(MenuItem),
    Separator,
}

/// The tray's context menu. It owns its entries; their order is the order in
/// which they were added.
pub struct TrayMenu {
    pub entries: Vec<TrayEntry>,
}

/// How many of the entries are selectable items (separators do not count).
pub open spec fn selectable_count(entries: Seq<TrayEntry>) -> int
    decreases entries.len(),
{
    if entries.len() == 0 {
        0
    } else {
        (if entries[0] is Item {
            1int
        } else {
            0int
        }) + selectable_count(entries.skip(1))
    }
}

impl MenuItem {
    /// Makes a selectable menu entry from its id and its label.
    pub fn new(id: String, label: String) -> (item: MenuItem)
        ensures
            item.id@ == id@,
            item.label@ == label@,
    {
        MenuItem { id, label }
    }
}

impl View for TrayMenu {
    type V = Seq<TrayEntry>;

    open spec fn view(&self) -> Seq<TrayEntry> {
        self.entries@
    }
}

impl TrayMenu {
    /// An empty menu.
    pub fn new() -> (menu: TrayMenu)
        ensures
            menu@ == Seq::<TrayEntry>::empty(),
    {
        TrayMenu { entries: Vec::new() }
    }

    /// Appends a selectable item at the end of the menu.
    pub fn add_item(self, item: MenuItem) -> (menu: TrayMenu)
        ensures
            menu@ == self@.push(TrayEntry::Item(item)),
    {
        let mut entries = self.entries;
        entries.push(TrayEntry::Item(item));
        TrayMenu { entries }
    }

    /// Appends a native separator at the end of the menu.
    pub fn add_separator(self) -> (menu: TrayMenu)
        ensures
            menu@ == self@.push(TrayEntry::Separator),
    {
        let mut entries = self.entries;
        entries.push(TrayEntry::Separator);
        TrayMenu { entries }
    }
}

/// Builds the shell's tray menu: the quit item, one native separator, and the
/// hide item, in that order and nothing else, so it holds exactly two
/// selectable items, with the ids `quit` and `hide`.
pub fn tray_menu() -> (menu: TrayMenu)
    ensures
        menu@.len() == 3,
        menu@[0] matches TrayEntry::Item(item) && item.id@ == "quit"@ && item.label@ == "Quit"@,
        menu@[1] is Separator,
        menu@[2] matches TrayEntry::Item(item) && item.id@ == "hide"@ && item.label@ == "Hide"@,
        selectable_count(menu@) == 2,
{
    let quit = MenuItem::new("quit".to_owned(), "Quit".to_owned());
    let hide = MenuItem::new("hide".to_owned(), "Hide".to_owned());
    let menu = TrayMenu::new().add_item(quit).add_separator().add_item(hide);
    proof {
        lemma_selectable_count_concrete(menu@);
    }
    menu
}

/// On a three-entry menu of item, separator, item the selectable count is two.
proof fn lemma_selectable_count_concrete(entries: Seq<TrayEntry>)
    requires
        entries.len() == 3,
        entries[0] is Item,
        entries[1] is Separator,
        entries[2] is Item,
    ensures
        selectable_count(entries) == 2,
{
    let rest1 = entries.skip(1);
    let rest2 = rest1.skip(1);
    let rest3 = rest2.skip(1);
    assert(rest1[0] == entries[1] && rest1.len() == 2);
    assert(rest2[0] == entries[2] && rest2.len() == 1);
    assert(rest3.len() == 0);
    assert(selectable_count(rest3) == 0);
    assert(selectable_count(rest2) == 1);
    assert(selectable_count(rest1) == 1);
    assert(selectable_count(entries) == 2);
}

} // verus!
