//! The menu behind a right click on the language bar.

use vstd::prelude::*;

use crate::engine::engine_health::{menu_notice, EngineHealth};
use crate::engine::input_mode::InputMode;

verus! {

/// What the menu can ask for.
#[derive(Debug, Clone, Copy, PartialEq, Eq, Structural)]
pub enum MenuItem {
    Kana,
    Latin,
    /// Open the settings.
    Settings,
}

/// The first number of an item. Zero is how the system says that nothing was
/// chosen, so no item has it.
pub const FIRST_ID: u32 = 1;

impl MenuItem {
    /// The number of an item. Those of the modes are neighbors, for the system
    /// takes a range of them.
    pub open spec fn number(self) -> u32 {
        match self {
            MenuItem::Kana => 1,
            MenuItem::Latin => 2,
            MenuItem::Settings => 3,
        }
    }
}

/// The mode that an item turns on; the settings turn on none.
pub fn mode_of(item: MenuItem) -> (mode: Option<InputMode>)
    ensures
        mode == match item {
            MenuItem::Kana => Some(InputMode::Kana),
            MenuItem::Latin => Some(InputMode::Latin),
            MenuItem::Settings => None,
        },
{
    match item {
        MenuItem::Kana => Some(InputMode::Kana),
        MenuItem::Latin => Some(InputMode::Latin),
        MenuItem::Settings => None,
    }
}

/// The number of an item.
pub fn id(item: MenuItem) -> (number: u32)
    ensures
        number == item.number(),
{
    match item {
        MenuItem::Kana => FIRST_ID,
        MenuItem::Latin => FIRST_ID + 1,
        MenuItem::Settings => FIRST_ID + 2,
    }
}

/// The item that has a number, if any has.
pub fn from_id(value: u32) -> (item: Option<MenuItem>)
    ensures
        match item {
            Some(item) => item.number() == value,
            None => forall|item: MenuItem| #[trigger] item.number() != value,
        },
{
    if value == id(MenuItem::Kana) {
        Some(MenuItem::Kana)
    } else if value == id(MenuItem::Latin) {
        Some(MenuItem::Latin)
    } else if value == id(MenuItem::Settings) {
        Some(MenuItem::Settings)
    } else {
        None
    }
}

/// No two items share a number, and none has the number of no choice.
pub proof fn item_numbers_are_their_own(a: MenuItem, b: MenuItem)
    ensures
        a.number() == b.number() <==> a == b,
        a.number() != 0,
{
}

/// The numbers that the modes lie between.
pub fn mode_id_range() -> (range: (u32, u32))
    ensures
        range == (MenuItem::Kana.number(), MenuItem::Latin.number()),
        forall|item: MenuItem|
            range.0 <= #[trigger] item.number() <= range.1 <==> item != MenuItem::Settings,
{
    (id(MenuItem::Kana), id(MenuItem::Latin))
}

/// One row of the menu.
#[derive(Debug, PartialEq, Eq)]
pub enum MenuEntry {
    /// A mode, one of which is the current one.
    Mode { item: MenuItem, label: &'static str, current: bool },
    Command { item: MenuItem, label: &'static str },
    Separator,
    /// Something to read, not to pick.
    Notice(&'static str),
}

/// A row as plain values.
pub enum EntryView {
    Mode { item: MenuItem, label: Seq<char>, current: bool },
    Command { item: MenuItem, label: Seq<char> },
    Separator,
    Notice(Seq<char>),
}

impl View for MenuEntry {
    type V = EntryView;

    open spec fn view(&self) -> EntryView {
        match *self {
            MenuEntry::Mode { item, label, current } => EntryView::Mode {
                item,
                label: label@,
                current,
            },
            MenuEntry::Command { item, label } => EntryView::Command { item, label: label@ },
            MenuEntry::Separator => EntryView::Separator,
            MenuEntry::Notice(text) => EntryView::Notice(text@),
        }
    }
}

/// Rows as plain values.
pub open spec fn entries_view(entries: Seq<MenuEntry>) -> Seq<EntryView> {
    entries.map_values(|entry: MenuEntry| entry@)
}

/// The rows that are always there, in a mode.
pub open spec fn common_entries(mode: InputMode) -> Seq<EntryView> {
    seq![
        EntryView::Mode {
            item: MenuItem::Kana,
            label: "ひらがな(&H)"@,
            current: mode == InputMode::Kana,
        },
        EntryView::Mode {
            item: MenuItem::Latin,
            label: "半角英数(&A)"@,
            current: mode == InputMode::Latin,
        },
        EntryView::Separator,
        EntryView::Command { item: MenuItem::Settings, label: "設定(&S)…"@ },
    ]
}

/// The rows of the menu: the modes, with the current one marked, and the
/// settings. Where the server is out of reach a notice comes first, for it is
/// why the rest will seem to do nothing.
pub fn menu_entries(mode: InputMode, health: EngineHealth) -> (entries: Vec<MenuEntry>)
    ensures
        health != EngineHealth::Unreachable ==> entries_view(entries@) == common_entries(mode),
        health == EngineHealth::Unreachable ==> entries_view(entries@) == seq![
            EntryView::Notice(
                "変換エンジンに接続できません（launcher.exe を確認してください）"@,
            ),
            EntryView::Separator,
        ] + common_entries(mode),
{
    let mut entries: Vec<MenuEntry> = Vec::new();
    if let Some(notice) = menu_notice(health) {
        entries.push(MenuEntry::Notice(notice));
        entries.push(MenuEntry::Separator);
    }
    let is_kana = mode == InputMode::Kana;
    entries.push(
        MenuEntry::Mode { item: MenuItem::Kana, label: "ひらがな(&H)", current: is_kana },
    );
    entries.push(
        MenuEntry::Mode { item: MenuItem::Latin, label: "半角英数(&A)", current: !is_kana },
    );
    entries.push(MenuEntry::Separator);
    entries.push(MenuEntry::Command { item: MenuItem::Settings, label: "設定(&S)…" });
    proof {
        if health == EngineHealth::Unreachable {
            assert(entries_view(entries@) =~= seq![
                EntryView::Notice(
                    "変換エンジンに接続できません（launcher.exe を確認してください）"@,
                ),
                EntryView::Separator,
            ] + common_entries(mode));
        } else {
            assert(entries_view(entries@) =~= common_entries(mode));
        }
    }
    entries
}

/// A row as the system takes it.
#[derive(Debug, Clone, Copy, PartialEq, Eq)]
pub enum MenuRow {
    /// A label that can be picked, by its number.
    Label(u32, &'static str),
    Separator,
    /// A label that cannot.
    Grayed(&'static str),
}

/// Whether a row is the one that an entry is drawn as.
pub open spec fn draws(row: MenuRow, entry: EntryView) -> bool {
    match entry {
        EntryView::Mode { item, label, .. } => row matches MenuRow::Label(number, text) && number
            == item.number() && text@ == label,
        EntryView::Command { item, label } => row matches MenuRow::Label(number, text) && number
            == item.number() && text@ == label,
        EntryView::Separator => row == MenuRow::Separator,
        EntryView::Notice(label) => row matches MenuRow::Grayed(text) && text@ == label,
    }
}

/// Whether an entry is the current mode.
pub open spec fn is_current(entry: EntryView) -> bool {
    entry matches EntryView::Mode { current, .. } && current
}

/// The rows that entries are drawn as, one for each, and the number of the
/// mode that is marked: the last that is current, if any is.
pub fn build_menu(entries: &[MenuEntry]) -> (menu: (Vec<MenuRow>, Option<u32>))
    ensures
        menu.0@.len() == entries@.len(),
        forall|i: int|
            0 <= i < entries@.len() ==> draws(#[trigger] menu.0@[i], entries@[i]@),
        match menu.1 {
            Some(number) => exists|i: int|
                0 <= i < entries@.len() && is_current(#[trigger] entries@[i]@) && (
                entries@[i]@->Mode_item).number() == number && forall|j: int|
                    i < j < entries@.len() ==> !is_current(#[trigger] entries@[j]@),
            None => forall|i: int|
                0 <= i < entries@.len() ==> !is_current(#[trigger] entries@[i]@),
        },
{
    let mut rows: Vec<MenuRow> = Vec::new();
    let mut marked: Option<u32> = None;
    let mut i: usize = 0;
    while i < entries.len()
        invariant
            i <= entries.len(),
            i == rows.len(),
            forall|j: int| 0 <= j < i ==> draws(#[trigger] rows@[j], entries@[j]@),
            match marked {
                Some(number) => exists|j: int|
                    0 <= j < i && is_current(#[trigger] entries@[j]@) && (
                    entries@[j]@->Mode_item).number() == number && forall|k: int|
                        j < k < i ==> !is_current(#[trigger] entries@[k]@),
                None => forall|j: int| 0 <= j < i ==> !is_current(#[trigger] entries@[j]@),
            },
        decreases entries.len() - i,
    {
        match &entries[i] {
            MenuEntry::Mode { item, label, current } => {
                rows.push(MenuRow::Label(id(*item), label));
                if *current {
                    marked = Some(id(*item));
                    assert(is_current(entries@[i as int]@));
                }
            },
            MenuEntry::Command { item, label } => {
                rows.push(MenuRow::Label(id(*item), label));
            },
            MenuEntry::Separator => {
                rows.push(MenuRow::Separator);
            },
            MenuEntry::Notice(text) => {
                rows.push(MenuRow::Grayed(text));
            },
        }
        i += 1;
    }
    (rows, marked)
}

/// What was picked from the menu, from what the system returned: a number that
/// no item has, zero among them, is no choice.
pub fn picked(returned: i32) -> (item: Option<MenuItem>)
    ensures
        match item {
            Some(item) => item.number() == returned,
            None => forall|item: MenuItem| #[trigger] item.number() != returned,
        },
{
    if returned < 0 {
        None
    } else {
        from_id(returned as u32)
    }
}

/// Of the rows for the modes the one of the current mode is marked, and only that
/// one.
pub proof fn the_current_mode_is_marked(mode: InputMode)
    ensures
        common_entries(mode).len() == 4,
        common_entries(mode)[0] matches EntryView::Mode { item, current, .. } && item
            == MenuItem::Kana && current == (mode == InputMode::Kana),
        common_entries(mode)[1] matches EntryView::Mode { item, current, .. } && item
            == MenuItem::Latin && current == (mode == InputMode::Latin),
        common_entries(mode)[2] == EntryView::Separator,
        common_entries(mode)[3] matches EntryView::Command { item, .. } && item
            == MenuItem::Settings,
{
}

/// What can be picked is drawn under its item's number and with its label; what
/// is only to be read cannot be picked, and only a mode is ever current.
pub proof fn a_row_is_drawn_as_its_entry(
    row: MenuRow,
    item: MenuItem,
    label: Seq<char>,
    current: bool,
)
    ensures
        draws(row, EntryView::Mode { item, label, current }) ==> (row matches MenuRow::Label(
            number,
            text,
        ) && number == item.number() && text@ == label),
        draws(row, EntryView::Command { item, label }) ==> (row matches MenuRow::Label(number, text)
            && number == item.number() && text@ == label),
        draws(row, EntryView::Notice(label)) ==> (row matches MenuRow::Grayed(text) && text@
            == label),
        draws(row, EntryView::Separator) ==> row == MenuRow::Separator,
        is_current(EntryView::Mode { item, label, current }) == current,
        !is_current(EntryView::Command { item, label }),
        !is_current(EntryView::Notice(label)),
        !is_current(EntryView::Separator),
{
}

/// Rows are seen one for one and in their order, each as what it is.
pub proof fn rows_are_seen_as_they_are(
    entries: Seq<MenuEntry>,
    i: int,
    item: MenuItem,
    label: &'static str,
    current: bool,
)
    requires
        0 <= i < entries.len(),
    ensures
        entries_view(entries).len() == entries.len(),
        entries_view(entries)[i] == entries[i]@,
        (MenuEntry::Mode { item, label, current })@ == (EntryView::Mode {
            item,
            label: label@,
            current,
        }),
        (MenuEntry::Command { item, label })@ == (EntryView::Command { item, label: label@ }),
        MenuEntry::Separator@ == EntryView::Separator,
        MenuEntry::Notice(label)@ == EntryView::Notice(label@),
{
}

} // verus!
