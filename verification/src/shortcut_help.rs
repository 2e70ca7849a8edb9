use vstd::prelude::*;
use vstd::string::*;
use crate::config::{KeySequence, Keymap};
use crate::geometry::{Constraint, Direction, Rect, lemma_split_outcome, split_area, split_outcome};
use crate::search::label_views;
use crate::text::{join_keys, joined};
use crate::ui_state::UIState;

verus! {

/// The number of columns of the shortcut help table.
pub const SHORTCUT_TABLE_N_COLUMNS: usize = 3;

/// A key binding as plain values: its keys and its command's name.
pub type KeymapView = (Seq<Seq<char>>, Seq<char>);

/// The bindings that the help popup lists once `input_len` keys have been
/// typed: each with the typed keys dropped, keeping those that still need a
/// key and trigger a command.
pub open spec fn remaining_bindings(input_len: nat, matches: Seq<KeymapView>) -> Seq<KeymapView>
    decreases matches.len(),
{
    if matches.len() == 0 {
        Seq::<KeymapView>::empty()
    } else {
        let kept = remaining_bindings(input_len, matches.drop_last());
        let rest = matches.last().0.skip(input_len as int);
        if rest.len() > 0 && matches.last().1 != "None"@ {
            kept.push((rest, matches.last().1))
        } else {
            kept
        }
    }
}

/// What the shortcut help lists for the typed keys `input` and the bindings
/// `matches` that start with them: nothing before a key is typed.
pub open spec fn shortcut_entries(input: Seq<Seq<char>>, matches: Seq<KeymapView>) -> Seq<KeymapView> {
    if input.len() == 0 {
        Seq::<KeymapView>::empty()
    } else {
        remaining_bindings(input.len(), matches)
    }
}

/// The views of a sequence of bindings.
pub open spec fn keymap_views(keymaps: Seq<Keymap>) -> Seq<KeymapView> {
    keymaps.map_values(|k: Keymap| k@)
}

/// The `r`-th row of `items` cut into rows of `SHORTCUT_TABLE_N_COLUMNS`.
pub open spec fn table_row<A>(items: Seq<A>, r: int) -> Seq<A> {
    let start = r * SHORTCUT_TABLE_N_COLUMNS;
    items.subrange(start, if start + SHORTCUT_TABLE_N_COLUMNS <= items.len() { start + SHORTCUT_TABLE_N_COLUMNS } else { items.len() as int })
}

/// `rows` are `items` cut, in order, into rows of `SHORTCUT_TABLE_N_COLUMNS`
/// (the last row possibly shorter).
pub open spec fn cut_into_rows<A>(items: Seq<A>, rows: Seq<Seq<A>>) -> bool {
    &&& rows.len() == (items.len() + SHORTCUT_TABLE_N_COLUMNS - 1) / (SHORTCUT_TABLE_N_COLUMNS as int)
    &&& forall|r: int| 0 <= r < rows.len() ==> #[trigger] rows[r] == table_row(items, r)
}

fn copy_keys(keys: &Vec<String>, from: usize) -> (copy: Vec<String>)
    requires
        from <= keys@.len(),
    ensures
        label_views(copy@) == label_views(keys@).skip(from as int),
{
    let mut copy: Vec<String> = Vec::new();
    let mut i: usize = from;
    while i < keys.len()
        invariant
            from <= i <= keys@.len(),
            copy@.len() == i - from,
            forall|k: int| 0 <= k < copy@.len() ==> #[trigger] copy@[k]@ == keys@[from + k]@,
        decreases keys@.len() - i,
    {
        copy.push(keys[i].clone());
        i = i + 1;
    }
    assert(label_views(copy@) =~= label_views(keys@).skip(from as int));
    copy
}

/// The bindings listed by the shortcut help: see `shortcut_entries`.
pub fn shortcut_help_entries(input: &KeySequence, matches: &Vec<Keymap>) -> (entries: Vec<Keymap>)
    requires
        input@.len() > 0 ==> forall|i: int| 0 <= i < matches@.len() ==> #[trigger] matches@[i].key_sequence.keys@.len() >= input.keys@.len(),
    ensures
        keymap_views(entries@) == shortcut_entries(input@, keymap_views(matches@)),
        input@.len() == 0 ==> entries@.len() == 0,
        input@.len() > 0 ==> keymap_views(entries@) == keymap_views(matches@)
            .filter(|m: KeymapView| m.0.len() > input@.len() && m.1 != "None"@)
            .map_values(|m: KeymapView| (m.0.skip(input@.len() as int), m.1)),
{
    let mut entries: Vec<Keymap> = Vec::new();
    if input.keys.len() == 0 {
        assert(keymap_views(entries@) =~= Seq::<KeymapView>::empty());
        return entries;
    }
    let ghost all = keymap_views(matches@);
    let n = input.keys.len();
    let none = String::from_str("None");
    let mut i: usize = 0;
    while i < matches.len()
        invariant
            n == input.keys@.len(),
            n == input@.len(),
            n > 0,
            none@ == "None"@,
            all == keymap_views(matches@),
            forall|j: int| 0 <= j < matches@.len() ==> #[trigger] matches@[j].key_sequence.keys@.len() >= n,
            i <= matches@.len(),
            keymap_views(entries@) == remaining_bindings(n as nat, all.take(i as int)),
        decreases matches@.len() - i,
    {
        let keymap = &matches[i];
        let rest = copy_keys(&keymap.key_sequence.keys, n);
        proof {
            assert(all.take(i + 1).drop_last() =~= all.take(i as int));
            assert(all.take(i + 1).last() == matches@[i as int]@);
            assert(matches@[i as int]@.0 == label_views(matches@[i as int].key_sequence.keys@));
        }
        if rest.len() > 0 && !(keymap.command == none) {
            let entry = Keymap { key_sequence: KeySequence { keys: rest }, command: keymap.command.clone() };
            let ghost before = entries@;
            entries.push(entry);
            proof {
                assert(keymap_views(entries@) =~= keymap_views(before).push(entry@));
            }
        }
        i = i + 1;
    }
    proof {
        assert(all.take(matches@.len() as int) =~= all);
        assert forall|j: int| 0 <= j < all.len() implies #[trigger] all[j].0.len() >= input@.len() by {
            assert(all[j] == matches@[j]@);
        }
        crate::laws::lemma_shortcut_help_lists_every_binding(input@, all);
    }
    entries
}

/// Cuts `items`, in order, into rows of `SHORTCUT_TABLE_N_COLUMNS`.
pub fn table_rows<T>(items: Vec<T>) -> (rows: Vec<Vec<T>>)
    ensures
        cut_into_rows(items@, rows@.map_values(|row: Vec<T>| row@)),
{
    let ghost all = items@;
    let n = items.len();
    let mut rest = items;
    let mut rows: Vec<Vec<T>> = Vec::new();
    let mut taken: usize = 0;
    while rest.len() > 0
        invariant
            n == all.len(),
            taken <= n,
            rest@.len() > 0 ==> taken == rows@.len() * SHORTCUT_TABLE_N_COLUMNS,
            rows@.len() == (taken + SHORTCUT_TABLE_N_COLUMNS - 1) / (SHORTCUT_TABLE_N_COLUMNS as int),
            rest@ == all.skip(taken as int),
            forall|r: int| 0 <= r < rows@.len() ==> #[trigger] rows@[r]@ == table_row(all, r),
        decreases rest@.len(),
    {
        let mut row: Vec<T> = Vec::new();
        while row.len() < SHORTCUT_TABLE_N_COLUMNS && rest.len() > 0
            invariant
                n == all.len(),
                taken + row@.len() <= n,
                taken == rows@.len() * SHORTCUT_TABLE_N_COLUMNS,
                row@.len() <= SHORTCUT_TABLE_N_COLUMNS,
                row@ == all.subrange(taken as int, taken + row@.len()),
                rest@ == all.skip(taken + row@.len()),
            decreases rest@.len(),
        {
            let item = rest.remove(0);
            row.push(item);
            proof {
                assert(row@ =~= all.subrange(taken as int, taken + row@.len()));
                assert(rest@ =~= all.skip(taken + row@.len()));
            }
        }
        let ghost k = rows@.len() as int;
        proof {
            assert(row@.len() == SHORTCUT_TABLE_N_COLUMNS || taken + row@.len() == n);
            assert(row@ =~= table_row(all, k));
        }
        taken = taken + row.len();
        rows.push(row);
    }
    proof {
        let views = rows@.map_values(|row: Vec<T>| row@);
        assert forall|r: int| 0 <= r < views.len() implies #[trigger] views[r] == table_row(all, r) by {
            assert(views[r] == rows@[r]@);
        }
    }
    rows
}


/// The text of a cell of the shortcut table: the binding's remaining keys
/// separated by spaces, a colon and the command's name.
pub open spec fn shortcut_cell(binding: KeymapView) -> Seq<char> {
    joined(binding.0) + seq![':', ' '] + binding.1
}

/// The cell texts of the bindings, in order.
pub open spec fn shortcut_cells(bindings: Seq<KeymapView>) -> Seq<Seq<char>> {
    bindings.map_values(|b: KeymapView| shortcut_cell(b))
}

fn cell_texts(bindings: &Vec<Keymap>) -> (cells: Vec<String>)
    ensures
        label_views(cells@) == shortcut_cells(keymap_views(bindings@)),
{
    let mut cells: Vec<String> = Vec::new();
    let mut i: usize = 0;
    while i < bindings.len()
        invariant
            i <= bindings@.len(),
            cells@.len() == i,
            forall|k: int| 0 <= k < i ==> #[trigger] cells@[k]@ == shortcut_cell(bindings@[k]@),
        decreases bindings@.len() - i,
    {
        let mut cell = join_keys(&bindings[i].key_sequence.keys);
        cell.append(": ");
        cell.append(bindings[i].command.as_str());
        proof {
            reveal_strlit(": ");
            assert(cell@ =~= shortcut_cell(bindings@[i as int]@));
        }
        cells.push(cell);
        i = i + 1;
    }
    assert(label_views(cells@) =~= shortcut_cells(keymap_views(bindings@)));
    cells
}

/// Where the shortcut help goes and what it shows: the area left to the main
/// layout and, when some binding is listed, the area of the table, its title,
/// its rows of cell texts and each column's share of its width.
#[derive(Debug)]
pub struct ShortcutHelpPlan {
    pub main_area: Rect,
    pub table_area: Option<Rect>,
    pub title: String,
    pub cells: Vec<Vec<String>>,
    /// each column's share of the table's width, as a ratio
    pub column_widths: Vec<(u32, u32)>,
}

/// `plan` is the shortcut help for the listed bindings `entries` over `rect`,
/// given the parts `chunks` that the layout solver gave for the split of
/// `rect` into the main area and the table: the cells are the bindings cut
/// into rows of three, under the title "Shortcuts" in three equal columns;
/// the main area keeps `chunks[0]` and the table takes `chunks[1]`, or, with
/// nothing to list, the main area keeps `rect` whole.
pub open spec fn plans_shortcut_help(entries: Seq<KeymapView>, rect: Rect, chunks: Seq<Rect>, plan: ShortcutHelpPlan) -> bool {
    &&& cut_into_rows(shortcut_cells(entries), plan.cells@.map_values(|row: Vec<String>| label_views(row@)))
    &&& plan.title@ == "Shortcuts"@
    &&& plan.column_widths@ == seq![(1u32, 3u32), (1u32, 3u32), (1u32, 3u32)]
    &&& entries.len() == 0 ==> plan.main_area == rect && plan.table_area is None
    &&& entries.len() > 0 ==> plan.main_area == chunks[0] && plan.table_area == Some(chunks[1])
}

/// What the shortcut help asks the layout solver for: the main area above a
/// table seven rows high.
pub open spec fn shortcut_help_split() -> Seq<Constraint> {
    seq![Constraint::Fill(0), Constraint::Length(7)]
}

/// The bindings the shortcut help of `ui` lists, given those that start with the typed keys.
pub open spec fn listed_bindings(ui: UIState, matched: Seq<Keymap>) -> Seq<KeymapView> {
    shortcut_entries(ui.input_key_sequence@, keymap_views(matched))
}

fn assemble_shortcut_help(entries: Vec<Keymap>, rect: Rect, chunks: &[Rect]) -> (plan: ShortcutHelpPlan)
    requires
        entries@.len() > 0 ==> chunks@.len() >= 2,
    ensures
        plans_shortcut_help(keymap_views(entries@), rect, chunks@, plan),
{
    let listed = entries.len() > 0;
    let cells = cell_texts(&entries);
    let ghost cell_views = label_views(cells@);
    let ghost cell_seq = cells@;
    let rows = table_rows(cells);
    proof {
        let plain = rows@.map_values(|row: Vec<String>| row@);
        let viewed = rows@.map_values(|row: Vec<String>| label_views(row@));
        assert forall|r: int| 0 <= r < viewed.len() implies #[trigger] viewed[r] == table_row(cell_views, r) by {
            assert(plain[r] == table_row(cell_seq, r));
            assert(viewed[r] =~= table_row(cell_views, r));
        }
    }
    let title = String::from_str("Shortcuts");
    let mut column_widths: Vec<(u32, u32)> = Vec::new();
    column_widths.push((1, 3));
    column_widths.push((1, 3));
    column_widths.push((1, 3));
    assert(column_widths@ =~= seq![(1u32, 3u32), (1u32, 3u32), (1u32, 3u32)]);
    assert(keymap_views(entries@).len() == entries@.len());
    assert(cut_into_rows(shortcut_cells(keymap_views(entries@)), rows@.map_values(|row: Vec<String>| label_views(row@))));
    if !listed {
        return ShortcutHelpPlan { main_area: rect, table_area: None, title, cells: rows, column_widths };
    }
    ShortcutHelpPlan { main_area: chunks[0], table_area: Some(chunks[1]), title, cells: rows, column_widths }
}

/// The shortcut help for the keys typed so far in `ui` and the bindings
/// `matched` that start with them, given the parts `chunks` that the layout
/// solver gave for `shortcut_help_split` of `rect`: what
/// `plan_shortcut_help_popup` does once the solver has answered.
pub fn plan_shortcut_help_popup_in(ui: &UIState, matched: &Vec<Keymap>, rect: Rect, chunks: &[Rect]) -> (plan: ShortcutHelpPlan)
    requires
        ui.input_key_sequence@.len() > 0 ==> forall|i: int| 0 <= i < matched@.len() ==> #[trigger] matched@[i].key_sequence.keys@.len() >= ui.input_key_sequence.keys@.len(),
        chunks@.len() >= 2,
    ensures
        plans_shortcut_help(listed_bindings(*ui, matched@), rect, chunks@, plan),
{
    let entries = shortcut_help_entries(&ui.input_key_sequence, matched);
    assemble_shortcut_help(entries, rect, chunks)
}

/// Lays out the shortcut help for the keys typed so far in `ui`, given the
/// bindings `matched` that start with them. With some binding to list, the
/// layout solver splits `rect` by `shortcut_help_split` into the main area and,
/// below it, a table titled "Shortcuts" that lists, three to a row in equal
/// columns, each binding's remaining keys and command; with nothing to list,
/// `rect` is left whole.
pub fn plan_shortcut_help_popup(ui: &UIState, matched: &Vec<Keymap>, rect: Rect) -> (plan: ShortcutHelpPlan)
    requires
        ui.input_key_sequence@.len() > 0 ==> forall|i: int| 0 <= i < matched@.len() ==> #[trigger] matched@[i].key_sequence.keys@.len() >= ui.input_key_sequence.keys@.len(),
    ensures
        exists|chunks: Seq<Rect>| {
            &&& listed_bindings(*ui, matched@).len() > 0 ==> split_outcome(Direction::Vertical, shortcut_help_split(), rect, chunks)
            &&& #[trigger] plans_shortcut_help(listed_bindings(*ui, matched@), rect, chunks, plan)
        },
{
    let entries = shortcut_help_entries(&ui.input_key_sequence, matched);
    let chunks = if entries.len() > 0 {
        let c = split_area(Direction::Vertical, &[Constraint::Fill(0), Constraint::Length(7)], rect);
        proof {
            lemma_split_outcome(Direction::Vertical, seq![Constraint::Fill(0), Constraint::Length(7)], rect, c@);
        }
        c
    } else {
        Vec::new()
    };
    let plan = assemble_shortcut_help(entries, rect, chunks.as_slice());
    assert(plans_shortcut_help(listed_bindings(*ui, matched@), rect, chunks@, plan));
    plan
}

} // verus!
