//! The text of the help table: for each group of actions, the keys bound to
//! them in the current mode.
use vstd::prelude::*;
use vstd::string::StringExecFns;

verus! {

/// An action that a key can be bound to, of those that the help table lists.
#[derive(Clone, Copy, Debug, PartialEq, Eq, Structural, Hash)]
pub enum Action {
    SelectPrevEntry,
    SelectNextEntry,
    ScrollPreviewHalfPageUp,
    ScrollPreviewHalfPageDown,
    SelectEntry,
    SendToChannel,
    ToggleChannelSelection,
    Quit,
}

/// The mode the interface is in, which decides the key bindings and the help
/// table shown.
#[derive(Clone, Copy, Debug, PartialEq, Eq, Structural, Hash)]
pub enum Mode {
    Channel,
    Guide,
    SendToChannel,
}

/// The names of the keys that `keymap` binds to `action`, in the order of
/// the bindings. A binding is the name of a key and the action it triggers.
pub open spec fn keys_bound_to(keymap: Seq<(String, Action)>, action: Action) -> Seq<Seq<char>>
    decreases keymap.len(),
{
    if keymap.len() == 0 {
        Seq::empty()
    } else {
        let rest = keys_bound_to(keymap.drop_last(), action);
        if keymap.last().1 == action {
            rest.push(keymap.last().0@)
        } else {
            rest
        }
    }
}

/// The names of the keys bound to `action`, in the order of the bindings.
pub fn keys_for_action(keymap: &Vec<(String, Action)>, action: &Action) -> (r: Vec<String>)
    ensures
        r@.map_values(|k: String| k@) == keys_bound_to(keymap@, *action),
{
    let mut keys: Vec<String> = Vec::new();
    let mut i: usize = 0;
    while i < keymap.len()
        invariant
            i <= keymap@.len(),
            keys@.map_values(|k: String| k@) == keys_bound_to(keymap@.take(i as int), *action),
        decreases keymap@.len() - i,
    {
        assert(keymap@.take(i as int + 1).drop_last() == keymap@.take(i as int));
        if keymap[i].1 == *action {
            keys.push(keymap[i].0.clone());
        }
        assert(keys@.map_values(|k: String| k@) =~= keys_bound_to(keymap@.take(i as int + 1), *action));
        i = i + 1;
    }
    assert(keymap@.take(keymap@.len() as int) == keymap@);
    keys
}

/// `pieces` written one after another with `sep` between each two.
pub open spec fn joined(pieces: Seq<Seq<char>>, sep: Seq<char>) -> Seq<char>
    decreases pieces.len(),
{
    if pieces.len() == 0 {
        Seq::empty()
    } else if pieces.len() == 1 {
        pieces[0]
    } else {
        joined(pieces.drop_last(), sep) + sep + pieces.last()
    }
}

/// `pieces` with `sep` inserted as a piece of its own between each two.
pub open spec fn separated(pieces: Seq<Seq<char>>, sep: Seq<char>) -> Seq<Seq<char>>
    decreases pieces.len(),
{
    if pieces.len() <= 1 {
        pieces
    } else {
        separated(pieces.drop_last(), sep).push(sep).push(pieces.last())
    }
}

/// The groups that hold at least one key, each written as its keys joined by
/// a comma, in the order of `groups`.
pub open spec fn bound_group_texts(groups: Seq<Seq<Seq<char>>>) -> Seq<Seq<char>>
    decreases groups.len(),
{
    if groups.len() == 0 {
        Seq::empty()
    } else {
        let rest = bound_group_texts(groups.drop_last());
        if groups.last().len() > 0 {
            rest.push(joined(groups.last(), ", "@))
        } else {
            rest
        }
    }
}

/// The two cells of one row of the help table, as text.
pub struct HelpRow {
    /// The first cell: the name of the group of actions, followed by ": "
    /// when some key is bound.
    pub label: String,
    /// The pieces of the second cell, in order.
    pub keys: Vec<String>,
    /// Whether some key is bound: the cells are then styled as action and
    /// keys.
    pub bound: bool,
}

/// The row for `name` over `groups`, each group holding the keys bound to
/// one action: with no key bound anywhere, the plain name and a note that no
/// key is bound; else the name with a colon, and the key groups that are not
/// empty, each with its keys joined by ", ", separated by " / ".
pub open spec fn help_row_of(name: Seq<char>, groups: Seq<Seq<Seq<char>>>) -> (Seq<char>, Seq<Seq<char>>, bool) {
    let texts = bound_group_texts(groups);
    if texts.len() == 0 {
        (name, seq!["No keybindings"@], false)
    } else {
        (name + ": "@, separated(texts, " / "@), true)
    }
}

/// The text of a row, as `help_row_of` states it.
pub open spec fn row_text(row: HelpRow) -> (Seq<char>, Seq<Seq<char>>, bool) {
    (row.label@, row.keys@.map_values(|k: String| k@), row.bound)
}

/// The keys of one group joined by ", ".
fn join_keys(keys: &Vec<String>) -> (r: String)
    ensures
        r@ == joined(keys.deep_view(), ", "@),
{
    let mut text = String::new();
    let mut j: usize = 0;
    while j < keys.len()
        invariant
            j <= keys@.len(),
            text@ == joined(keys.deep_view().take(j as int), ", "@),
        decreases keys@.len() - j,
    {
        let ghost prefix = keys.deep_view().take(j as int + 1);
        assert(prefix.drop_last() =~= keys.deep_view().take(j as int));
        if j > 0 {
            text.append(", ");
        }
        text.append(keys[j].as_str());
        j = j + 1;
    }
    assert(keys.deep_view().take(keys@.len() as int) =~= keys.deep_view());
    text
}

/// The row of the help table for the group `group_name`, from the keys bound
/// to each of its actions.
pub fn build_cells_for_key_groups(group_name: &str, key_groups: &Vec<Vec<String>>) -> (r: HelpRow)
    ensures
        row_text(r) == help_row_of(group_name@, key_groups.deep_view()),
{
    let mut spans: Vec<String> = Vec::new();
    let ghost mut texts: Seq<Seq<char>> = Seq::empty();
    let mut i: usize = 0;
    while i < key_groups.len()
        invariant
            i <= key_groups@.len(),
            texts == bound_group_texts(key_groups.deep_view().take(i as int)),
            spans@.map_values(|k: String| k@) == separated(texts, " / "@),
            spans@.len() == 0 <==> texts.len() == 0,
        decreases key_groups@.len() - i,
    {
        let ghost prefix = key_groups.deep_view().take(i as int + 1);
        assert(prefix.drop_last() =~= key_groups.deep_view().take(i as int));
        if key_groups[i].len() > 0 {
            let text = join_keys(&key_groups[i]);
            if spans.len() > 0 {
                spans.push(String::from_str(" / "));
            }
            spans.push(text);
            proof {
                let old_texts = texts;
                texts = texts.push(text@);
                assert(texts.drop_last() =~= old_texts);
            }
            assert(spans@.map_values(|k: String| k@) =~= separated(texts, " / "@));
        }
        i = i + 1;
    }
    assert(key_groups.deep_view().take(key_groups@.len() as int) =~= key_groups.deep_view());
    if spans.len() == 0 {
        let mut keys: Vec<String> = Vec::new();
        keys.push(String::from_str("No keybindings"));
        assert(keys@.map_values(|k: String| k@) =~= seq!["No keybindings"@]);
        HelpRow { label: String::from_str(group_name), keys, bound: false }
    } else {
        let mut label = String::from_str(group_name);
        label.append(": ");
        HelpRow { label, keys: spans, bound: true }
    }
}

/// The key groups of `actions`: for each, the keys that `keymap` binds to it.
pub open spec fn key_groups_of(keymap: Seq<(String, Action)>, actions: Seq<Action>) -> Seq<Seq<Seq<char>>> {
    actions.map_values(|a: Action| keys_bound_to(keymap, a))
}

/// The row for the group `name` made of `actions`.
pub open spec fn action_row(name: Seq<char>, keymap: Seq<(String, Action)>, actions: Seq<Action>) -> (Seq<char>, Seq<Seq<char>>, bool) {
    help_row_of(name, key_groups_of(keymap, actions))
}

/// The help table of the channel modes, row by row.
pub open spec fn channel_help(keymap: Seq<(String, Action)>) -> Seq<(Seq<char>, Seq<Seq<char>>, bool)> {
    seq![
        action_row("↕ Results navigation"@, keymap, seq![Action::SelectPrevEntry, Action::SelectNextEntry]),
        action_row("↕ Preview navigation"@, keymap, seq![Action::ScrollPreviewHalfPageUp, Action::ScrollPreviewHalfPageDown]),
        action_row("✓ Select entry"@, keymap, seq![Action::SelectEntry]),
        action_row("⇉ Send results to"@, keymap, seq![Action::SendToChannel]),
        action_row("⨀ Switch channels"@, keymap, seq![Action::ToggleChannelSelection]),
        action_row("⏼ Quit"@, keymap, seq![Action::Quit]),
    ]
}

/// The help table of the channel selection mode, row by row.
pub open spec fn channel_selection_help(keymap: Seq<(String, Action)>) -> Seq<(Seq<char>, Seq<Seq<char>>, bool)> {
    seq![
        action_row("↕ Results"@, keymap, seq![Action::SelectPrevEntry, Action::SelectNextEntry]),
        action_row("Select entry"@, keymap, seq![Action::SelectEntry]),
        action_row("Switch channels"@, keymap, seq![Action::ToggleChannelSelection]),
        action_row("Quit"@, keymap, seq![Action::Quit]),
    ]
}

/// The help table shown in `mode`, row by row.
pub open spec fn help_for_mode(mode: Mode, keymap: Seq<(String, Action)>) -> Seq<(Seq<char>, Seq<Seq<char>>, bool)> {
    match mode {
        Mode::Guide => channel_selection_help(keymap),
        _ => channel_help(keymap),
    }
}

/// The text of each row of `rows`.
pub open spec fn rows_text(rows: Seq<HelpRow>) -> Seq<(Seq<char>, Seq<Seq<char>>, bool)> {
    rows.map_values(|row: HelpRow| row_text(row))
}

/// The row for the group `name`, made of the keys bound to each of `actions`.
fn action_row_of(name: &str, keymap: &Vec<(String, Action)>, actions: &Vec<Action>) -> (r: HelpRow)
    ensures
        row_text(r) == action_row(name@, keymap@, actions@),
{
    let mut groups: Vec<Vec<String>> = Vec::new();
    let mut i: usize = 0;
    while i < actions.len()
        invariant
            i <= actions@.len(),
            groups@.len() == i,
            groups.deep_view() == key_groups_of(keymap@, actions@.take(i as int)),
        decreases actions@.len() - i,
    {
        let keys = keys_for_action(keymap, &actions[i]);
        assert(keys.deep_view() =~= keys@.map_values(|k: String| k@));
        let ghost before = groups.deep_view();
        groups.push(keys);
        assert(groups.deep_view() =~= before.push(keys.deep_view()));
        assert(groups.deep_view() =~= key_groups_of(keymap@, actions@.take(i as int + 1)));
        i = i + 1;
    }
    assert(actions@.take(actions@.len() as int) =~= actions@);
    build_cells_for_key_groups(name, &groups)
}

/// The row for the group `name`, made of the keys bound to `action`.
fn single_action_row(name: &str, keymap: &Vec<(String, Action)>, action: Action) -> (r: HelpRow)
    ensures
        row_text(r) == action_row(name@, keymap@, seq![action]),
{
    let actions = vec![action];
    assert(actions@ == seq![action]);
    action_row_of(name, keymap, &actions)
}

/// The row for the group `name`, made of the keys bound to `first` and
/// then those bound to `second`.
fn pair_action_row(name: &str, keymap: &Vec<(String, Action)>, first: Action, second: Action) -> (r: HelpRow)
    ensures
        row_text(r) == action_row(name@, keymap@, seq![first, second]),
{
    let actions = vec![first, second];
    assert(actions@ == seq![first, second]);
    action_row_of(name, keymap, &actions)
}

/// The help table of the channel modes.
pub fn build_help_table_for_channel(keymap: &Vec<(String, Action)>) -> (r: Vec<HelpRow>)
    ensures
        rows_text(r@) == channel_help(keymap@),
{
    let results = pair_action_row("↕ Results navigation", keymap, Action::SelectPrevEntry, Action::SelectNextEntry);
    let preview = pair_action_row(
        "↕ Preview navigation",
        keymap,
        Action::ScrollPreviewHalfPageUp,
        Action::ScrollPreviewHalfPageDown,
    );
    let select_entry = single_action_row("✓ Select entry", keymap, Action::SelectEntry);
    let send_to_channel = single_action_row("⇉ Send results to", keymap, Action::SendToChannel);
    let switch_channels = single_action_row("⨀ Switch channels", keymap, Action::ToggleChannelSelection);
    let quit = single_action_row("⏼ Quit", keymap, Action::Quit);
    let rows = vec![results, preview, select_entry, send_to_channel, switch_channels, quit];
    assert(rows@ == seq![results, preview, select_entry, send_to_channel, switch_channels, quit]);
    assert(rows_text(rows@) =~= channel_help(keymap@));
    rows
}

/// The help table of the channel selection mode.
pub fn build_help_table_for_channel_selection(keymap: &Vec<(String, Action)>) -> (r: Vec<HelpRow>)
    ensures
        rows_text(r@) == channel_selection_help(keymap@),
{
    let results = pair_action_row("↕ Results", keymap, Action::SelectPrevEntry, Action::SelectNextEntry);
    let select_entry = single_action_row("Select entry", keymap, Action::SelectEntry);
    let switch_channels = single_action_row("Switch channels", keymap, Action::ToggleChannelSelection);
    let quit = single_action_row("Quit", keymap, Action::Quit);
    let rows = vec![results, select_entry, switch_channels, quit];
    assert(rows@ == seq![results, select_entry, switch_channels, quit]);
    assert(rows_text(rows@) =~= channel_selection_help(keymap@));
    rows
}

/// The help table shown in `mode`, from the key bindings of that mode.
pub fn help_rows(mode: Mode, keymap: &Vec<(String, Action)>) -> (r: Vec<HelpRow>)
    ensures
        rows_text(r@) == help_for_mode(mode, keymap@),
{
    match mode {
        Mode::Channel => build_help_table_for_channel(keymap),
        Mode::Guide => build_help_table_for_channel_selection(keymap),
        Mode::SendToChannel => build_help_table_for_channel(keymap),
    }
}

} // verus!
