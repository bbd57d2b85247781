//! What holds of the operations of this layer, whatever their inputs.

use vstd::prelude::*;
use crate::commands::{answer_after, not_found_text, registry_after};
use crate::platform::{changed, joined, WindowChange, WindowState};
use crate::text::{ends_with, lemma_concat_ends_with};

verus! {

/// `part` occurs somewhere in `text`.
pub open spec fn occurs_in(part: Seq<char>, text: Seq<char>) -> bool {
    exists|at: int|
        0 <= at && at + part.len() <= text.len() && #[trigger] text.subrange(
            at,
            at + part.len(),
        ) == part
}

/// `long` is `short` with one separator behind it, where `short` has none at
/// its end: the two then name the same directory.
pub open spec fn extends_by_separator(short: Seq<char>, long: Seq<char>, separator: char) -> bool {
    short.len() > 0 && short.last() != separator && long == short.push(separator)
}

/// Two changes set the same property.
pub open spec fn same_property(first: WindowChange, second: WindowChange) -> bool {
    match (first, second) {
        (WindowChange::AlwaysOnTop(_), WindowChange::AlwaysOnTop(_)) => true,
        (WindowChange::Decorations(_), WindowChange::Decorations(_)) => true,
        (WindowChange::Shadow(_), WindowChange::Shadow(_)) => true,
        (WindowChange::Size { .. }, WindowChange::Size { .. }) => true,
        (WindowChange::Position { .. }, WindowChange::Position { .. }) => true,
        _ => false,
    }
}

/// An application's directory ends with the application's identifier,
/// whatever the base directory and the separator are.
pub proof fn law_app_dir_ends_with_identifier(
    base: Seq<char>,
    separator: char,
    identifier: Seq<char>,
)
    ensures
        ends_with(joined(base, separator, identifier), identifier),
{
    if base.len() == 0 || base.last() == separator {
        lemma_concat_ends_with(base, identifier);
    } else {
        lemma_concat_ends_with(base.push(separator), identifier);
    }
}

/// Below two base directories that differ, and not merely by a separator at
/// the end of one of them, the directories of one application differ.
pub proof fn law_app_dirs_differ(
    config_base: Seq<char>,
    data_base: Seq<char>,
    separator: char,
    identifier: Seq<char>,
)
    requires
        config_base != data_base,
        !extends_by_separator(config_base, data_base, separator),
        !extends_by_separator(data_base, config_base, separator),
    ensures
        joined(config_base, separator, identifier) != joined(data_base, separator, identifier),
{
    let config = joined(config_base, separator, identifier);
    let data = joined(data_base, separator, identifier);
    if config == data {
        let config_stem = config.subrange(0, config.len() - identifier.len());
        let data_stem = data.subrange(0, data.len() - identifier.len());
        assert(config_stem == data_stem);
        if config_base.len() == 0 || config_base.last() == separator {
            assert(config_stem =~= config_base);
        } else {
            assert(config_stem =~= config_base.push(separator));
        }
        if data_base.len() == 0 || data_base.last() == separator {
            assert(data_stem =~= data_base);
        } else {
            assert(data_stem =~= data_base.push(separator));
        }
        if config_stem == config_base.push(separator) && data_stem == data_base.push(separator) {
            assert(config_base =~= config_stem.drop_last());
            assert(data_base =~= data_stem.drop_last());
        }
        assert(false);
    }
}

/// A change asked of a label that no live window has fails with a message
/// that names the label, whatever the toolkit would have answered, and
/// leaves every window as it was.
pub proof fn law_missing_window_changes_nothing(
    windows: Map<Seq<char>, WindowState>,
    label: Seq<char>,
    change: WindowChange,
    outcome: Result<(), Seq<char>>,
)
    requires
        !windows.contains_key(label),
    ensures
        registry_after(windows, label, change, outcome) == windows,
        answer_after(windows, label, change, outcome) == Err::<(), Seq<char>>(
            not_found_text(label),
        ),
        occurs_in(label, not_found_text(label)),
{
    let message = not_found_text(label);
    let at: int = "window '"@.len() as int;
    assert(message.subrange(at, at + label.len()) =~= label);
}

/// A change asked only of one window leaves all the others as they were.
pub proof fn law_other_windows_untouched(
    windows: Map<Seq<char>, WindowState>,
    label: Seq<char>,
    other: Seq<char>,
    change: WindowChange,
    outcome: Result<(), Seq<char>>,
)
    requires
        other != label,
    ensures
        registry_after(windows, label, change, outcome).contains_key(other)
            == windows.contains_key(other),
        windows.contains_key(other) ==> registry_after(windows, label, change, outcome)[other]
            == windows[other],
{
}

/// A change that the toolkit rejects is reported as a failure and leaves
/// every window as it was.
pub proof fn law_rejected_change_changes_nothing(
    windows: Map<Seq<char>, WindowState>,
    label: Seq<char>,
    change: WindowChange,
    detail: Seq<char>,
)
    ensures
        registry_after(windows, label, change, Err(detail)) == windows,
        answer_after(windows, label, change, Err(detail)) is Err,
{
    assert(registry_after(windows, label, change, Err(detail)) =~= windows);
}

/// Asking the same change of a live window a second time, where the toolkit
/// accepts it both times, succeeds and leaves every window as it was after
/// the first time.
pub proof fn law_change_is_idempotent(
    windows: Map<Seq<char>, WindowState>,
    label: Seq<char>,
    change: WindowChange,
)
    requires
        windows.contains_key(label),
    ensures
        ({
            let once = registry_after(windows, label, change, Ok(()));
            &&& answer_after(windows, label, change, Ok(())) is Ok
            &&& answer_after(once, label, change, Ok(())) is Ok
            &&& registry_after(once, label, change, Ok(())) == once
        }),
{
    let once = registry_after(windows, label, change, Ok(()));
    assert(registry_after(once, label, change, Ok(())) =~= once);
}

/// Two changes of different properties of a window take effect in either
/// order alike.
pub proof fn law_changes_commute(state: WindowState, first: WindowChange, second: WindowChange)
    requires
        !same_property(first, second),
    ensures
        changed(changed(state, first), second) == changed(changed(state, second), first),
{
}

/// Resizing and moving a live window, in either order and with the toolkit
/// accepting both, gives the same windows: the requested size and the
/// requested position both hold.
pub proof fn law_resize_and_move_in_any_order(
    windows: Map<Seq<char>, WindowState>,
    label: Seq<char>,
    width: u32,
    height: u32,
    x: i32,
    y: i32,
)
    requires
        windows.contains_key(label),
    ensures
        ({
            let size = WindowChange::Size { width, height };
            let position = WindowChange::Position { x, y };
            let sized_first = registry_after(
                registry_after(windows, label, size, Ok(())),
                label,
                position,
                Ok(()),
            );
            let moved_first = registry_after(
                registry_after(windows, label, position, Ok(())),
                label,
                size,
                Ok(()),
            );
            &&& sized_first == moved_first
            &&& sized_first.contains_key(label)
            &&& sized_first[label].width == width
            &&& sized_first[label].height == height
            &&& sized_first[label].x == x
            &&& sized_first[label].y == y
        }),
{
    let size = WindowChange::Size { width, height };
    let position = WindowChange::Position { x, y };
    let sized_first = registry_after(
        registry_after(windows, label, size, Ok(())),
        label,
        position,
        Ok(()),
    );
    let moved_first = registry_after(
        registry_after(windows, label, position, Ok(())),
        label,
        size,
        Ok(()),
    );
    assert(sized_first =~= moved_first);
}

} // verus!
