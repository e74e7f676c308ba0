//! A multi-select list: entries with a checked flag, a cursor over them, and
//! the batch of checked entries for the caller to apply.
use vstd::prelude::*;
use crate::cursor::{cursor_valid, wrap_cursor, wrapped};

verus! {

/// One selectable row of a multi-select list (a package, an app, a file).
#[derive(Debug, Clone)]
pub struct CheckboxItem {
    pub name: String,
    pub description: String,
    pub version: String,
    pub checked: bool,
}

/// The entry with its checked flag flipped and everything else kept.
pub open spec fn flipped(e: CheckboxItem) -> CheckboxItem {
    CheckboxItem { checked: !e.checked, ..e }
}

/// The entries with the one at `i` flipped; unchanged when `i` is out of range.
pub open spec fn toggled_at(s: Seq<CheckboxItem>, i: int) -> Seq<CheckboxItem> {
    if 0 <= i < s.len() {
        s.update(i, flipped(s[i]))
    } else {
        s
    }
}

/// The checked entries, in the order in which they stand.
pub open spec fn checked_of(s: Seq<CheckboxItem>) -> Seq<CheckboxItem>
    decreases s.len(),
{
    if s.len() == 0 {
        seq![]
    } else if s.last().checked {
        checked_of(s.drop_last()).push(s.last())
    } else {
        checked_of(s.drop_last())
    }
}

/// The positions of the checked entries, in increasing order.
pub open spec fn checked_indices(s: Seq<CheckboxItem>) -> Seq<int>
    decreases s.len(),
{
    if s.len() == 0 {
        seq![]
    } else if s.last().checked {
        checked_indices(s.drop_last()).push(s.len() - 1)
    } else {
        checked_indices(s.drop_last())
    }
}

/// `s` cut to `max_len` characters: kept whole when it fits, else its first
/// `max_len - 3` characters (none when `max_len < 3`) followed by `...`.
pub open spec fn truncated(s: Seq<char>, max_len: int) -> Seq<char> {
    if s.len() <= max_len {
        s
    } else {
        s.subrange(0, if max_len >= 3 { max_len - 3 } else { 0 }) + "..."@
    }
}

/// `s` padded with spaces on the right to at least `width` characters.
pub open spec fn padded(s: Seq<char>, width: int) -> Seq<char> {
    if s.len() >= width {
        s
    } else {
        s + Seq::new((width - s.len()) as nat, |_i: int| ' ')
    }
}

/// The checkbox mark of a row.
pub open spec fn mark_of(checked: bool) -> Seq<char> {
    if checked {
        "[X]"@
    } else {
        "[ ]"@
    }
}

/// The text of a row: mark, name in a column of 30, version in a column of 10,
/// and the description cut to 40 characters.
pub open spec fn row_of(e: CheckboxItem) -> Seq<char> {
    mark_of(e.checked) + " "@ + padded(truncated(e.name@, 30), 30) + " "@ + padded(e.version@, 10)
        + " "@ + truncated(e.description@, 40)
}

/// Cuts `s` to at most `max_len` characters (at least three when cut), marking
/// a cut with `...`. Lengths count characters, so a cut never splits one.
pub fn truncate(s: &str, max_len: usize) -> (r: String)
    ensures
        r@ == truncated(s@, max_len as int),
{
    let n: usize = s.unicode_len();
    if n <= max_len {
        String::from_str(s)
    } else {
        let keep: usize = if max_len >= 3 { max_len - 3 } else { 0 };
        let mut r = String::from_str(s.substring_char(0, keep));
        r.append("...");
        r
    }
}

/// Pads `s` with spaces on the right to at least `width` characters.
fn pad_right(s: String, width: usize) -> (r: String)
    ensures
        r@ == padded(s@, width as int),
{
    let len: usize = s.unicode_len();
    let mut r = s;
    if len >= width {
        return r;
    }
    let mut k: usize = len;
    proof {
        reveal_strlit(" ");
        assert(r@ =~= s@ + Seq::new((k - len) as nat, |_i: int| ' '));
    }
    while k < width
        invariant
            len <= k <= width,
            len == s@.len(),
            r@ == s@ + Seq::new((k - len) as nat, |_i: int| ' '),
        decreases width - k,
    {
        r.append(" ");
        proof {
            reveal_strlit(" ");
        }
        k = k + 1;
        assert(r@ =~= s@ + Seq::new((k - len) as nat, |_i: int| ' '));
    }
    r
}

impl CheckboxItem {
    /// A new, unchecked entry.
    pub fn new(name: String, description: String, version: String) -> (r: Self)
        ensures
            r.name == name,
            r.description == description,
            r.version == version,
            !r.checked,
    {
        CheckboxItem { name, description, version, checked: false }
    }

    /// Flips the checked flag.
    pub fn toggle(&mut self)
        ensures
            *final(self) == flipped(*old(self)),
    {
        self.checked = !self.checked;
    }

    /// The text of this entry's row in the list.
    pub fn row_text(&self) -> (r: String)
        ensures
            r@ == row_of(*self),
    {
        let mut r = if self.checked {
            String::from_str("[X]")
        } else {
            String::from_str("[ ]")
        };
        r.append(" ");
        let name = pad_right(truncate(self.name.as_str(), 30), 30);
        r.append(name.as_str());
        r.append(" ");
        let version = pad_right(self.version.clone(), 10);
        r.append(version.as_str());
        r.append(" ");
        let description = truncate(self.description.as_str(), 40);
        r.append(description.as_str());
        r
    }
}

/// A multi-select list of entries with a cursor.
pub struct CheckboxList {
    pub items: Vec<CheckboxItem>,
    pub selected: usize,
}

impl CheckboxList {
    /// The cursor points at an entry, or is `0` when there is none.
    pub open spec fn wf(&self) -> bool {
        cursor_valid(self.selected as int, self.items@.len() as int)
    }

    /// A list of the given entries with the cursor on the first.
    pub fn new(items: Vec<CheckboxItem>) -> (r: Self)
        ensures
            r.items@ == items@,
            r.selected == 0,
            r.wf(),
    {
        CheckboxList { items, selected: 0 }
    }

    /// Flips the entry under the cursor; a no-op on an empty list. The cursor stays.
    pub fn toggle_selected(&mut self)
        ensures
            final(self).items@ == toggled_at(old(self).items@, old(self).selected as int),
            final(self).selected == old(self).selected,
    {
        if self.selected < self.items.len() {
            let i: usize = self.selected;
            self.items[i].toggle();
        }
    }

    /// Moves the cursor by `delta`, wrapping around; a no-op on an empty list.
    pub fn move_selection(&mut self, delta: isize)
        ensures
            final(self).items@ == old(self).items@,
            final(self).selected == wrapped(old(self).selected as int, delta as int, old(self).items@.len() as int),
            old(self).items@.len() > 0 ==> final(self).wf(),
            old(self).wf() ==> final(self).wf(),
    {
        let n: usize = self.items.len();
        if n == 0 {
            return;
        }
        self.selected = wrap_cursor(self.selected, delta, n);
    }

    /// The checked entries, in list order.
    pub fn get_checked_items(&self) -> (r: Vec<&CheckboxItem>)
        ensures
            r@.len() == checked_of(self.items@).len(),
            forall|k: int| 0 <= k < r@.len() ==> *r@[k] == checked_of(self.items@)[k],
    {
        let mut r: Vec<&CheckboxItem> = Vec::new();
        let mut i: usize = 0;
        while i < self.items.len()
            invariant
                i <= self.items@.len(),
                r@.len() == checked_of(self.items@.subrange(0, i as int)).len(),
                forall|k: int|
                    0 <= k < r@.len() ==> *r@[k] == checked_of(self.items@.subrange(0, i as int))[k],
            decreases self.items@.len() - i,
        {
            let item = &self.items[i];
            assert(self.items@.subrange(0, i + 1).drop_last() =~= self.items@.subrange(0, i as int));
            if item.checked {
                r.push(item);
            }
            i = i + 1;
        }
        assert(self.items@.subrange(0, self.items@.len() as int) =~= self.items@);
        r
    }
}

/// Toggling the same position twice gives back the entries as they were.
pub proof fn lemma_toggle_twice_restores(s: Seq<CheckboxItem>, i: int)
    ensures
        toggled_at(toggled_at(s, i), i) == s,
{
    if 0 <= i < s.len() {
        assert(toggled_at(toggled_at(s, i), i) =~= s);
    }
}

/// The checked entries are exactly the entries whose flag is set, each taken
/// once, in the order in which they stand in the list.
pub proof fn lemma_checked_entries_in_order(s: Seq<CheckboxItem>)
    ensures
        checked_indices(s).len() == checked_of(s).len(),
        forall|k: int|
            0 <= k < checked_indices(s).len() ==> {
                &&& 0 <= #[trigger] checked_indices(s)[k] < s.len()
                &&& s[checked_indices(s)[k]].checked
                &&& checked_of(s)[k] == s[checked_indices(s)[k]]
            },
        forall|k1: int, k2: int|
            0 <= k1 < k2 < checked_indices(s).len() ==> checked_indices(s)[k1] < checked_indices(s)[k2],
        forall|i: int|
            0 <= i < s.len() && #[trigger] s[i].checked ==> exists|k: int|
                0 <= k < checked_indices(s).len() && checked_indices(s)[k] == i,
    decreases s.len(),
{
    if s.len() > 0 {
        let p = s.drop_last();
        lemma_checked_entries_in_order(p);
        let n = s.len() - 1;
        assert forall|i: int| 0 <= i < s.len() && #[trigger] s[i].checked implies exists|k: int|
            0 <= k < checked_indices(s).len() && checked_indices(s)[k] == i by {
            if i < n {
                assert(p[i] == s[i]);
                let k = choose|k: int| 0 <= k < checked_indices(p).len() && checked_indices(p)[k] == i;
                assert(checked_indices(s)[k] == i);
            } else {
                assert(checked_indices(s)[checked_indices(s).len() - 1] == i);
            }
        }
    }
}

} // verus!
