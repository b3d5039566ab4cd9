//! Explorer lookup results: a list of collapsible sections shown as a tree,
//! and the mapping between tree cursors and visible lines.

use vstd::prelude::*;
use crate::types::LookupSection;

verus! {

/// Result of a lookup query in the Explorer Lookup sub-view.
#[derive(Debug, Clone)]
pub enum LookupResult {
    Object { sections: Vec<LookupSection> },
    Address { sections: Vec<LookupSection> },
    Transaction { sections: Vec<LookupSection> },
    NotFound(String),
}

/// Lines a section takes: its heading, plus its fields unless collapsed.
pub open spec fn section_lines(s: LookupSection) -> nat {
    if s.collapsed {
        1
    } else {
        1 + s.fields@.len()
    }
}

/// Lines taken by a run of sections.
pub open spec fn lines_of(secs: Seq<LookupSection>) -> nat
    decreases secs.len(),
{
    if secs.len() == 0 {
        0
    } else {
        lines_of(secs.drop_last()) + section_lines(secs.last())
    }
}

/// A tree cursor that points at something visible: a heading (depth 0,
/// field 0) or a field of an expanded section (depth 1).
pub open spec fn valid_cursor(secs: Seq<LookupSection>, section: nat, depth: nat, field: nat) -> bool {
    section < secs.len() && ((depth == 0 && field == 0) || (depth == 1 && !secs[section as int].collapsed
        && field < secs[section as int].fields@.len()))
}

/// `cursor_to_line`: lines above the section, then the heading or the field.
/// A section past the end maps to the line after the last one.
pub open spec fn spec_cursor_to_line(
    secs: Seq<LookupSection>,
    section: nat,
    depth: nat,
    field: nat,
) -> nat {
    if section < secs.len() {
        lines_of(secs.take(section as int)) + if depth == 0 {
            0
        } else {
            1 + field
        }
    } else {
        lines_of(secs)
    }
}

/// `line_to_cursor`: the cursor shown on a visible line.
pub open spec fn spec_line_to_cursor(secs: Seq<LookupSection>, line: nat) -> Option<
    (nat, nat, nat),
>
    decreases secs.len(),
{
    if secs.len() == 0 {
        None
    } else {
        let before = lines_of(secs.drop_last());
        let i = (secs.len() - 1) as nat;
        if line < before {
            spec_line_to_cursor(secs.drop_last(), line)
        } else if line == before {
            Some((i, 0, 0))
        } else if line < before + section_lines(secs.last()) {
            Some((i, 1, (line - before - 1) as nat))
        } else {
            None
        }
    }
}

pub proof fn lemma_lines_take_step(secs: Seq<LookupSection>, i: int)
    requires
        0 <= i < secs.len(),
    ensures
        lines_of(secs.take(i + 1)) == lines_of(secs.take(i)) + section_lines(secs[i]),
{
    assert(secs.take(i + 1).drop_last() =~= secs.take(i));
}

pub proof fn lemma_lines_take_mono(secs: Seq<LookupSection>, i: int, j: int)
    requires
        0 <= i <= j <= secs.len(),
    ensures
        lines_of(secs.take(i)) + (j - i) <= lines_of(secs.take(j)),
    decreases j - i,
{
    if i < j {
        lemma_lines_take_mono(secs, i, j - 1);
        lemma_lines_take_step(secs, j - 1);
    }
}

/// The cursors on visible lines are exactly the valid ones, each on the
/// line `cursor_to_line` gives.
pub proof fn lemma_line_to_cursor_char(secs: Seq<LookupSection>, line: nat)
    ensures
        spec_line_to_cursor(secs, line) is Some <==> line < lines_of(secs),
        spec_line_to_cursor(secs, line) matches Some(c) ==> valid_cursor(secs, c.0, c.1, c.2)
            && spec_cursor_to_line(secs, c.0, c.1, c.2) == line,
    decreases secs.len(),
{
    if secs.len() > 0 {
        let t = secs.drop_last();
        let n = secs.len() - 1;
        assert(secs.take(n) =~= t);
        lemma_line_to_cursor_char(t, line);
        if line < lines_of(t) {
            let c = spec_line_to_cursor(t, line)->0;
            assert(t.take(c.0 as int) =~= secs.take(c.0 as int));
            assert(t[c.0 as int] == secs[c.0 as int]);
        }
    }
}

/// Two valid cursors on the same line are the same cursor.
pub proof fn lemma_cursor_line_injective(
    secs: Seq<LookupSection>,
    s1: nat,
    d1: nat,
    f1: nat,
    s2: nat,
    d2: nat,
    f2: nat,
)
    requires
        valid_cursor(secs, s1, d1, f1),
        valid_cursor(secs, s2, d2, f2),
        spec_cursor_to_line(secs, s1, d1, f1) == spec_cursor_to_line(secs, s2, d2, f2),
    ensures
        s1 == s2 && d1 == d2 && f1 == f2,
{
    if s1 < s2 {
        lemma_lines_take_mono(secs, s1 + 1int, s2 as int);
        lemma_lines_take_step(secs, s1 as int);
    } else if s2 < s1 {
        lemma_lines_take_mono(secs, s2 + 1int, s1 as int);
        lemma_lines_take_step(secs, s2 as int);
    }
}

/// Going from a visible cursor to its line and back gives the cursor; going
/// from a line to its cursor and back gives the line; exactly the lines
/// before `total_visible_lines` have a cursor.
pub proof fn lemma_cursor_line_roundtrip(secs: Seq<LookupSection>, section: nat, depth: nat, field: nat, line: nat)
    ensures
        valid_cursor(secs, section, depth, field) ==> spec_line_to_cursor(
            secs,
            spec_cursor_to_line(secs, section, depth, field),
        ) == Some((section, depth, field)),
        spec_line_to_cursor(secs, line) matches Some(c) ==> spec_cursor_to_line(
            secs,
            c.0,
            c.1,
            c.2,
        ) == line,
        spec_line_to_cursor(secs, line) is Some <==> line < lines_of(secs),
{
    lemma_line_to_cursor_char(secs, line);
    if valid_cursor(secs, section, depth, field) {
        let l = spec_cursor_to_line(secs, section, depth, field);
        lemma_lines_take_mono(secs, section + 1int, secs.len() as int);
        lemma_lines_take_step(secs, section as int);
        assert(secs.take(secs.len() as int) =~= secs);
        lemma_line_to_cursor_char(secs, l);
        let c = spec_line_to_cursor(secs, l)->0;
        lemma_cursor_line_injective(secs, section, depth, field, c.0, c.1, c.2);
    }
}

impl LookupResult {
    pub open spec fn spec_sections(&self) -> Seq<LookupSection> {
        match self {
            LookupResult::Object { sections } => sections@,
            LookupResult::Address { sections } => sections@,
            LookupResult::Transaction { sections } => sections@,
            LookupResult::NotFound(_) => Seq::empty(),
        }
    }

    /// The sections of the result (none for a failed lookup).
    pub fn sections(&self) -> (r: &[LookupSection])
        ensures
            r@ == self.spec_sections(),
    {
        match self {
            LookupResult::Object { sections } => sections.as_slice(),
            LookupResult::Address { sections } => sections.as_slice(),
            LookupResult::Transaction { sections } => sections.as_slice(),
            LookupResult::NotFound(_) => &[],
        }
    }

    /// Which kind of result this is (object, address, transaction, not found).
    pub open spec fn spec_kind(&self) -> nat {
        match self {
            LookupResult::Object { .. } => 0,
            LookupResult::Address { .. } => 1,
            LookupResult::Transaction { .. } => 2,
            LookupResult::NotFound(_) => 3,
        }
    }

    /// The sections of the result, for in-place changes (such as folding).
    pub fn sections_mut(&mut self) -> (r: &mut [LookupSection])
        ensures
            r@ == old(self).spec_sections(),
            final(self).spec_kind() == old(self).spec_kind(),
            old(self).spec_kind() < 3 ==> final(self).spec_sections() == final(r)@,
            old(self).spec_kind() == 3 ==> *final(self) == *old(self),
    {
        match self {
            LookupResult::Object { sections } => sections.as_mut_slice(),
            LookupResult::Address { sections } => sections.as_mut_slice(),
            LookupResult::Transaction { sections } => sections.as_mut_slice(),
            LookupResult::NotFound(_) => &mut [],
        }
    }

    /// Total visible lines accounting for collapsed state.
    pub fn total_visible_lines(&self) -> (n: usize)
        requires
            lines_of(self.spec_sections()) <= usize::MAX,
        ensures
            n as nat == lines_of(self.spec_sections()),
    {
        let secs = self.sections();
        let mut total: usize = 0;
        let ghost sq = secs@;
        assert(sq.take(0) =~= Seq::<LookupSection>::empty());
        for i in 0..secs.len()
            invariant
                sq == secs@,
                sq == self.spec_sections(),
                lines_of(sq) <= usize::MAX,
                total as nat == lines_of(sq.take(i as int)),
        {
            proof {
                lemma_lines_take_step(sq, i as int);
                lemma_lines_take_mono(sq, i + 1, sq.len() as int);
                assert(sq.take(sq.len() as int) =~= sq);
            }
            if secs[i].collapsed {
                total = total + 1;
            } else {
                total = total + 1 + secs[i].fields.len();
            }
        }
        assert(sq.take(sq.len() as int) =~= sq);
        total
    }

    /// Convert a tree cursor (section, depth, field_idx) to a visible line index.
    pub fn cursor_to_line(&self, section: usize, depth: usize, field_idx: usize) -> (line: usize)
        requires
            spec_cursor_to_line(self.spec_sections(), section as nat, depth as nat, field_idx as nat)
                <= usize::MAX,
        ensures
            line as nat == spec_cursor_to_line(
                self.spec_sections(),
                section as nat,
                depth as nat,
                field_idx as nat,
            ),
    {
        let secs = self.sections();
        let ghost sq = secs@;
        let ghost target = spec_cursor_to_line(sq, section as nat, depth as nat, field_idx as nat);
        let mut line: usize = 0;
        assert(sq.take(0) =~= Seq::<LookupSection>::empty());
        for i in 0..secs.len()
            invariant
                sq == secs@,
                sq == self.spec_sections(),
                target == spec_cursor_to_line(sq, section as nat, depth as nat, field_idx as nat),
                target <= usize::MAX,
                i <= section || section >= sq.len(),
                line as nat == lines_of(sq.take(i as int)),
        {
            proof {
                lemma_lines_take_step(sq, i as int);
                if section < sq.len() {
                    lemma_lines_take_mono(sq, i as int, section as int);
                } else {
                    lemma_lines_take_mono(sq, i + 1, sq.len() as int);
                    assert(sq.take(sq.len() as int) =~= sq);
                }
            }
            if i == section {
                if depth == 0 {
                    return line;
                }
                return line + 1 + field_idx;
            }
            proof {
                if section < sq.len() {
                    lemma_lines_take_mono(sq, i + 1, section as int);
                }
            }
            line = line + 1;
            if !secs[i].collapsed {
                line = line + secs[i].fields.len();
            }
        }
        assert(sq.take(sq.len() as int) =~= sq);
        line
    }

    /// Convert a visible line index to a tree cursor (section, depth, field_idx).
    /// Returns None if the line is out of range.
    pub fn line_to_cursor(&self, line: usize) -> (r: Option<(usize, usize, usize)>)
        ensures
            r matches Some(c) ==> spec_line_to_cursor(self.spec_sections(), line as nat) == Some(
                (c.0 as nat, c.1 as nat, c.2 as nat),
            ),
            r is None ==> spec_line_to_cursor(self.spec_sections(), line as nat) is None,
    {
        let secs = self.sections();
        let ghost sq = secs@;
        proof {
            lemma_line_to_cursor_char(sq, line as nat);
        }
        let mut current_line: usize = 0;
        assert(sq.take(0) =~= Seq::<LookupSection>::empty());
        for si in 0..secs.len()
            invariant
                sq == secs@,
                sq == self.spec_sections(),
                current_line as nat == lines_of(sq.take(si as int)),
                current_line <= line,
        {
            proof {
                lemma_lines_take_step(sq, si as int);
            }
            if current_line == line {
                proof {
                    lemma_line_to_cursor_char(sq, line as nat);
                    let c = spec_line_to_cursor(sq, line as nat)->0;
                    lemma_lines_take_mono(sq, si + 1, sq.len() as int);
                    assert(sq.take(sq.len() as int) =~= sq);
                    lemma_cursor_line_injective(sq, si as nat, 0, 0, c.0, c.1, c.2);
                }
                return Some((si, 0, 0));
            }
            current_line = current_line + 1;
            if !secs[si].collapsed {
                let nf = secs[si].fields.len();
                for fi in 0..nf
                    invariant
                        sq == secs@,
                        sq == self.spec_sections(),
                        si < sq.len(),
                        !sq[si as int].collapsed,
                        nf == sq[si as int].fields@.len(),
                        current_line as nat == lines_of(sq.take(si as int)) + 1 + fi,
                        current_line <= line,
                {
                    if current_line == line {
                        proof {
                            lemma_line_to_cursor_char(sq, line as nat);
                            let c = spec_line_to_cursor(sq, line as nat)->0;
                            lemma_lines_take_mono(sq, si + 1, sq.len() as int);
                            lemma_lines_take_step(sq, si as int);
                            assert(sq.take(sq.len() as int) =~= sq);
                            lemma_cursor_line_injective(sq, si as nat, 1, fi as nat, c.0, c.1, c.2);
                        }
                        return Some((si, 1, fi));
                    }
                    current_line = current_line + 1;
                }
            }
        }
        proof {
            assert(sq.take(sq.len() as int) =~= sq);
        }
        None
    }

    /// Scroll offset so that the cursor line is visible.
    pub fn scroll_cursor_into_view(
        &self,
        section: usize,
        depth: usize,
        field_idx: usize,
        offset: &mut usize,
        visible_lines: usize,
    )
        requires
            spec_cursor_to_line(self.spec_sections(), section as nat, depth as nat, field_idx as nat)
                < usize::MAX,
            *old(offset) + visible_lines <= usize::MAX,
        ensures
            ({
                let target = spec_cursor_to_line(
                    self.spec_sections(),
                    section as nat,
                    depth as nat,
                    field_idx as nat,
                );
                *final(offset) == if target < *old(offset) {
                    target as int
                } else if target >= *old(offset) + visible_lines {
                    target + 1 - visible_lines
                } else {
                    *old(offset) as int
                }
            }),
    {
        let target = self.cursor_to_line(section, depth, field_idx);
        if target < *offset {
            *offset = target;
        } else if target >= *offset + visible_lines {
            *offset = target + 1 - visible_lines;
        }
    }
}

impl LookupResult {
    /// Fold (`true`) or unfold (`false`) section `i`; out-of-range indices
    /// change nothing.
    pub fn set_collapsed(&mut self, i: usize, collapsed: bool)
        ensures
            final(self).spec_kind() == old(self).spec_kind(),
            old(self).spec_kind() == 3 ==> *final(self) == *old(self),
            final(self).spec_sections() == if i < old(self).spec_sections().len() {
                old(self).spec_sections().update(
                    i as int,
                    LookupSection { collapsed, ..old(self).spec_sections()[i as int] },
                )
            } else {
                old(self).spec_sections()
            },
    {
        let secs = self.sections_mut();
        if i < secs.len() {
            secs[i].collapsed = collapsed;
        }
    }
}

} // verus!
