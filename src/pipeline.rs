//! The pass over the lines of a file: annotations fill the row being built,
//! and each variable line completes it, writes it out and starts a new one.
use vstd::prelude::*;
use crate::laws::lemma_row_count;
use crate::line::{classify, content_of, Line, LineKind};
use crate::output::{added, empty_cells, render_row, FieldKind, Output};
use crate::text::{split_first_eq, split_once_eq, trimmed};

verus! {

/// Whether a line is passed over: it is empty once trimmed, or a bare `#`.
pub open spec fn is_skipped(line: Seq<char>) -> bool {
    let t = trimmed(line);
    t.len() == 0 || t == seq!['#']
}

/// The column that an annotation of kind `k` fills.
pub open spec fn slot_of(k: LineKind) -> int {
    match k {
        LineKind::EnvVariable => 0,
        LineKind::Responsible => 1,
        LineKind::Type => 2,
        LineKind::Secret => 3,
        LineKind::Policy => 4,
        LineKind::Description => 6,
        LineKind::Docs => 7,
    }
}

/// The row `cells` once the variable line with payload `c` is added: its key
/// and default value where `c` holds a `=`, nothing otherwise.
pub open spec fn with_variable(cells: Seq<Option<Seq<char>>>, c: Seq<char>) -> Seq<
    Option<Seq<char>>,
> {
    match split_first_eq(c) {
        Some((key, value)) => added(added(cells, 0, key), 5, value),
        None => cells,
    }
}

/// The row being built and the row written out, if any, after one more line.
pub open spec fn step(cells: Seq<Option<Seq<char>>>, line: Seq<char>) -> (
    Seq<Option<Seq<char>>>,
    Option<Seq<char>>,
) {
    if is_skipped(line) {
        (cells, None)
    } else {
        let t = trimmed(line);
        let k = classify(t);
        let c = content_of(k, t);
        if k == LineKind::EnvVariable {
            (empty_cells(), Some(render_row(with_variable(cells, c))))
        } else {
            (added(cells, slot_of(k), c), None)
        }
    }
}

/// The row being built and the rows written out after `lines`, from `cells`.
pub open spec fn run(cells: Seq<Option<Seq<char>>>, lines: Seq<Seq<char>>) -> (
    Seq<Option<Seq<char>>>,
    Seq<Seq<char>>,
)
    decreases lines.len(),
{
    if lines.len() == 0 {
        (cells, Seq::empty())
    } else {
        let before = run(cells, lines.drop_last());
        let after = step(before.0, lines.last());
        match after.1 {
            Some(row) => (after.0, before.1.push(row)),
            None => (after.0, before.1),
        }
    }
}

/// The number of lines of `lines` that are read as variable lines.
pub open spec fn count_variable_lines(lines: Seq<Seq<char>>) -> nat
    decreases lines.len(),
{
    if lines.len() == 0 {
        0
    } else {
        let l = lines.last();
        count_variable_lines(lines.drop_last()) + if !is_skipped(l) && classify(trimmed(l))
            == LineKind::EnvVariable {
            1nat
        } else {
            0nat
        }
    }
}

pub open spec fn lines_view(lines: Seq<String>) -> Seq<Seq<char>> {
    lines.map_values(|l: String| l@)
}

impl Output {
    /// Takes the next line of the file. An annotation is added to its cell;
    /// a variable line adds its key and default value where it holds a `=`,
    /// and then the row is returned and every cell unset.
    pub fn process_line(&mut self, line: String) -> (r: Option<String>)
        requires
            old(self).wf(),
        ensures
            final(self).wf(),
            step(old(self)@, line@) == (final(self)@, match r {
                Some(row) => Some(row@),
                None => None,
            }),
    {
        let l = Line::new(line);
        let n = l.data.unicode_len();
        if n == 0 {
            return None;
        }
        if n == 1 && l.data.as_str().get_char(0) == '#' {
            assert(l.data@ =~= seq!['#']);
            return None;
        }
        assert(l.data@ != seq!['#']);
        let content = l.extract_content();
        match l.kind {
            LineKind::EnvVariable => {
                match split_once_eq(content.as_str()) {
                    Some((key, value)) => {
                        self.add_at(u8::from(FieldKind::EnvVariable), key);
                        self.add_at(u8::from(FieldKind::DefaultValue), value);
                    },
                    None => {},
                }
                let row = self.as_string();
                self.clear();
                Some(row)
            },
            LineKind::Responsible => {
                self.add_at(u8::from(FieldKind::Responsible), content);
                None
            },
            LineKind::Type => {
                self.add_at(u8::from(FieldKind::Type), content);
                None
            },
            LineKind::Secret => {
                self.add_at(u8::from(FieldKind::Secret), content);
                None
            },
            LineKind::Policy => {
                self.add_at(u8::from(FieldKind::Policy), content);
                None
            },
            LineKind::Description => {
                self.add_at(u8::from(FieldKind::Description), content);
                None
            },
            LineKind::Docs => {
                self.add_at(u8::from(FieldKind::Docs), content);
                None
            },
        }
    }
}

/// The rows of the table for the lines of a file, in order.
pub fn env_rows(lines: &Vec<String>) -> (rows: Vec<String>)
    ensures
        rows@.map_values(|r: String| r@) == run(empty_cells(), lines_view(lines@)).1,
        rows@.len() == count_variable_lines(lines_view(lines@)),
{
    let mut output = Output::new();
    let mut rows: Vec<String> = Vec::new();
    let mut i: usize = 0;
    while i < lines.len()
        invariant
            i <= lines@.len(),
            output.wf(),
            run(empty_cells(), lines_view(lines@).take(i as int)) == (output@, rows@.map_values(
                |r: String| r@,
            )),
        decreases lines@.len() - i,
    {
        let ghost prefix = lines_view(lines@).take(i as int);
        let ghost next = lines_view(lines@).take(i + 1);
        assert(next.drop_last() =~= prefix);
        assert(next.last() == lines@[i as int]@);
        let r = output.process_line(lines[i].clone());
        match r {
            Some(row) => {
                rows.push(row);
            },
            None => {},
        }
        assert(rows@.map_values(|r: String| r@) =~= run(empty_cells(), next).1);
        i = i + 1;
    }
    assert(lines_view(lines@).take(lines@.len() as int) =~= lines_view(lines@));
    proof {
        lemma_row_count(empty_cells(), lines_view(lines@));
        assert(rows@.len() == rows@.map_values(|r: String| r@).len());
    }
    rows
}

} // verus!
