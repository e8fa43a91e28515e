//! Properties of the pass over a file, stated over the spec functions that the
//! executable functions' contracts use.
use vstd::prelude::*;
use crate::line::{classify, content_of, LineKind};
use crate::output::{added, cell_text, SLOT_COUNT};
use crate::pipeline::{count_variable_lines, is_skipped, run, step};
use crate::text::{has_prefix, split_first_eq, trim_end, trim_start, trimmed};

verus! {

/// Running over `a` and then over `b` is running over `a + b`.
pub proof fn lemma_run_concat(cells: Seq<Option<Seq<char>>>, a: Seq<Seq<char>>, b: Seq<Seq<char>>)
    ensures
        run(cells, a + b) == (run(run(cells, a).0, b).0, run(cells, a).1 + run(run(cells, a).0, b).1),
    decreases b.len(),
{
    if b.len() == 0 {
        assert(a + b =~= a);
        assert(run(cells, a).1 + Seq::<Seq<char>>::empty() =~= run(cells, a).1);
    } else {
        lemma_run_concat(cells, a, b.drop_last());
        assert((a + b).drop_last() =~= a + b.drop_last());
        assert((a + b).last() == b.last());
        let mid = run(cells, a).0;
        let r1 = run(cells, a).1;
        let rb = run(mid, b.drop_last());
        match step(rb.0, b.last()).1 {
            Some(row) => {
                assert(r1 + rb.1.push(row) =~= (r1 + rb.1).push(row));
            },
            None => {},
        }
    }
}

/// Every variable line writes out exactly one row, whether or not it holds a
/// `=`, and no other line writes one.
pub proof fn lemma_row_count(cells: Seq<Option<Seq<char>>>, lines: Seq<Seq<char>>)
    ensures
        run(cells, lines).1.len() == count_variable_lines(lines),
    decreases lines.len(),
{
    if lines.len() > 0 {
        lemma_run_concat(cells, lines.drop_last(), seq![lines.last()]);
        lemma_row_count(cells, lines.drop_last());
    }
}

/// Adding `a` and then `b` to an unset cell leaves `a,b` in it.
pub proof fn lemma_add_twice(cells: Seq<Option<Seq<char>>>, slot: int, a: Seq<char>, b: Seq<char>)
    requires
        cells.len() == SLOT_COUNT,
        0 <= slot < SLOT_COUNT,
        cells[slot] is None,
    ensures
        cell_text(added(added(cells, slot, a), slot, b)[slot]) == a + seq![','] + b,
{
}

/// Whether `k` is one of the annotations written `# [@name=...]`.
pub open spec fn is_bracketed(k: LineKind) -> bool {
    k == LineKind::Responsible || k == LineKind::Type || k == LineKind::Secret || k
        == LineKind::Policy || k == LineKind::Docs
}

/// A line that differs from the prefix of `other` at its fifth character
/// does not start with that prefix.
proof fn lemma_prefix_mismatch(line: Seq<char>, other: LineKind)
    requires
        is_bracketed(other),
        line.len() > 4,
        line[4] != other.prefix()[4],
    ensures
        !has_prefix(line, other.prefix()),
{
    reveal_strlit("# [@responsible=");
    reveal_strlit("# [@type=");
    reveal_strlit("# [@secret=");
    reveal_strlit("# [@policy=");
    reveal_strlit("# [@docs=");
    let p = other.prefix();
    if p.len() <= line.len() {
        assert(line.subrange(0, p.len() as int)[4] != p[4]);
    }
}

/// A bracketed annotation is read as its own kind, whatever it wraps, and its
/// payload is exactly the wrapped text, white space and brackets included.
pub proof fn lemma_annotation_round_trip(k: LineKind, v: Seq<char>)
    requires
        is_bracketed(k),
    ensures
        ({
            let line = k.prefix() + v + "]"@;
            &&& trimmed(line) == line
            &&& classify(line) == k
            &&& content_of(k, line) == v
        }),
{
    reveal_strlit("# [@responsible=");
    reveal_strlit("# [@type=");
    reveal_strlit("# [@secret=");
    reveal_strlit("# [@policy=");
    reveal_strlit("# [@docs=");
    reveal_strlit("]");
    let p = k.prefix();
    let line = p + v + "]"@;
    let n = line.len();
    assert(line[0] == '#');
    assert(line[n - 1] == ']');
    assert(trim_start(line) == line);
    assert(trim_end(line) == line);
    assert(line[4] == p[4]);
    if k != LineKind::Responsible {
        lemma_prefix_mismatch(line, LineKind::Responsible);
    }
    if k != LineKind::Type {
        lemma_prefix_mismatch(line, LineKind::Type);
    }
    if k != LineKind::Secret {
        lemma_prefix_mismatch(line, LineKind::Secret);
    }
    if k != LineKind::Policy {
        lemma_prefix_mismatch(line, LineKind::Policy);
    }
    assert(line.subrange(0, p.len() as int) =~= p);
    let rest = line.subrange(p.len() as int, n as int);
    assert(rest =~= v + "]"@);
    assert(rest.subrange(rest.len() - 1, rest.len() as int) =~= "]"@);
    assert(rest.subrange(0, rest.len() - 1) =~= v);
}

/// A `type` annotation is read as such, even where a free-text comment
/// follows it, and its payload is the text inside the brackets.
pub proof fn lemma_type_annotation(p: Seq<char>)
    ensures
        ({
            let line = "# [@type="@ + p + "]"@;
            &&& classify(trimmed(line)) == LineKind::Type
            &&& content_of(LineKind::Type, trimmed(line)) == p
        }),
{
    lemma_annotation_round_trip(LineKind::Type, p);
}

/// A line is split on its first `=` only: a key without `=` comes back
/// whole, and the value keeps any further `=`.
pub proof fn lemma_split_on_first_eq(key: Seq<char>, value: Seq<char>)
    requires
        forall|i: int| 0 <= i < key.len() ==> key[i] != '=',
    ensures
        split_first_eq(key + seq!['='] + value) == Some((key, value)),
{
    let s = key + seq!['='] + value;
    let k = key.len() as int;
    assert(s[k] == '=');
    assert(forall|j: int| 0 <= j < k ==> s[j] != '=');
    let c = choose|i: int| 0 <= i < s.len() && s[i] == '=' && forall|j: int| 0 <= j < i ==> s[j] != '=';
    assert(c == k) by {
        if c < k {
            assert(s[c] == key[c]);
        }
        if c > k {
            assert(s[k] != '=');
        }
    }
    assert(s.subrange(0, k) =~= key);
    assert(s.subrange(k + 1, s.len() as int) =~= value);
}

/// An empty line or a bare `#` leaves the row being built as it was and
/// writes out nothing.
pub proof fn lemma_skipped_line_step(cells: Seq<Option<Seq<char>>>, line: Seq<char>)
    requires
        is_skipped(line),
    ensures
        step(cells, line) == (cells, None::<Seq<char>>),
{
}

/// Inserting an empty line or a bare `#` anywhere in a file changes neither
/// the rows written out nor the row left unfinished.
pub proof fn lemma_skipped_line_run(
    cells: Seq<Option<Seq<char>>>,
    a: Seq<Seq<char>>,
    line: Seq<char>,
    b: Seq<Seq<char>>,
)
    requires
        is_skipped(line),
    ensures
        run(cells, a + seq![line] + b) == run(cells, a + b),
{
    let a1 = a + seq![line];
    assert(a1.drop_last() =~= a);
    assert(a1.last() == line);
    assert(run(cells, a1) == run(cells, a));
    lemma_run_concat(cells, a1, b);
    lemma_run_concat(cells, a, b);
}

} // verus!
