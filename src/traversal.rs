//! The recursive tree listing. Expanding a pattern reads the filesystem, so
//! the caller expands patterns; this module decides, for the entries of one
//! expansion, which lines are shown and which directories are expanded next.
use vstd::prelude::*;

use crate::entry::{is_hidden_file, shown, visible, Entry};
use crate::formatter::{file_text, format_file};
use crate::options::CommandOptions;

verus! {

/// How deep the tree listing descends.
pub const MAX_DEPTH: u16 = 3;

/// One step of the tree listing, in output order.
pub enum WalkStep {
    /// Print this text.
    Line(String),
    /// Expand this pattern at this depth, and list what it gives here.
    Descend(String, u16),
}

/// The meaning of a [`WalkStep`].
pub enum StepView {
    Line(Seq<char>),
    Descend(Seq<char>, nat),
}

impl View for WalkStep {
    type V = StepView;

    open spec fn view(&self) -> StepView {
        match self {
            WalkStep::Line(s) => StepView::Line(s@),
            WalkStep::Descend(p, d) => StepView::Descend(p@, *d as nat),
        }
    }
}

/// `n` levels of plain indentation.
pub open spec fn indent(n: nat) -> Seq<char>
    decreases n,
{
    if n == 0 {
        Seq::empty()
    } else {
        indent((n - 1) as nat) + "  "@
    }
}

/// The prefix of a line at `depth`: plain indentation, the innermost level marked.
pub open spec fn spacer(depth: nat) -> Seq<char> {
    if depth == 0 {
        Seq::empty()
    } else {
        indent((depth - 1) as nat) + " \u{203a}"@
    }
}

/// The steps for one shown entry at `depth`: its line, then the expansion of
/// its contents where it is a directory and the next depth is below the cap.
pub open spec fn entry_steps(e: Entry, depth: nat, max_depth: nat) -> Seq<StepView> {
    let line = StepView::Line(spacer(depth) + file_text(e.name@, e.is_dir) + "\n"@);
    if e.is_dir && depth + 1 < max_depth {
        seq![line, StepView::Descend(e.path@ + "/*"@, depth + 1)]
    } else {
        seq![line]
    }
}

/// The steps for the shown entries `vis`, in order.
pub open spec fn plan(vis: Seq<Entry>, depth: nat, max_depth: nat) -> Seq<StepView>
    decreases vis.len(),
{
    if vis.len() == 0 {
        Seq::empty()
    } else {
        plan(vis.drop_last(), depth, max_depth) + entry_steps(vis.last(), depth, max_depth)
    }
}

/// The steps for the entries of one expansion at `depth`: nothing at or past the cap.
pub open spec fn walk_plan(entries: Seq<Entry>, depth: nat, max_depth: nat, show_hidden: bool) -> Seq<
    StepView,
> {
    if depth >= max_depth {
        Seq::empty()
    } else {
        plan(visible(entries, show_hidden), depth, max_depth)
    }
}

fn make_spacer(depth: u16) -> (r: String)
    ensures
        r@ == spacer(depth as nat),
{
    let mut out = String::new();
    if depth == 0 {
        return out;
    }
    let mut n: u16 = 0;
    while n < depth - 1
        invariant
            0 < depth,
            n <= depth - 1,
            out@ == indent(n as nat),
        decreases depth - 1 - n,
    {
        out.append("  ");
        n = n + 1;
    }
    out.append(" \u{203a}");
    out
}

/// Plans the tree listing of the entries that one expansion gave at `level`.
pub fn format_files_recursive(
    entries: &Vec<Entry>,
    level: u16,
    max_depth: u16,
    opts: &CommandOptions,
) -> (r: Vec<WalkStep>)
    ensures
        r@.map_values(|s: WalkStep| s@) == walk_plan(
            entries@,
            level as nat,
            max_depth as nat,
            opts.show_hidden,
        ),
{
    let mut steps: Vec<WalkStep> = Vec::new();
    if level >= max_depth {
        assert(steps@.map_values(|s: WalkStep| s@) =~= Seq::<StepView>::empty());
        return steps;
    }
    let prefix = make_spacer(level);
    let mut i: usize = 0;
    assert(entries@.take(0) =~= Seq::<Entry>::empty());
    assert(steps@.map_values(|s: WalkStep| s@) =~= Seq::<StepView>::empty());
    while i < entries.len()
        invariant
            level < max_depth,
            i <= entries@.len(),
            prefix@ == spacer(level as nat),
            steps@.map_values(|s: WalkStep| s@) == plan(
                visible(entries@.take(i as int), opts.show_hidden),
                level as nat,
                max_depth as nat,
            ),
        decreases entries@.len() - i,
    {
        let e = &entries[i];
        assert(entries@.take(i + 1).drop_last() =~= entries@.take(i as int));
        assert(entries@.take(i + 1).last() == *e);
        let ghost before = steps@.map_values(|s: WalkStep| s@);
        if opts.show_hidden || !is_hidden_file(e) {
            let ghost vis = visible(entries@.take(i as int), opts.show_hidden);
            assert(vis.push(*e).drop_last() =~= vis);
            let mut line = String::from_str(prefix.as_str());
            let name = format_file(e);
            line.append(name.as_str());
            line.append("\n");
            steps.push(WalkStep::Line(line));
            if e.is_dir && level + 1 < max_depth {
                let mut pattern = String::from_str(e.path.as_str());
                pattern.append("/*");
                steps.push(WalkStep::Descend(pattern, level + 1));
            }
            assert(steps@.map_values(|s: WalkStep| s@) =~= before + entry_steps(
                *e,
                level as nat,
                max_depth as nat,
            ));
        }
        i = i + 1;
    }
    assert(entries@.take(entries@.len() as int) =~= entries@);
    steps
}

/// Plans the first level of the tree listing, descending at most `MAX_DEPTH` levels.
pub fn print_files_recursive(entries: &Vec<Entry>, opts: &CommandOptions) -> (r: Vec<WalkStep>)
    ensures
        r@.map_values(|s: WalkStep| s@) == walk_plan(
            entries@,
            0,
            MAX_DEPTH as nat,
            opts.show_hidden,
        ),
{
    format_files_recursive(entries, 0, MAX_DEPTH, opts)
}

/// The tree listing never reaches the depth cap: an expansion at or past the
/// cap shows nothing, every line of an expansion below it stands at that
/// expansion's depth, and every further expansion is one level deeper and
/// still below the cap.
pub proof fn lemma_depth_bounded(
    entries: Seq<Entry>,
    depth: nat,
    max_depth: nat,
    show_hidden: bool,
)
    ensures
        depth >= max_depth ==> walk_plan(entries, depth, max_depth, show_hidden).len() == 0,
        forall|i: int|
            0 <= i < walk_plan(entries, depth, max_depth, show_hidden).len() ==> match #[trigger] walk_plan(
                entries,
                depth,
                max_depth,
                show_hidden,
            )[i] {
                StepView::Line(_) => depth < max_depth,
                StepView::Descend(_, d) => d == depth + 1 && d < max_depth,
            },
{
    if depth < max_depth {
        lemma_plan_bounded(visible(entries, show_hidden), depth, max_depth);
    }
}

proof fn lemma_plan_bounded(vis: Seq<Entry>, depth: nat, max_depth: nat)
    requires
        depth < max_depth,
    ensures
        forall|i: int|
            0 <= i < plan(vis, depth, max_depth).len() ==> match #[trigger] plan(
                vis,
                depth,
                max_depth,
            )[i] {
                StepView::Line(_) => true,
                StepView::Descend(_, d) => d == depth + 1 && d < max_depth,
            },
    decreases vis.len(),
{
    if vis.len() > 0 {
        lemma_plan_bounded(vis.drop_last(), depth, max_depth);
        let a = plan(vis.drop_last(), depth, max_depth);
        let b = entry_steps(vis.last(), depth, max_depth);
        assert forall|i: int| 0 <= i < (a + b).len() implies match #[trigger] (a + b)[i] {
            StepView::Line(_) => true,
            StepView::Descend(_, d) => d == depth + 1 && d < max_depth,
        } by {
            if i < a.len() {
                assert((a + b)[i] == a[i]);
            } else {
                assert((a + b)[i] == b[i - a.len()]);
            }
        }
    }
}

} // verus!
