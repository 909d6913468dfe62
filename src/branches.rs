//! The list of git branches shown above a listing, read from what
//! `git branch -l` printed.
use vstd::prelude::*;

use crate::text::{lemma_contains_push, push_styled, styled};

verus! {

/// Whether the character at `i` is left out before the list is split into
/// branch names: a line break, or a blank right after `*`.
pub open spec fn dropped(s: Seq<char>, i: int) -> bool {
    s[i] == '\n' || (s[i] == ' ' && i > 0 && s[i - 1] == '*')
}

/// `s` with the characters that are left out removed.
pub open spec fn cleaned(s: Seq<char>) -> Seq<char>
    decreases s.len(),
{
    if s.len() == 0 {
        Seq::empty()
    } else if dropped(s, s.len() - 1) {
        cleaned(s.drop_last())
    } else {
        cleaned(s.drop_last()).push(s.last())
    }
}

/// The pieces of `c` between blanks, empty pieces included.
pub open spec fn fields(c: Seq<char>) -> Seq<Seq<char>>
    decreases c.len(),
{
    if c.len() == 0 {
        seq![Seq::empty()]
    } else {
        let f = fields(c.drop_last());
        if c.last() == ' ' {
            f.push(Seq::empty())
        } else if f.len() > 0 {
            f.update(f.len() - 1, f.last().push(c.last()))
        } else {
            seq![seq![c.last()]]
        }
    }
}

/// `f` with every `*` removed.
pub open spec fn without_stars(f: Seq<char>) -> Seq<char>
    decreases f.len(),
{
    if f.len() == 0 {
        Seq::empty()
    } else if f.last() == '*' {
        without_stars(f.drop_last())
    } else {
        without_stars(f.drop_last()).push(f.last())
    }
}

/// One branch name, padded, in green where it is marked current with `*`
/// and in grey otherwise.
pub open spec fn branch_text(f: Seq<char>) -> Seq<char> {
    styled(
        if f.contains('*') {
            92
        } else {
            90
        },
        "  "@ + without_stars(f) + "  "@,
    )
}

/// All branch names, in order.
pub open spec fn branches_text(fs: Seq<Seq<char>>) -> Seq<char>
    decreases fs.len(),
{
    if fs.len() == 0 {
        Seq::empty()
    } else {
        branches_text(fs.drop_last()) + branch_text(fs.last())
    }
}

fn clean_chars(s: &str) -> (r: Vec<char>)
    ensures
        r@ == cleaned(s@),
{
    let n = s.unicode_len();
    let mut out: Vec<char> = Vec::new();
    let mut i: usize = 0;
    while i < n
        invariant
            n == s@.len(),
            i <= n,
            out@ == cleaned(s@.take(i as int)),
        decreases n - i,
    {
        let ghost t = s@.take(i + 1);
        assert(t.drop_last() =~= s@.take(i as int));
        let ch = s.get_char(i);
        let after_star = i > 0 && s.get_char(i - 1) == '*';
        assert(dropped(t, i as int) == (ch == '\n' || (ch == ' ' && after_star)));
        if !(ch == '\n' || (ch == ' ' && after_star)) {
            out.push(ch);
        }
        i = i + 1;
    }
    assert(s@.take(n as int) =~= s@);
    out
}

fn push_branch(out: &mut String, name: &String, current: bool)
    ensures
        final(out)@ == old(out)@ + styled(
            if current {
                92
            } else {
                90
            },
            "  "@ + name@ + "  "@,
        ),
{
    let mut text = String::from_str("  ");
    text.append(name.as_str());
    text.append("  ");
    if current {
        push_styled(out, 92, text.as_str());
    } else {
        push_styled(out, 90, text.as_str());
    }
}

/// Formats the branches that `git branch -l` printed: line breaks and the
/// blank after the current branch's `*` are dropped, the rest is split at
/// blanks, and each piece is shown padded, the current one in green.
pub fn format_git_branches(output: &str) -> (r: String)
    ensures
        r@ == branches_text(fields(cleaned(output@))),
{
    let c = clean_chars(output);
    let mut out = String::new();
    let mut name = String::new();
    let mut current = false;
    let mut j: usize = 0;
    assert(c@.take(0) =~= Seq::<char>::empty());
    assert(fields(c@.take(0)).drop_last() =~= Seq::<Seq<char>>::empty());
    while j < c.len()
        invariant
            j <= c@.len(),
            fields(c@.take(j as int)).len() > 0,
            out@ == branches_text(fields(c@.take(j as int)).drop_last()),
            name@ == without_stars(fields(c@.take(j as int)).last()),
            current == fields(c@.take(j as int)).last().contains('*'),
        decreases c@.len() - j,
    {
        let ghost t = c@.take(j + 1);
        assert(t.drop_last() =~= c@.take(j as int));
        let ghost f = fields(c@.take(j as int));
        let ch = c[j];
        if ch == ' ' {
            push_branch(&mut out, &name, current);
            assert(fields(t) == f.push(Seq::empty()));
            assert(fields(t).drop_last() =~= f);
            assert(f =~= f.drop_last().push(f.last()));
            name = String::new();
            current = false;
            assert(!Seq::<char>::empty().contains('*'));
            assert(without_stars(Seq::<char>::empty()) == Seq::<char>::empty());
        } else {
            proof {
                lemma_contains_push(f.last(), ch, '*');
            }
            assert(fields(t) == f.update(f.len() - 1, f.last().push(ch)));
            assert(fields(t).drop_last() =~= f.drop_last());
            assert(f.last().push(ch).drop_last() =~= f.last());
            if ch == '*' {
                current = true;
            } else {
                name.push(ch);
            }
        }
        j = j + 1;
    }
    assert(c@.take(c@.len() as int) =~= c@);
    let ghost fs = fields(c@);
    push_branch(&mut out, &name, current);
    assert(fs =~= fs.drop_last().push(fs.last()));
    out
}

} // verus!
