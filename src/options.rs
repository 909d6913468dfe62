//! The configuration of one listing, read from the command line.
use vstd::prelude::*;

use crate::text::str_contains;

verus! {

/// The configuration of one listing.
pub struct CommandOptions {
    /// The directory to list, with a trailing `/`; empty for the current directory.
    pub filepath: String,
    /// The flag characters, dashes removed.
    pub options: String,
    /// The flag characters one by one.
    pub option_flags: Vec<char>,
    /// `a`: also list entries whose name starts with `.`.
    pub show_hidden: bool,
    /// `l`: the bordered table with metadata columns.
    pub detailed: bool,
    /// `r`: the indented tree.
    pub recursive: bool,
    /// Whether the current directory is inside a git checkout.
    pub git: bool,
    /// `s`: add the size column.
    pub size: bool,
}

/// `s` with every `-` removed.
pub open spec fn without_dashes(s: Seq<char>) -> Seq<char>
    decreases s.len(),
{
    if s.len() == 0 {
        Seq::empty()
    } else if s.last() == '-' {
        without_dashes(s.drop_last())
    } else {
        without_dashes(s.drop_last()).push(s.last())
    }
}

/// The flag characters that the arguments after the program name give: the
/// last argument that holds a `-`, dashes removed.
pub open spec fn flags_of(args: Seq<Seq<char>>) -> Seq<char>
    decreases args.len(),
{
    if args.len() == 0 {
        Seq::empty()
    } else if args.last().contains('-') {
        without_dashes(args.last())
    } else {
        flags_of(args.drop_last())
    }
}

/// The directory that the arguments after the program name give: the last
/// argument without a `-`, followed by `/`.
pub open spec fn path_of(args: Seq<Seq<char>>) -> Seq<char>
    decreases args.len(),
{
    if args.len() == 0 {
        Seq::empty()
    } else if !args.last().contains('-') {
        args.last() + "/"@
    } else {
        path_of(args.drop_last())
    }
}

/// The arguments that are read: all after the program name, and none where
/// the program name is missing or empty.
pub open spec fn arguments(args: Seq<Seq<char>>) -> Seq<Seq<char>> {
    if args.len() > 0 && args[0].len() > 0 {
        args.drop_first()
    } else {
        Seq::empty()
    }
}

/// The configuration that `args` (program name first) give inside or outside a git checkout.
pub open spec fn options_spec(o: CommandOptions, args: Seq<Seq<char>>, in_git_repo: bool) -> bool {
    let flags = flags_of(arguments(args));
    &&& o.filepath@ == path_of(arguments(args))
    &&& o.options@ == flags
    &&& o.option_flags@ == flags
    &&& o.show_hidden == flags.contains('a')
    &&& o.detailed == flags.contains('l')
    &&& o.recursive == flags.contains('r')
    &&& o.size == flags.contains('s')
    &&& o.git == in_git_repo
}

fn remove_dashes(s: &str) -> (r: String)
    ensures
        r@ == without_dashes(s@),
{
    let n = s.unicode_len();
    let mut out = String::new();
    let mut i: usize = 0;
    while i < n
        invariant
            n == s@.len(),
            i <= n,
            out@ == without_dashes(s@.take(i as int)),
        decreases n - i,
    {
        assert(s@.take(i + 1).drop_last() =~= s@.take(i as int));
        if s.get_char(i) != '-' {
            out.append(s.substring_char(i, i + 1));
            assert(s@.subrange(i as int, i + 1) =~= seq![s@[i as int]]);
        }
        i = i + 1;
    }
    assert(s@.take(n as int) =~= s@);
    out
}

fn chars_of(s: &str) -> (r: Vec<char>)
    ensures
        r@ == s@,
{
    let n = s.unicode_len();
    let mut out: Vec<char> = Vec::new();
    let mut i: usize = 0;
    while i < n
        invariant
            n == s@.len(),
            i <= n,
            out@ == s@.take(i as int),
        decreases n - i,
    {
        out.push(s.get_char(i));
        assert(out@ =~= s@.take(i + 1));
        i = i + 1;
    }
    assert(s@.take(n as int) =~= s@);
    out
}

fn has_flag(flags: &Vec<char>, c: char) -> (r: bool)
    ensures
        r == flags@.contains(c),
{
    let mut i: usize = 0;
    while i < flags.len()
        invariant
            i <= flags@.len(),
            forall|k: int| 0 <= k < i ==> flags@[k] != c,
        decreases flags@.len() - i,
    {
        if flags[i] == c {
            return true;
        }
        i = i + 1;
    }
    false
}

/// Reads the configuration from the command line (program name first).
/// `in_git_repo` tells whether the current directory is inside a git checkout.
pub fn parse_options(args: &Vec<String>, in_git_repo: bool) -> (r: CommandOptions)
    ensures
        options_spec(r, args@.map_values(|a: String| a@), in_git_repo),
{
    let ghost all = args@.map_values(|a: String| a@);
    let mut filepath = String::new();
    let mut options = String::new();
    let mut start: usize = args.len();
    if args.len() > 0 && args[0].as_str().unicode_len() > 0 {
        start = 1;
    }
    proof {
        if start == 1 {
            assert(arguments(all) =~= all.subrange(1, all.len() as int));
        } else {
            assert(arguments(all) =~= all.subrange(start as int, all.len() as int));
        }
    }
    let mut i: usize = start;
    while i < args.len()
        invariant
            all == args@.map_values(|a: String| a@),
            start <= i <= args@.len(),
            arguments(all) == all.subrange(start as int, all.len() as int),
            filepath@ == path_of(all.subrange(start as int, i as int)),
            options@ == flags_of(all.subrange(start as int, i as int)),
        decreases args@.len() - i,
    {
        let ghost before = all.subrange(start as int, i as int);
        let ghost after = all.subrange(start as int, i + 1);
        assert(after.drop_last() =~= before);
        assert(after.last() == args[i as int]@);
        let arg = args[i].as_str();
        let dash = str_contains(arg, "-");
        proof {
            reveal_strlit("-");
            if arg@.contains('-') {
                let k = choose|k: int| 0 <= k < arg@.len() && arg@[k] == '-';
                assert(crate::text::occurs_at(arg@, "-"@, k)) by {
                    assert(arg@.subrange(k, k + 1) =~= "-"@);
                }
            }
            if crate::text::contains_seq(arg@, "-"@) {
                let k = choose|k: int| crate::text::occurs_at(arg@, "-"@, k);
                assert(arg@.subrange(k, k + 1)[0] == '-');
                assert(arg@[k] == '-');
            }
        }
        if dash {
            options = remove_dashes(arg);
        } else {
            filepath = String::from_str(arg).concat("/");
        }
        i = i + 1;
    }
    assert(all.subrange(start as int, args@.len() as int) == arguments(all));
    let option_flags = chars_of(options.as_str());
    let show_hidden = has_flag(&option_flags, 'a');
    let detailed = has_flag(&option_flags, 'l');
    let recursive = has_flag(&option_flags, 'r');
    let size = has_flag(&option_flags, 's');
    CommandOptions {
        filepath,
        options,
        option_flags,
        show_hidden,
        detailed,
        recursive,
        git: in_git_repo,
        size,
    }
}

/// The three ways of laying a listing out.
#[derive(PartialEq, Eq, Structural, Clone, Copy, Debug)]
pub enum ListingMode {
    Detailed,
    Recursive,
    Simple,
}

/// The layout that a configuration asks for; the table wins over the tree.
pub open spec fn mode_of(opts: CommandOptions) -> ListingMode {
    if opts.detailed {
        ListingMode::Detailed
    } else if opts.recursive {
        ListingMode::Recursive
    } else {
        ListingMode::Simple
    }
}

/// Chooses the layout of the listing.
pub fn listing_mode(opts: &CommandOptions) -> (r: ListingMode)
    ensures
        r == mode_of(*opts),
{
    if opts.detailed {
        ListingMode::Detailed
    } else if opts.recursive {
        ListingMode::Recursive
    } else {
        ListingMode::Simple
    }
}

/// The pattern that lists everything in the configured directory.
pub fn listing_pattern(opts: &CommandOptions) -> (r: String)
    ensures
        r@ == opts.filepath@ + "*"@,
{
    let mut out = String::from_str(opts.filepath.as_str());
    out.append("*");
    out
}

} // verus!
