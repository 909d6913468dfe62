//! Turns one entry's raw metadata into display text.
use vstd::prelude::*;

use crate::entry::Entry;
use crate::options::CommandOptions;
use crate::text::{
    decimal, decimal_string, find_last_dot, first_visible, first_visible_char, last_dot, push_sgr,
    push_styled, reset, sgr, str_contains, str_eq, contains_seq, styled,
};

verus! {

// ----- elapsed time -----

/// Reduces elapsed seconds through the unit ladder seconds, minutes, hours,
/// days, weeks. Each step divides and drops the remainder, and is taken only
/// when the previous value exceeds the step's threshold.
pub open spec fn time_scaled(secs: nat) -> (nat, Seq<char>) {
    let (v1, u1) = if secs > 60 { (secs / 60, " min"@) } else { (secs, "s"@) };
    let (v2, u2) = if v1 > 60 { (v1 / 60, " hour"@) } else { (v1, u1) };
    let (v3, u3) = if v2 > 24 { (v2 / 24, " days"@) } else { (v2, u2) };
    if v3 > 7 { (v3 / 7, " weeks"@) } else { (v3, u3) }
}

/// The age column: the scaled value in green, then its unit in magenta.
pub open spec fn time_text(secs: nat) -> Seq<char> {
    styled(92, decimal(time_scaled(secs).0)) + styled(95, time_scaled(secs).1)
}

/// Formats the time elapsed since an entry was modified, given in seconds.
pub fn format_time(elapsed_secs: u64) -> (r: String)
    ensures
        r@ == time_text(elapsed_secs as nat),
{
    let mut value: u64 = elapsed_secs;
    let mut unit: &str = "s";
    if value > 60 {
        value = value / 60;
        unit = " min";
    }
    if value > 60 {
        value = value / 60;
        unit = " hour";
    }
    if value > 24 {
        value = value / 24;
        unit = " days";
    }
    if value > 7 {
        value = value / 7;
        unit = " weeks";
    }
    let mut out = String::new();
    let digits = decimal_string(value);
    push_styled(&mut out, 92, digits.as_str());
    push_styled(&mut out, 95, unit);
    assert(out@ =~= time_text(elapsed_secs as nat));
    out
}

// ----- sizes -----

/// The unit rank of a byte count: 0 for bytes, 1 for kb, 2 for mb, 3 for GB.
pub open spec fn size_rank(size: nat) -> nat {
    if size > 1_000_000_000 {
        3
    } else if size > 1_000_000 {
        2
    } else if size > 1000 {
        1
    } else {
        0
    }
}

/// The divisor of a unit rank.
pub open spec fn rank_divisor(rank: nat) -> nat {
    if rank == 3 {
        1_000_000_000
    } else if rank == 2 {
        1_000_000
    } else if rank == 1 {
        1000
    } else {
        1
    }
}

/// The symbol of a unit rank.
pub open spec fn rank_symbol(rank: nat) -> Seq<char> {
    if rank == 3 {
        "GB"@
    } else if rank == 2 {
        "mb"@
    } else if rank == 1 {
        "kb"@
    } else {
        "b"@
    }
}

/// The byte count expressed in its unit, remainder dropped.
pub open spec fn size_value(size: nat) -> nat {
    size / rank_divisor(size_rank(size))
}

/// The size column: the scaled value in magenta, then its unit in white.
pub open spec fn size_text(size: nat) -> Seq<char> {
    styled(95, decimal(size_value(size))) + styled(97, rank_symbol(size_rank(size)))
}

/// Formats a byte count with the largest unit it exceeds.
pub fn format_dir_size(size: u64) -> (r: String)
    ensures
        r@ == size_text(size as nat),
{
    let mut symbol: &str = "b";
    let mut value: u64 = size;
    if size > 1000 {
        symbol = "kb";
        value = size / 1000;
    }
    if size > 1000000 {
        symbol = "mb";
        value = size / 1000000;
    }
    if size > 1000000000 {
        symbol = "GB";
        value = size / 1000000000;
    }
    assert(value == size_value(size as nat) && symbol@ == rank_symbol(size_rank(size as nat)));
    let mut out = String::new();
    let digits = decimal_string(value);
    push_styled(&mut out, 95, digits.as_str());
    push_styled(&mut out, 97, symbol);
    assert(out@ =~= size_text(size as nat));
    out
}

/// The unit of a byte count never gets smaller as the count grows, and
/// within one unit the shown value never gets smaller either. Formatting a
/// count is a function of the count alone, so formatting it again gives the
/// same text.
pub proof fn lemma_size_scale_monotonic(a: nat, b: nat)
    requires
        a <= b,
    ensures
        size_rank(a) <= size_rank(b),
        size_rank(a) == size_rank(b) ==> size_value(a) <= size_value(b),
        a == b ==> size_text(a) == size_text(b),
{
    let d = rank_divisor(size_rank(a));
    assert(d > 0);
    if size_rank(a) == size_rank(b) {
        vstd::arithmetic::div_mod::lemma_div_is_ordered(a as int, b as int, d as int);
    }
}

/// The units change exactly past 1000, 1,000,000 and 1,000,000,000 bytes.
pub proof fn lemma_size_scale_boundaries(size: nat)
    ensures
        size_rank(size) == 0 <==> size <= 1000,
        size_rank(size) == 1 <==> 1000 < size <= 1_000_000,
        size_rank(size) == 2 <==> 1_000_000 < size <= 1_000_000_000,
        size_rank(size) == 3 <==> 1_000_000_000 < size,
{
}

// ----- permissions -----

/// The `rwx` triad that one octal permission digit stands for; empty for a
/// character that is not an octal digit.
pub open spec fn triad(p: char) -> Seq<char> {
    if p == '0' {
        "---"@
    } else if p == '1' {
        "--x"@
    } else if p == '2' {
        "-w-"@
    } else if p == '3' {
        "-wx"@
    } else if p == '4' {
        "r--"@
    } else if p == '5' {
        "r-x"@
    } else if p == '6' {
        "rw-"@
    } else if p == '7' {
        "rwx"@
    } else {
        Seq::empty()
    }
}

/// Maps one octal permission digit to its `rwx` triad.
pub fn get_permission_group_string(p: &char) -> (r: String)
    ensures
        r@ == triad(*p),
{
    match *p {
        '0' => String::from_str("---"),
        '1' => String::from_str("--x"),
        '2' => String::from_str("-w-"),
        '3' => String::from_str("-wx"),
        '4' => String::from_str("r--"),
        '5' => String::from_str("r-x"),
        '6' => String::from_str("rw-"),
        '7' => String::from_str("rwx"),
        _ => String::new(),
    }
}

/// The permission digit for owner (`shift == 2`), group (1) or others (0):
/// one of the low nine bits of the mode read as three octal digits.
pub open spec fn mode_digit(mode: nat, shift: nat) -> nat {
    if shift == 2 {
        (mode / 64) % 8
    } else if shift == 1 {
        (mode / 8) % 8
    } else {
        mode % 8
    }
}

/// The permission column: `|` then each triad in its own colour, each followed by `|`.
pub open spec fn permissions_text(mode: nat) -> Seq<char> {
    "|"@ + styled(94, triad(crate::text::digit_char(mode_digit(mode, 2)))) + "|"@
        + styled(95, triad(crate::text::digit_char(mode_digit(mode, 1)))) + "|"@
        + styled(96, triad(crate::text::digit_char(mode_digit(mode, 0)))) + "|"@
}

fn octal_digit_char(d: u32) -> (c: char)
    requires
        d < 8,
    ensures
        c == crate::text::digit_char(d as nat),
{
    match d {
        0 => '0',
        1 => '1',
        2 => '2',
        3 => '3',
        4 => '4',
        5 => '5',
        6 => '6',
        _ => '7',
    }
}

/// Formats the owner, group and other permission bits of a file mode.
pub fn format_permissions(mode: u32) -> (r: String)
    ensures
        r@ == permissions_text(mode as nat),
{
    let owner = octal_digit_char((mode / 64) % 8);
    let group = octal_digit_char((mode / 8) % 8);
    let other = octal_digit_char(mode % 8);
    let mut out = String::from_str("|");
    let t = get_permission_group_string(&owner);
    push_styled(&mut out, 94, t.as_str());
    out.append("|");
    let t = get_permission_group_string(&group);
    push_styled(&mut out, 95, t.as_str());
    out.append("|");
    let t = get_permission_group_string(&other);
    push_styled(&mut out, 96, t.as_str());
    out.append("|");
    assert(out@ =~= permissions_text(mode as nat));
    out
}

/// Each permission digit formats to the same triad wherever it occurs:
/// `6` is `rw-`, `0` is `---`, `7` is `rwx`, and the triad of a file depends
/// on its mode alone.
pub proof fn lemma_permission_triads(mode_a: nat, mode_b: nat)
    ensures
        triad('6') == "rw-"@,
        triad('0') == "---"@,
        triad('7') == "rwx"@,
        mode_a % 512 == mode_b % 512 ==> permissions_text(mode_a) == permissions_text(mode_b),
{
    if mode_a % 512 == mode_b % 512 {
        assert(mode_digit(mode_a, 2) == mode_digit(mode_b, 2)) by (nonlinear_arith)
            requires mode_a % 512 == mode_b % 512;
        assert(mode_digit(mode_a, 1) == mode_digit(mode_b, 1)) by (nonlinear_arith)
            requires mode_a % 512 == mode_b % 512;
        assert(mode_digit(mode_a, 0) == mode_digit(mode_b, 0)) by (nonlinear_arith)
            requires mode_a % 512 == mode_b % 512;
    }
}

// ----- table header -----

/// Formats a column title in colour `color_code`.
pub fn format_table_header(label: &str, color_code: u16) -> (r: String)
    ensures
        r@ == styled(color_code as nat, label@),
{
    let mut out = String::new();
    push_styled(&mut out, color_code as u64, label);
    assert(out@ =~= styled(color_code as nat, label@));
    out
}


// ----- names and icons -----

/// The extension of a base name: what follows its last `.`, where that `.`
/// is not the first character; none for `..`.
pub open spec fn extension(name: Seq<char>) -> Option<Seq<char>> {
    if name == ".."@ || last_dot(name) <= 0 {
        None
    } else {
        Some(name.subrange(last_dot(name) + 1, name.len() as int))
    }
}

/// The glyph shown before a file's name, chosen by its extension.
pub open spec fn file_icon(name: Seq<char>) -> Seq<char> {
    match extension(name) {
        Some(e) => if e == "lock"@ {
            "\u{eae8}"@
        } else if e == "toml"@ || e == "md"@ || e == "js"@ || e == "ts"@ || e == "rs"@ {
            "\u{eae9}"@
        } else {
            "\u{ea7b}"@
        },
        None => "\u{ea7b}"@,
    }
}

/// The name column: a coloured glyph, then the base name unstyled.
pub open spec fn file_text(name: Seq<char>, is_dir: bool) -> Seq<char> {
    if is_dir {
        sgr(93) + " \u{f413} "@ + reset() + name
    } else {
        sgr(92) + " "@ + file_icon(name) + " "@ + reset() + name
    }
}

fn icon_of(name: &str) -> (r: &'static str)
    ensures
        r@ == file_icon(name@),
{
    let n = name.unicode_len();
    let dot = find_last_dot(name);
    proof {
        reveal_strlit("..");
    }
    let is_parent = str_eq(name, "..");
    match dot {
        Some(i) => {
            if is_parent || i == 0 {
                return "\u{ea7b}";
            }
            let ext = name.substring_char(i + 1, n);
            if str_eq(ext, "lock") {
                "\u{eae8}"
            } else if str_eq(ext, "toml") || str_eq(ext, "md") || str_eq(ext, "js") || str_eq(
                ext,
                "ts",
            ) || str_eq(ext, "rs") {
                "\u{eae9}"
            } else {
                "\u{ea7b}"
            }
        },
        None => "\u{ea7b}",
    }
}

/// Formats an entry's name with its glyph: a folder for a directory, and for
/// a file a glyph chosen by its extension.
pub fn format_file(entry: &Entry) -> (r: String)
    ensures
        r@ == file_text(entry.name@, entry.is_dir),
{
    let mut out = String::new();
    if entry.is_dir {
        push_sgr(&mut out, 93);
        out.append(" \u{f413} ");
    } else {
        push_sgr(&mut out, 92);
        out.append(" ");
        out.append(icon_of(entry.name.as_str()));
        out.append(" ");
    }
    out.append("\x1b[0m");
    out.append(entry.name.as_str());
    assert(out@ =~= file_text(entry.name@, entry.is_dir));
    out
}

// ----- version control -----

/// The state of one file in the git working tree.
#[derive(PartialEq, Eq, Structural, Clone, Copy, Debug)]
pub enum VcsStatus {
    Clean,
    Untracked,
    Modified,
    Staged,
}

/// The status that `git status -s <name>` printed: read from the first
/// character that is not white space, where the output is not empty and
/// mentions the name.
pub open spec fn status_of(output: Seq<char>, name: Seq<char>) -> VcsStatus {
    if output.len() > 0 && contains_seq(output, name) {
        match first_visible(output) {
            Some(c) => if c == '?' {
                VcsStatus::Untracked
            } else if c == 'M' {
                VcsStatus::Modified
            } else if c == 'A' {
                VcsStatus::Staged
            } else {
                VcsStatus::Clean
            },
            None => VcsStatus::Clean,
        }
    } else {
        VcsStatus::Clean
    }
}

/// Reads a file's status from what `git status -s <file_name>` printed.
pub fn parse_git_status(output: &str, file_name: &str) -> (r: VcsStatus)
    ensures
        r == status_of(output@, file_name@),
{
    if output.unicode_len() == 0 || !str_contains(output, file_name) {
        return VcsStatus::Clean;
    }
    match first_visible_char(output) {
        Some(c) => if c == '?' {
            VcsStatus::Untracked
        } else if c == 'M' {
            VcsStatus::Modified
        } else if c == 'A' {
            VcsStatus::Staged
        } else {
            VcsStatus::Clean
        },
        None => VcsStatus::Clean,
    }
}

/// The colour and text of the git status column; empty for a clean file.
pub open spec fn git_label(st: VcsStatus) -> Seq<char> {
    match st {
        VcsStatus::Untracked => styled(91, " \u{eadc} Unstaged"@),
        VcsStatus::Modified => styled(93, " \u{ea73} Modified"@),
        VcsStatus::Staged => styled(94, " \u{ebbc} Staged"@),
        VcsStatus::Clean => Seq::empty(),
    }
}

/// The git status column of an entry: empty where git status is not shown.
pub open spec fn git_text(e: Entry, opts: CommandOptions) -> Seq<char> {
    if opts.git {
        git_label(status_of(e.vcs_output@, e.name@))
    } else {
        Seq::empty()
    }
}

fn push_git_label(out: &mut String, st: VcsStatus)
    ensures
        final(out)@ == old(out)@ + git_label(st),
{
    match st {
        VcsStatus::Untracked => push_styled(out, 91, " \u{eadc} Unstaged"),
        VcsStatus::Modified => push_styled(out, 93, " \u{ea73} Modified"),
        VcsStatus::Staged => push_styled(out, 94, " \u{ebbc} Staged"),
        VcsStatus::Clean => {
            assert(out@ =~= old(out)@ + git_label(st));
        },
    }
}

/// Formats the git status column of an entry.
pub fn format_git(entry: &Entry, opts: &CommandOptions) -> (r: String)
    ensures
        r@ == git_text(*entry, *opts),
{
    let mut out = String::new();
    if opts.git {
        let st = parse_git_status(entry.vcs_output.as_str(), entry.name.as_str());
        push_git_label(&mut out, st);
    }
    assert(out@ =~= git_text(*entry, *opts));
    out
}

/// The mark put after a name to show its git status; empty for a clean file.
pub open spec fn git_mark(st: VcsStatus) -> Seq<char> {
    match st {
        VcsStatus::Untracked => " "@ + styled(91, " \u{eadc}"@),
        VcsStatus::Modified => " "@ + styled(93, " \u{ea73}"@),
        VcsStatus::Staged => " "@ + styled(94, " \u{ebbc}"@),
        VcsStatus::Clean => Seq::empty(),
    }
}

/// Formats an entry's name followed by a mark of its git status.
pub fn format_file_git_status(entry: &Entry) -> (r: String)
    ensures
        r@ == file_text(entry.name@, entry.is_dir) + git_mark(
            status_of(entry.vcs_output@, entry.name@),
        ),
{
    let mut out = format_file(entry);
    let st = parse_git_status(entry.vcs_output.as_str(), entry.name.as_str());
    match st {
        VcsStatus::Untracked => {
            out.append(" ");
            push_styled(&mut out, 91, " \u{eadc}");
        },
        VcsStatus::Modified => {
            out.append(" ");
            push_styled(&mut out, 93, " \u{ea73}");
        },
        VcsStatus::Staged => {
            out.append(" ");
            push_styled(&mut out, 94, " \u{ebbc}");
        },
        VcsStatus::Clean => {},
    }
    assert(out@ =~= file_text(entry.name@, entry.is_dir) + git_mark(st));
    out
}

/// Where git printed nothing for an entry, as outside any checkout, its git
/// status column is empty and its name carries no mark.
pub proof fn lemma_no_checkout_no_status(e: Entry, opts: CommandOptions)
    requires
        e.vcs_output@.len() == 0,
    ensures
        status_of(e.vcs_output@, e.name@) == VcsStatus::Clean,
        git_text(e, opts) == Seq::<char>::empty(),
        git_mark(status_of(e.vcs_output@, e.name@)) == Seq::<char>::empty(),
{
}

// ----- owner -----

/// Relies on `users::get_user_by_uid`, which reads the host's user database:
/// the user's name, where the database knows the identifier.
#[verifier::external_body]
pub(crate) fn lookup_user_name(uid: u32) -> (r: Option<String>) {
    users::get_user_by_uid(uid).map(|u| u.name().to_string_lossy().into_owned())
}

/// The owner column: the user's name in cyan, or `unknown` where the name
/// could not be found.
pub open spec fn user_text(name: Option<Seq<char>>) -> Seq<char> {
    match name {
        Some(n) => styled(96, n),
        None => styled(96, "unknown"@),
    }
}

/// The view of a looked-up name.
pub open spec fn name_view(name: Option<String>) -> Option<Seq<char>> {
    match name {
        Some(n) => Some(n@),
        None => None,
    }
}

/// Formats the owner column from a looked-up name.
pub fn format_user_label(name: &Option<String>) -> (r: String)
    ensures
        r@ == user_text(name_view(*name)),
{
    let mut out = String::new();
    match name {
        Some(n) => push_styled(&mut out, 96, n.as_str()),
        None => push_styled(&mut out, 96, "unknown"),
    }
    out
}

/// Formats the owner column for a user identifier, looking its name up in
/// the host's user database.
pub fn format_user_name(uid: u32) -> (r: String)
    ensures
        exists|name: Option<Seq<char>>| r@ == user_text(name),
{
    let name = lookup_user_name(uid);
    format_user_label(&name)
}

} // verus!
