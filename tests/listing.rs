use lsplus::entry::{is_hidden_file, Entry};
use lsplus::formatter::{
    format_dir_size, format_file, format_file_git_status, format_git, format_permissions,
    format_table_header, format_time, format_user_label, format_user_name,
    get_permission_group_string, parse_git_status, VcsStatus,
};
use lsplus::options::{listing_mode, listing_pattern, parse_options, CommandOptions, ListingMode};
use lsplus::print::{detailed_header, detailed_row, max_columns, print_files_detailed, print_files_simple};
use lsplus::traversal::{format_files_recursive, print_files_recursive, WalkStep, MAX_DEPTH};
use lsplus::branches::format_git_branches;
use lsplus::decimal_string;

fn entry(path: &str, name: &str, is_dir: bool, mode: u32, size: u64) -> Entry {
    Entry {
        path: path.to_string(),
        name: name.to_string(),
        is_dir,
        mode,
        age_secs: 5,
        uid: 0,
        size,
        vcs_output: String::new(),
    }
}

fn opts(show_hidden: bool, detailed: bool, recursive: bool, git: bool, size: bool) -> CommandOptions {
    CommandOptions {
        filepath: String::new(),
        options: String::new(),
        option_flags: Vec::new(),
        show_hidden,
        detailed,
        recursive,
        git,
        size,
    }
}

fn cell(t: &prettytable::Table, row: usize, col: usize) -> String {
    t.get_row(row).unwrap().get_cell(col).unwrap().get_content()
}

fn sample_dir() -> Vec<Entry> {
    vec![entry("a.txt", "a.txt", false, 0o100644, 500), entry(".env", ".env", false, 0o100600, 12)]
}

fn file_cell(name: &str) -> String {
    format!("\x1b[92m \u{ea7b} \x1b[0m{}", name)
}

#[test]
fn simple_listing_skips_hidden() {
    let l = print_files_simple(&sample_dir(), 100, &opts(false, false, false, false, false));
    assert_eq!(l.count, 1);
    assert_eq!(l.footer, "1 files\n");
    assert_eq!(l.table.len(), 1);
    assert_eq!(l.table.get_row(0).unwrap().len(), 1);
    assert_eq!(cell(&l.table, 0, 0), file_cell("a.txt"));
}

#[test]
fn simple_listing_shows_hidden() {
    let l = print_files_simple(&sample_dir(), 100, &opts(true, false, false, false, false));
    assert_eq!(l.count, 2);
    assert_eq!(l.footer, "2 files\n");
    assert_eq!(cell(&l.table, 0, 0), file_cell("a.txt"));
    assert_eq!(cell(&l.table, 0, 1), file_cell(".env"));
}

#[test]
fn hidden_names_never_listed() {
    let es = vec![
        entry(".git", ".git", true, 0o40755, 0),
        entry("b", "b", false, 0o100644, 1),
        entry(".x.rs", ".x.rs", false, 0o100644, 1),
        entry("c", "c", false, 0o100644, 1),
    ];
    let o = opts(false, false, false, false, false);
    let l = print_files_simple(&es, 100, &o);
    assert_eq!(l.count, 2);
    for r in 0..l.table.len() {
        for c in l.table.get_row(r).unwrap().iter() {
            assert!(!c.get_content().ends_with(".git"));
            assert!(!c.get_content().ends_with(".x.rs"));
        }
    }
    let steps = format_files_recursive(&es, 0, 3, &o);
    assert_eq!(steps.len(), 2);
}

#[test]
fn grid_rows_hold_column_count() {
    let names = ["a", "b", "c", "d", "e", "f", "g"];
    let es: Vec<Entry> = names.iter().map(|n| entry(n, n, false, 0o100644, 1)).collect();
    let l = print_files_simple(&es, 100, &opts(false, false, false, false, false));
    assert_eq!(l.count, 7);
    assert_eq!(l.table.len(), 3);
    assert_eq!(l.table.get_row(0).unwrap().len(), 3);
    assert_eq!(l.table.get_row(1).unwrap().len(), 3);
    assert_eq!(l.table.get_row(2).unwrap().len(), 1);
    assert_eq!(cell(&l.table, 2, 0), file_cell("g"));
    let wide = print_files_simple(&es, 200, &opts(false, false, false, false, false));
    assert_eq!(wide.table.len(), 2);
    assert_eq!(wide.table.get_row(0).unwrap().len(), 5);
}

#[test]
fn grid_of_nothing_is_one_empty_row() {
    let l = print_files_simple(&Vec::new(), 100, &opts(false, false, false, false, false));
    assert_eq!(l.count, 0);
    assert_eq!(l.table.len(), 1);
    assert_eq!(l.table.get_row(0).unwrap().len(), 0);
    assert_eq!(l.footer, "0 files\n");
}

#[test]
fn column_tiers() {
    assert_eq!(max_columns(80), 3);
    assert_eq!(max_columns(150), 3);
    assert_eq!(max_columns(151), 5);
    assert_eq!(max_columns(299), 5);
    assert_eq!(max_columns(300), 8);
}

#[test]
fn recursive_tree_stops_at_depth_cap() {
    let o = opts(false, false, true, false, false);
    let root = vec![entry("root", "root", true, 0o40755, 0)];
    let s0 = print_files_recursive(&root, &o);
    assert_eq!(s0.len(), 2);
    match &s0[0] {
        WalkStep::Line(t) => assert_eq!(t, &format!("\x1b[93m \u{f413} \x1b[0mroot\n")),
        _ => panic!("expected a line"),
    }
    match &s0[1] {
        WalkStep::Descend(p, d) => {
            assert_eq!(p, "root/*");
            assert_eq!(*d, 1);
        }
        _ => panic!("expected a descent"),
    }
    let sub = vec![entry("root/sub", "sub", true, 0o40755, 0)];
    let s1 = format_files_recursive(&sub, 1, MAX_DEPTH, &o);
    assert_eq!(s1.len(), 2);
    match &s1[0] {
        WalkStep::Line(t) => assert_eq!(t, &format!(" \u{203a}\x1b[93m \u{f413} \x1b[0msub\n")),
        _ => panic!("expected a line"),
    }
    let leaf = vec![
        entry("root/sub/file.rs", "file.rs", false, 0o100644, 3),
        entry("root/sub/deeper", "deeper", true, 0o40755, 0),
    ];
    let s2 = format_files_recursive(&leaf, 2, MAX_DEPTH, &o);
    assert_eq!(s2.len(), 2);
    match &s2[0] {
        WalkStep::Line(t) => {
            assert_eq!(t, &format!("   \u{203a}\x1b[92m \u{eae9} \x1b[0mfile.rs\n"))
        }
        _ => panic!("expected a line"),
    }
    assert!(matches!(&s2[1], WalkStep::Line(_)));
    assert!(format_files_recursive(&leaf, 3, MAX_DEPTH, &o).is_empty());
    assert!(format_files_recursive(&leaf, 5, 3, &o).is_empty());
}

#[test]
fn permissions_of_644() {
    assert_eq!(
        format_permissions(0o100644),
        "|\x1b[94mrw-\x1b[0m|\x1b[95mr--\x1b[0m|\x1b[96mr--\x1b[0m|"
    );
    assert_eq!(
        format_permissions(0o40751),
        "|\x1b[94mrwx\x1b[0m|\x1b[95mr-x\x1b[0m|\x1b[96m--x\x1b[0m|"
    );
    assert_eq!(
        format_permissions(0o100644),
        format_permissions(0o644)
    );
}

#[test]
fn permission_triads() {
    let expected = ["---", "--x", "-w-", "-wx", "r--", "r-x", "rw-", "rwx"];
    for (d, t) in expected.iter().enumerate() {
        let c = char::from_digit(d as u32, 8).unwrap();
        assert_eq!(get_permission_group_string(&c), *t);
    }
    assert_eq!(get_permission_group_string(&'6'), "rw-");
    assert_eq!(get_permission_group_string(&'8'), "");
    assert_eq!(get_permission_group_string(&'x'), "");
}

fn size_text(v: &str, unit: &str) -> String {
    format!("\x1b[95m{}\x1b[0m\x1b[97m{}\x1b[0m", v, unit)
}

#[test]
fn size_ladder_boundaries() {
    assert_eq!(format_dir_size(0), size_text("0", "b"));
    assert_eq!(format_dir_size(500), size_text("500", "b"));
    assert_eq!(format_dir_size(1000), size_text("1000", "b"));
    assert_eq!(format_dir_size(1001), size_text("1", "kb"));
    assert_eq!(format_dir_size(1_000_000), size_text("1000", "kb"));
    assert_eq!(format_dir_size(1_000_001), size_text("1", "mb"));
    assert_eq!(format_dir_size(1_000_000_000), size_text("1000", "mb"));
    assert_eq!(format_dir_size(1_000_000_001), size_text("1", "GB"));
    assert_eq!(format_dir_size(u64::MAX), size_text("18446744073", "GB"));
    assert_eq!(format_dir_size(123_456_789), format_dir_size(123_456_789));
}

fn time_text(v: &str, unit: &str) -> String {
    format!("\x1b[92m{}\x1b[0m\x1b[95m{}\x1b[0m", v, unit)
}

#[test]
fn time_ladder() {
    assert_eq!(format_time(0), time_text("0", "s"));
    assert_eq!(format_time(7), time_text("7", "s"));
    assert_eq!(format_time(8), time_text("1", " weeks"));
    assert_eq!(format_time(24), time_text("3", " weeks"));
    assert_eq!(format_time(25), time_text("1", " days"));
    assert_eq!(format_time(60), time_text("2", " days"));
    assert_eq!(format_time(61), time_text("1", " min"));
    assert_eq!(format_time(200), time_text("3", " min"));
    assert_eq!(format_time(3600), time_text("2", " days"));
    assert_eq!(format_time(3660), time_text("1", " hour"));
    assert_eq!(format_time(172_800), time_text("2", " days"));
    assert_eq!(format_time(691_200), time_text("1", " weeks"));
    assert_eq!(format_time(5_000), time_text("1", " hour"));
}

#[test]
fn names_and_icons() {
    let f = |n: &str, d: bool| format_file(&entry(n, n, d, 0o100644, 0));
    assert_eq!(f("src", true), "\x1b[93m \u{f413} \x1b[0msrc");
    assert_eq!(f("main.rs", false), "\x1b[92m \u{eae9} \x1b[0mmain.rs");
    assert_eq!(f("Cargo.lock", false), "\x1b[92m \u{eae8} \x1b[0mCargo.lock");
    assert_eq!(f("README.md", false), "\x1b[92m \u{eae9} \x1b[0mREADME.md");
    assert_eq!(f("notes.txt", false), "\x1b[92m \u{ea7b} \x1b[0mnotes.txt");
    assert_eq!(f(".rs", false), "\x1b[92m \u{ea7b} \x1b[0m.rs");
    assert_eq!(f("Makefile", false), "\x1b[92m \u{ea7b} \x1b[0mMakefile");
    assert_eq!(f("a.b.toml", false), "\x1b[92m \u{eae9} \x1b[0ma.b.toml");
}

#[test]
fn hidden_file_check() {
    assert!(is_hidden_file(&entry(".env", ".env", false, 0, 0)));
    assert!(!is_hidden_file(&entry("a.txt", "a.txt", false, 0, 0)));
    assert!(!is_hidden_file(&entry("", "", false, 0, 0)));
}

#[test]
fn header_cell() {
    assert_eq!(format_table_header("Name", 90), "\x1b[90mName\x1b[0m");
    assert_eq!(format_table_header("Size", 7), "\x1b[7mSize\x1b[0m");
}

#[test]
fn decimal_numbers() {
    assert_eq!(decimal_string(0), "0");
    assert_eq!(decimal_string(1_234_567), "1234567");
    assert_eq!(decimal_string(u64::MAX), "18446744073709551615");
}

#[test]
fn git_status_parsing() {
    assert_eq!(parse_git_status("?? a.txt\n", "a.txt"), VcsStatus::Untracked);
    assert_eq!(parse_git_status(" M a.txt\n", "a.txt"), VcsStatus::Modified);
    assert_eq!(parse_git_status("A  b.rs\n", "b.rs"), VcsStatus::Staged);
    assert_eq!(parse_git_status("D  b.rs\n", "b.rs"), VcsStatus::Clean);
    assert_eq!(parse_git_status("?? other\n", "a.txt"), VcsStatus::Clean);
    assert_eq!(parse_git_status("", "a.txt"), VcsStatus::Clean);
}

#[test]
fn git_column_outside_checkout_is_empty() {
    let e = entry("a.txt", "a.txt", false, 0o100644, 500);
    assert_eq!(format_git(&e, &opts(false, true, false, true, false)), "");
    assert_eq!(format_git(&e, &opts(false, true, false, false, false)), "");
    assert_eq!(format_file_git_status(&e), format_file(&e));
    let l = print_files_detailed(&sample_dir(), &opts(true, true, false, true, false));
    for r in 0..l.table.len() {
        assert_eq!(cell(&l.table, r, 1), "");
    }
}

#[test]
fn git_column_in_checkout() {
    let mut e = entry("a.txt", "a.txt", false, 0o100644, 500);
    e.vcs_output = " M a.txt\n".to_string();
    assert_eq!(
        format_git(&e, &opts(false, true, false, true, false)),
        "\x1b[93m \u{ea73} Modified\x1b[0m"
    );
    assert_eq!(format_git(&e, &opts(false, true, false, false, false)), "");
    assert_eq!(
        format_file_git_status(&e),
        format!("{} \x1b[93m \u{ea73}\x1b[0m", format_file(&e))
    );
    e.vcs_output = "?? a.txt\n".to_string();
    assert_eq!(
        format_git(&e, &opts(false, true, false, true, false)),
        "\x1b[91m \u{eadc} Unstaged\x1b[0m"
    );
}

#[test]
fn user_labels() {
    assert_eq!(format_user_label(&None), "\x1b[96munknown\x1b[0m");
    assert_eq!(format_user_label(&Some("alice".to_string())), "\x1b[96malice\x1b[0m");
    assert_eq!(format_user_name(0), "\x1b[96mroot\x1b[0m");
}

#[test]
fn detailed_columns_fixed() {
    let es = sample_dir();
    let o = opts(true, true, false, false, false);
    let l = print_files_detailed(&es, &o);
    assert_eq!(l.count, 2);
    assert_eq!(l.footer, "Total: 2");
    assert_eq!(l.table.len(), 2);
    for r in 0..l.table.len() {
        assert_eq!(l.table.get_row(r).unwrap().len(), 4);
    }
    assert_eq!(cell(&l.table, 0, 0), file_cell("a.txt"));
    assert_eq!(
        cell(&l.table, 0, 1),
        "|\x1b[94mrw-\x1b[0m|\x1b[95mr--\x1b[0m|\x1b[96mr--\x1b[0m|"
    );
    assert_eq!(cell(&l.table, 0, 2), time_text("5", "s"));
    let sized = print_files_detailed(&es, &opts(true, true, false, true, true));
    for r in 0..sized.table.len() {
        assert_eq!(sized.table.get_row(r).unwrap().len(), 6);
    }
    assert_eq!(cell(&sized.table, 0, 5), size_text("500", "b"));
    let header = detailed_header(&opts(true, true, false, true, true));
    assert_eq!(header.len(), 6);
    assert_eq!(header[1], "\x1b[90mGit Status\x1b[0m");
    assert_eq!(header[5], "\x1b[90mSize\x1b[0m");
    let row = detailed_row(&es[0], &Some("bob".to_string()), &o);
    assert_eq!(row.len(), detailed_header(&o).len());
    assert_eq!(row[3], "\x1b[96mbob\x1b[0m");
}

#[test]
fn detailed_table_is_drawn_with_its_style() {
    let l = print_files_detailed(&sample_dir(), &opts(false, true, false, false, false));
    let text = l.table.to_string();
    assert!(text.contains('\u{250a}'));
    assert!(text.contains('\u{2756}'));
    assert!(text.contains("Permissions"));
    let s = print_files_simple(&sample_dir(), 100, &opts(false, false, false, false, false));
    assert!(!s.table.to_string().contains('\u{250a}'));
}

#[test]
fn options_from_arguments() {
    let args: Vec<String> = vec!["lsplus".into(), "-las".into(), "src".into()];
    let o = parse_options(&args, false);
    assert_eq!(o.filepath, "src/");
    assert_eq!(o.options, "las");
    assert_eq!(o.option_flags, vec!['l', 'a', 's']);
    assert!(o.show_hidden && o.detailed && o.size && !o.recursive && !o.git);
    assert_eq!(listing_mode(&o), ListingMode::Detailed);
    assert_eq!(listing_pattern(&o), "src/*");
    let r = parse_options(&vec!["lsplus".into(), "-r".into()], true);
    assert_eq!(r.filepath, "");
    assert!(r.recursive && r.git);
    assert_eq!(listing_mode(&r), ListingMode::Recursive);
    assert_eq!(listing_pattern(&r), "*");
    let none = parse_options(&Vec::new(), false);
    assert_eq!(listing_mode(&none), ListingMode::Simple);
    let odd = parse_options(&vec!["".into(), "-a".into()], false);
    assert!(!odd.show_hidden);
    let dashes = parse_options(&vec!["p".into(), "-a-r".into()], false);
    assert_eq!(dashes.options, "ar");
}

#[test]
fn branch_list() {
    assert_eq!(
        format_git_branches("* main\n  dev\n"),
        "\x1b[92m  main  \x1b[0m\x1b[90m    \x1b[0m\x1b[90m  dev  \x1b[0m"
    );
    assert_eq!(format_git_branches(""), "\x1b[90m    \x1b[0m");
    assert_eq!(format_git_branches("* trunk\n"), "\x1b[92m  trunk  \x1b[0m");
}
