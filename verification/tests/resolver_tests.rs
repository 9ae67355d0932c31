use run_this::platform::Platform;
use run_this::resolver::{
    candidate_names, extension_list, find_windows_executable, first_present, has_extension, resolve,
    search_plan, Candidate,
};
use run_this::text::{appended, chars_of, ends_with, split_nonempty, str_eq};

fn strings(words: &[&str]) -> Vec<String> {
    words.iter().map(|w| w.to_string()).collect()
}

#[test]
fn extension_table_defaults_when_unset() {
    assert_eq!(extension_list(None), strings(&[".COM", ".EXE", ".BAT", ".CMD"]));
}

#[test]
fn extension_table_is_upper_case_without_empty_entries() {
    assert_eq!(extension_list(Some(".exe;.Bat;;.ps1;")), strings(&[".EXE", ".BAT", ".PS1"]));
    assert_eq!(extension_list(Some("")), strings(&[]));
    assert_eq!(extension_list(Some(";;;")), strings(&[]));
    assert_eq!(extension_list(Some(".cmd")), strings(&[".CMD"]));
}

#[test]
fn recognised_extension_ignores_case() {
    let table = extension_list(None);
    assert!(has_extension("tool.exe", &table));
    assert!(has_extension("tool.EXE", &table));
    assert!(has_extension("Tool.Cmd", &table));
    assert!(has_extension("archive.tar.bat", &table));
    assert!(!has_extension("tool", &table));
    assert!(!has_extension("tool.txt", &table));
    assert!(!has_extension("tool.exe.bak", &table));
    assert!(!has_extension("exe", &table));
    assert!(!has_extension("", &table));
    assert!(!has_extension("tool.exe", &strings(&[])));
}

#[test]
fn names_tried_in_a_directory() {
    let table = extension_list(Some(".COM;.EXE"));
    assert_eq!(candidate_names("tool", &table), strings(&["tool", "tool.COM", "tool.EXE"]));
    assert_eq!(candidate_names("tool.txt", &table), strings(&["tool.txt", "tool.txt.COM", "tool.txt.EXE"]));
    assert_eq!(candidate_names("tool.exe", &table), strings(&["tool.exe"]));
    assert_eq!(candidate_names("tool", &strings(&[])), strings(&["tool"]));
}

#[test]
fn plan_goes_directory_by_directory() {
    let dirs = strings(&["/first", "/second"]);
    let plan = search_plan("tool", &dirs, Some(".com;.exe"));
    let shape: Vec<(usize, &str)> = plan.iter().map(|c| (c.dir, c.file_name.as_str())).collect();
    assert_eq!(
        shape,
        vec![
            (0, "tool"),
            (0, "tool.COM"),
            (0, "tool.EXE"),
            (1, "tool"),
            (1, "tool.COM"),
            (1, "tool.EXE"),
        ]
    );
    assert_eq!(
        plan[4],
        Candidate { dir: 1, file_name: "tool.COM".to_string(), path: "/second/tool.COM".to_string() }
    );
    let paths: Vec<&str> = plan.iter().map(|c| c.path.as_str()).collect();
    assert_eq!(
        paths,
        vec![
            "/first/tool",
            "/first/tool.COM",
            "/first/tool.EXE",
            "/second/tool",
            "/second/tool.COM",
            "/second/tool.EXE",
        ]
    );
}

#[test]
fn plan_for_a_name_with_extension_is_exact() {
    let dirs = strings(&["/first", "/second", "/third"]);
    let plan = search_plan("tool.Exe", &dirs, None);
    let shape: Vec<(usize, &str)> = plan.iter().map(|c| (c.dir, c.file_name.as_str())).collect();
    assert_eq!(shape, vec![(0, "tool.Exe"), (1, "tool.Exe"), (2, "tool.Exe")]);
}

#[test]
fn plan_is_empty_without_directories() {
    assert!(search_plan("tool", &strings(&[]), None).is_empty());
    assert_eq!(find_windows_executable("tool", &strings(&[]), None), None);
}

#[test]
fn first_present_is_the_earliest_hit() {
    assert_eq!(first_present(&vec![]), None);
    assert_eq!(first_present(&vec![false, false, false]), None);
    assert_eq!(first_present(&vec![true]), Some(0));
    assert_eq!(first_present(&vec![false, true, true]), Some(1));
    assert_eq!(first_present(&vec![false, false, false, true]), Some(3));
}

#[test]
fn earlier_directory_beats_bare_name_in_a_later_one() {
    let dirs = strings(&["/first", "/second"]);
    let plan = search_plan("tool", &dirs, Some(".EXE"));
    let present: Vec<bool> =
        plan.iter().map(|c| c.path == "/first/tool.EXE" || c.path == "/second/tool").collect();
    let hit = first_present(&present).unwrap();
    assert_eq!(plan[hit].path, "/first/tool.EXE");

    let present: Vec<bool> =
        plan.iter().map(|c| c.path == "/first/tool.EXE" || c.path == "/first/tool").collect();
    let hit = first_present(&present).unwrap();
    assert_eq!(plan[hit].path, "/first/tool");
}

#[test]
fn finds_a_regular_file_on_the_search_path() {
    let dirs = strings(&["/no-such-directory-12345", "/usr/bin", "/bin"]);
    let found = find_windows_executable("env", &dirs, Some(".EXE"));
    assert_eq!(found, Some("/usr/bin/env".to_string()));
    assert_eq!(find_windows_executable("env", &dirs, None), Some("/usr/bin/env".to_string()));
    assert_eq!(find_windows_executable("non-existent-command-12345", &dirs, None), None);
    assert_eq!(find_windows_executable("bin", &strings(&["/usr"]), None), None);
}

#[test]
fn resolving_twice_gives_the_same_handle() {
    let dirs = strings(&["/usr/bin", "/bin"]);
    let first = resolve("env", Platform::Windows, &dirs, None);
    let second = resolve("env", Platform::Windows, &dirs, None);
    assert_eq!(first, Some("/usr/bin/env".to_string()));
    assert_eq!(first, second);

    let first = resolve("non-existent-command-12345", Platform::Windows, &dirs, None);
    let second = resolve("non-existent-command-12345", Platform::Windows, &dirs, None);
    assert_eq!(first, None);
    assert_eq!(first, second);

    let first = resolve("non-existent-command-12345", Platform::Linux, &dirs, None);
    let second = resolve("non-existent-command-12345", Platform::Linux, &dirs, None);
    assert_eq!(first, None);
    assert_eq!(first, second);
}

#[test]
fn direct_lookup_hands_back_the_name() {
    let none = strings(&[]);
    assert_eq!(resolve("echo", Platform::Linux, &none, None), Some("echo".to_string()));
    assert_eq!(resolve("echo", Platform::Unknown, &none, None), Some("echo".to_string()));
    assert_eq!(resolve("non-existent-command-12345", Platform::MacOS, &none, None), None);
}

#[test]
fn split_keeps_non_empty_pieces_in_order() {
    assert_eq!(split_nonempty("a;b;c", ';'), strings(&["a", "b", "c"]));
    assert_eq!(split_nonempty(";a;;b;", ';'), strings(&["a", "b"]));
    assert_eq!(split_nonempty("", ';'), strings(&[]));
    assert_eq!(split_nonempty(";", ';'), strings(&[]));
    assert_eq!(split_nonempty("abc", ';'), strings(&["abc"]));
    assert_eq!(split_nonempty("é;ß;日本", ';'), strings(&["é", "ß", "日本"]));
}

#[test]
fn text_helpers_on_values() {
    assert_eq!(chars_of("aé日"), vec!['a', 'é', '日']);
    assert!(str_eq("git", "git"));
    assert!(!str_eq("git", "Git"));
    assert!(!str_eq("git", "gitk"));
    assert!(str_eq("", ""));
    assert_eq!(appended("tool", ".EXE"), "tool.EXE");
    assert!(ends_with(&chars_of("TOOL.EXE"), &chars_of(".EXE")));
    assert!(ends_with(&chars_of("TOOL.EXE"), &chars_of("")));
    assert!(ends_with(&chars_of(".EXE"), &chars_of(".EXE")));
    assert!(!ends_with(&chars_of("EXE"), &chars_of(".EXE")));
    assert!(!ends_with(&chars_of("TOOL.EXE"), &chars_of(".COM")));
}
