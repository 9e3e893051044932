use mac_explorer::actions::{actions, ActionState, Effect};
use mac_explorer::files::{Child, FileEntry, FileType, IoError, Metadata, Timestamp};
use mac_explorer::paths::join_path;
use mac_explorer::search::{contains_bytes, found_at, matches_search};
use mac_explorer::tab::Tab;
use mac_explorer::tabviewer::AppData;
use std::collections::HashSet;

fn meta(file_type: FileType) -> Metadata {
    let t = Timestamp { secs: 0, nanos: 0 };
    Metadata { len: 0, file_type, created: t, modified: t, accessed: t }
}

fn dir_stat() -> Result<Metadata, IoError> {
    Ok(meta(FileType::Directory))
}

fn child(path: &str, file_type: FileType) -> Result<Child, IoError> {
    Ok(Child { path: path.to_string(), meta: meta(file_type) })
}

fn listing(dir: &str, names: &[&str]) -> Result<Vec<Result<Child, IoError>>, IoError> {
    Ok(names.iter().map(|n| child(&format!("{}/{}", dir, n), FileType::File)).collect())
}

fn tab_on(dir: &str, names: &[&str]) -> Tab {
    Tab::new2(dir, egui::Id::new(1u64), dir_stat(), listing(dir, names))
}

fn rows(tab: &Tab) -> Vec<usize> {
    let mut rows: Vec<usize> = tab.selected_entries.iter().copied().collect();
    rows.sort();
    rows
}

fn names(entries: &Vec<&FileEntry>) -> Vec<String> {
    entries.iter().map(|e| e.file_name.clone()).collect()
}

#[test]
fn a_new_tab_shows_what_was_read() {
    let tab = tab_on("/d", &["b.txt", "a.txt"]);
    assert_eq!(tab.id, egui::Id::new(1u64));
    assert_eq!(tab.path, "/d");
    assert_eq!(tab.search, "");
    assert_eq!(tab.info.as_ref().unwrap().path, "/d");
    assert_eq!(tab.info.as_ref().unwrap().file_name, "d");
    let entries = tab.entries.as_ref().unwrap();
    assert_eq!(entries.len(), 2);
    assert_eq!(entries[0].file_name, "a.txt");
    assert_eq!(entries[1].file_name, "b.txt");
    assert!(tab.selected_entries.is_empty());
    assert_eq!(tab.last_clicked_entry, None);
    assert!(tab.previous_paths.is_empty());
    assert!(tab.previous_paths2.is_empty());
    assert_eq!(tab.state, ActionState::default());
}

#[test]
fn a_path_that_cannot_be_read_still_makes_a_tab() {
    let tab = Tab::new2(
        "/gone",
        egui::Id::new(2u64),
        Err(IoError::PathNotFound),
        Err(IoError::PathNotFound),
    );
    assert_eq!(tab.path, "/gone");
    assert_eq!(tab.info, Err(IoError::PathNotFound));
    assert_eq!(tab.entries, Err(IoError::PathNotFound));
    assert!(tab.refresh("/gone"));
    assert!(tab.action_entries().is_empty());
}

#[test]
fn two_plain_clicks_on_a_row_leave_nothing_selected() {
    let mut tab = tab_on("/d", &["a", "b", "c"]);
    tab.click(1, false, false);
    assert_eq!(rows(&tab), vec![1]);
    assert_eq!(tab.last_clicked_entry, Some(1));
    tab.click(1, false, false);
    assert_eq!(rows(&tab), Vec::<usize>::new());
    assert_eq!(tab.last_clicked_entry, Some(1));
}

#[test]
fn a_plain_click_on_another_row_replaces_the_selection() {
    let mut tab = tab_on("/d", &["a", "b", "c", "d"]);
    tab.click(0, false, false);
    tab.click(2, false, true);
    assert_eq!(rows(&tab), vec![0, 2]);
    tab.click(3, false, false);
    assert_eq!(rows(&tab), vec![3]);
}

#[test]
fn a_plain_click_on_one_of_several_selected_rows_clears_them_all() {
    let mut tab = tab_on("/d", &["a", "b", "c", "d"]);
    tab.click(0, false, false);
    tab.click(2, false, true);
    tab.click(2, false, false);
    assert_eq!(rows(&tab), Vec::<usize>::new());
    tab.click(2, false, false);
    assert_eq!(rows(&tab), vec![2]);
}

#[test]
fn a_shift_click_selects_the_range_from_the_anchor() {
    let mut tab = tab_on("/d", &["a", "b", "c", "d", "e", "f", "g"]);
    tab.click(2, false, false);
    tab.click(5, true, false);
    assert_eq!(rows(&tab), vec![2, 3, 4, 5]);
    assert_eq!(tab.last_clicked_entry, Some(5));
    tab.click(0, true, false);
    assert_eq!(rows(&tab), vec![0, 1, 2, 3, 4, 5]);
    assert_eq!(tab.last_clicked_entry, Some(0));
}

#[test]
fn a_shift_click_takes_no_row_away() {
    let mut tab = tab_on("/d", &["a", "b", "c", "d", "e", "f", "g"]);
    tab.click(6, false, false);
    tab.click(1, false, true);
    tab.click(3, true, false);
    assert_eq!(rows(&tab), vec![1, 2, 3, 6]);
    tab.click(3, true, false);
    assert_eq!(rows(&tab), vec![1, 2, 3, 6]);
}

#[test]
fn a_shift_click_without_an_anchor_only_sets_the_anchor() {
    let mut tab = tab_on("/d", &["a", "b", "c"]);
    tab.click(1, true, false);
    assert_eq!(rows(&tab), Vec::<usize>::new());
    assert_eq!(tab.last_clicked_entry, Some(1));
}

#[test]
fn a_command_click_toggles_one_row() {
    let mut tab = tab_on("/d", &["a", "b", "c"]);
    tab.click(0, false, true);
    tab.click(2, false, true);
    assert_eq!(rows(&tab), vec![0, 2]);
    tab.click(0, false, true);
    assert_eq!(rows(&tab), vec![2]);
    assert_eq!(tab.last_clicked_entry, Some(0));
}

#[test]
fn going_to_the_path_on_show_needs_no_read() {
    let mut tab = tab_on("/d", &["a"]);
    assert!(!tab.refresh("/d"));
    assert!(tab.refresh("/e"));
    tab.refresh_hard("/e", dir_stat(), listing("/e", &["x"]));
    assert!(!tab.refresh("/e"));
    assert!(!tab.refresh("/e"));
    assert!(tab.refresh("/d"));
    assert_eq!(tab.previous_paths, vec!["/d".to_string()]);
}

#[test]
fn a_hard_refresh_replaces_the_content_and_keeps_the_identity() {
    let mut tab = tab_on("/d", &["a", "b"]);
    tab.click(1, false, false);
    tab.search = "a".to_string();
    tab.state.add_entry = Some(("x".to_string(), false));
    tab.refresh_hard("/d/sub", dir_stat(), listing("/d/sub", &["z", "y"]));
    assert_eq!(tab.id, egui::Id::new(1u64));
    assert_eq!(tab.path, "/d/sub");
    assert_eq!(tab.search, "");
    assert_eq!(tab.info.as_ref().unwrap().path, "/d/sub");
    assert_eq!(tab.entries.as_ref().unwrap()[0].file_name, "y");
    assert!(tab.selected_entries.is_empty());
    assert_eq!(tab.last_clicked_entry, None);
    assert_eq!(tab.previous_paths, vec!["/d".to_string()]);
    assert!(tab.previous_paths2.is_empty());
    assert_eq!(tab.state, ActionState::default());
    tab.refresh_hard("/d/sub", dir_stat(), listing("/d/sub", &["z"]));
    assert_eq!(tab.previous_paths, vec!["/d".to_string(), "/d/sub".to_string()]);
    assert_eq!(tab.entries.as_ref().unwrap().len(), 1);
}

#[test]
fn a_hard_refresh_onto_an_unreadable_path_shows_the_error() {
    let mut tab = tab_on("/d", &["a"]);
    tab.refresh_hard("/locked", Err(IoError::PermissionDenied), Err(IoError::PermissionDenied));
    assert_eq!(tab.path, "/locked");
    assert_eq!(tab.info, Err(IoError::PermissionDenied));
    assert_eq!(tab.entries, Err(IoError::PermissionDenied));
    assert_eq!(tab.previous_paths, vec!["/d".to_string()]);
    assert!(tab.refresh("/locked"));
}

#[test]
fn going_back_returns_to_the_last_path_left() {
    let mut tab = tab_on("/a", &[]);
    tab.refresh_hard("/b", dir_stat(), listing("/b", &[]));
    tab.refresh_hard("/c", dir_stat(), listing("/c", &[]));
    assert_eq!(tab.back_target(), Some("/b".to_string()));
    tab.navigate_back(dir_stat(), listing("/b", &["f"]));
    assert_eq!(tab.path, "/b");
    assert_eq!(tab.id, egui::Id::new(1u64));
    assert_eq!(tab.entries.as_ref().unwrap().len(), 1);
    assert_eq!(tab.previous_paths, vec!["/a".to_string()]);
    assert_eq!(tab.previous_paths2, vec!["/c".to_string()]);
    assert_eq!(tab.back_target(), Some("/a".to_string()));
    tab.navigate_back(dir_stat(), listing("/a", &[]));
    assert_eq!(tab.path, "/a");
    assert!(tab.previous_paths.is_empty());
    assert_eq!(tab.previous_paths2, vec!["/c".to_string(), "/b".to_string()]);
}

#[test]
fn going_back_with_no_way_back_changes_nothing() {
    let mut tab = tab_on("/a", &["x", "y"]);
    tab.click(1, false, false);
    assert_eq!(tab.back_target(), None);
    tab.navigate_back(Err(IoError::PathNotFound), Err(IoError::PathNotFound));
    assert_eq!(tab.path, "/a");
    assert_eq!(tab.entries.as_ref().unwrap().len(), 2);
    assert_eq!(rows(&tab), vec![1]);
    assert!(tab.previous_paths2.is_empty());
}

#[test]
fn going_up_asks_for_the_parent() {
    let tab = tab_on("/a/b", &[]);
    assert_eq!(tab.go_up(), Some("/a".to_string()));
    let root = tab_on("/", &[]);
    assert_eq!(root.go_up(), None);
    let relative = tab_on("a", &[]);
    assert_eq!(relative.go_up(), Some("".to_string()));
    let empty = tab_on("", &[]);
    assert_eq!(empty.go_up(), None);
}

#[test]
fn going_up_to_what_is_on_show_needs_no_read() {
    let mut tab = tab_on("/a", &[]);
    tab.path = "/a/b".to_string();
    assert_eq!(tab.go_up(), None);
    assert_eq!(tab.go_up_to(Some("/a".to_string())), None);
    assert_eq!(tab.go_up_to(Some("/z".to_string())), Some("/z".to_string()));
    assert_eq!(tab.go_up_to(None), None);
}

#[test]
fn with_nothing_selected_an_action_is_about_the_directory() {
    let tab = tab_on("/d", &["a.txt", "b.txt"]);
    assert!(tab.is_main());
    let found = tab.action_entries();
    assert_eq!(found.len(), 1);
    assert_eq!(found[0].path, "/d");
    assert_eq!(found[0], tab.info.as_ref().unwrap());
}

#[test]
fn with_rows_selected_an_action_is_about_their_entries() {
    let mut tab = tab_on("/d", &["c.txt", "a.txt", "d.txt", "b.txt"]);
    tab.click(3, false, true);
    tab.click(0, false, true);
    tab.click(2, false, true);
    assert!(!tab.is_main());
    assert_eq!(names(&tab.action_entries()), vec!["a.txt", "c.txt", "d.txt"]);
}

#[test]
fn a_selected_row_beyond_the_listing_stands_for_nothing() {
    let mut tab = tab_on("/d", &["a.txt"]);
    tab.click(5, false, false);
    assert!(!tab.is_main());
    assert!(tab.action_entries().is_empty());
}

#[test]
fn deleting_a_selected_file_asks_for_one_reload() {
    let list = actions();
    let mut tab = tab_on("/d", &["a.txt", "b.txt"]);
    tab.begin_pass();
    tab.click(0, false, false);
    let effects = tab.invoke(&list[6]);
    assert_eq!(effects, vec![Effect::RemoveFile { path: "/d/a.txt".to_string() }]);
    assert_eq!(tab.reload_target(), Some("/d".to_string()));
    tab.refresh_hard("/d", dir_stat(), listing("/d", &["b.txt"]));
    assert_eq!(tab.reload_target(), None);
    let entries = tab.entries.as_ref().unwrap();
    assert_eq!(entries.len(), 1);
    assert_eq!(entries[0].file_name, "b.txt");
    assert!(tab.selected_entries.is_empty());
}

#[test]
fn delete_is_not_available_for_the_directory_itself() {
    let list = actions();
    let mut tab = tab_on("/d", &["a.txt"]);
    let effects = tab.invoke(&list[6]);
    assert_eq!(effects, vec![]);
    assert_eq!(tab.state, ActionState::default());
    assert_eq!(tab.reload_target(), None);
}

#[test]
fn add_file_is_not_available_for_selected_rows() {
    let list = actions();
    let mut tab = tab_on("/d", &["a.txt"]);
    tab.click(0, false, false);
    assert_eq!(tab.invoke(&list[0]), vec![]);
    assert_eq!(tab.state.add_entry, None);
}

#[test]
fn a_new_file_is_created_below_the_path_once_its_name_is_confirmed() {
    let list = actions();
    let mut tab = tab_on("/d", &["a.txt"]);
    assert_eq!(tab.invoke(&list[0]), vec![]);
    assert_eq!(tab.state.add_entry, Some((String::new(), false)));
    assert_eq!(tab.reload_target(), None);
    tab.begin_pass();
    assert_eq!(tab.state.add_entry, Some((String::new(), false)));
    tab.state.add_entry.as_mut().unwrap().0.push_str("new.txt");
    let effect = tab.commit_entry();
    assert_eq!(effect, Some(Effect::CreateFile { path: "/d/new.txt".to_string() }));
    assert_eq!(tab.state.add_entry, None);
    assert_eq!(tab.reload_target(), Some("/d".to_string()));
    tab.refresh_hard("/d", dir_stat(), listing("/d", &["a.txt", "new.txt"]));
    let entries = tab.entries.as_ref().unwrap();
    assert_eq!(entries.len(), 2);
    assert_eq!(entries[1].file_name, "new.txt");
}

#[test]
fn a_new_directory_is_created_with_those_above_it() {
    let list = actions();
    let mut tab = tab_on("/d", &[]);
    tab.invoke(&list[1]);
    tab.state.add_entry.as_mut().unwrap().0.push_str("x/y");
    assert_eq!(tab.commit_entry(), Some(Effect::CreateDirAll { path: "/d/x/y".to_string() }));
    assert!(tab.state.relead);
}

#[test]
fn confirming_when_nothing_waits_does_nothing() {
    let mut tab = tab_on("/d", &[]);
    assert_eq!(tab.commit_entry(), None);
    assert_eq!(tab.state, ActionState::default());
}

#[test]
fn a_pass_begins_without_a_request_for_a_reload() {
    let mut tab = tab_on("/d", &[]);
    tab.state.relead = true;
    tab.state.add_entry = Some(("n".to_string(), true));
    tab.begin_pass();
    assert!(!tab.state.relead);
    assert_eq!(tab.state.add_entry, Some(("n".to_string(), true)));
}

#[test]
fn opening_several_entries_launches_once_for_each() {
    let list = actions();
    let mut tab = tab_on("/d", &["a", "b", "c"]);
    tab.click(0, false, false);
    tab.click(2, true, false);
    let effects = tab.invoke(&list[5]);
    assert_eq!(
        effects,
        vec![
            Effect::Launch { app_name: "Zed".to_string(), path: "/d/a".to_string() },
            Effect::Launch { app_name: "Zed".to_string(), path: "/d/b".to_string() },
            Effect::Launch { app_name: "Zed".to_string(), path: "/d/c".to_string() },
        ]
    );
    assert_eq!(tab.reload_target(), None);
    let still: HashSet<usize> = [0, 1, 2].into_iter().collect();
    assert_eq!(tab.selected_entries, still);
}

#[test]
fn the_search_text_is_looked_for_without_regard_to_case() {
    assert!(matches_search("Report.TXT", "report"));
    assert!(matches_search("Report.TXT", "T.t"));
    assert!(matches_search("Report.TXT", ""));
    assert!(matches_search("", ""));
    assert!(!matches_search("Report.TXT", "reports"));
    assert!(!matches_search("", "a"));
    assert!(matches_search("\u{c9}T\u{c9}", "\u{e9}t\u{e9}"));
    assert!(!matches_search("abc", "ac"));
    let mut tab = tab_on("/d", &["Alpha.txt", "beta.txt"]);
    tab.search = "ALPHA".to_string();
    let entries = tab.entries.as_ref().unwrap();
    assert!(tab.is_visible(&entries[0]));
    assert!(!tab.is_visible(&entries[1]));
}

#[test]
fn a_run_of_bytes_is_found_where_it_stands() {
    assert!(contains_bytes(b"", b""));
    assert!(contains_bytes(b"", b"abc"));
    assert!(contains_bytes(b"abc", b"abc"));
    assert!(contains_bytes(b"bc", b"abc"));
    assert!(contains_bytes(b"ab", b"aab"));
    assert!(!contains_bytes(b"abcd", b"abc"));
    assert!(!contains_bytes(b"ba", b"abc"));
    assert!(found_at(b"bc", b"abc", 1));
    assert!(!found_at(b"bc", b"abc", 0));
    assert!(!found_at(b"bc", b"abc", 2));
    assert!(!found_at(b"", b"abc", 4));
    assert!(found_at(b"", b"abc", 3));
}

#[test]
fn the_title_of_a_tab_is_the_path_that_was_read() {
    let data = AppData::new();
    let tab = tab_on("/d", &[]);
    assert_eq!(data.title(&tab), "/d");
    assert_eq!(data.id(&tab), egui::Id::new(1u64));
    let broken =
        Tab::new2("/x", egui::Id::new(3u64), Err(IoError::NotADirectory), Err(IoError::NotADirectory));
    assert_eq!(data.title(&broken), "invalid path");
    assert_eq!(data.actions, actions());
}

#[test]
fn shared_data_starts_empty_by_default() {
    let data = AppData::default();
    assert!(data.favorites.is_empty());
    assert!(data.actions.is_empty());
    assert_eq!(data.start_path(), "/");
}

#[test]
fn a_favourite_is_kept_once() {
    let mut data = AppData::new();
    assert_eq!(data.start_path(), "/");
    data.add_favorite("/home");
    data.add_favorite("/tmp");
    data.add_favorite("/home");
    assert_eq!(data.favorites, vec!["/home".to_string(), "/tmp".to_string()]);
    assert!(data.is_favorite("/tmp"));
    assert!(!data.is_favorite("/var"));
    assert_eq!(data.start_path(), "/home");
    data.remove_favorite(0);
    assert_eq!(data.favorites, vec!["/tmp".to_string()]);
    data.remove_favorite(4);
    assert_eq!(data.favorites, vec!["/tmp".to_string()]);
    assert_eq!(data.start_path(), "/tmp");
}

#[test]
fn a_name_is_joined_to_a_path_by_one_separator() {
    assert_eq!(join_path("/d", "new.txt"), "/d/new.txt");
    assert_eq!(join_path("/d/", "new.txt"), "/d/new.txt");
    assert_eq!(join_path("/", "etc"), "/etc");
    assert_eq!(join_path("", "rel"), "rel");
    assert_eq!(join_path("d", "sub/file"), "d/sub/file");
    assert_eq!(join_path("/d", "/abs"), "/abs");
    assert_eq!(join_path("/d", ""), "/d/");
    assert_eq!(join_path("", ""), "");
    assert_eq!(join_path("/d\u{e9}", "\u{4e2d}"), "/d\u{e9}/\u{4e2d}");
}

#[test]
fn joining_agrees_with_the_paths_of_the_standard_library() {
    let bases = ["", "/", "/d", "/d/", "d", "d//", "/a/b/c", ".", "..", "/d\u{e9}"];
    let names = ["", "x", "x/y", "/x", "//x", ".", "..", "x/", "\u{4e2d}.txt"];
    for base in bases {
        for name in names {
            let joined = std::path::Path::new(base).join(name);
            assert_eq!(join_path(base, name), joined.to_str().unwrap(), "{:?} {:?}", base, name);
        }
    }
}
