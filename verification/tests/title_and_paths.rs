use kicad_wakatime::paths::{
    exe_matches_name, file_name_of, file_stem_of, parent_dir_of, path_join, rfind_char,
};
use kicad_wakatime::plugin::Plugin;
use kicad_wakatime::title::{filename_for, parse_title, title_filename, window_needs_permission_warning};

#[test]
fn title_splits_at_first_em_dash() {
    let r = parse_title("proj \u{2014} Schematic Editor").unwrap();
    assert_eq!(r.0, "proj");
    assert_eq!(r.1, "Schematic Editor");
}

#[test]
fn title_with_two_separators_splits_at_the_first() {
    let r = parse_title("a \u{2014} b \u{2014} PCB Editor").unwrap();
    assert_eq!(r.0, "a");
    assert_eq!(r.1, "b \u{2014} PCB Editor");
}

#[test]
fn unsaved_marker_is_dropped() {
    let r = parse_title("*proj \u{2014} PCB Editor").unwrap();
    assert_eq!(r.0, "proj");
    assert_eq!(r.1, "PCB Editor");
}

#[test]
fn title_without_separator_does_not_parse() {
    assert!(parse_title("plain window title").is_none());
    assert!(parse_title("").is_none());
}

#[test]
fn editor_names_pick_the_extension() {
    assert_eq!(filename_for("p", "Schematic Editor"), "p.kicad_sch");
    assert_eq!(filename_for("p", "PCB Editor"), "p.kicad_pcb");
    assert_eq!(filename_for("p", "Symbol Editor"), "");
}

#[test]
fn title_filename_goes_through_both_steps() {
    assert_eq!(
        title_filename("*board \u{2014} PCB Editor").unwrap(),
        "board.kicad_pcb"
    );
    assert_eq!(title_filename("no separator here"), None);
    assert_eq!(
        title_filename("x \u{2014} Footprint Editor").unwrap(),
        "",
        "an unknown editor yields the empty name"
    );
}

#[test]
fn permission_warning_only_for_own_untitled_window() {
    assert!(window_needs_permission_warning("kicad-wakatime", ""));
    assert!(!window_needs_permission_warning("kicad-wakatime", "t"));
    assert!(!window_needs_permission_warning("kicad", ""));
}

#[test]
fn path_helpers() {
    assert_eq!(rfind_char("a/b/c", '/'), Some(3));
    assert_eq!(rfind_char("abc", '/'), None);
    assert_eq!(file_name_of("/home/u/p.kicad_sch"), "p.kicad_sch");
    assert_eq!(file_name_of("bare.txt"), "bare.txt");
    assert_eq!(file_stem_of("a.b.c"), "a.b");
    assert_eq!(file_stem_of("nodot"), "nodot");
    assert_eq!(file_stem_of(".hidden"), ".hidden");
    assert_eq!(parent_dir_of("/home/u/p.kicad_sch"), "/home/u");
    assert_eq!(parent_dir_of("bare"), "");
    assert_eq!(path_join("/home/u", "f.txt"), "/home/u/f.txt");
}

#[test]
fn process_executable_matching() {
    assert!(exe_matches_name("/usr/bin/eeschema", "eeschema"));
    assert!(exe_matches_name("C:/kicad/pcbnew.exe", "pcbnew"));
    assert!(!exe_matches_name("/usr/bin/xeeschema", "eeschema"));
    assert!(!exe_matches_name("/usr/bin/eeschema2", "eeschema"));
}

#[test]
fn scan_fills_the_full_path_map() {
    let mut p = Plugin::new(false, false);
    let entries = vec![
        (String::from("readme.md"), String::from("/r/readme.md")),
        (String::from("a.kicad_sch"), String::from("/r/a.kicad_sch")),
        (String::from("b.kicad_pcb"), String::from("/r/sub/b.kicad_pcb")),
    ];
    p.add_full_paths(&entries);
    assert_eq!(
        p.get_full_path(String::from("a.kicad_sch")),
        Some(String::from("/r/a.kicad_sch"))
    );
    assert_eq!(
        p.get_full_path(String::from("b.kicad_pcb")),
        Some(String::from("/r/sub/b.kicad_pcb"))
    );
    assert_eq!(p.get_full_path(String::from("readme.md")), None);
    assert_eq!(p.get_full_path(String::from("missing.kicad_sch")), None);
}

#[test]
fn duplicate_document_names_empty_the_map() {
    let mut p = Plugin::new(false, false);
    let entries = vec![
        (String::from("a.kicad_sch"), String::from("/r/a.kicad_sch")),
        (String::from("a.kicad_sch"), String::from("/r/sub/a.kicad_sch")),
        (String::from("b.kicad_pcb"), String::from("/r/b.kicad_pcb")),
    ];
    p.add_full_paths(&entries);
    assert_eq!(p.get_full_path(String::from("a.kicad_sch")), None);
    assert_eq!(p.get_full_path(String::from("b.kicad_pcb")), None);
    assert_eq!(p.full_paths.len(), 0);
}
