use kicad_wakatime::waka::{PluginError, WakaKicad};

#[test]
fn missing_cli_is_an_error() {
    let p = WakaKicad::default();
    assert_eq!(p.check_cli_installed(false), Err(PluginError::CliNotFound));
    assert_eq!(p.check_cli_installed(true), Ok(()));
    assert_eq!(
        PluginError::CliNotFound.message(),
        "Could not find WakaTime CLI!"
    );
}

#[test]
fn api_key_is_read_from_configuration_text() {
    let mut p = WakaKicad::default();
    let text = "[settings]\napi_key=waka_k\n";
    assert_eq!(p.get_api_key(text), Some(String::from("waka_k")));
    assert_eq!(p.get_api_key("[settings]\nother=1\n"), None);
    assert_eq!(p.get_api_key("[unclosed\n"), None);
}

#[test]
fn first_document_is_recorded_without_a_heartbeat() {
    let mut p = WakaKicad::default();
    p.first_iteration_finished = true;
    p.set_current_time(10_000);
    let watch = p.set_current_file_from_document_specifier(
        String::from("b.kicad_pcb"),
        String::from("/home/u/proj"),
    );
    assert_eq!(watch, Some(String::from("/home/u/proj/b.kicad_pcb")));
    assert_eq!(p.filename, "b.kicad_pcb");
    assert_eq!(p.last_sent_time, 0, "the first document sends nothing");
}

#[test]
fn document_change_owes_a_heartbeat() {
    let mut p = WakaKicad::default();
    p.first_iteration_finished = true;
    p.set_current_time(10_000);
    p.set_current_file_from_document_specifier(
        String::from("b.kicad_pcb"),
        String::from("/home/u/proj"),
    );
    p.set_current_time(20_000);
    let watch = p.set_current_file_from_document_specifier(
        String::from("c.kicad_pcb"),
        String::from("/home/u/proj"),
    );
    assert_eq!(watch, Some(String::from("/home/u/proj/c.kicad_pcb")));
    assert_eq!(p.filename, "c.kicad_pcb");
    assert_eq!(p.last_sent_time, 20_000);
}

#[test]
fn unchanged_document_asks_for_nothing() {
    let mut p = WakaKicad::default();
    p.first_iteration_finished = true;
    p.set_current_time(10_000);
    p.set_current_file_from_document_specifier(
        String::from("b.kicad_pcb"),
        String::from("/home/u/proj"),
    );
    let watch = p.set_current_file_from_document_specifier(
        String::from("b.kicad_pcb"),
        String::from("/home/u/proj"),
    );
    assert_eq!(watch, None);
}

#[test]
fn heartbeats_wait_for_the_first_iteration() {
    let mut p = WakaKicad::default();
    p.set_current_time(10_000);
    p.maybe_send_heartbeat(String::from("b.kicad_pcb"), true);
    assert_eq!(p.filename, "", "nothing happens before the first iteration");
    assert_eq!(p.last_sent_time, 0);
    p.first_iteration_finished = true;
    p.maybe_send_heartbeat(String::from("b.kicad_pcb"), true);
    assert_eq!(p.filename, "b.kicad_pcb");
    assert_eq!(p.last_sent_time, 10_000);
}

#[test]
fn changed_board_items_owe_a_heartbeat() {
    let mut p = WakaKicad::default();
    p.first_iteration_finished = true;
    p.filename = String::from("b.kicad_pcb");
    p.set_current_time(10_000);
    p.set_many_items(vec![(1, vec![1, 2]), (2, vec![])]);
    assert_eq!(p.items, vec![(1, vec![1, 2]), (2, vec![])]);
    assert_eq!(
        p.last_sent_time, 0,
        "a change within two minutes of the start sends nothing"
    );
    p.set_current_time(130_000);
    p.set_many_items(vec![(1, vec![1, 2]), (2, vec![])]);
    assert_eq!(p.last_sent_time, 0, "an unchanged snapshot sends nothing");
    p.set_many_items(vec![(1, vec![1, 2, 3]), (2, vec![])]);
    assert_eq!(
        p.last_sent_time, 130_000,
        "a changed snapshot after enough time sends"
    );
}

#[test]
fn waka_cli_and_cfg_paths() {
    let p = WakaKicad::default();
    assert_eq!(p.cfg_path("/home/u"), "/home/u/.wakatime.cfg");
    assert_eq!(
        p.cli_path(("windows", "amd64"), "/home/u"),
        "/home/u/.wakatime/wakatime-cli-windows-amd64.exe"
    );
    assert_eq!(
        p.cli_path(("darwin", "arm64"), "/home/u"),
        "/home/u/.wakatime/wakatime-cli-darwin-arm64"
    );
}

#[test]
fn waka_suppresses_within_one_second() {
    let mut p = WakaKicad::default();
    p.first_iteration_finished = true;
    p.set_current_time(10_000);
    p.maybe_send_heartbeat(String::from("b.kicad_pcb"), true);
    assert_eq!(p.last_sent_time, 10_000);
    p.set_current_time(10_999);
    p.maybe_send_heartbeat(String::from("c.kicad_pcb"), true);
    assert_eq!(
        p.last_sent_time, 10_000,
        "a save within a second of the last heartbeat is suppressed"
    );
    assert_eq!(p.filename, "b.kicad_pcb");
    p.set_current_time(11_000);
    p.maybe_send_heartbeat(String::from("c.kicad_pcb"), true);
    assert_eq!(p.last_sent_time, 11_000, "a full second is enough again");
    assert_eq!(p.filename, "c.kicad_pcb");
}

#[test]
fn two_minute_rule_matches_the_main_plugin() {
    let mut p = WakaKicad::default();
    p.first_iteration_finished = true;
    p.filename = String::from("b.kicad_pcb");
    p.set_current_time(10_000);
    p.maybe_send_heartbeat(String::from("b.kicad_pcb"), true);
    assert_eq!(p.last_sent_time, 10_000);
    p.set_current_time(130_000);
    p.maybe_send_heartbeat(String::from("b.kicad_pcb"), false);
    assert_eq!(p.last_sent_time, 10_000, "exactly two minutes is not enough");
    p.set_current_time(130_001);
    p.maybe_send_heartbeat(String::from("b.kicad_pcb"), false);
    assert_eq!(p.last_sent_time, 130_001);
}
