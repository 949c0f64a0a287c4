use kicad_wakatime::config::ConfigError;
use kicad_wakatime::env_consts;
use kicad_wakatime::plugin::Plugin;

#[test]
fn api_key_roundtrip_through_ini() {
    let mut p = Plugin::new(false, false);
    assert_eq!(p.get_api_key(), "");
    p.set_api_key(String::from("waka_k1"));
    assert_eq!(p.get_api_key(), "waka_k1");
    p.set_api_key(String::from("waka_k2"));
    assert_eq!(p.get_api_key(), "waka_k2");
}

#[test]
fn api_url_and_projects_folder_roundtrip() {
    let mut p = Plugin::new(false, false);
    assert_eq!(p.get_api_url(), "");
    assert_eq!(p.get_projects_folder(), "");
    p.set_api_url(String::from("https://api.example.com/v1"));
    p.set_projects_folder(String::from("/home/u/kicad"));
    assert_eq!(p.get_api_url(), "https://api.example.com/v1");
    assert_eq!(p.get_projects_folder(), "/home/u/kicad");
    assert_eq!(p.get_api_key(), "", "the other configuration is untouched");
}

#[test]
fn load_config_reads_stored_text() {
    let mut p = Plugin::new(false, false);
    let waka = "[settings]\napi_key=k\napi_url=https://u\n";
    let kicad = "[settings]\nprojects_folder=/pf\n";
    assert!(p.load_config(waka, kicad).is_ok());
    assert_eq!(p.get_api_key(), "k");
    assert_eq!(p.get_api_url(), "https://u");
    assert_eq!(p.get_projects_folder(), "/pf");
}

#[test]
fn load_config_rejects_bad_text() {
    let mut p = Plugin::new(false, false);
    p.set_api_key(String::from("kept"));
    let r = p.load_config("[unclosed\n", "");
    assert_eq!(r, Err(ConfigError::Unparsable));
    assert_eq!(p.get_api_key(), "kept", "a failed load changes nothing");
    assert_eq!(
        ConfigError::Unparsable.message(),
        "Could not parse the configuration file!"
    );
}

#[test]
fn store_config_roundtrips() {
    let mut p = Plugin::new(false, false);
    p.set_api_key(String::from("k"));
    p.set_projects_folder(String::from("/pf"));
    let (waka_text, kicad_text) = p.store_config();
    let mut q = Plugin::new(false, false);
    assert!(q.load_config(waka_text.as_str(), kicad_text.as_str()).is_ok());
    assert_eq!(q.get_api_key(), "k");
    assert_eq!(q.get_projects_folder(), "/pf");
}

#[test]
fn env_consts_maps_release_names() {
    let (os, arch) = env_consts("macos", "aarch64");
    assert_eq!((os.as_str(), arch.as_str()), ("darwin", "arm64"));
    let (os, arch) = env_consts("linux", "x86_64");
    assert_eq!((os.as_str(), arch.as_str()), ("linux", "amd64"));
    let (os, arch) = env_consts("windows", "x86");
    assert_eq!((os.as_str(), arch.as_str()), ("windows", "386"));
    let (os, arch) = env_consts("freebsd", "riscv64");
    assert_eq!((os.as_str(), arch.as_str()), ("freebsd", "riscv64"));
}

#[test]
fn cli_names_and_paths() {
    let p = Plugin::new(false, false);
    assert_eq!(p.cli_name(("linux", "amd64")), "wakatime-cli-linux-amd64");
    assert_eq!(
        p.cli_zip_name(("darwin", "arm64")),
        "wakatime-cli-darwin-arm64.zip"
    );
    assert_eq!(
        p.cli_exe_name(("windows", "amd64")),
        "wakatime-cli-windows-amd64.exe"
    );
    assert_eq!(p.cli_exe_name(("linux", "386")), "wakatime-cli-linux-386");
    assert_eq!(
        p.cli_path(("windows", "amd64"), "/home/u"),
        "/home/u/.wakatime/wakatime-cli-windows-amd64.exe"
    );
    assert_eq!(
        p.cli_zip_path(("linux", "amd64"), "/home/u"),
        "/home/u/.wakatime/wakatime-cli-linux-amd64.zip"
    );
    assert_eq!(p.wakatime_cfg_path("/home/u"), "/home/u/.wakatime.cfg");
    assert_eq!(
        p.kicad_wakatime_cfg_path("/home/u"),
        "/home/u/.kicad-wakatime.cfg"
    );
    assert_eq!(p.wakatime_folder_path("/home/u"), "/home/u/.wakatime");
}

#[test]
fn cli_download_decision() {
    let p = Plugin::new(false, false);
    assert!(p.should_download_cli(false));
    assert!(!p.should_download_cli(true));
    let q = Plugin::new(false, true);
    assert!(q.should_download_cli(true), "a redownload was asked for");
}

#[test]
fn update_check_compares_release_names() {
    let p = Plugin::new(false, false);
    assert!(!p.update_available("0.1.0"));
    assert!(p.update_available("9.9.9"));
}

#[test]
fn status_line_reports_missing_settings() {
    let mut p = Plugin::new(false, false);
    assert_eq!(p.status_text(), "loading...");
    p.first_iteration_finished = true;
    assert_eq!(p.status_text(), "need settings!");
    p.set_api_key(String::from("k"));
    p.set_api_url(String::from("https://u"));
    assert_eq!(p.status_text(), "need settings!");
    p.set_projects_folder(String::from("/pf"));
    assert_eq!(p.status_text(), "OK");
}
