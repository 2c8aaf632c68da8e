use godot_rust_cli_upgrader::config::{ConfigFiles, UpgradeError};
use godot_rust_cli_upgrader::upgrade::upgrade;
use godot_rust_cli_upgrader::version::Version;

const TOML_CONFIG: &str = "godot_project_name = \"platformer\"\nmodules = [\"Player\", \"MainScene\"]\n";

fn toml_config_files(is_v_0_2x: bool) -> ConfigFiles {
    if is_v_0_2x {
        ConfigFiles { project_toml: None, cli_toml: Some(TOML_CONFIG.to_owned()), cli_json: None }
    } else {
        ConfigFiles { project_toml: Some(TOML_CONFIG.to_owned()), cli_toml: None, cli_json: None }
    }
}

fn assert_toml_config(text: &str) {
    let config: toml::Value = toml::from_str(text).unwrap();
    assert_eq!(config["godot_project_name"].as_str(), Some("platformer"));
    let modules: Vec<&str> = config["modules"].as_array().unwrap().iter().map(|m| m.as_str().unwrap()).collect();
    assert_eq!(modules, vec!["Player", "MainScene"]);
}

fn assert_v_0_3x_config(text: &str) {
    let config: serde_json::Value = serde_json::from_str(text).unwrap();
    assert_eq!(config["name"], serde_json::Value::from("platformer_modules"));
    assert_eq!(config["godot_project_name"], serde_json::Value::from("platformer"));
    assert_eq!(config["is_plugin"], serde_json::Value::from(false));
    assert_eq!(config["modules"][0], "Player");
    assert_eq!(config["modules"][1], "MainScene");
}

#[test]
fn upgrade_config_v_0_1x_to_v_0_2x() {
    let mut files = toml_config_files(false);
    assert_toml_config(files.project_toml.as_ref().unwrap());

    let report = upgrade("0.2.x", &mut files, "platformer_modules").unwrap();
    assert!(report.target_accepted);
    assert_eq!(report.applied, vec![Version::V02X]);

    assert_eq!(files.project_toml.is_some(), false);
    assert_eq!(files.cli_toml.is_some(), true);
    assert_eq!(files.cli_json.is_some(), false);
    assert_toml_config(files.cli_toml.as_ref().unwrap());
}

#[test]
fn upgrade_config_v_0_1x_to_v_0_3x() {
    let mut files = toml_config_files(false);
    assert_toml_config(files.project_toml.as_ref().unwrap());

    let report = upgrade("0.3.x", &mut files, "platformer_modules").unwrap();
    assert_eq!(report.current, Version::V01X);
    assert_eq!(report.target, Version::V03X);
    assert_eq!(report.applied, vec![Version::V02X, Version::V03X]);

    assert_eq!(files.project_toml.is_some(), false);
    assert_eq!(files.cli_toml.is_some(), false);
    assert_eq!(files.cli_json.is_some(), true);
    assert_v_0_3x_config(files.cli_json.as_ref().unwrap());
}

#[test]
fn upgrade_config_v_0_2x_to_v_0_3x() {
    let mut files = toml_config_files(true);
    assert_toml_config(files.cli_toml.as_ref().unwrap());

    let report = upgrade("0.3.x", &mut files, "platformer_modules").unwrap();
    assert_eq!(report.current, Version::V02X);
    assert_eq!(report.applied, vec![Version::V03X]);

    assert_eq!(files.project_toml.is_some(), false);
    assert_eq!(files.cli_toml.is_some(), false);
    assert_eq!(files.cli_json.is_some(), true);
    assert_v_0_3x_config(files.cli_json.as_ref().unwrap());
}

#[test]
fn upgrade_from_either_toml_generation_gives_same_json() {
    let mut from_oldest = toml_config_files(false);
    let mut from_second = toml_config_files(true);
    upgrade("0.3.x", &mut from_oldest, "platformer_modules").unwrap();
    upgrade("0.3.x", &mut from_second, "platformer_modules").unwrap();
    assert_eq!(from_oldest.cli_json, from_second.cli_json);
}

#[test]
fn upgrade_to_current_version_runs_no_step() {
    let mut files = toml_config_files(true);
    let report = upgrade("0.2.x", &mut files, "platformer_modules").unwrap();
    assert_eq!(report.current, Version::V02X);
    assert!(report.applied.is_empty());
    assert_eq!(files.cli_toml.as_deref(), Some(TOML_CONFIG));
    assert!(files.project_toml.is_none());
    assert!(files.cli_json.is_none());
}

#[test]
fn upgrade_to_older_version_runs_no_step() {
    let mut files = toml_config_files(true);
    let report = upgrade("0.1.x", &mut files, "platformer_modules").unwrap();
    assert_eq!(report.target, Version::V01X);
    assert!(report.applied.is_empty());
    assert_eq!(files.cli_toml.as_deref(), Some(TOML_CONFIG));
}

#[test]
fn upgrade_already_newest_runs_no_step() {
    let json = "{\"name\": \"lib\", \"cliVersion\": \"0.3.x\"}".to_owned();
    let mut files = ConfigFiles { project_toml: None, cli_toml: None, cli_json: Some(json.clone()) };
    let report = upgrade("0.3.x", &mut files, "lib").unwrap();
    assert_eq!(report.current, Version::V03X);
    assert!(report.applied.is_empty());
    assert_eq!(files.cli_json, Some(json));
}

#[test]
fn upgrade_with_unknown_version_targets_newest() {
    let mut files = toml_config_files(false);
    let report = upgrade("9.9.9", &mut files, "platformer_modules").unwrap();
    assert_eq!(report.target, Version::V03X);
    assert!(report.target_accepted);
    assert_eq!(report.applied, vec![Version::V02X, Version::V03X]);
    assert_v_0_3x_config(files.cli_json.as_ref().unwrap());
}

#[test]
fn upgrade_without_configuration_fails() {
    let mut files = ConfigFiles { project_toml: None, cli_toml: None, cli_json: None };
    assert_eq!(upgrade("0.3.x", &mut files, "lib").err(), Some(UpgradeError::NoConfiguration));
}

#[test]
fn upgrade_stops_at_failing_step_keeping_earlier_steps() {
    let mut files = ConfigFiles { project_toml: Some("modules = [1, 2]\n".to_owned()), cli_toml: None, cli_json: None };
    assert_eq!(upgrade("0.3.x", &mut files, "lib").err(), Some(UpgradeError::InvalidStepInput));
    assert!(files.project_toml.is_none());
    assert_eq!(files.cli_toml.as_deref(), Some("modules = [1, 2]\n"));
    assert!(files.cli_json.is_none());
}
