use swifi::server::{parse_server_id, MAX_CANDIDATES};
use swifi::test::TestError;
use swifi::{CliArgs, ConfigBuilder, Server, ServerList, Test, TestDirection};

fn server(id: u32) -> Server {
    Server::new(id, format!("Sponsor {id}"), format!("Town {id}"))
}

fn list(ids: &[u32]) -> ServerList {
    ServerList {
        servers: ids.iter().map(|&i| server(i)).collect(),
        closest: ids.iter().rev().map(|&i| server(i)).collect(),
    }
}

fn direction_for(down: bool, up: bool) -> TestDirection {
    let args = CliArgs { list: false, server: None, down, up };
    ConfigBuilder::from_args(args).build().direction()
}

#[test]
fn down_alone_is_download_only() {
    assert_eq!(direction_for(true, false), TestDirection::Download);
}

#[test]
fn up_alone_is_upload_only() {
    assert_eq!(direction_for(false, true), TestDirection::Upload);
}

#[test]
fn both_flags_or_none_run_both() {
    assert_eq!(direction_for(true, true), TestDirection::Both);
    assert_eq!(direction_for(false, false), TestDirection::Both);
}

#[test]
fn builder_keeps_list_and_server() {
    let args = CliArgs { list: true, server: Some("42".to_string()), down: false, up: false };
    let config = ConfigBuilder::from_args(args).build();
    assert!(config.has_list());
    assert_eq!(config.server_id(), Some(&"42".to_string()));
}

#[test]
fn explicit_id_selects_that_server_only() {
    let dir = list(&[7, 13, 42]);
    let id = "42".to_string();
    let picked = dir.select_server(Some(&id)).unwrap();
    assert_eq!(picked.len(), 1);
    assert_eq!(picked[0].id, 42);
    assert_eq!(picked[0].name, "Town 42");
}

#[test]
fn unknown_id_is_not_found() {
    let dir = list(&[7, 13, 42]);
    let id = "99".to_string();
    assert_eq!(dir.select_server(Some(&id)).unwrap_err(), TestError::ServerNotFound(99));
}

#[test]
fn malformed_id_is_rejected() {
    let dir = list(&[7, 13, 42]);
    for bad in ["abc", "", "+", "12a", "-1", "4294967296"] {
        let id = bad.to_string();
        assert_eq!(dir.select_server(Some(&id)).unwrap_err(), TestError::InvalidIdentifier);
    }
}

#[test]
fn empty_directory_has_no_servers() {
    let dir = list(&[]);
    assert_eq!(dir.select_server(None).unwrap_err(), TestError::NoServersAvailable);
}

#[test]
fn closest_few_in_directory_order() {
    let dir = list(&[1, 2, 3, 4, 5]);
    let picked = dir.select_server(None).unwrap();
    assert_eq!(MAX_CANDIDATES, 3);
    let ids: Vec<u32> = picked.iter().map(|s| s.id).collect();
    assert_eq!(ids, vec![5, 4, 3]);
}

#[test]
fn fewer_servers_than_the_bound_are_all_taken() {
    let dir = list(&[8, 9]);
    let ids: Vec<u32> = dir.select_server(None).unwrap().iter().map(|s| s.id).collect();
    assert_eq!(ids, vec![9, 8]);
}

#[test]
fn server_ids_parse_in_decimal() {
    assert_eq!(parse_server_id("0"), Some(0));
    assert_eq!(parse_server_id("+42"), Some(42));
    assert_eq!(parse_server_id("007"), Some(7));
    assert_eq!(parse_server_id("4294967295"), Some(u32::MAX));
    assert_eq!(parse_server_id("99999999999999999999"), None);
    assert_eq!(parse_server_id(" 1"), None);
}

#[test]
fn run_config_reports_selection_errors() {
    let args = CliArgs { list: false, server: Some("5".to_string()), down: true, up: false };
    let config = ConfigBuilder::from_args(args).build();
    assert_eq!(Test::run_config(&config, &list(&[1, 2])).err(), Some(TestError::ServerNotFound(5)));
}

#[test]
fn run_config_starts_on_the_named_server() {
    let args = CliArgs { list: false, server: Some("42".to_string()), down: false, up: true };
    let config = ConfigBuilder::from_args(args).build();
    let run = Test::run_config(&config, &list(&[7, 13, 42])).unwrap();
    let ids: Vec<u32> = run.candidates().iter().map(|s| s.id).collect();
    assert_eq!(ids, vec![42]);
    assert_eq!(
        run.next_action(),
        swifi::test::Action::Measure {
            candidate: 0,
            server_id: 42,
            sub_test: swifi::test::SubTest::Upload
        }
    );
}

#[test]
fn server_id_is_the_one_given() {
    let args = CliArgs { list: false, server: Some("42".to_string()), down: false, up: false };
    let config = ConfigBuilder::from_args(args).build();
    assert_eq!(config.server_id(), Some(&"42".to_string()));
    assert!(!config.has_list());
}

#[test]
fn default_config_runs_both_directions() {
    let config = swifi::Config::default();
    assert_eq!(config.direction(), TestDirection::Both);
    assert!(!config.has_list());
    assert_eq!(config.server_id(), None);
    assert_eq!(TestDirection::default(), TestDirection::Both);
}
