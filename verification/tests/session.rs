use std::path::PathBuf;
use tsgo_client::client::{
    Client, Command, Options, Stream, API_FLAG, CONFIG_FLAG, LOG_FILE_VARIABLE,
};

#[test]
fn flags_are_those_of_the_process() {
    assert_eq!(API_FLAG, "--api");
    assert_eq!(CONFIG_FLAG, "-config");
    assert_eq!(LOG_FILE_VARIABLE, "TSGO_LOG_FILE");
}

#[test]
fn default_options_name_nothing() {
    let options = Options::default();
    assert_eq!(options.cwd, None);
    assert_eq!(options.log_file, None);
    assert_eq!(options.config_file, "");
}

#[test]
fn launch_without_configuration_has_the_api_flag_alone() {
    let launch = Client::builder(PathBuf::from("/bin/tsgo"), Options::default()).build();
    assert_eq!(launch.program, PathBuf::from("/bin/tsgo"));
    assert_eq!(launch.args, vec!["--api".to_string()]);
    assert_eq!(launch.cwd, None);
    assert_eq!(launch.vars, vec![]);
}

#[test]
fn launch_names_the_configuration_file_after_its_flag() {
    let options = Options {
        cwd: Some(PathBuf::from("/p")),
        log_file: None,
        config_file: "/p/tsconfig.json".to_string(),
    };
    let launch = Client::builder(PathBuf::from("tsgo"), options).build();
    assert_eq!(launch.program, PathBuf::from("tsgo"));
    assert_eq!(
        launch.args,
        vec!["--api".to_string(), "-config".to_string(), "/p/tsconfig.json".to_string()]
    );
    assert_eq!(launch.cwd, Some(PathBuf::from("/p")));
    assert_eq!(launch.vars, vec![]);
}

#[test]
fn launch_ties_input_and_output_to_pipes_and_passes_errors_on() {
    let launch = Client::builder(PathBuf::from("tsgo"), Options::default()).build();
    assert_eq!(launch.stdin, Stream::Piped);
    assert_eq!(launch.stdout, Stream::Piped);
    assert_eq!(launch.stderr, Stream::Inherited);
}

#[test]
fn builder_sets_directory_and_log_file() {
    let options = Options {
        cwd: Some(PathBuf::from("/first")),
        log_file: None,
        config_file: "tsconfig.json".to_string(),
    };
    let launch = Client::builder(PathBuf::from("tsgo"), options)
        .log_file("test.log".to_string())
        .cwd(PathBuf::from("/second"))
        .build();
    assert_eq!(launch.cwd, Some(PathBuf::from("/second")));
    assert_eq!(launch.vars, vec![("TSGO_LOG_FILE".to_string(), "test.log".to_string())]);
    assert_eq!(
        launch.args,
        vec!["--api".to_string(), "-config".to_string(), "tsconfig.json".to_string()]
    );
    let launch = Client::builder(PathBuf::from("tsgo"), Options::default())
        .log_file("a.log".to_string())
        .log_file("b.log".to_string())
        .build();
    assert_eq!(launch.vars, vec![("TSGO_LOG_FILE".to_string(), "b.log".to_string())]);
    assert_eq!(launch.cwd, None);
}

#[test]
fn command_of_the_caller_keeps_its_arguments() {
    let cmd = Command { program: PathBuf::from("node"), args: vec!["tsgo.js".to_string()] };
    let launch = Client::with_command(cmd, Options::default()).build();
    assert_eq!(launch.program, PathBuf::from("node"));
    assert_eq!(launch.args, vec!["tsgo.js".to_string()]);
    let cmd = Command { program: PathBuf::from("node"), args: vec!["tsgo.js".to_string()] };
    let options = Options { cwd: None, log_file: None, config_file: "c.json".to_string() };
    let launch = Client::with_command(cmd, options).build();
    assert_eq!(
        launch.args,
        vec!["tsgo.js".to_string(), "-config".to_string(), "c.json".to_string()]
    );
    assert_eq!(launch.stderr, Stream::Inherited);
}
