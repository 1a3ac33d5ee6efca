use trailing_newline::{build_walker, Config, ConfigError};

fn config(globs: &[&str]) -> Config {
    Config {
        globs: globs.iter().map(|g| g.to_string()).collect(),
        paths: vec![".".to_string(), "src".to_string()],
        dry_run: true,
        no_ignore: true,
        hidden: true,
        list: false,
    }
}

#[test]
fn valid_globs_build_a_walker() {
    assert!(build_walker(&config(&["*.rs", "!target/"]), "/tmp").is_ok());
    assert!(build_walker(&config(&[]), "/tmp").is_ok());
}

#[test]
fn refused_glob_is_a_configuration_error() {
    match build_walker(&config(&["*.rs", "src/[ab"]), "/tmp") {
        Err(ConfigError::Glob(message)) => assert!(!message.is_empty()),
        Ok(_) => panic!("an unclosed class must be refused"),
    }
}

#[test]
fn walker_with_single_root_and_defaults() {
    let config = Config {
        globs: vec!["*.txt".to_string()],
        paths: vec![".".to_string()],
        dry_run: false,
        no_ignore: false,
        hidden: false,
        list: true,
    };
    assert!(build_walker(&config, ".").is_ok());
}
