use combot::{Conf, Opts};
use std::path::PathBuf;

fn sample() -> Conf {
    Conf::new(
        PathBuf::from("/etc/combot/mastodon.toml"),
        PathBuf::from("/srv/project.git"),
        String::from("main"),
        String::from("origin"),
        24,
        String::from("en"),
        String::from("{{commits}} commits, {{merges}} merges"),
    )
}

#[test]
fn conf_getters_return_what_was_given() {
    let conf = sample();
    assert_eq!(conf.mastodon_data(), &PathBuf::from("/etc/combot/mastodon.toml"));
    assert_eq!(conf.repository_path(), &PathBuf::from("/srv/project.git"));
    assert_eq!(conf.master_branch_name(), "main");
    assert_eq!(conf.origin_remote_name(), "origin");
    assert_eq!(*conf.hours_to_check(), 24);
    assert_eq!(conf.status_language(), "en");
    assert_eq!(
        conf.status_template(),
        "{{commits}} commits, {{merges}} merges"
    );
}

#[test]
fn opts_getter_returns_the_path() {
    let opts = Opts::new(PathBuf::from("combot.toml"));
    assert_eq!(opts.config(), &PathBuf::from("combot.toml"));
}
