//! The settings of one run and the command line that names them.

use std::path::PathBuf;
use vstd::prelude::*;

verus! {

/// `std::path::PathBuf`, carried through as it is: nothing here looks inside
/// a path.
#[verifier::external_type_specification]
#[verifier::external_body]
pub struct ExPathBuf(PathBuf);

/// The settings of one run.
#[derive(Debug)]
pub struct Conf {
    mastodon_data: PathBuf,
    repository_path: PathBuf,
    master_branch_name: String,
    origin_remote_name: String,
    hours_to_check: i64,
    status_language: String,
    status_template: String,
}

impl Conf {
    /// The file that holds the account data of the status service.
    pub closed spec fn mastodon_data_path(&self) -> PathBuf {
        self.mastodon_data
    }

    /// Where the repository lies.
    pub closed spec fn repository(&self) -> PathBuf {
        self.repository_path
    }

    /// The name of the branch whose history is counted.
    pub closed spec fn branch(&self) -> Seq<char> {
        self.master_branch_name@
    }

    /// The name of the remote that the branch is tracked from.
    pub closed spec fn remote(&self) -> Seq<char> {
        self.origin_remote_name@
    }

    /// The length of the window in hours.
    pub closed spec fn hours(&self) -> int {
        self.hours_to_check as int
    }

    /// The language code of the status text.
    pub closed spec fn language(&self) -> Seq<char> {
        self.status_language@
    }

    /// The template of the status text.
    pub closed spec fn template(&self) -> Seq<char> {
        self.status_template@
    }

    /// Settings made of the given values, each kept as it is.
    pub fn new(
        mastodon_data: PathBuf,
        repository_path: PathBuf,
        master_branch_name: String,
        origin_remote_name: String,
        hours_to_check: i64,
        status_language: String,
        status_template: String,
    ) -> (conf: Conf)
        ensures
            conf.mastodon_data_path() == mastodon_data,
            conf.repository() == repository_path,
            conf.branch() == master_branch_name@,
            conf.remote() == origin_remote_name@,
            conf.hours() == hours_to_check,
            conf.language() == status_language@,
            conf.template() == status_template@,
    {
        Conf {
            mastodon_data,
            repository_path,
            master_branch_name,
            origin_remote_name,
            hours_to_check,
            status_language,
            status_template,
        }
    }

    pub fn mastodon_data(&self) -> (path: &PathBuf)
        ensures
            *path == self.mastodon_data_path(),
    {
        &self.mastodon_data
    }

    pub fn repository_path(&self) -> (path: &PathBuf)
        ensures
            *path == self.repository(),
    {
        &self.repository_path
    }

    pub fn master_branch_name(&self) -> (name: &String)
        ensures
            name@ == self.branch(),
    {
        &self.master_branch_name
    }

    pub fn origin_remote_name(&self) -> (name: &String)
        ensures
            name@ == self.remote(),
    {
        &self.origin_remote_name
    }

    pub fn hours_to_check(&self) -> (hours: &i64)
        ensures
            *hours == self.hours(),
    {
        &self.hours_to_check
    }

    pub fn status_language(&self) -> (code: &String)
        ensures
            code@ == self.language(),
    {
        &self.status_language
    }

    pub fn status_template(&self) -> (text: &String)
        ensures
            text@ == self.template(),
    {
        &self.status_template
    }
}

/// The command line: the path of the settings file.
#[derive(Debug)]
pub struct Opts {
    config: PathBuf,
}

impl Opts {
    /// The path of the settings file.
    pub closed spec fn config_path(&self) -> PathBuf {
        self.config
    }

    /// A command line that names `config`.
    pub fn new(config: PathBuf) -> (opts: Opts)
        ensures
            opts.config_path() == config,
    {
        Opts { config }
    }

    pub fn config(&self) -> (path: &PathBuf)
        ensures
            *path == self.config_path(),
    {
        &self.config
    }
}

} // verus!
