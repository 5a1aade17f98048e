//! Building the invocations of the external sync tool: the user's extra
//! arguments are shell-tokenized and prepended to every command, remote
//! paths are qualified with the remote's name, and registering a remote
//! first routes an FTP password through the tool's credential-obscuring
//! subcommand, since the tool refuses plaintext passwords in its
//! configuration store.

use vstd::prelude::*;

use crate::process::ProcessInfo;
use crate::remote::Remote;
use crate::strutil::push_all;

verus! {

/// What shell-tokenizing a user-supplied argument string yields: the
/// words, or nothing for erroneous input such as an unclosed quote. A
/// function of the string alone.
pub uninterp spec fn shell_split(s: Seq<char>) -> Option<Seq<Seq<char>>>;

/// Relies on shlex::split: tokenizes a string following POSIX shell word
/// rules, returning nothing when the input is erroneous (an unclosed
/// quote, or a trailing backslash).
#[verifier::external_body]
fn split_args(s: &str) -> (r: Option<Vec<String>>)
    ensures
        r is Some <==> shell_split(s@) is Some,
        r matches Some(v) ==> v.deep_view() == shell_split(s@).unwrap(),
{
    shlex::split(s)
}

/// The extra arguments prepended to every invocation: the user's argument
/// string, shell-tokenized; none when the string is empty or does not
/// tokenize.
pub open spec fn spec_user_args(arguments: Seq<char>) -> Seq<Seq<char>> {
    if arguments.len() == 0 {
        Seq::empty()
    } else {
        match shell_split(arguments) {
            Some(parts) => parts,
            None => Seq::empty(),
        }
    }
}

/// The sync tool as configured by the user: the path of its binary, and a
/// free-form string of extra arguments passed along with every command.
pub struct App {
    pub path: String,
    pub arguments: String,
}

/// One configured use of the sync tool against one remote.
pub struct Rclone {
    pub app: App,
    pub remote: Remote,
}

/// The next subprocess a remote registration must run.
pub enum ConfigureStep {
    /// Nothing to run: the remote is assumed pre-configured by the user.
    Done,
    /// Run the credential-obscuring invocation first (its output is
    /// sensitive), then hand its standard output to `create_invocation`.
    Obscure { args: Vec<String> },
    /// Run the registration invocation; `sensitive` says whether its
    /// output must be kept out of logs.
    Create { args: Vec<String>, sensitive: bool },
}

impl Rclone {
    pub fn new(app: App, remote: Remote) -> (r: Rclone)
        ensures
            r.app == app,
            r.remote == remote,
    {
        Rclone { app, remote }
    }

    /// The remote-qualified form of a path: `<remote-name>:<path>`.
    pub open spec fn spec_path(&self, path: Seq<char>) -> Seq<char> {
        self.remote.spec_name() + ":"@ + path
    }

    /// Qualifies a remote-relative path with the remote's name.
    pub fn path(&self, path: &str) -> (r: String)
        ensures
            r@ == self.spec_path(path@),
    {
        let mut s = String::from_str(self.remote.name());
        s.append(":");
        s.append(path);
        proof {
            assert(s@ =~= self.spec_path(path@));
        }
        s
    }

    /// The full argument list of one invocation: the user's extra
    /// arguments first, then the command's own.
    pub fn args(&self, args: &Vec<String>) -> (r: Vec<String>)
        ensures
            r.deep_view() == spec_user_args(self.app.arguments@) + args.deep_view(),
    {
        let mut collected: Vec<String> = Vec::new();
        if self.app.arguments.as_str().unicode_len() != 0 {
            if let Some(parts) = split_args(self.app.arguments.as_str()) {
                push_all(&mut collected, &parts);
            }
        }
        push_all(&mut collected, args);
        proof {
            assert(collected.deep_view() =~= spec_user_args(self.app.arguments@)
                + args.deep_view());
        }
        collected
    }

    /// The arguments of the credential-obscuring invocation. The sync tool
    /// refuses plaintext passwords, so a caller runs this command and uses
    /// its standard output in place of the raw credential; the command
    /// must exit with code zero.
    pub fn obscure_args(&self, credential: &str) -> (r: Vec<String>)
        ensures
            r.deep_view() == spec_user_args(self.app.arguments@) + seq!["obscure"@, credential@],
    {
        let mut v: Vec<String> = Vec::new();
        v.push(String::from_str("obscure"));
        v.push(String::from_str(credential));
        proof {
            assert(v.deep_view() =~= seq!["obscure"@, credential@]);
        }
        self.args(&v)
    }

    /// The arguments of the "create remote" registration command, with the
    /// given password substituted for the raw one (only FTP remotes use
    /// it).
    pub open spec fn spec_create_args(&self, password: Seq<char>) -> Seq<Seq<char>> {
        spec_user_args(self.app.arguments@) + seq![
            "config"@,
            "create"@,
            self.remote.spec_name(),
            self.remote.spec_slug(),
        ] + match self.remote.spec_config_args(password) {
            Some(cfg) => cfg,
            None => Seq::empty(),
        }
    }

    /// The registration invocation, with the password taken as given: for
    /// an FTP remote the caller passes the obscured credential, any other
    /// remote ignores it. The second component says whether the command's
    /// output is sensitive.
    pub fn create_invocation(&self, password: &str) -> (r: (Vec<String>, bool))
        ensures
            r.0.deep_view() == self.spec_create_args(password@),
            r.1 == (self.remote is Ftp),
    {
        let mut v: Vec<String> = Vec::new();
        v.push(String::from_str("config"));
        v.push(String::from_str("create"));
        v.push(String::from_str(self.remote.name()));
        v.push(String::from_str(self.remote.slug()));
        let ghost base = v.deep_view();
        proof {
            assert(base =~= seq![
                "config"@,
                "create"@,
                self.remote.spec_name(),
                self.remote.spec_slug(),
            ]);
        }
        if let Some(cfg) = self.remote.config_args_with_password(password) {
            push_all(&mut v, &cfg);
        }
        let sensitive = match &self.remote {
            Remote::Ftp { .. } => true,
            _ => false,
        };
        let out = self.args(&v);
        proof {
            assert(out.deep_view() =~= self.spec_create_args(password@));
        }
        (out, sensitive)
    }

    /// Plans the registration of the remote with the sync tool: nothing to
    /// run for a pre-configured custom remote; an FTP remote must have its
    /// password obscured first; any other provider can be registered at
    /// once. Each step's command must exit with code zero.
    pub fn configure_remote(&self) -> (r: ConfigureStep)
        ensures
            r is Done <==> self.remote is Custom,
            self.remote is Ftp ==> (r matches ConfigureStep::Obscure { args }
                && args.deep_view() == spec_user_args(self.app.arguments@) + seq![
                "obscure"@,
                self.remote.spec_password(),
            ]),
            (!(self.remote is Custom) && !(self.remote is Ftp)) ==> (r
                matches ConfigureStep::Create { args, sensitive } && args.deep_view()
                == self.spec_create_args(self.remote.spec_password()) && sensitive == false),
    {
        if !self.remote.needs_configuration() {
            return ConfigureStep::Done;
        }
        match &self.remote {
            Remote::Ftp { password, .. } => {
                let args = self.obscure_args(password.as_str());
                ConfigureStep::Obscure { args }
            },
            _ => {
                let (args, sensitive) = self.create_invocation("");
                ConfigureStep::Create { args, sensitive }
            },
        }
    }

    /// The sync invocation that copies the local directory up to the
    /// remote path: verbose, machine-readable logging with periodic
    /// statistics, source before destination.
    pub fn sync_from_local_to_remote(&self, local: &str, remote_path: &str) -> (r: ProcessInfo)
        ensures
            r.program@ == self.app.path@,
            r.args.deep_view() == spec_user_args(self.app.arguments@) + seq![
                "sync"@,
                "-v"@,
                "--use-json-log"@,
                "--stats=1s"@,
                local@,
                self.spec_path(remote_path@),
            ],
    {
        let qualified = self.path(remote_path);
        let mut v: Vec<String> = Vec::new();
        v.push(String::from_str("sync"));
        v.push(String::from_str("-v"));
        v.push(String::from_str("--use-json-log"));
        v.push(String::from_str("--stats=1s"));
        v.push(String::from_str(local));
        v.push(qualified);
        proof {
            assert(v.deep_view() =~= seq![
                "sync"@,
                "-v"@,
                "--use-json-log"@,
                "--stats=1s"@,
                local@,
                self.spec_path(remote_path@),
            ]);
        }
        let args = self.args(&v);
        ProcessInfo { program: self.app.path.clone(), args }
    }

    /// The sync invocation that copies the remote path down to the local
    /// directory: the same flags, with source and destination swapped.
    pub fn sync_from_remote_to_local(&self, local: &str, remote_path: &str) -> (r: ProcessInfo)
        ensures
            r.program@ == self.app.path@,
            r.args.deep_view() == spec_user_args(self.app.arguments@) + seq![
                "sync"@,
                "-v"@,
                "--use-json-log"@,
                "--stats=1s"@,
                self.spec_path(remote_path@),
                local@,
            ],
    {
        let qualified = self.path(remote_path);
        let mut v: Vec<String> = Vec::new();
        v.push(String::from_str("sync"));
        v.push(String::from_str("-v"));
        v.push(String::from_str("--use-json-log"));
        v.push(String::from_str("--stats=1s"));
        v.push(qualified);
        v.push(String::from_str(local));
        proof {
            assert(v.deep_view() =~= seq![
                "sync"@,
                "-v"@,
                "--use-json-log"@,
                "--stats=1s"@,
                self.spec_path(remote_path@),
                local@,
            ]);
        }
        let args = self.args(&v);
        ProcessInfo { program: self.app.path.clone(), args }
    }
}

} // verus!
