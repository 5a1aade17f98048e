//! Remote descriptors: the closed set of cloud providers a sync operation
//! can target, each with its provider slug, logical remote name, and the
//! `key=value` arguments needed to register it with the sync tool.

use vstd::prelude::*;

use crate::strutil::{i32_to_string, spec_idec};

verus! {

/// A provider choice as presented to a caller, before any per-provider
/// details are filled in.
#[derive(Clone, Copy, Debug, PartialEq, Eq, Structural)]
pub enum RemoteChoice {
    None_,
    Custom,
    Box_,
    Dropbox,
    Ftp,
    GoogleDrive,
    OneDrive,
}

/// A fully described remote. The FTP password exists only transiently to
/// build the configuration command; it is never serialized, and must be
/// obscured before it reaches the sync tool's configuration store.
#[derive(Clone, Debug, PartialEq, Eq)]
pub enum Remote {
    Custom { name: String },
    Box_,
    Dropbox,
    GoogleDrive,
    Ftp { host: String, port: i32, username: String, password: String },
    OneDrive,
}

impl Remote {
    /// The remote's logical name: the fixed identifier for built-in
    /// providers, or the user's own name for a custom remote.
    pub open spec fn spec_name(&self) -> Seq<char> {
        match self {
            Remote::Custom { name } => name@,
            _ => "ludusavi"@,
        }
    }

    /// The provider slug used to register the remote with the sync tool;
    /// empty for a custom remote, which is assumed pre-configured.
    pub open spec fn spec_slug(&self) -> Seq<char> {
        match self {
            Remote::Custom { .. } => ""@,
            Remote::Box_ => "box"@,
            Remote::Dropbox => "dropbox"@,
            Remote::Ftp { .. } => "ftp"@,
            Remote::GoogleDrive => "drive"@,
            Remote::OneDrive => "onedrive"@,
        }
    }

    /// The `key=value` arguments for a "create remote" command, with the
    /// FTP password taken as given (callers substitute the obscured form).
    pub open spec fn spec_config_args(&self, password: Seq<char>) -> Option<Seq<Seq<char>>> {
        match self {
            Remote::Custom { .. } => None,
            Remote::Box_ => None,
            Remote::Dropbox => None,
            Remote::GoogleDrive => Some(seq!["scope=drive"@]),
            Remote::Ftp { host, port, username, .. } => Some(
                seq![
                    "host="@ + host@,
                    "port="@ + spec_idec(*port as int),
                    "user="@ + username@,
                    "pass="@ + password,
                ],
            ),
            Remote::OneDrive => Some(
                seq!["drive_type=personal"@, "access_scopes=Files.ReadWrite,offline_access"@],
            ),
        }
    }

    pub fn name(&self) -> (r: &str)
        ensures
            r@ == self.spec_name(),
    {
        match self {
            Remote::Custom { name } => name.as_str(),
            _ => "ludusavi",
        }
    }

    pub fn slug(&self) -> (r: &str)
        ensures
            r@ == self.spec_slug(),
    {
        match self {
            Remote::Custom { .. } => "",
            Remote::Box_ => "box",
            Remote::Dropbox => "dropbox",
            Remote::Ftp { .. } => "ftp",
            Remote::GoogleDrive => "drive",
            Remote::OneDrive => "onedrive",
        }
    }

    /// The configuration arguments with the password the descriptor itself
    /// carries (still plaintext for FTP).
    pub fn config_args(&self) -> (r: Option<Vec<String>>)
        ensures
            r is Some <==> self.spec_config_args(self.spec_password()) is Some,
            r matches Some(v) ==> v.deep_view() == self.spec_config_args(
                self.spec_password(),
            ).unwrap(),
    {
        match self {
            Remote::Ftp { password, .. } => self.config_args_with_password(password.as_str()),
            _ => self.config_args_with_password(""),
        }
    }

    /// The password carried by the descriptor; empty for providers that
    /// have none.
    pub open spec fn spec_password(&self) -> Seq<char> {
        match self {
            Remote::Ftp { password, .. } => password@,
            _ => ""@,
        }
    }

    /// The configuration arguments with a caller-supplied password, used
    /// once the plaintext credential has been obscured.
    pub fn config_args_with_password(&self, password: &str) -> (r: Option<Vec<String>>)
        ensures
            r is Some <==> self.spec_config_args(password@) is Some,
            r matches Some(v) ==> v.deep_view() == self.spec_config_args(password@).unwrap(),
    {
        match self {
            Remote::Custom { .. } => None,
            Remote::Box_ => None,
            Remote::Dropbox => None,
            Remote::GoogleDrive => {
                let mut v: Vec<String> = Vec::new();
                v.push(String::from_str("scope=drive"));
                proof {
                    assert(v.deep_view() =~= self.spec_config_args(password@).unwrap());
                }
                Some(v)
            },
            Remote::Ftp { host, port, username, .. } => {
                let mut a0 = String::from_str("host=");
                a0.append(host.as_str());
                let mut a1 = String::from_str("port=");
                let rendered = i32_to_string(*port);
                a1.append(rendered.as_str());
                let mut a2 = String::from_str("user=");
                a2.append(username.as_str());
                let mut a3 = String::from_str("pass=");
                a3.append(password);
                let mut v: Vec<String> = Vec::new();
                v.push(a0);
                v.push(a1);
                v.push(a2);
                v.push(a3);
                proof {
                    assert(v.deep_view() =~= self.spec_config_args(password@).unwrap());
                }
                Some(v)
            },
            Remote::OneDrive => {
                let mut v: Vec<String> = Vec::new();
                v.push(String::from_str("drive_type=personal"));
                v.push(String::from_str("access_scopes=Files.ReadWrite,offline_access"));
                proof {
                    assert(v.deep_view() =~= self.spec_config_args(password@).unwrap());
                }
                Some(v)
            },
        }
    }

    /// Whether the remote must be registered with the sync tool before it
    /// can be used; a custom remote is assumed pre-configured by the user.
    pub fn needs_configuration(&self) -> (r: bool)
        ensures
            r == !(self is Custom),
    {
        match self {
            Remote::Custom { .. } => false,
            Remote::Box_ => true,
            Remote::Dropbox => true,
            Remote::Ftp { .. } => true,
            Remote::GoogleDrive => true,
            Remote::OneDrive => true,
        }
    }

    /// The choice corresponding to an optionally configured remote.
    pub fn choice_of(value: Option<&Remote>) -> (r: RemoteChoice)
        ensures
            r == match value {
                Option::None => RemoteChoice::None_,
                Option::Some(v) => match v {
                    Remote::Custom { .. } => RemoteChoice::Custom,
                    Remote::Box_ => RemoteChoice::Box_,
                    Remote::Dropbox => RemoteChoice::Dropbox,
                    Remote::Ftp { .. } => RemoteChoice::Ftp,
                    Remote::GoogleDrive => RemoteChoice::GoogleDrive,
                    Remote::OneDrive => RemoteChoice::OneDrive,
                },
            },
    {
        if let Some(value) = value {
            match value {
                Remote::Custom { .. } => RemoteChoice::Custom,
                Remote::Box_ => RemoteChoice::Box_,
                Remote::Dropbox => RemoteChoice::Dropbox,
                Remote::Ftp { .. } => RemoteChoice::Ftp,
                Remote::GoogleDrive => RemoteChoice::GoogleDrive,
                Remote::OneDrive => RemoteChoice::OneDrive,
            }
        } else {
            RemoteChoice::None_
        }
    }

    /// A default descriptor for a chosen provider; fails only for the
    /// empty choice.
    pub fn try_from_choice(value: RemoteChoice) -> (r: Result<Remote, ()>)
        ensures
            r is Err <==> value is None_,
            value is Custom ==> (r matches Ok(m) && m matches Remote::Custom { name }
                && name@ == "ludusavi"@),
            value is Box_ ==> r == Ok::<Remote, ()>(Remote::Box_),
            value is Dropbox ==> r == Ok::<Remote, ()>(Remote::Dropbox),
            value is GoogleDrive ==> r == Ok::<Remote, ()>(Remote::GoogleDrive),
            value is OneDrive ==> r == Ok::<Remote, ()>(Remote::OneDrive),
            value is Ftp ==> (r matches Ok(m) && m matches Remote::Ftp {
                host,
                port,
                username,
                password,
            } && host@ == Seq::<char>::empty() && port == 21i32 && username@
                == Seq::<char>::empty() && password@ == Seq::<char>::empty()),
    {
        match value {
            RemoteChoice::None_ => Err(()),
            RemoteChoice::Custom => Ok(Remote::Custom { name: String::from_str("ludusavi") }),
            RemoteChoice::Box_ => Ok(Remote::Box_),
            RemoteChoice::Dropbox => Ok(Remote::Dropbox),
            RemoteChoice::Ftp => Ok(
                Remote::Ftp {
                    host: String::new(),
                    port: 21,
                    username: String::new(),
                    password: String::new(),
                },
            ),
            RemoteChoice::GoogleDrive => Ok(Remote::GoogleDrive),
            RemoteChoice::OneDrive => Ok(Remote::OneDrive),
        }
    }
}

} // verus!
