use cloud_sync::rclone::{App, ConfigureStep, Rclone};
use cloud_sync::remote::{Remote, RemoteChoice};
use cloud_sync::validate_cloud_path;
use cloud_sync::Error;

fn rclone_with(arguments: &str, remote: Remote) -> Rclone {
    Rclone::new(
        App { path: "/usr/bin/rclone".to_string(), arguments: arguments.to_string() },
        remote,
    )
}

#[test]
fn validate_rejects_empty_path() {
    assert_eq!(validate_cloud_path(""), Err(Error::CloudPathInvalid));
}

#[test]
fn validate_rejects_root_path() {
    assert_eq!(validate_cloud_path("/"), Err(Error::CloudPathInvalid));
}

#[test]
fn validate_accepts_ordinary_paths() {
    assert_eq!(validate_cloud_path("saves"), Ok(()));
    assert_eq!(validate_cloud_path("/deep/path"), Ok(()));
    assert_eq!(validate_cloud_path("a"), Ok(()));
    assert_eq!(validate_cloud_path("//"), Ok(()));
}

#[test]
fn remote_names() {
    assert_eq!(Remote::Box_.name(), "ludusavi");
    assert_eq!(Remote::Dropbox.name(), "ludusavi");
    assert_eq!(Remote::GoogleDrive.name(), "ludusavi");
    assert_eq!(Remote::OneDrive.name(), "ludusavi");
    let custom = Remote::Custom { name: "mine".to_string() };
    assert_eq!(custom.name(), "mine");
}

#[test]
fn remote_slugs() {
    assert_eq!(Remote::Box_.slug(), "box");
    assert_eq!(Remote::Dropbox.slug(), "dropbox");
    assert_eq!(Remote::GoogleDrive.slug(), "drive");
    assert_eq!(Remote::OneDrive.slug(), "onedrive");
    assert_eq!(Remote::Custom { name: "mine".to_string() }.slug(), "");
    let ftp = Remote::Ftp {
        host: "h".to_string(),
        port: 21,
        username: "u".to_string(),
        password: "p".to_string(),
    };
    assert_eq!(ftp.slug(), "ftp");
}

#[test]
fn remote_needs_configuration() {
    assert!(!Remote::Custom { name: "mine".to_string() }.needs_configuration());
    assert!(Remote::Box_.needs_configuration());
    assert!(Remote::Dropbox.needs_configuration());
    assert!(Remote::GoogleDrive.needs_configuration());
    assert!(Remote::OneDrive.needs_configuration());
}

#[test]
fn remote_config_args() {
    assert_eq!(Remote::Box_.config_args(), None);
    assert_eq!(Remote::Dropbox.config_args(), None);
    assert_eq!(Remote::Custom { name: "mine".to_string() }.config_args(), None);
    assert_eq!(
        Remote::GoogleDrive.config_args(),
        Some(vec!["scope=drive".to_string()])
    );
    assert_eq!(
        Remote::OneDrive.config_args(),
        Some(vec![
            "drive_type=personal".to_string(),
            "access_scopes=Files.ReadWrite,offline_access".to_string(),
        ])
    );
}

#[test]
fn ftp_config_args_render_every_field() {
    let ftp = Remote::Ftp {
        host: "example.com".to_string(),
        port: 2121,
        username: "alice".to_string(),
        password: "secret".to_string(),
    };
    assert_eq!(
        ftp.config_args(),
        Some(vec![
            "host=example.com".to_string(),
            "port=2121".to_string(),
            "user=alice".to_string(),
            "pass=secret".to_string(),
        ])
    );
}

#[test]
fn ftp_config_args_render_negative_port() {
    let ftp = Remote::Ftp {
        host: "h".to_string(),
        port: -7,
        username: "u".to_string(),
        password: "p".to_string(),
    };
    let args = ftp.config_args().unwrap();
    assert_eq!(args[1], "port=-7");
}

#[test]
fn choice_of_maps_every_variant() {
    assert_eq!(Remote::choice_of(None), RemoteChoice::None_);
    assert_eq!(
        Remote::choice_of(Some(&Remote::Custom { name: "x".to_string() })),
        RemoteChoice::Custom
    );
    assert_eq!(Remote::choice_of(Some(&Remote::Box_)), RemoteChoice::Box_);
    assert_eq!(Remote::choice_of(Some(&Remote::Dropbox)), RemoteChoice::Dropbox);
    assert_eq!(Remote::choice_of(Some(&Remote::GoogleDrive)), RemoteChoice::GoogleDrive);
    assert_eq!(Remote::choice_of(Some(&Remote::OneDrive)), RemoteChoice::OneDrive);
}

#[test]
fn try_from_choice_defaults() {
    assert_eq!(Remote::try_from_choice(RemoteChoice::None_), Err(()));
    assert_eq!(
        Remote::try_from_choice(RemoteChoice::Custom),
        Ok(Remote::Custom { name: "ludusavi".to_string() })
    );
    assert_eq!(Remote::try_from_choice(RemoteChoice::Box_), Ok(Remote::Box_));
    assert_eq!(Remote::try_from_choice(RemoteChoice::Dropbox), Ok(Remote::Dropbox));
    assert_eq!(Remote::try_from_choice(RemoteChoice::GoogleDrive), Ok(Remote::GoogleDrive));
    assert_eq!(Remote::try_from_choice(RemoteChoice::OneDrive), Ok(Remote::OneDrive));
    assert_eq!(
        Remote::try_from_choice(RemoteChoice::Ftp),
        Ok(Remote::Ftp {
            host: String::new(),
            port: 21,
            username: String::new(),
            password: String::new(),
        })
    );
}

#[test]
fn args_prepends_tokenized_user_arguments() {
    let rclone = rclone_with("--config \"my dir/rclone.conf\" --fast-list", Remote::Dropbox);
    let built = rclone.args(&vec!["lsd".to_string()]);
    assert_eq!(
        built,
        vec![
            "--config".to_string(),
            "my dir/rclone.conf".to_string(),
            "--fast-list".to_string(),
            "lsd".to_string(),
        ]
    );
}

#[test]
fn args_without_user_arguments() {
    let rclone = rclone_with("", Remote::Dropbox);
    let built = rclone.args(&vec!["version".to_string()]);
    assert_eq!(built, vec!["version".to_string()]);
}

#[test]
fn args_drops_untokenizable_user_arguments() {
    let rclone = rclone_with("\"unclosed", Remote::Dropbox);
    let built = rclone.args(&vec!["version".to_string()]);
    assert_eq!(built, vec!["version".to_string()]);
}

#[test]
fn path_qualifies_with_remote_name() {
    let rclone = rclone_with("", Remote::Dropbox);
    assert_eq!(rclone.path("backups/game"), "ludusavi:backups/game");
    let custom = rclone_with("", Remote::Custom { name: "mine".to_string() });
    assert_eq!(custom.path("x"), "mine:x");
}

#[test]
fn obscure_args_shape() {
    let rclone = rclone_with("", Remote::Dropbox);
    assert_eq!(
        rclone.obscure_args("hunter2"),
        vec!["obscure".to_string(), "hunter2".to_string()]
    );
}

#[test]
fn configure_custom_remote_is_done() {
    let rclone = rclone_with("", Remote::Custom { name: "mine".to_string() });
    assert!(matches!(rclone.configure_remote(), ConfigureStep::Done));
}

#[test]
fn configure_dropbox_creates_at_once() {
    let rclone = rclone_with("", Remote::Dropbox);
    match rclone.configure_remote() {
        ConfigureStep::Create { args, sensitive } => {
            assert_eq!(
                args,
                vec![
                    "config".to_string(),
                    "create".to_string(),
                    "ludusavi".to_string(),
                    "dropbox".to_string(),
                ]
            );
            assert!(!sensitive);
        }
        _ => panic!("expected an immediate create step"),
    }
}

#[test]
fn configure_google_drive_passes_scope() {
    let rclone = rclone_with("", Remote::GoogleDrive);
    match rclone.configure_remote() {
        ConfigureStep::Create { args, .. } => {
            assert_eq!(
                args,
                vec![
                    "config".to_string(),
                    "create".to_string(),
                    "ludusavi".to_string(),
                    "drive".to_string(),
                    "scope=drive".to_string(),
                ]
            );
        }
        _ => panic!("expected an immediate create step"),
    }
}

#[test]
fn configure_ftp_obscures_first() {
    let ftp = Remote::Ftp {
        host: "example.com".to_string(),
        port: 21,
        username: "alice".to_string(),
        password: "secret".to_string(),
    };
    let rclone = rclone_with("", ftp);
    match rclone.configure_remote() {
        ConfigureStep::Obscure { args } => {
            assert_eq!(args, vec!["obscure".to_string(), "secret".to_string()]);
        }
        _ => panic!("expected an obscuring step"),
    }
    let (create, sensitive) = rclone.create_invocation("OBSCURED");
    assert_eq!(
        create,
        vec![
            "config".to_string(),
            "create".to_string(),
            "ludusavi".to_string(),
            "ftp".to_string(),
            "host=example.com".to_string(),
            "port=21".to_string(),
            "user=alice".to_string(),
            "pass=OBSCURED".to_string(),
        ]
    );
    assert!(sensitive);
}

#[test]
fn sync_invocations_swap_source_and_destination() {
    let rclone = rclone_with("", Remote::Dropbox);
    let up = rclone.sync_from_local_to_remote("/home/me/saves", "backups");
    assert_eq!(up.program, "/usr/bin/rclone");
    assert_eq!(
        up.args,
        vec![
            "sync".to_string(),
            "-v".to_string(),
            "--use-json-log".to_string(),
            "--stats=1s".to_string(),
            "/home/me/saves".to_string(),
            "ludusavi:backups".to_string(),
        ]
    );
    let down = rclone.sync_from_remote_to_local("/home/me/saves", "backups");
    assert_eq!(
        down.args,
        vec![
            "sync".to_string(),
            "-v".to_string(),
            "--use-json-log".to_string(),
            "--stats=1s".to_string(),
            "ludusavi:backups".to_string(),
            "/home/me/saves".to_string(),
        ]
    );
}

#[test]
fn sync_invocation_keeps_user_arguments_first() {
    let rclone = rclone_with("--transfers 8", Remote::OneDrive);
    let up = rclone.sync_from_local_to_remote("/data", "slot");
    assert_eq!(
        up.args,
        vec![
            "--transfers".to_string(),
            "8".to_string(),
            "sync".to_string(),
            "-v".to_string(),
            "--use-json-log".to_string(),
            "--stats=1s".to_string(),
            "/data".to_string(),
            "ludusavi:slot".to_string(),
        ]
    );
}
