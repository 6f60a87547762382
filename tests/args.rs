use apiary::args::{ApiaryArgs, AssetDaemonArgs, AssetSource};

fn daemon() -> AssetDaemonArgs {
    AssetDaemonArgs {
        db_dir: ".assets_db".to_string(),
        address: "127.0.0.1:9999".to_string(),
        asset_dirs: vec!["assets".to_string(), "more".to_string()],
    }
}

#[test]
fn packfile_wins() {
    let args = ApiaryArgs {
        packfile: Some("game.pack".to_string()),
        external_daemon: true,
        daemon_args: daemon(),
    };
    match args.asset_source() {
        Some(AssetSource::Packfile(p)) => assert_eq!(p, "game.pack"),
        _ => panic!("expected the packfile"),
    }
}

#[test]
fn daemon_without_packfile() {
    let args = ApiaryArgs { packfile: None, external_daemon: true, daemon_args: daemon() };
    match args.asset_source() {
        Some(AssetSource::Daemon { external_daemon, daemon_args }) => {
            assert!(external_daemon);
            assert_eq!(daemon_args.db_dir, ".assets_db");
            assert_eq!(daemon_args.address, "127.0.0.1:9999");
            assert_eq!(daemon_args.asset_dirs, vec!["assets".to_string(), "more".to_string()]);
        }
        _ => panic!("expected the daemon"),
    }
}
