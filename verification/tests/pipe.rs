use filthy_rich::pipe::{add_unix_candidates, is_snap_discord_name, search_order, unix_base_dirs, windows_candidates};

#[test]
fn unix_candidates_of_a_directory() {
    let mut c: Vec<String> = Vec::new();
    add_unix_candidates(&mut c, "/tmp", &vec!["snap.discord".to_string()]);
    assert_eq!(
        c,
        vec![
            "/tmp/discord-ipc-".to_string(),
            "/tmp/app/com.discordapp.Discord/discord-ipc-".to_string(),
            "/tmp/snap.discord/discord-ipc-".to_string(),
        ]
    );
}

#[test]
fn candidates_are_not_repeated() {
    let mut c: Vec<String> = Vec::new();
    add_unix_candidates(&mut c, "/tmp", &vec![]);
    add_unix_candidates(&mut c, "/tmp", &vec![]);
    add_unix_candidates(&mut c, "/run/user/1000", &vec![]);
    assert_eq!(c.len(), 4);
    assert_eq!(c[2], "/run/user/1000/discord-ipc-");
}

#[test]
fn snap_names() {
    assert!(is_snap_discord_name("snap.discord"));
    assert!(is_snap_discord_name("snap.discord-canary"));
    assert!(!is_snap_discord_name("snap.disco"));
    assert!(!is_snap_discord_name("discord"));
}

#[test]
fn paths_are_tried_index_by_index() {
    let c = vec!["/a/".to_string(), "/b/".to_string()];
    let p = search_order(&c);
    assert_eq!(p.len(), 20);
    assert_eq!(p[0], "/a/0");
    assert_eq!(p[1], "/b/0");
    assert_eq!(p[2], "/a/1");
    assert_eq!(p[19], "/b/9");
}

#[test]
fn windows_pipe() {
    assert_eq!(windows_candidates(), vec![r"\\?\pipe\discord-ipc-".to_string()]);
}

#[test]
fn base_directories() {

    assert_eq!(unix_base_dirs(None, None, None), vec!["/tmp".to_string()]);
    assert_eq!(
        unix_base_dirs(Some("/var/t".into()), Some("/run/x".into()), Some("1000".into())),
        vec!["/tmp".to_string(), "/var/t".to_string(), "/run/x".to_string(), "/run/user/1000".to_string()]
    );
    assert_eq!(unix_base_dirs(None, None, Some("7".into())), vec!["/tmp".to_string(), "/run/user/7".to_string()]);
}
