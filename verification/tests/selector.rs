use fono::selector::{choose_logo_crop, preference_or_default, select_index};

#[test]
fn prefers_matching_session_regardless_of_order() {
    let ids = vec![Some("VLC.exe".to_string()), Some("Spotify.exe".to_string())];
    assert_eq!(select_index(&ids, "spotify"), Some(1));
    let ids = vec![Some("Spotify.exe".to_string()), Some("VLC.exe".to_string())];
    assert_eq!(select_index(&ids, "spotify"), Some(0));
}

#[test]
fn match_is_case_insensitive_substring() {
    let ids = vec![Some("SPOTIFY.EXE".to_string())];
    assert_eq!(select_index(&ids, "Spotify"), Some(0));
    let ids = vec![Some("com.spotify.client".to_string())];
    assert_eq!(select_index(&ids, "SPOT"), Some(0));
}

#[test]
fn first_match_wins() {
    let ids = vec![
        Some("spotify-one".to_string()),
        Some("spotify-two".to_string()),
    ];
    assert_eq!(select_index(&ids, "spotify"), Some(0));
}

#[test]
fn empty_session_list_selects_none() {
    let ids: Vec<Option<String>> = Vec::new();
    assert_eq!(select_index(&ids, "spotify"), None);
}

#[test]
fn unreadable_id_never_matches_and_does_not_abort() {
    let ids = vec![None, Some("Spotify.exe".to_string())];
    assert_eq!(select_index(&ids, "spotify"), Some(1));
    let ids: Vec<Option<String>> = vec![None, None];
    assert_eq!(select_index(&ids, ""), None);
}

#[test]
fn no_match_selects_none() {
    let ids = vec![Some("VLC.exe".to_string()), Some("mpv.exe".to_string())];
    assert_eq!(select_index(&ids, "spotify"), None);
}

#[test]
fn empty_preference_matches_first_readable_id() {
    let ids = vec![None, Some("anything".to_string())];
    assert_eq!(select_index(&ids, ""), Some(1));
}

#[test]
fn preference_defaults_to_spotify() {
    assert_eq!(preference_or_default(None), "spotify".to_string());
    assert_eq!(
        preference_or_default(Some("vlc".to_string())),
        "vlc".to_string()
    );
}

#[test]
fn logo_crop_choice_follows_app_id() {
    assert!(choose_logo_crop(&Some("Spotify.exe".to_string())));
    assert!(choose_logo_crop(&Some("COM.SPOTIFY.CLIENT".to_string())));
    assert!(!choose_logo_crop(&Some("VLC.exe".to_string())));
    assert!(!choose_logo_crop(&None));
}
