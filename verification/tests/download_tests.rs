use monochrome_presence::download::{trim_bytes, DownloadPreference};

const SEP: u8 = b'/';

#[test]
fn trimming_strips_surrounding_whitespace() {
    assert_eq!(trim_bytes(&b" \t/home/user/Downloads\r\n".to_vec()), b"/home/user/Downloads");
    assert_eq!(trim_bytes(&b"/clean/path".to_vec()), b"/clean/path");
    assert_eq!(trim_bytes(&b"   ".to_vec()), b"");
    assert_eq!(trim_bytes(&b"".to_vec()), b"");
    assert_eq!(trim_bytes(&b"a b".to_vec()), b"a b");
}

#[test]
fn loading_trims_the_persisted_value() {
    let pref = DownloadPreference::load(Some(b" /home/user/Downloads\n".to_vec()));
    assert_eq!(pref.preferred_dir(), Some(b"/home/user/Downloads".to_vec()));
}

#[test]
fn absent_file_means_no_preference() {
    let pref = DownloadPreference::load(None);
    assert_eq!(pref.preferred_dir(), None);
    assert_eq!(DownloadPreference::new().preferred_dir(), None);
}

#[test]
fn preference_round_trip_survives_reload() {
    let mut pref = DownloadPreference::new();
    let persisted = pref.set_directory(b"/home/user/Music".to_vec());
    assert_eq!(persisted, b"/home/user/Music");
    let reloaded = DownloadPreference::load(Some(persisted));
    assert_eq!(reloaded.preferred_dir(), pref.preferred_dir());
    assert_eq!(reloaded.preferred_dir(), Some(b"/home/user/Music".to_vec()));
}

#[test]
fn redirection_keeps_the_file_name_and_replaces_the_directory() {
    let mut pref = DownloadPreference::new();
    pref.set_directory(b"/home/user/Downloads".to_vec());
    let decision = pref.redirect(&b"/tmp/file.ext".to_vec(), SEP);
    assert!(decision.proceed);
    assert_eq!(decision.destination, b"/home/user/Downloads/file.ext");
}

#[test]
fn redirection_without_preference_leaves_the_destination() {
    let pref = DownloadPreference::new();
    let decision = pref.redirect(&b"/tmp/file.ext".to_vec(), SEP);
    assert!(decision.proceed);
    assert_eq!(decision.destination, b"/tmp/file.ext");
}

#[test]
fn redirection_does_not_double_a_trailing_separator() {
    let mut pref = DownloadPreference::new();
    pref.set_directory(b"/dl/".to_vec());
    let decision = pref.redirect(&b"/a/b.txt".to_vec(), SEP);
    assert_eq!(decision.destination, b"/dl/b.txt");
}

#[test]
fn destination_without_file_name_is_untouched() {
    let mut pref = DownloadPreference::new();
    pref.set_directory(b"/dl".to_vec());
    let trailing = pref.redirect(&b"/tmp/".to_vec(), SEP);
    assert!(trailing.proceed);
    assert_eq!(trailing.destination, b"/tmp/");
    let empty = pref.redirect(&b"".to_vec(), SEP);
    assert_eq!(empty.destination, b"");
}

#[test]
fn bare_file_name_is_redirected_whole() {
    let mut pref = DownloadPreference::new();
    pref.set_directory(b"/dl".to_vec());
    let decision = pref.redirect(&b"song.flac".to_vec(), SEP);
    assert_eq!(decision.destination, b"/dl/song.flac");
}
