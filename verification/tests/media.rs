use rgb_utils::media::{get_media_staging_dir, MediaAction, MediaInstall, MediaLook};

const ABC: &str = "ba7816bf8f01cfea414140de5dae2223b00361a396177a9cb410ff61f20015ad";
const EMPTY: &str = "e3b0c44298fc1c149afbf4c8996fb92427ae41e4649b934ca495991b7852b855";

fn install(digests: &[&str]) -> MediaInstall {
    let digests = digests.iter().map(|digest| digest.to_string()).collect();
    MediaInstall::new(digests, "/data", "txid")
}

#[test]
fn staging_directory_is_named_after_the_funding() {
    assert_eq!(get_media_staging_dir("/data", "txid"), "/data/media_staging_txid");
    assert_eq!(get_media_staging_dir("/data/", "txid"), "/data/media_staging_txid");
}

#[test]
fn all_files_are_looked_at_before_any_is_moved() {
    let state = install(&[ABC, "there", EMPTY]);
    assert!(matches!(state.action(), MediaAction::Look { digest } if digest == ABC));
    let state = state.looked(MediaLook::Staged(b"abc".to_vec())).unwrap();
    assert!(matches!(state.action(), MediaAction::Look { digest } if digest == "there"));
    let state = state.looked(MediaLook::Installed).unwrap();
    assert!(matches!(state.action(), MediaAction::Look { digest } if digest == EMPTY));
    let state = state.looked(MediaLook::Staged(vec![])).unwrap();
    assert!(matches!(state.action(), MediaAction::Move { digest } if digest == ABC));
    let state = state.moved();
    assert!(matches!(state.action(), MediaAction::Move { digest } if digest == EMPTY));
    let state = state.moved();
    assert!(matches!(state.action(), MediaAction::Clear));
}

#[test]
fn nothing_to_install_ends_at_once() {
    assert!(matches!(install(&[]).action(), MediaAction::Clear));
}

#[test]
fn missing_file_closes_the_channel() {
    let error = install(&["abc"]).looked(MediaLook::Missing).unwrap_err();
    assert_eq!(error.message(), "Missing RGB media file abc for funding");
}

#[test]
fn file_with_another_digest_closes_the_channel() {
    let error = install(&[ABC]).looked(MediaLook::Staged(b"abd".to_vec())).unwrap_err();
    assert_eq!(error.message(), format!("Corrupt RGB media file {ABC} for funding"));
    let upper = ABC.to_uppercase();
    let error = install(&[&upper]).looked(MediaLook::Staged(b"abc".to_vec())).unwrap_err();
    assert_eq!(error.message(), format!("Corrupt RGB media file {upper} for funding"));
}

#[test]
fn file_that_cannot_be_moved_closes_the_channel() {
    let state = install(&[ABC]).looked(MediaLook::Staged(b"abc".to_vec())).unwrap();
    assert_eq!(
        state.move_failed("no space").message(),
        format!(
            "Failed to store RGB media file /data/media_staging_txid/{ABC} for funding: no space"
        )
    );
}
