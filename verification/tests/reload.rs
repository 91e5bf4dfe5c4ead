use gnome_search_providers_jetbrains::reload::ReloadOutcome::{Failed, Reloaded, Skipped};
use gnome_search_providers_jetbrains::reload::{ReloadAll, ReloadError};

#[test]
fn reload_of_all_succeeds_unless_one_fails() {
    assert_eq!(ReloadAll.reload_all(&[]), Ok(()));
    assert_eq!(ReloadAll.reload_all(&[Reloaded, Skipped, Reloaded]), Ok(()));
    assert_eq!(ReloadAll.reload_all(&[Skipped]), Ok(()));
    assert_eq!(
        ReloadAll.reload_all(&[Reloaded, Failed, Reloaded]),
        Err(ReloadError::SomeFailed)
    );
    assert_eq!(ReloadAll.reload_all(&[Failed]), Err(ReloadError::SomeFailed));
    assert_eq!(
        ReloadAll.reload_all(&[Skipped, Skipped, Failed]),
        Err(ReloadError::SomeFailed)
    );
    assert_eq!(
        ReloadError::SomeFailed.message(),
        "Failed to reload recent projects of some providers"
    );
}
