use iota_wallet_tui::types::{actions_for, ContextAction, Section};

fn changes_holdings(a: ContextAction) -> bool {
    matches!(
        a,
        ContextAction::Send
            | ContextAction::Merge
            | ContextAction::Split
            | ContextAction::Transfer
            | ContextAction::Unstake
    )
}

#[test]
fn others_menu_is_own_menu_without_holding_changes() {
    for s in [
        Section::Coins,
        Section::Objects,
        Section::Staking,
        Section::Transactions,
        Section::Packages,
    ] {
        let own: Vec<ContextAction> =
            actions_for(s, true).into_iter().filter(|a| !changes_holdings(*a)).collect();
        assert_eq!(actions_for(s, false), own);
    }
    assert_eq!(
        actions_for(Section::Coins, false),
        vec![ContextAction::CopyId, ContextAction::Explore]
    );
}

#[test]
fn every_shortcut_shows_in_its_label() {
    for a in [
        ContextAction::Send,
        ContextAction::Merge,
        ContextAction::Split,
        ContextAction::Transfer,
        ContextAction::Unstake,
        ContextAction::CopyId,
        ContextAction::Explore,
        ContextAction::ExplorePackage,
        ContextAction::ViewDetails,
        ContextAction::CopyDigest,
    ] {
        assert!(a.shortcut().is_ascii_lowercase());
        assert!(a.label().to_lowercase().contains(a.shortcut()));
    }
}
