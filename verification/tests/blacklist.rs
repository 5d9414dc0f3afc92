use solana_stablecoin_standard::address::Address;
use solana_stablecoin_standard::blacklist::{
    add_to_blacklist, add_to_blacklist_at, check_blacklist, remove_from_blacklist,
    remove_from_blacklist_at, Blacklist, BlacklistEntry, CheckBlacklist, ModifyBlacklist,
};
use solana_stablecoin_standard::config::StablecoinConfig;
use solana_stablecoin_standard::error::{OperationError, StablecoinError};
use solana_stablecoin_standard::ledger::TokenAccount;
use solana_stablecoin_standard::token_ops::transfer_hook;

fn addr(tag: u8) -> Address {
    Address::new([tag; 32])
}

fn config(minter: Address, freezer: Address) -> StablecoinConfig {
    StablecoinConfig {
        name: String::from("USD Stable"),
        symbol: String::from("USDX"),
        uri: String::new(),
        decimals: 6,
        mint_authority: minter,
        freeze_authority: freezer,
        bump: 254,
    }
}

fn modify(list: &Blacklist, holder: Address, caller: Address) -> ModifyBlacklist {
    ModifyBlacklist {
        blacklist_entry: list.slot(&holder),
        stablecoin_config: config(addr(1), addr(2)),
        authority: caller,
    }
}

fn holder_account(owner: Address) -> TokenAccount {
    TokenAccount { address: addr(100), owner, amount: 0, frozen: false }
}

#[test]
fn fresh_slot_blocks_nothing() {
    let list = Blacklist::new();
    let slot = list.slot(&addr(5));
    assert_eq!(slot, BlacklistEntry { address: addr(5), is_blacklisted: false, timestamp: 0 });
    assert_eq!(check_blacklist(&CheckBlacklist { blacklist_entry: slot }, addr(5)), Ok(()));
    assert!(!list.is_flagged(&addr(5)));
    assert_eq!(list.len(), 0);
}

#[test]
fn add_sets_flag_and_time() {
    let list = Blacklist::new();
    let mut ctx = modify(&list, addr(5), addr(1));
    assert_eq!(add_to_blacklist_at(&mut ctx, addr(5), 1_700_000_000), Ok(()));
    assert_eq!(
        ctx.blacklist_entry,
        BlacklistEntry { address: addr(5), is_blacklisted: true, timestamp: 1_700_000_000 }
    );
    assert_eq!(ctx.stablecoin_config, config(addr(1), addr(2)));
    assert_eq!(ctx.authority, addr(1));
}

#[test]
fn add_by_stranger_changes_nothing() {
    let list = Blacklist::new();
    let mut ctx = modify(&list, addr(5), addr(3));
    let before = ctx.clone();
    assert_eq!(add_to_blacklist_at(&mut ctx, addr(5), 10), Err(StablecoinError::UnauthorizedAccess));
    assert_eq!(ctx, before);
}

#[test]
fn add_by_freeze_authority_is_refused() {
    let list = Blacklist::new();
    let mut ctx = modify(&list, addr(5), addr(2));
    let before = ctx.clone();
    assert_eq!(add_to_blacklist_at(&mut ctx, addr(5), 10), Err(StablecoinError::UnauthorizedAccess));
    assert_eq!(ctx, before);
}

#[test]
fn remove_by_stranger_changes_nothing() {
    let mut list = Blacklist::new();
    list.store(BlacklistEntry { address: addr(5), is_blacklisted: true, timestamp: 10 });
    let mut ctx = modify(&list, addr(5), addr(3));
    let before = ctx.clone();
    assert_eq!(
        remove_from_blacklist_at(&mut ctx, addr(5), 20),
        Err(StablecoinError::UnauthorizedAccess)
    );
    assert_eq!(ctx, before);
    assert!(ctx.blacklist_entry.is_blacklisted);
}

#[test]
fn check_fails_for_flagged_address() {
    let entry = BlacklistEntry { address: addr(5), is_blacklisted: true, timestamp: 10 };
    let ctx = CheckBlacklist { blacklist_entry: entry };
    assert_eq!(check_blacklist(&ctx, addr(5)), Err(StablecoinError::AddressBlacklisted));
}

#[test]
fn check_passes_for_another_address() {
    let entry = BlacklistEntry { address: addr(5), is_blacklisted: true, timestamp: 10 };
    let ctx = CheckBlacklist { blacklist_entry: entry };
    assert_eq!(check_blacklist(&ctx, addr(6)), Ok(()));
}

#[test]
fn flag_flip_is_seen_by_next_check() {
    let mut list = Blacklist::new();
    let holder = addr(5);
    let check = |list: &Blacklist| {
        check_blacklist(&CheckBlacklist { blacklist_entry: list.slot(&holder) }, holder)
    };
    assert_eq!(check(&list), Ok(()));

    let mut ctx = modify(&list, holder, addr(1));
    assert_eq!(add_to_blacklist_at(&mut ctx, holder, 100), Ok(()));
    list.store(ctx.blacklist_entry);
    assert_eq!(check(&list), Err(StablecoinError::AddressBlacklisted));

    let mut ctx = modify(&list, holder, addr(1));
    assert_eq!(remove_from_blacklist_at(&mut ctx, holder, 200), Ok(()));
    list.store(ctx.blacklist_entry);
    assert_eq!(check(&list), Ok(()));

    let mut ctx = modify(&list, holder, addr(1));
    assert_eq!(add_to_blacklist_at(&mut ctx, holder, 300), Ok(()));
    list.store(ctx.blacklist_entry);
    assert_eq!(check(&list), Err(StablecoinError::AddressBlacklisted));
}

#[test]
fn round_trip_keeps_record_with_latest_time() {
    let mut list = Blacklist::new();
    let holder = addr(5);
    let mut ctx = modify(&list, holder, addr(1));
    assert_eq!(add_to_blacklist_at(&mut ctx, holder, 100), Ok(()));
    list.store(ctx.blacklist_entry);
    let mut ctx = modify(&list, holder, addr(1));
    assert_eq!(remove_from_blacklist_at(&mut ctx, holder, 250), Ok(()));
    list.store(ctx.blacklist_entry);

    let slot = list.slot(&holder);
    assert_eq!(slot, BlacklistEntry { address: holder, is_blacklisted: false, timestamp: 250 });
    assert_eq!(check_blacklist(&CheckBlacklist { blacklist_entry: slot }, holder), Ok(()));
    assert_eq!(list.len(), 1);
    assert!(!list.is_flagged(&holder));
}

#[test]
fn store_touches_one_address_only() {
    let mut list = Blacklist::new();
    list.store(BlacklistEntry { address: addr(5), is_blacklisted: true, timestamp: 1 });
    list.store(BlacklistEntry { address: addr(6), is_blacklisted: false, timestamp: 2 });
    list.store(BlacklistEntry { address: addr(7), is_blacklisted: true, timestamp: 3 });
    assert_eq!(list.len(), 3);
    list.store(BlacklistEntry { address: addr(6), is_blacklisted: true, timestamp: 4 });
    assert_eq!(list.len(), 3);
    assert_eq!(
        list.slot(&addr(5)),
        BlacklistEntry { address: addr(5), is_blacklisted: true, timestamp: 1 }
    );
    assert_eq!(
        list.slot(&addr(6)),
        BlacklistEntry { address: addr(6), is_blacklisted: true, timestamp: 4 }
    );
    assert_eq!(
        list.slot(&addr(7)),
        BlacklistEntry { address: addr(7), is_blacklisted: true, timestamp: 3 }
    );
    assert!(!list.is_flagged(&addr(8)));
}

#[test]
fn movement_is_permitted_when_no_participant_is_flagged() {
    let mut list = Blacklist::new();
    list.store(BlacklistEntry { address: addr(5), is_blacklisted: true, timestamp: 1 });
    list.store(BlacklistEntry { address: addr(6), is_blacklisted: false, timestamp: 2 });
    assert!(list.permits(&vec![]));
    assert!(list.permits(&vec![addr(6), addr(7)]));
    assert!(!list.permits(&vec![addr(5)]));
    assert!(!list.permits(&vec![addr(6), addr(7), addr(5)]));
    assert!(!list.permits(&vec![addr(5), addr(6)]));
}

#[test]
fn check_and_transfer_decision_agree() {
    let mut list = Blacklist::new();
    list.store(BlacklistEntry { address: addr(5), is_blacklisted: true, timestamp: 1 });
    list.store(BlacklistEntry { address: addr(6), is_blacklisted: false, timestamp: 2 });
    for tag in [5u8, 6, 7] {
        let holder = addr(tag);
        let by_check =
            check_blacklist(&CheckBlacklist { blacklist_entry: list.slot(&holder) }, holder)
                .is_ok();
        let by_decision = list.permits(&vec![holder]);
        let by_hook = transfer_hook(&list, &holder_account(holder), &holder_account(addr(7)))
            .is_ok();
        assert_eq!(by_check, by_decision);
        assert_eq!(by_check, by_hook);
        assert_eq!(by_check, tag != 5);
    }
}

#[test]
fn transfer_hook_blocks_either_side() {
    let mut list = Blacklist::new();
    list.store(BlacklistEntry { address: addr(5), is_blacklisted: true, timestamp: 1 });
    let flagged = holder_account(addr(5));
    let clean = holder_account(addr(6));
    assert_eq!(transfer_hook(&list, &clean, &clean), Ok(()));
    assert_eq!(transfer_hook(&list, &flagged, &clean), Err(StablecoinError::AddressBlacklisted));
    assert_eq!(transfer_hook(&list, &clean, &flagged), Err(StablecoinError::AddressBlacklisted));
    list.store(BlacklistEntry { address: addr(5), is_blacklisted: false, timestamp: 2 });
    assert_eq!(transfer_hook(&list, &flagged, &clean), Ok(()));
}

#[test]
fn add_without_authority_is_refused_before_the_clock_is_read() {
    let list = Blacklist::new();
    let mut ctx = modify(&list, addr(5), addr(3));
    let before = ctx.clone();
    assert_eq!(
        add_to_blacklist(&mut ctx, addr(5)),
        Err(OperationError::Refused(StablecoinError::UnauthorizedAccess))
    );
    assert_eq!(ctx, before);
}

#[test]
fn remove_without_authority_is_refused_before_the_clock_is_read() {
    let mut list = Blacklist::new();
    list.store(BlacklistEntry { address: addr(5), is_blacklisted: true, timestamp: 10 });
    let mut ctx = modify(&list, addr(5), addr(2));
    let before = ctx.clone();
    assert_eq!(
        remove_from_blacklist(&mut ctx, addr(5)),
        Err(OperationError::Refused(StablecoinError::UnauthorizedAccess))
    );
    assert_eq!(ctx, before);
}

#[test]
fn add_with_authority_writes_or_hands_on_the_host_error() {
    let list = Blacklist::new();
    let mut ctx = modify(&list, addr(5), addr(1));
    let before = ctx.clone();
    match add_to_blacklist(&mut ctx, addr(5)) {
        Ok(()) => {
            assert_eq!(ctx.blacklist_entry.address, addr(5));
            assert!(ctx.blacklist_entry.is_blacklisted);
            assert_eq!(ctx.stablecoin_config, before.stablecoin_config);
            assert_eq!(ctx.authority, before.authority);
        }
        Err(OperationError::Host(_)) => assert_eq!(ctx, before),
        Err(OperationError::Refused(e)) => panic!("refused: {:?}", e),
    }
}

#[test]
fn remove_with_authority_writes_or_hands_on_the_host_error() {
    let mut list = Blacklist::new();
    list.store(BlacklistEntry { address: addr(5), is_blacklisted: true, timestamp: 10 });
    let mut ctx = modify(&list, addr(5), addr(1));
    let before = ctx.clone();
    match remove_from_blacklist(&mut ctx, addr(5)) {
        Ok(()) => {
            assert_eq!(ctx.blacklist_entry.address, addr(5));
            assert!(!ctx.blacklist_entry.is_blacklisted);
        }
        Err(OperationError::Host(_)) => {
            assert_eq!(ctx, before);
            assert!(ctx.blacklist_entry.is_blacklisted);
        }
        Err(OperationError::Refused(e)) => panic!("refused: {:?}", e),
    }
}
