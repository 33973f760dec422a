use idrx_token::{Address, Authentication, Guards, Operation, Role, TokenError, IDRX};

struct Cast {
    admin: Address,
    pauser: Address,
    upgrader: Address,
    minter: Address,
    manager: Address,
    user1: Address,
    user2: Address,
}

fn cast() -> Cast {
    Cast {
        admin: Address::new(1),
        pauser: Address::new(2),
        upgrader: Address::new(3),
        minter: Address::new(4),
        manager: Address::new(5),
        user1: Address::new(101),
        user2: Address::new(102),
    }
}

fn create_token(
    admin: &Address,
    pauser: &Address,
    upgrader: &Address,
    minter: &Address,
    manager: &Address,
) -> IDRX {
    IDRX::init(*admin, *pauser, *upgrader, *minter, *manager)
}

fn fresh(c: &Cast) -> IDRX {
    create_token(&c.admin, &c.pauser, &c.upgrader, &c.minter, &c.manager)
}

/// Everybody in the cast was authenticated.
fn all_auths(c: &Cast) -> Authentication {
    let mut auth = Authentication::none();
    for who in [c.admin, c.pauser, c.upgrader, c.minter, c.manager, c.user1, c.user2] {
        auth.vouch(who);
    }
    auth
}

#[test]
fn test_mint() {
    let c = cast();
    let auth = all_auths(&c);
    let mut token = fresh(&c);

    // Mint tokens to user1 using the minter
    assert_eq!(token.mint(c.user1, 1000, c.minter, &auth), Ok(()));

    // The authentication that was asked for is the minter's
    let op = Operation::Mint { account: c.user1, amount: 1000_i128, caller: c.minter };
    assert_eq!(
        op.guard_set(),
        Guards { signer: c.minter, role: Some(Role::Minter), when_not_paused: true, parties: None }
    );

    // Verify balance
    assert_eq!(token.balance(c.user1), 1000);
}

#[test]
fn test_multiple_mints() {
    let c = cast();
    let auth = all_auths(&c);
    let mut token = fresh(&c);

    // Mint to multiple users
    assert_eq!(token.mint(c.user1, 1000, c.minter, &auth), Ok(()));
    assert_eq!(token.mint(c.user2, 2500, c.minter, &auth), Ok(()));

    assert_eq!(token.balance(c.user1), 1000);
    assert_eq!(token.balance(c.user2), 2500);
    assert_eq!(token.total_supply(), 3500);
}

#[test]
fn fresh_token_is_empty_and_running() {
    let c = cast();
    let token = fresh(&c);
    assert_eq!(token.total_supply(), 0);
    assert_eq!(token.balance(c.user1), 0);
    assert!(!token.paused());
    assert!(!token.blocked(c.user1));
    assert_eq!(token.admin(), Some(c.admin));
    assert!(token.has_role(Role::Admin, c.admin));
    assert!(token.has_role(Role::Pauser, c.pauser));
    assert!(token.has_role(Role::Upgrader, c.upgrader));
    assert!(token.has_role(Role::Minter, c.minter));
    assert!(token.has_role(Role::Manager, c.manager));
    assert!(!token.has_role(Role::Minter, c.admin));
    assert!(!token.has_role(Role::Admin, c.minter));
    assert!(!token.has_role(Role::Pauser, c.manager));
}

#[test]
fn metadata_is_fixed() {
    let c = cast();
    let token = fresh(&c);
    assert_eq!(token.decimals(), 18);
    assert_eq!(token.name(), "IDRX");
    assert_eq!(token.symbol(), "IDRX");
}

#[test]
fn mint_by_minter_sets_balance_and_supply() {
    let c = cast();
    let mut token = fresh(&c);
    let auth = Authentication::of(c.minter);
    assert_eq!(token.mint(c.user1, 1000, c.minter, &auth), Ok(()));
    assert_eq!(token.balance(c.user1), 1000);
    assert_eq!(token.total_supply(), 1000);
}

#[test]
fn blocked_sender_cannot_transfer_until_unblocked() {
    let c = cast();
    let auth = all_auths(&c);
    let mut token = fresh(&c);
    assert_eq!(token.mint(c.user1, 1000, c.minter, &auth), Ok(()));
    assert_eq!(token.mint(c.user2, 2500, c.minter, &auth), Ok(()));

    assert_eq!(token.block_user(c.user1, c.manager, &auth), Ok(()));
    assert!(token.blocked(c.user1));
    for amount in [0_i128, 1, 500, 1000, 5000] {
        assert_eq!(
            token.transfer(c.user1, c.user2, amount, &auth),
            Err(TokenError::AddressBlocked(c.user1))
        );
    }
    assert_eq!(token.balance(c.user1), 1000);
    assert_eq!(token.balance(c.user2), 2500);

    assert_eq!(token.unblock_user(c.user1, c.manager, &auth), Ok(()));
    assert!(!token.blocked(c.user1));
    assert_eq!(token.transfer(c.user1, c.user2, 500, &auth), Ok(()));
    assert_eq!(token.balance(c.user1), 500);
    assert_eq!(token.balance(c.user2), 3000);
    assert_eq!(token.total_supply(), 3500);
}

#[test]
fn pause_stops_mint_until_unpause() {
    let c = cast();
    let auth = all_auths(&c);
    let mut token = fresh(&c);
    assert_eq!(token.pause(c.pauser, &auth), Ok(()));
    assert!(token.paused());
    assert_eq!(token.mint(c.user1, 1000, c.minter, &auth), Err(TokenError::ContractPaused));
    assert_eq!(token.balance(c.user1), 0);
    assert_eq!(token.total_supply(), 0);
    assert_eq!(token.unpause(c.pauser, &auth), Ok(()));
    assert!(!token.paused());
    assert_eq!(token.mint(c.user1, 1000, c.minter, &auth), Ok(()));
    assert_eq!(token.balance(c.user1), 1000);
}

#[test]
fn pause_stops_every_movement_of_value() {
    let c = cast();
    let auth = all_auths(&c);
    let mut token = fresh(&c);
    assert_eq!(token.mint(c.user1, 1000, c.minter, &auth), Ok(()));
    assert_eq!(token.pause(c.pauser, &auth), Ok(()));

    assert_eq!(token.mint(c.user1, 1, c.minter, &auth), Err(TokenError::ContractPaused));
    assert_eq!(token.burn(c.user1, 1, &auth), Err(TokenError::ContractPaused));
    assert_eq!(token.burn_from(c.user2, c.user1, 1, 10, &auth), Err(TokenError::ContractPaused));
    assert_eq!(token.transfer(c.user1, c.user2, 1, &auth), Err(TokenError::ContractPaused));
    assert_eq!(
        token.transfer_from(c.user2, c.user1, c.user2, 1, 10, &auth),
        Err(TokenError::ContractPaused)
    );
    assert_eq!(token.balance(c.user1), 1000);
    assert_eq!(token.total_supply(), 1000);
}

#[test]
fn administration_works_while_paused() {
    let c = cast();
    let auth = all_auths(&c);
    let mut token = fresh(&c);
    assert_eq!(token.pause(c.pauser, &auth), Ok(()));
    assert_eq!(token.block_user(c.user1, c.manager, &auth), Ok(()));
    assert!(token.blocked(c.user1));
    assert_eq!(token.unblock_user(c.user1, c.manager, &auth), Ok(()));
    assert!(!token.blocked(c.user1));
    assert_eq!(token.pause(c.pauser, &auth), Ok(()));
    assert!(token.paused());
    assert_eq!(token.grant_role(Role::Minter, c.user1, c.admin, &auth), Ok(()));
    assert_eq!(token.authorize_upgrade(c.upgrader, &auth), Ok(()));
    assert_eq!(token.unpause(c.pauser, &auth), Ok(()));
    assert!(!token.paused());
}

#[test]
fn blocked_destination_is_named() {
    let c = cast();
    let auth = all_auths(&c);
    let mut token = fresh(&c);
    assert_eq!(token.mint(c.user1, 1000, c.minter, &auth), Ok(()));
    assert_eq!(token.block_user(c.user2, c.manager, &auth), Ok(()));
    assert_eq!(
        token.transfer(c.user1, c.user2, 0, &auth),
        Err(TokenError::AddressBlocked(c.user2))
    );
    assert_eq!(
        token.transfer_from(c.minter, c.user1, c.user2, 10, 100, &auth),
        Err(TokenError::AddressBlocked(c.user2))
    );
    assert_eq!(
        token.transfer_from(c.minter, c.user2, c.user1, 10, 100, &auth),
        Err(TokenError::AddressBlocked(c.user2))
    );
    // both blocked: the source is named
    assert_eq!(token.block_user(c.user1, c.manager, &auth), Ok(()));
    assert_eq!(
        token.transfer(c.user1, c.user2, 10, &auth),
        Err(TokenError::AddressBlocked(c.user1))
    );
    assert_eq!(token.balance(c.user1), 1000);
    assert_eq!(token.balance(c.user2), 0);
}

#[test]
fn block_list_does_not_stop_mint_or_burn() {
    let c = cast();
    let auth = all_auths(&c);
    let mut token = fresh(&c);
    assert_eq!(token.block_user(c.user1, c.manager, &auth), Ok(()));
    assert_eq!(token.mint(c.user1, 1000, c.minter, &auth), Ok(()));
    assert_eq!(token.burn(c.user1, 400, &auth), Ok(()));
    assert_eq!(token.burn_from(c.user2, c.user1, 100, 100, &auth), Ok(0));
    assert_eq!(token.balance(c.user1), 500);
    assert_eq!(token.total_supply(), 500);
}

#[test]
fn mint_without_minter_role_is_unauthorized() {
    let c = cast();
    let auth = all_auths(&c);
    let mut token = fresh(&c);
    for caller in [c.admin, c.pauser, c.upgrader, c.manager, c.user1] {
        assert_eq!(token.mint(c.user1, 1000, caller, &auth), Err(TokenError::Unauthorized));
    }
    assert_eq!(token.balance(c.user1), 0);
    assert_eq!(token.total_supply(), 0);
}

#[test]
fn grant_then_revoke_restores_rejection() {
    let c = cast();
    let auth = all_auths(&c);
    let mut token = fresh(&c);
    assert_eq!(token.mint(c.user2, 5, c.user1, &auth), Err(TokenError::Unauthorized));
    assert_eq!(token.grant_role(Role::Minter, c.user1, c.admin, &auth), Ok(()));
    assert!(token.has_role(Role::Minter, c.user1));
    assert_eq!(token.mint(c.user2, 5, c.user1, &auth), Ok(()));
    assert_eq!(token.revoke_role(Role::Minter, c.user1, c.admin, &auth), Ok(()));
    assert!(!token.has_role(Role::Minter, c.user1));
    assert_eq!(token.mint(c.user2, 5, c.user1, &auth), Err(TokenError::Unauthorized));
    assert_eq!(token.balance(c.user2), 5);
    // the first minter is untouched
    assert!(token.has_role(Role::Minter, c.minter));
}

#[test]
fn only_the_admin_grants_and_revokes() {
    let c = cast();
    let auth = all_auths(&c);
    let mut token = fresh(&c);
    assert_eq!(
        token.grant_role(Role::Minter, c.user1, c.minter, &auth),
        Err(TokenError::Unauthorized)
    );
    assert_eq!(
        token.revoke_role(Role::Minter, c.minter, c.manager, &auth),
        Err(TokenError::Unauthorized)
    );
    assert!(!token.has_role(Role::Minter, c.user1));
    assert!(token.has_role(Role::Minter, c.minter));
    assert_eq!(
        token.grant_role(Role::Minter, c.user1, c.admin, &Authentication::none()),
        Err(TokenError::AuthenticationFailed)
    );
}

#[test]
fn admin_role_is_neither_granted_nor_revoked() {
    let c = cast();
    let auth = all_auths(&c);
    let mut token = fresh(&c);
    assert_eq!(
        token.grant_role(Role::Admin, c.user1, c.admin, &auth),
        Err(TokenError::Unauthorized)
    );
    assert_eq!(
        token.revoke_role(Role::Admin, c.admin, c.admin, &auth),
        Err(TokenError::Unauthorized)
    );
    assert_eq!(token.admin(), Some(c.admin));
    assert!(!token.has_role(Role::Admin, c.user1));
}

#[test]
fn grant_and_revoke_are_idempotent() {
    let c = cast();
    let auth = all_auths(&c);
    let mut token = fresh(&c);
    assert_eq!(token.grant_role(Role::Pauser, c.user1, c.admin, &auth), Ok(()));
    assert_eq!(token.grant_role(Role::Pauser, c.user1, c.admin, &auth), Ok(()));
    assert!(token.has_role(Role::Pauser, c.user1));
    assert_eq!(token.revoke_role(Role::Pauser, c.user1, c.admin, &auth), Ok(()));
    assert_eq!(token.revoke_role(Role::Pauser, c.user1, c.admin, &auth), Ok(()));
    assert!(!token.has_role(Role::Pauser, c.user1));
}

#[test]
fn block_twice_and_pause_twice_succeed() {
    let c = cast();
    let auth = all_auths(&c);
    let mut token = fresh(&c);
    assert_eq!(token.block_user(c.user1, c.manager, &auth), Ok(()));
    assert_eq!(token.block_user(c.user1, c.manager, &auth), Ok(()));
    assert!(token.blocked(c.user1));
    assert_eq!(token.unblock_user(c.user1, c.manager, &auth), Ok(()));
    assert_eq!(token.unblock_user(c.user1, c.manager, &auth), Ok(()));
    assert!(!token.blocked(c.user1));
    assert_eq!(token.pause(c.pauser, &auth), Ok(()));
    assert_eq!(token.pause(c.pauser, &auth), Ok(()));
    assert!(token.paused());
    assert_eq!(token.unpause(c.pauser, &auth), Ok(()));
    assert_eq!(token.unpause(c.pauser, &auth), Ok(()));
    assert!(!token.paused());
}

#[test]
fn unauthenticated_caller_learns_nothing_else() {
    let c = cast();
    let nobody = Authentication::none();
    let mut token = fresh(&c);
    assert_eq!(token.mint(c.user1, 10, c.minter, &nobody), Err(TokenError::AuthenticationFailed));
    assert_eq!(token.mint(c.user1, 10, c.user2, &nobody), Err(TokenError::AuthenticationFailed));
    assert_eq!(token.mint(c.user1, -1, c.minter, &nobody), Err(TokenError::AuthenticationFailed));
    assert_eq!(token.burn(c.user1, 10, &nobody), Err(TokenError::AuthenticationFailed));
    assert_eq!(token.transfer(c.user1, c.user2, 10, &nobody), Err(TokenError::AuthenticationFailed));
    assert_eq!(token.pause(c.pauser, &nobody), Err(TokenError::AuthenticationFailed));
    assert_eq!(token.block_user(c.user1, c.manager, &nobody), Err(TokenError::AuthenticationFailed));
    assert_eq!(token.authorize_upgrade(c.upgrader, &nobody), Err(TokenError::AuthenticationFailed));
    // somebody else's authentication does not count
    let other = Authentication::of(c.user2);
    assert_eq!(token.mint(c.user1, 10, c.minter, &other), Err(TokenError::AuthenticationFailed));
    assert_eq!(token.burn(c.user1, 10, &other), Err(TokenError::AuthenticationFailed));
    assert_eq!(
        token.transfer_from(c.user1, c.user2, c.user1, 0, 0, &other),
        Err(TokenError::AuthenticationFailed)
    );
    assert_eq!(token.total_supply(), 0);
    assert!(!token.paused());
    assert!(!token.blocked(c.user1));
}

#[test]
fn guards_fail_in_order() {
    let c = cast();
    let auth = all_auths(&c);
    let mut token = fresh(&c);
    assert_eq!(token.pause(c.pauser, &auth), Ok(()));
    assert_eq!(token.block_user(c.user1, c.manager, &auth), Ok(()));
    // role before pause
    assert_eq!(token.mint(c.user1, -5, c.user1, &auth), Err(TokenError::Unauthorized));
    // pause before block list
    assert_eq!(token.transfer(c.user1, c.user2, -5, &auth), Err(TokenError::ContractPaused));
    // pause before amount
    assert_eq!(token.mint(c.user1, -5, c.minter, &auth), Err(TokenError::ContractPaused));
    assert_eq!(token.unpause(c.pauser, &auth), Ok(()));
    // block list before amount and balance
    assert_eq!(
        token.transfer(c.user1, c.user2, -5, &auth),
        Err(TokenError::AddressBlocked(c.user1))
    );
    assert_eq!(token.unblock_user(c.user1, c.manager, &auth), Ok(()));
    // amount before allowance, allowance before balance
    assert_eq!(
        token.transfer_from(c.user2, c.user1, c.user2, -5, -10, &auth),
        Err(TokenError::InvalidAmount)
    );
    assert_eq!(
        token.transfer_from(c.user2, c.user1, c.user2, 5, 4, &auth),
        Err(TokenError::InsufficientAllowance)
    );
    assert_eq!(
        token.transfer_from(c.user2, c.user1, c.user2, 5, 5, &auth),
        Err(TokenError::InsufficientBalance)
    );
}

#[test]
fn negative_amounts_are_invalid() {
    let c = cast();
    let auth = all_auths(&c);
    let mut token = fresh(&c);
    assert_eq!(token.mint(c.user1, 100, c.minter, &auth), Ok(()));
    assert_eq!(token.mint(c.user1, -1, c.minter, &auth), Err(TokenError::InvalidAmount));
    assert_eq!(token.mint(c.user1, i128::MIN, c.minter, &auth), Err(TokenError::InvalidAmount));
    assert_eq!(token.burn(c.user1, -1, &auth), Err(TokenError::InvalidAmount));
    assert_eq!(token.burn_from(c.user2, c.user1, -1, 50, &auth), Err(TokenError::InvalidAmount));
    assert_eq!(token.transfer(c.user1, c.user2, -1, &auth), Err(TokenError::InvalidAmount));
    assert_eq!(
        token.transfer_from(c.user2, c.user1, c.user2, -1, 50, &auth),
        Err(TokenError::InvalidAmount)
    );
    assert_eq!(token.balance(c.user1), 100);
    assert_eq!(token.total_supply(), 100);
}

#[test]
fn zero_amounts_succeed_and_change_nothing() {
    let c = cast();
    let auth = all_auths(&c);
    let mut token = fresh(&c);
    assert_eq!(token.mint(c.user1, 0, c.minter, &auth), Ok(()));
    assert_eq!(token.burn(c.user1, 0, &auth), Ok(()));
    assert_eq!(token.transfer(c.user1, c.user2, 0, &auth), Ok(()));
    assert_eq!(token.burn_from(c.user2, c.user1, 0, 0, &auth), Ok(0));
    assert_eq!(token.transfer_from(c.user2, c.user1, c.user2, 0, 7, &auth), Ok(7));
    assert_eq!(token.balance(c.user1), 0);
    assert_eq!(token.balance(c.user2), 0);
    assert_eq!(token.total_supply(), 0);
}

#[test]
fn overflow_of_total_supply_is_refused() {
    let c = cast();
    let auth = all_auths(&c);
    let mut token = fresh(&c);
    assert_eq!(token.mint(c.user1, i128::MAX - 10, c.minter, &auth), Ok(()));
    assert_eq!(token.mint(c.user2, 11, c.minter, &auth), Err(TokenError::Overflow));
    assert_eq!(token.mint(c.user1, i128::MAX, c.minter, &auth), Err(TokenError::Overflow));
    assert_eq!(token.total_supply(), i128::MAX - 10);
    assert_eq!(token.balance(c.user2), 0);
    assert_eq!(token.mint(c.user2, 10, c.minter, &auth), Ok(()));
    assert_eq!(token.total_supply(), i128::MAX);
    assert_eq!(token.balance(c.user1), i128::MAX - 10);
    assert_eq!(token.balance(c.user2), 10);
    assert_eq!(token.mint(c.user2, 1, c.minter, &auth), Err(TokenError::Overflow));
    assert_eq!(token.transfer(c.user1, c.user2, i128::MAX - 10, &auth), Ok(()));
    assert_eq!(token.balance(c.user2), i128::MAX);
    assert_eq!(token.balance(c.user1), 0);
}

#[test]
fn burn_takes_from_balance_and_supply() {
    let c = cast();
    let auth = all_auths(&c);
    let mut token = fresh(&c);
    assert_eq!(token.mint(c.user1, 1000, c.minter, &auth), Ok(()));
    assert_eq!(token.mint(c.user2, 2500, c.minter, &auth), Ok(()));
    assert_eq!(token.burn(c.user1, 1001, &auth), Err(TokenError::InsufficientBalance));
    assert_eq!(token.burn(c.user1, 300, &auth), Ok(()));
    assert_eq!(token.balance(c.user1), 700);
    assert_eq!(token.balance(c.user2), 2500);
    assert_eq!(token.total_supply(), 3200);
    assert_eq!(token.burn(c.user1, 700, &auth), Ok(()));
    assert_eq!(token.balance(c.user1), 0);
    assert_eq!(token.total_supply(), 2500);
    assert_eq!(token.burn(c.user1, 1, &auth), Err(TokenError::InsufficientBalance));
}

#[test]
fn burn_from_spends_allowance() {
    let c = cast();
    let auth = all_auths(&c);
    let mut token = fresh(&c);
    assert_eq!(token.mint(c.user1, 1000, c.minter, &auth), Ok(()));
    assert_eq!(
        token.burn_from(c.user2, c.user1, 300, 299, &auth),
        Err(TokenError::InsufficientAllowance)
    );
    assert_eq!(token.burn_from(c.user2, c.user1, 300, 450, &auth), Ok(150));
    assert_eq!(token.balance(c.user1), 700);
    assert_eq!(token.total_supply(), 700);
    assert_eq!(
        token.burn_from(c.user2, c.user1, 701, 5000, &auth),
        Err(TokenError::InsufficientBalance)
    );
    assert_eq!(token.balance(c.user1), 700);
    // the spender authenticates, not the owner
    assert_eq!(
        token.burn_from(c.user2, c.user1, 1, 5, &Authentication::of(c.user1)),
        Err(TokenError::AuthenticationFailed)
    );
    assert_eq!(token.burn_from(c.user2, c.user1, 1, 5, &Authentication::of(c.user2)), Ok(4));
}

#[test]
fn transfer_moves_value_and_keeps_supply() {
    let c = cast();
    let auth = all_auths(&c);
    let mut token = fresh(&c);
    assert_eq!(token.mint(c.user1, 1000, c.minter, &auth), Ok(()));
    assert_eq!(token.transfer(c.user1, c.user2, 1001, &auth), Err(TokenError::InsufficientBalance));
    assert_eq!(token.transfer(c.user1, c.user2, 250, &auth), Ok(()));
    assert_eq!(token.balance(c.user1), 750);
    assert_eq!(token.balance(c.user2), 250);
    assert_eq!(token.total_supply(), 1000);
    // the source authenticates, not the destination
    assert_eq!(
        token.transfer(c.user1, c.user2, 1, &Authentication::of(c.user2)),
        Err(TokenError::AuthenticationFailed)
    );
}

#[test]
fn transfer_to_oneself_changes_nothing() {
    let c = cast();
    let auth = all_auths(&c);
    let mut token = fresh(&c);
    assert_eq!(token.mint(c.user1, 1000, c.minter, &auth), Ok(()));
    assert_eq!(token.transfer(c.user1, c.user1, 400, &auth), Ok(()));
    assert_eq!(token.transfer(c.user1, c.user1, 1000, &auth), Ok(()));
    assert_eq!(token.transfer(c.user1, c.user1, 1001, &auth), Err(TokenError::InsufficientBalance));
    assert_eq!(token.balance(c.user1), 1000);
    assert_eq!(token.total_supply(), 1000);
}

#[test]
fn transfer_from_spends_allowance() {
    let c = cast();
    let auth = all_auths(&c);
    let mut token = fresh(&c);
    assert_eq!(token.mint(c.user1, 1000, c.minter, &auth), Ok(()));
    assert_eq!(token.transfer_from(c.manager, c.user1, c.user2, 600, 1000, &auth), Ok(400));
    assert_eq!(token.balance(c.user1), 400);
    assert_eq!(token.balance(c.user2), 600);
    assert_eq!(token.total_supply(), 1000);
    assert_eq!(
        token.transfer_from(c.manager, c.user1, c.user2, 401, 400, &auth),
        Err(TokenError::InsufficientAllowance)
    );
    assert_eq!(
        token.transfer_from(c.manager, c.user1, c.user2, 401, 401, &auth),
        Err(TokenError::InsufficientBalance)
    );
    assert_eq!(token.transfer_from(c.manager, c.user1, c.user2, 400, 400, &auth), Ok(0));
    assert_eq!(token.balance(c.user1), 0);
    assert_eq!(token.balance(c.user2), 1000);
}

#[test]
fn upgrade_needs_the_upgrader() {
    let c = cast();
    let auth = all_auths(&c);
    let token = fresh(&c);
    assert_eq!(token.authorize_upgrade(c.upgrader, &auth), Ok(()));
    assert_eq!(token.authorize_upgrade(c.admin, &auth), Err(TokenError::Unauthorized));
    assert_eq!(token.authorize_upgrade(c.user1, &auth), Err(TokenError::Unauthorized));
    assert_eq!(
        token.authorize_upgrade(c.upgrader, &Authentication::of(c.admin)),
        Err(TokenError::AuthenticationFailed)
    );
}

#[test]
fn pause_and_block_need_their_roles() {
    let c = cast();
    let auth = all_auths(&c);
    let mut token = fresh(&c);
    assert_eq!(token.pause(c.manager, &auth), Err(TokenError::Unauthorized));
    assert_eq!(token.unpause(c.admin, &auth), Err(TokenError::Unauthorized));
    assert_eq!(token.block_user(c.user1, c.pauser, &auth), Err(TokenError::Unauthorized));
    assert_eq!(token.unblock_user(c.user1, c.admin, &auth), Err(TokenError::Unauthorized));
    assert!(!token.paused());
    assert!(!token.blocked(c.user1));
}

#[test]
fn one_address_may_hold_every_role() {
    let everyone = Address::new(9);
    let auth = Authentication::of(everyone);
    let mut token = IDRX::init(everyone, everyone, everyone, everyone, everyone);
    assert_eq!(token.mint(everyone, 10, everyone, &auth), Ok(()));
    assert_eq!(token.pause(everyone, &auth), Ok(()));
    assert_eq!(token.block_user(everyone, everyone, &auth), Ok(()));
    assert_eq!(token.authorize_upgrade(everyone, &auth), Ok(()));
    assert_eq!(token.grant_role(Role::Minter, Address::new(10), everyone, &auth), Ok(()));
    assert_eq!(token.balance(everyone), 10);
}

#[test]
fn authorize_follows_the_guard_table() {
    let c = cast();
    let auth = all_auths(&c);
    let mut token = fresh(&c);
    let transfer = Operation::Transfer { from: c.user1, to: c.user2, amount: 5 };
    assert_eq!(
        transfer.guard_set(),
        Guards {
            signer: c.user1,
            role: None,
            when_not_paused: true,
            parties: Some((c.user1, c.user2))
        }
    );
    assert_eq!(token.authorize(&transfer, &auth), Ok(()));
    assert_eq!(token.block_user(c.user2, c.manager, &auth), Ok(()));
    assert_eq!(token.authorize(&transfer, &auth), Err(TokenError::AddressBlocked(c.user2)));
    assert_eq!(token.pause(c.pauser, &auth), Ok(()));
    assert_eq!(token.authorize(&transfer, &auth), Err(TokenError::ContractPaused));
    assert_eq!(
        token.authorize(&transfer, &Authentication::none()),
        Err(TokenError::AuthenticationFailed)
    );
    let block = Operation::BlockUser { user: c.user1, operator: c.manager };
    assert_eq!(token.authorize(&block, &auth), Ok(()));
}

#[test]
fn guard_table_lists_every_operation() {
    let a = Address::new(1);
    let b = Address::new(2);
    let s = Address::new(3);
    let table: Vec<(Operation, Guards)> = vec![
        (
            Operation::Mint { account: a, amount: 1, caller: s },
            Guards { signer: s, role: Some(Role::Minter), when_not_paused: true, parties: None },
        ),
        (
            Operation::Burn { from: a, amount: 1 },
            Guards { signer: a, role: None, when_not_paused: true, parties: None },
        ),
        (
            Operation::BurnFrom { spender: s, from: a, amount: 1 },
            Guards { signer: s, role: None, when_not_paused: true, parties: None },
        ),
        (
            Operation::Transfer { from: a, to: b, amount: 1 },
            Guards { signer: a, role: None, when_not_paused: true, parties: Some((a, b)) },
        ),
        (
            Operation::TransferFrom { spender: s, from: a, to: b, amount: 1 },
            Guards { signer: s, role: None, when_not_paused: true, parties: Some((a, b)) },
        ),
        (
            Operation::BlockUser { user: a, operator: s },
            Guards { signer: s, role: Some(Role::Manager), when_not_paused: false, parties: None },
        ),
        (
            Operation::UnblockUser { user: a, operator: s },
            Guards { signer: s, role: Some(Role::Manager), when_not_paused: false, parties: None },
        ),
        (
            Operation::Pause { caller: s },
            Guards { signer: s, role: Some(Role::Pauser), when_not_paused: false, parties: None },
        ),
        (
            Operation::Unpause { caller: s },
            Guards { signer: s, role: Some(Role::Pauser), when_not_paused: false, parties: None },
        ),
        (
            Operation::AuthorizeUpgrade { operator: s },
            Guards { signer: s, role: Some(Role::Upgrader), when_not_paused: false, parties: None },
        ),
        (
            Operation::GrantRole { role: Role::Minter, account: a, caller: s },
            Guards { signer: s, role: Some(Role::Admin), when_not_paused: false, parties: None },
        ),
        (
            Operation::RevokeRole { role: Role::Minter, account: a, caller: s },
            Guards { signer: s, role: Some(Role::Admin), when_not_paused: false, parties: None },
        ),
    ];
    for (op, guards) in table {
        assert_eq!(op.guard_set(), guards);
    }
}

#[test]
fn supply_equals_sum_of_balances_after_many_operations() {
    let c = cast();
    let auth = all_auths(&c);
    let mut token = fresh(&c);
    let holders = [c.user1, c.user2, c.admin, c.minter];
    let mut step: i128 = 1;
    while step <= 60 {
        let from = holders[(step % 4) as usize];
        let to = holders[((step * 7 + 1) % 4) as usize];
        let amount: i128 = (step * 37) % 101 - 5;
        let _ = match step % 5 {
            0 => token.mint(to, amount, c.minter, &auth),
            1 => token.burn(from, amount, &auth),
            2 => token.transfer(from, to, amount, &auth),
            3 => token.transfer_from(c.manager, from, to, amount, 50, &auth).map(|_| ()),
            _ => token.mint(from, amount * 3, c.minter, &auth),
        };
        let mut sum: i128 = 0;
        for holder in holders {
            assert!(token.balance(holder) >= 0);
            sum += token.balance(holder);
        }
        assert_eq!(token.total_supply(), sum);
        step += 1;
    }
    assert!(token.total_supply() > 0);
}

#[test]
fn refused_operations_change_nothing() {
    let c = cast();
    let auth = all_auths(&c);
    let mut token = fresh(&c);
    assert_eq!(token.mint(c.user1, 1000, c.minter, &auth), Ok(()));
    assert_eq!(token.block_user(c.user2, c.manager, &auth), Ok(()));
    assert!(token.mint(c.user1, 5, c.user1, &auth).is_err());
    assert!(token.burn(c.user1, 1001, &auth).is_err());
    assert!(token.burn_from(c.user2, c.user1, 10, 9, &auth).is_err());
    assert!(token.transfer(c.user1, c.user2, 10, &auth).is_err());
    assert!(token.transfer_from(c.manager, c.user1, c.user2, 10, 10, &auth).is_err());
    assert!(token.pause(c.user1, &auth).is_err());
    assert!(token.unblock_user(c.user2, c.user1, &auth).is_err());
    assert!(token.grant_role(Role::Minter, c.user1, c.user1, &auth).is_err());
    assert_eq!(token.balance(c.user1), 1000);
    assert_eq!(token.balance(c.user2), 0);
    assert_eq!(token.total_supply(), 1000);
    assert!(!token.paused());
    assert!(token.blocked(c.user2));
    assert!(!token.has_role(Role::Minter, c.user1));
}
