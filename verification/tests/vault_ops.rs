use parrot::borrow;
use parrot::init_debt_type;
use parrot::init_vault;
use parrot::init_vault_type;
use parrot::repay;
use parrot::stake;
use parrot::unstake;
use parrot::AccountId;
use parrot::Authority;
use parrot::Borrow;
use parrot::DebtType;
use parrot::InitDebtType;
use parrot::InitVault;
use parrot::InitVaultType;
use parrot::ParrotError;
use parrot::ProgramAccount;
use parrot::Repay;
use parrot::Stake;
use parrot::TokenAction;
use parrot::Unstake;
use parrot::Vault;
use parrot::VaultType;

fn id(value: u64) -> AccountId {
    AccountId { value }
}

fn fresh_debt_type() -> DebtType {
    DebtType { debt_token: id(0), owner: id(0), nonce: 0 }
}

fn fresh_vault_type() -> VaultType {
    VaultType {
        debt_type: id(0),
        collateral_token: id(0),
        collateral_token_holder: id(0),
        nonce: 0,
    }
}

fn fresh_vault() -> Vault {
    Vault {
        vault_type: id(0),
        owner: id(0),
        debt_amount: 0,
        collateral_amount: 0,
        last_stake_ts: 0,
    }
}

// One configured world, used by most tests:
//   debt type at key 100: admin 1, debt asset 2, nonce 5
//   vault type at key 200: collateral asset 3, custodian 4, nonce 6
//   vault at key 300: owner 10, balances as given
fn debt_type_record() -> DebtType {
    DebtType { debt_token: id(2), owner: id(1), nonce: 5 }
}

fn vault_type_record() -> VaultType {
    VaultType {
        debt_type: id(100),
        collateral_token: id(3),
        collateral_token_holder: id(4),
        nonce: 6,
    }
}

fn vault_record(debt_amount: u64, collateral_amount: u64) -> Vault {
    Vault {
        vault_type: id(200),
        owner: id(10),
        debt_amount,
        collateral_amount,
        last_stake_ts: 0,
    }
}

fn stake_accounts(vault: Vault) -> Stake {
    Stake {
        vault_type: ProgramAccount { id: id(200), account: vault_type_record() },
        vault: ProgramAccount { id: id(300), account: vault },
        collateral_from: id(11),
        collateral_from_authority: id(10),
        collateral_to: id(4),
    }
}

fn borrow_accounts(vault: Vault) -> Borrow {
    Borrow {
        debt_type: ProgramAccount { id: id(100), account: debt_type_record() },
        vault_type: ProgramAccount { id: id(200), account: vault_type_record() },
        vault: ProgramAccount { id: id(300), account: vault },
        vault_owner: id(10),
        debt_token: id(2),
        receiver: id(12),
    }
}

fn repay_accounts(vault: Vault) -> Repay {
    Repay {
        debt_type: ProgramAccount { id: id(100), account: debt_type_record() },
        vault_type: ProgramAccount { id: id(200), account: vault_type_record() },
        vault: ProgramAccount { id: id(300), account: vault },
        vault_owner: id(10),
        debt_token: id(2),
        debt_from: id(12),
        debt_from_authority: id(10),
    }
}

fn unstake_accounts(vault: Vault) -> Unstake {
    Unstake {
        vault_type: ProgramAccount { id: id(200), account: vault_type_record() },
        vault: ProgramAccount { id: id(300), account: vault },
        vault_owner: id(10),
        collateral_token: id(3),
        collateral_token_holder: id(4),
        receiver: id(13),
    }
}

#[test]
fn init_debt_type_records_the_configuration() {
    let mut accounts = InitDebtType {
        debt_type: ProgramAccount { id: id(100), account: fresh_debt_type() },
        debt_token: id(2),
        owner: id(1),
    };
    init_debt_type(&mut accounts, 5);
    assert_eq!(accounts.debt_type.id, id(100));
    assert_eq!(accounts.debt_type.account, debt_type_record());
}

#[test]
fn init_vault_type_requires_the_debt_type_admin() {
    let mut accounts = InitVaultType {
        debt_type: ProgramAccount { id: id(100), account: debt_type_record() },
        vault_type: ProgramAccount { id: id(200), account: fresh_vault_type() },
        owner: id(9),
        collateral_token: id(3),
        collateral_token_holder: id(4),
    };
    let before = accounts;
    assert_eq!(init_vault_type(&mut accounts, 6), Err(ParrotError::Unauthorized));
    assert_eq!(accounts, before);

    accounts.owner = id(1);
    assert_eq!(init_vault_type(&mut accounts, 6), Ok(()));
    assert_eq!(accounts.vault_type.account, vault_type_record());
}

#[test]
fn init_vault_requires_the_ownership_chain() {
    let mut accounts = InitVault {
        debt_type: ProgramAccount { id: id(999), account: debt_type_record() },
        vault_type: ProgramAccount { id: id(200), account: vault_type_record() },
        vault: ProgramAccount { id: id(300), account: fresh_vault() },
        owner: id(10),
    };
    let before = accounts;
    assert_eq!(init_vault(&mut accounts, 0, 0), Err(ParrotError::RelationshipMismatch));
    assert_eq!(accounts, before);

    accounts.debt_type.id = id(100);
    assert_eq!(init_vault(&mut accounts, 0, 0), Ok(()));
    assert_eq!(accounts.vault.account, vault_record(0, 0));
}

#[test]
fn init_vault_keeps_the_starting_balances_given() {
    let mut accounts = InitVault {
        debt_type: ProgramAccount { id: id(100), account: debt_type_record() },
        vault_type: ProgramAccount { id: id(200), account: vault_type_record() },
        vault: ProgramAccount { id: id(300), account: fresh_vault() },
        owner: id(10),
    };
    assert_eq!(init_vault(&mut accounts, 7, 9), Ok(()));
    assert_eq!(accounts.vault.account, vault_record(7, 9));
}

#[test]
fn stake_credits_collateral_and_orders_the_deposit() {
    let mut accounts = stake_accounts(vault_record(0, 5));
    let result = stake(&mut accounts, 100);
    assert_eq!(
        result,
        Ok(TokenAction::Transfer {
            from: id(11),
            to: id(4),
            authority: Authority::Account { id: id(10) },
            amount: 100,
        })
    );
    assert_eq!(accounts.vault.account, vault_record(0, 105));
}

#[test]
fn collateral_is_the_running_sum_of_stakes_and_unstakes() {
    let mut vault = vault_record(0, 0);
    let steps: [(bool, u64); 5] = [(true, 5), (true, 7), (false, 3), (true, 1), (false, 4)];
    for (is_stake, amount) in steps {
        if is_stake {
            let mut accounts = stake_accounts(vault);
            assert!(stake(&mut accounts, amount).is_ok());
            vault = accounts.vault.account;
        } else {
            let mut accounts = unstake_accounts(vault);
            assert!(unstake(&mut accounts, amount).is_ok());
            vault = accounts.vault.account;
        }
    }
    assert_eq!(vault.collateral_amount, 5 + 7 - 3 + 1 - 4);
    assert_eq!(vault.debt_amount, 0);
}

#[test]
fn debt_is_the_running_sum_of_borrows_and_repays() {
    let mut vault = vault_record(0, 50);
    let steps: [(bool, u64); 4] = [(true, 40), (true, 2), (false, 30), (true, 8)];
    for (is_borrow, amount) in steps {
        if is_borrow {
            let mut accounts = borrow_accounts(vault);
            assert!(borrow(&mut accounts, amount).is_ok());
            vault = accounts.vault.account;
        } else {
            let mut accounts = repay_accounts(vault);
            assert!(repay(&mut accounts, amount).is_ok());
            vault = accounts.vault.account;
        }
    }
    assert_eq!(vault.debt_amount, 40 + 2 - 30 + 8);
    assert_eq!(vault.collateral_amount, 50);
}

#[test]
fn repaying_more_than_outstanding_debt_is_rejected() {
    let mut accounts = repay_accounts(vault_record(30, 0));
    let before = accounts;
    assert_eq!(repay(&mut accounts, 31), Err(ParrotError::RepayTooMuch));
    assert_eq!(accounts, before);
    assert_eq!(repay(&mut accounts, 30), Ok(TokenAction::Burn {
        mint: id(2),
        from: id(12),
        authority: Authority::Account { id: id(10) },
        amount: 30,
    }));
    assert_eq!(accounts.vault.account.debt_amount, 0);
}

#[test]
fn every_rejection_leaves_the_accounts_untouched() {
    // Overflow on stake.
    let mut accounts = stake_accounts(vault_record(0, u64::MAX));
    let before = accounts;
    assert_eq!(stake(&mut accounts, 1), Err(ParrotError::NumberOverflow));
    assert_eq!(accounts, before);

    // Overflow on borrow.
    let mut accounts = borrow_accounts(vault_record(u64::MAX, 0));
    let before = accounts;
    assert_eq!(borrow(&mut accounts, 1), Err(ParrotError::NumberOverflow));
    assert_eq!(accounts, before);

    // Underflow on repay.
    let mut accounts = repay_accounts(vault_record(3, 0));
    let before = accounts;
    assert_eq!(repay(&mut accounts, 4), Err(ParrotError::RepayTooMuch));
    assert_eq!(accounts, before);

    // Underflow on unstake.
    let mut accounts = unstake_accounts(vault_record(0, 3));
    let before = accounts;
    assert_eq!(unstake(&mut accounts, 4), Err(ParrotError::NumberOverflow));
    assert_eq!(accounts, before);

    // Wrong caller on unstake.
    let mut accounts = unstake_accounts(vault_record(0, 3));
    accounts.vault_owner = id(66);
    let before = accounts;
    assert_eq!(unstake(&mut accounts, 1), Err(ParrotError::Unauthorized));
    assert_eq!(accounts, before);

    // Wrong custodian on stake.
    let mut accounts = stake_accounts(vault_record(0, 3));
    accounts.collateral_to = id(66);
    let before = accounts;
    assert_eq!(stake(&mut accounts, 1), Err(ParrotError::RelationshipMismatch));
    assert_eq!(accounts, before);
}

#[test]
fn operations_on_a_vault_of_another_type_are_rejected() {
    let foreign_vault = Vault { vault_type: id(201), ..vault_record(10, 10) };

    let mut accounts = stake_accounts(foreign_vault);
    let before = accounts;
    assert_eq!(stake(&mut accounts, 1), Err(ParrotError::RelationshipMismatch));
    assert_eq!(accounts, before);

    let mut accounts = borrow_accounts(foreign_vault);
    let before = accounts;
    assert_eq!(borrow(&mut accounts, 1), Err(ParrotError::RelationshipMismatch));
    assert_eq!(accounts, before);

    let mut accounts = repay_accounts(foreign_vault);
    let before = accounts;
    assert_eq!(repay(&mut accounts, 1), Err(ParrotError::RelationshipMismatch));
    assert_eq!(accounts, before);

    let mut accounts = unstake_accounts(foreign_vault);
    let before = accounts;
    assert_eq!(unstake(&mut accounts, 1), Err(ParrotError::RelationshipMismatch));
    assert_eq!(accounts, before);
}

#[test]
fn only_the_owner_may_borrow_or_unstake() {
    let mut accounts = borrow_accounts(vault_record(0, 100));
    accounts.vault_owner = id(66);
    let before = accounts;
    assert_eq!(borrow(&mut accounts, 1), Err(ParrotError::Unauthorized));
    assert_eq!(accounts, before);

    let mut accounts = unstake_accounts(vault_record(0, 100));
    accounts.vault_owner = id(66);
    let before = accounts;
    assert_eq!(unstake(&mut accounts, 1), Err(ParrotError::Unauthorized));
    assert_eq!(accounts, before);
}

#[test]
fn a_position_runs_through_its_full_cycle() {
    // Register the debt type: asset DAI, admin A.
    let mut reg = InitDebtType {
        debt_type: ProgramAccount { id: id(100), account: fresh_debt_type() },
        debt_token: id(2),
        owner: id(1),
    };
    init_debt_type(&mut reg, 5);
    let debt_type = reg.debt_type;

    // Register the vault type: collateral SOL, custodian C, under admin A.
    let mut reg = InitVaultType {
        debt_type,
        vault_type: ProgramAccount { id: id(200), account: fresh_vault_type() },
        owner: id(1),
        collateral_token: id(3),
        collateral_token_holder: id(4),
    };
    assert_eq!(init_vault_type(&mut reg, 6), Ok(()));
    let vault_type = reg.vault_type;

    // Create the position for user U, empty.
    let mut reg = InitVault {
        debt_type,
        vault_type,
        vault: ProgramAccount { id: id(300), account: fresh_vault() },
        owner: id(10),
    };
    assert_eq!(init_vault(&mut reg, 0, 0), Ok(()));
    let mut vault = reg.vault.account;

    // Stake 100: the custodian receives 100 SOL from U's account.
    let mut accounts = stake_accounts(vault);
    assert_eq!(
        stake(&mut accounts, 100),
        Ok(TokenAction::Transfer {
            from: id(11),
            to: id(4),
            authority: Authority::Account { id: id(10) },
            amount: 100,
        })
    );
    vault = accounts.vault.account;
    assert_eq!(vault.collateral_amount, 100);

    // Borrow 50 as U: 50 DAI are minted into U's account.
    let mut accounts = borrow_accounts(vault);
    assert_eq!(
        borrow(&mut accounts, 50),
        Ok(TokenAction::MintTo {
            mint: id(2),
            to: id(12),
            authority: Authority::Derived { record: id(100), nonce: 5 },
            amount: 50,
        })
    );
    vault = accounts.vault.account;
    assert_eq!(vault.debt_amount, 50);

    // Repay 20.
    let mut accounts = repay_accounts(vault);
    assert!(repay(&mut accounts, 20).is_ok());
    vault = accounts.vault.account;
    assert_eq!(vault.debt_amount, 30);

    // Repaying 31 exceeds the outstanding 30 and changes nothing.
    let mut accounts = repay_accounts(vault);
    assert_eq!(repay(&mut accounts, 31), Err(ParrotError::RepayTooMuch));
    vault = accounts.vault.account;
    assert_eq!(vault.debt_amount, 30);

    // Unstake the full 100: the custodian pays 100 SOL out to U.
    let mut accounts = unstake_accounts(vault);
    assert_eq!(
        unstake(&mut accounts, 100),
        Ok(TokenAction::Transfer {
            from: id(4),
            to: id(13),
            authority: Authority::Derived { record: id(200), nonce: 6 },
            amount: 100,
        })
    );
    vault = accounts.vault.account;
    assert_eq!(vault.collateral_amount, 0);

    // One more unit is not there to withdraw.
    let mut accounts = unstake_accounts(vault);
    assert_eq!(unstake(&mut accounts, 1), Err(ParrotError::NumberOverflow));
    assert_eq!(accounts.vault.account.collateral_amount, 0);
}

#[test]
fn borrowing_past_the_64_bit_range_is_rejected() {
    let mut accounts = borrow_accounts(vault_record(0, 100));
    assert!(borrow(&mut accounts, u64::MAX).is_ok());
    let vault = accounts.vault.account;
    assert_eq!(vault.debt_amount, u64::MAX);

    let mut accounts = borrow_accounts(vault);
    assert_eq!(borrow(&mut accounts, 1), Err(ParrotError::NumberOverflow));
    assert_eq!(accounts.vault.account.debt_amount, u64::MAX);
}

#[test]
fn staking_needs_no_signature_of_the_vault_owner() {
    // A stranger tops the position up from their own token account.
    let mut accounts = stake_accounts(vault_record(0, 5));
    accounts.collateral_from = id(77);
    accounts.collateral_from_authority = id(78);
    let result = stake(&mut accounts, 10);
    assert_eq!(
        result,
        Ok(TokenAction::Transfer {
            from: id(77),
            to: id(4),
            authority: Authority::Account { id: id(78) },
            amount: 10,
        })
    );
    assert_eq!(accounts.vault.account.collateral_amount, 15);
}
