use p2p_name_service::error::Error;
use p2p_name_service::event::{Register, Transfer, TransferAdmin};
use p2p_name_service::ident::{zero_address, AccountId, Name};
use p2p_name_service::registry::P2pNameService;

fn account(byte: u8) -> AccountId {
    AccountId::from([byte; 32])
}

fn name(byte: u8) -> Name {
    Name::from([byte; 32])
}

/// What the read operations show of a registry, for the names and accounts
/// that the tests use.
fn snapshot(service: &P2pNameService) -> Vec<[u8; 32]> {
    let mut seen = vec![service.get_admin().to_bytes()];
    for byte in [0x00u8, 0x01, 0x02, 0x03, 0x04, 0x88, 0x99] {
        seen.push(service.owner_of(name(byte)).to_bytes());
        seen.push(service.name_of(account(byte)).to_bytes());
        seen.push([service.name_has_owner(name(byte)) as u8; 32]);
        seen.push([service.account_has_name(account(byte)) as u8; 32]);
    }
    seen
}

/// Both directions of the registry agree, for the names and accounts that the
/// tests use.
fn answers_each_other(service: &P2pNameService) -> bool {
    [0x00u8, 0x01, 0x02, 0x03, 0x04, 0x88, 0x99].iter().all(|&byte| {
        let owner = service.owner_of(name(byte));
        let held = service.name_of(account(byte));
        (owner == zero_address() || service.name_of(owner) == name(byte))
            && (held == Name::default() || service.owner_of(held) == account(byte))
    })
}

#[test]
fn a_new_registry_has_nothing_on_record() {
    let service = P2pNameService::new(account(1));
    assert_eq!(service.get_admin(), account(1));
    assert_eq!(service.owner_of(name(0x99)), zero_address());
    assert_eq!(service.name_of(account(1)), Name::default());
    assert!(!service.name_has_owner(name(0x99)));
    assert!(!service.account_has_name(account(1)));
    assert!(answers_each_other(&service));
}

#[test]
fn the_default_registry_has_the_zero_account_as_administrator() {
    let service = P2pNameService::default();
    assert_eq!(service.get_admin(), zero_address());
    assert_eq!(service.owner_of(name(0x99)), zero_address());
    assert_eq!(service.name_of(account(1)), Name::default());
}

#[test]
fn registering_records_both_directions() {
    let mut service = P2pNameService::new(account(1));
    assert_eq!(
        service.register(account(2), name(0x99)),
        Ok(Register {
            name: name(0x99),
            from: account(2),
        })
    );
    assert_eq!(service.owner_of(name(0x99)), account(2));
    assert_eq!(service.name_of(account(2)), name(0x99));
    assert!(service.name_has_owner(name(0x99)));
    assert!(service.account_has_name(account(2)));
    assert_eq!(service.owner_of(name(0x88)), zero_address());
    assert_eq!(service.name_of(account(1)), Name::default());
}

#[test]
fn register_then_conflicts() {
    let mut service = P2pNameService::new(account(1));
    assert!(service.register(account(1), name(0x99)).is_ok());
    assert_eq!(
        service.register(account(1), name(0x88)),
        Err(Error::AccountAlreadyHasName)
    );
    assert_eq!(
        service.register(account(2), name(0x99)),
        Err(Error::NameAlreadyExists)
    );
    assert_eq!(
        service.register(account(1), name(0x99)),
        Err(Error::NameAlreadyExists)
    );
}

#[test]
fn registering_twice_is_refused_and_changes_nothing() {
    let mut service = P2pNameService::new(account(1));
    assert!(service.register(account(2), name(0x99)).is_ok());
    let after_first = snapshot(&service);
    assert_eq!(
        service.register(account(2), name(0x99)),
        Err(Error::NameAlreadyExists)
    );
    assert_eq!(snapshot(&service), after_first);
}

#[test]
fn only_the_administrator_has_authority() {
    let mut service = P2pNameService::new(account(1));
    assert!(service.register(account(2), name(0x99)).is_ok());
    let before = snapshot(&service);
    assert_eq!(
        service.force_register(account(2), name(0x88), account(3)),
        Err(Error::CallerIsNotAdmin)
    );
    assert_eq!(
        service.force_transfer(account(2), name(0x99), account(2), account(3)),
        Err(Error::CallerIsNotAdmin)
    );
    assert_eq!(
        service.transfer_admin(account(2), account(2)),
        Err(Error::CallerIsNotAdmin)
    );
    assert_eq!(snapshot(&service), before);
}

#[test]
fn the_lack_of_authority_is_reported_before_anything_else() {
    let mut service = P2pNameService::new(account(1));
    assert!(service.register(account(2), name(0x99)).is_ok());
    // The name is owned and the target owns a name, but the caller is not
    // the administrator: that is what is reported.
    assert_eq!(
        service.force_register(account(3), name(0x99), account(2)),
        Err(Error::CallerIsNotAdmin)
    );
    // `from` is not the owner and `to` owns a name, likewise.
    assert_eq!(
        service.force_transfer(account(3), name(0x99), account(4), account(2)),
        Err(Error::CallerIsNotAdmin)
    );
}

#[test]
fn an_owned_name_is_reported_before_a_target_with_a_name() {
    let mut service = P2pNameService::new(account(1));
    assert!(service.register(account(2), name(0x99)).is_ok());
    assert_eq!(
        service.force_register(account(1), name(0x99), account(2)),
        Err(Error::NameAlreadyExists)
    );
    assert_eq!(
        service.register(account(2), name(0x99)),
        Err(Error::NameAlreadyExists)
    );
}

#[test]
fn a_wrong_owner_is_reported_before_a_target_with_a_name() {
    let mut service = P2pNameService::new(account(1));
    assert!(service.register(account(2), name(0x99)).is_ok());
    assert!(service.register(account(3), name(0x88)).is_ok());
    assert_eq!(
        service.transfer(account(4), name(0x99), account(3)),
        Err(Error::CallerIsNotOwner)
    );
    assert_eq!(
        service.force_transfer(account(1), name(0x99), account(4), account(3)),
        Err(Error::CallerIsNotOwner)
    );
    assert_eq!(
        service.transfer(account(2), name(0x99), account(3)),
        Err(Error::AccountAlreadyHasName)
    );
    assert_eq!(
        service.force_transfer(account(1), name(0x99), account(2), account(3)),
        Err(Error::AccountAlreadyHasName)
    );
}

#[test]
fn transfer_chain() {
    let (a, b, c, d) = (account(1), account(2), account(3), account(4));
    let x = name(0x99);
    let mut service = P2pNameService::new(a);
    assert!(service.register(a, x).is_ok());
    assert_eq!(
        service.transfer(a, x, b),
        Ok(Transfer {
            name: x,
            from: a,
            old_owner: Some(a),
            new_owner: b,
        })
    );
    assert_eq!(service.owner_of(x), b);
    assert_eq!(service.transfer(c, x, d), Err(Error::CallerIsNotOwner));
    assert_eq!(
        service.transfer(b, x, c),
        Ok(Transfer {
            name: x,
            from: b,
            old_owner: Some(b),
            new_owner: c,
        })
    );
    assert_eq!(service.name_of(c), x);
    assert_eq!(service.name_of(b), Name::default());
    assert_eq!(service.name_of(a), Name::default());
    assert_eq!(service.owner_of(x), c);
    assert!(answers_each_other(&service));
}

#[test]
fn a_transfer_frees_the_old_owner_for_another_name() {
    let mut service = P2pNameService::new(account(1));
    assert!(service.register(account(2), name(0x99)).is_ok());
    assert!(service.transfer(account(2), name(0x99), account(3)).is_ok());
    assert!(!service.account_has_name(account(2)));
    assert_eq!(
        service.register(account(2), name(0x88)),
        Ok(Register {
            name: name(0x88),
            from: account(2),
        })
    );
    assert_eq!(service.owner_of(name(0x88)), account(2));
    assert_eq!(service.owner_of(name(0x99)), account(3));
    assert!(answers_each_other(&service));
}

#[test]
fn transfer_of_an_unregistered_name_is_refused_as_not_owner() {
    let mut service = P2pNameService::new(account(1));
    let before = snapshot(&service);
    assert_eq!(
        service.transfer(account(2), name(0x99), account(3)),
        Err(Error::CallerIsNotOwner)
    );
    assert_eq!(
        service.force_transfer(account(1), name(0x99), account(2), account(3)),
        Err(Error::CallerIsNotOwner)
    );
    assert_eq!(snapshot(&service), before);
}

#[test]
fn transfer_to_oneself_is_refused() {
    let mut service = P2pNameService::new(account(1));
    assert!(service.register(account(2), name(0x99)).is_ok());
    let before = snapshot(&service);
    assert_eq!(
        service.transfer(account(2), name(0x99), account(2)),
        Err(Error::AccountAlreadyHasName)
    );
    assert_eq!(snapshot(&service), before);
}

#[test]
fn admin_lifecycle() {
    let (deployer, b) = (account(1), account(2));
    let mut service = P2pNameService::new(deployer);
    assert_eq!(service.get_admin(), deployer);
    assert_eq!(
        service.transfer_admin(deployer, b),
        Ok(TransferAdmin {
            from: deployer,
            new_admin: b,
        })
    );
    assert_eq!(service.get_admin(), b);
    assert_eq!(
        service.force_register(deployer, name(0x99), account(3)),
        Err(Error::CallerIsNotAdmin)
    );
    assert_eq!(
        service.force_register(b, name(0x99), account(3)),
        Ok(Register {
            name: name(0x99),
            from: b,
        })
    );
    assert_eq!(service.owner_of(name(0x99)), account(3));
}

#[test]
fn handing_the_administration_to_its_holder_is_reported() {
    let mut service = P2pNameService::new(account(1));
    assert_eq!(
        service.transfer_admin(account(1), account(1)),
        Ok(TransferAdmin {
            from: account(1),
            new_admin: account(1),
        })
    );
    assert_eq!(service.get_admin(), account(1));
}

#[test]
fn handing_the_administration_on_keeps_the_records() {
    let mut service = P2pNameService::new(account(1));
    assert!(service.register(account(2), name(0x99)).is_ok());
    assert!(service.transfer_admin(account(1), account(3)).is_ok());
    assert_eq!(service.owner_of(name(0x99)), account(2));
    assert_eq!(service.name_of(account(2)), name(0x99));
}

#[test]
fn force_transfer_checks_the_owner_it_is_told() {
    let (admin, a, b, c) = (account(1), account(2), account(3), account(4));
    let x = name(0x99);
    let mut service = P2pNameService::new(admin);
    assert!(service.register(a, x).is_ok());
    let before = snapshot(&service);
    assert_eq!(
        service.force_transfer(admin, x, b, c),
        Err(Error::CallerIsNotOwner)
    );
    assert_eq!(snapshot(&service), before);
    assert_eq!(service.owner_of(x), a);
}

#[test]
fn force_transfer_names_the_administrator_as_its_source() {
    let (admin, a, c) = (account(1), account(2), account(4));
    let x = name(0x99);
    let mut service = P2pNameService::new(admin);
    assert!(service.register(a, x).is_ok());
    assert_eq!(
        service.force_transfer(admin, x, a, c),
        Ok(Transfer {
            name: x,
            from: admin,
            old_owner: Some(a),
            new_owner: c,
        })
    );
    assert_eq!(service.owner_of(x), c);
    assert_eq!(service.name_of(c), x);
    assert_eq!(service.name_of(a), Name::default());
    assert!(answers_each_other(&service));
}

#[test]
fn the_directions_agree_after_a_run_of_calls() {
    let mut service = P2pNameService::new(account(1));
    assert!(service.register(account(2), name(0x99)).is_ok());
    assert!(answers_each_other(&service));
    assert!(service
        .force_register(account(1), name(0x88), account(3))
        .is_ok());
    assert!(answers_each_other(&service));
    assert!(service.transfer(account(2), name(0x99), account(4)).is_ok());
    assert!(answers_each_other(&service));
    assert!(service
        .force_transfer(account(1), name(0x88), account(3), account(2))
        .is_ok());
    assert!(answers_each_other(&service));
    assert!(service.register(account(3), name(0x99)).is_err());
    assert!(answers_each_other(&service));
    assert!(service.transfer_admin(account(1), account(4)).is_ok());
    assert!(answers_each_other(&service));
    assert_eq!(service.owner_of(name(0x99)), account(4));
    assert_eq!(service.owner_of(name(0x88)), account(2));
    assert_eq!(service.name_of(account(3)), Name::default());
}

#[test]
fn an_account_owns_one_name_at_most() {
    let mut service = P2pNameService::new(account(1));
    assert!(service.register(account(2), name(0x99)).is_ok());
    assert_eq!(
        service.register(account(2), name(0x88)),
        Err(Error::AccountAlreadyHasName)
    );
    assert_eq!(
        service.force_register(account(1), name(0x88), account(2)),
        Err(Error::AccountAlreadyHasName)
    );
    let owned: Vec<u8> = [0x88u8, 0x99]
        .into_iter()
        .filter(|&byte| service.owner_of(name(byte)) == account(2))
        .collect();
    assert_eq!(owned, vec![0x99]);
}

#[test]
fn the_zero_account_may_give_away_a_name_with_no_owner() {
    // A name with no owner on record has the zero account for its owner, so
    // a call in the zero account's name passes the owner's test.
    let mut service = P2pNameService::new(account(1));
    assert_eq!(
        service.transfer(zero_address(), name(0x99), account(2)),
        Ok(Transfer {
            name: name(0x99),
            from: zero_address(),
            old_owner: None,
            new_owner: account(2),
        })
    );
    assert_eq!(service.owner_of(name(0x99)), account(2));
    assert_eq!(service.name_of(account(2)), name(0x99));
    assert_eq!(service.name_of(zero_address()), Name::default());
}

#[test]
fn the_zero_name_registered_counts_as_no_name() {
    let mut service = P2pNameService::new(account(1));
    assert_eq!(
        service.register(account(2), Name::default()),
        Ok(Register {
            name: Name::default(),
            from: account(2),
        })
    );
    assert_eq!(service.owner_of(Name::default()), account(2));
    assert_eq!(service.name_of(account(2)), Name::default());
    // The zero name has an owner on record, who has the zero name on record.
    assert!(service.name_has_owner(Name::default()));
    // An account whose name on record is the zero name owns no name.
    assert!(!service.account_has_name(account(2)));
    assert_eq!(
        service.register(account(2), name(0x99)),
        Ok(Register {
            name: name(0x99),
            from: account(2),
        })
    );
    // The earlier record of the zero name is now answered by no record.
    assert!(!service.name_has_owner(Name::default()));
    assert!(!answers_each_other(&service));
}

#[test]
fn the_zero_account_registered_counts_as_no_owner() {
    let mut service = P2pNameService::new(account(1));
    assert_eq!(
        service.register(zero_address(), name(0x99)),
        Ok(Register {
            name: name(0x99),
            from: zero_address(),
        })
    );
    assert_eq!(service.owner_of(name(0x99)), zero_address());
    assert_eq!(service.name_of(zero_address()), name(0x99));
    assert!(!service.name_has_owner(name(0x99)));
    // The zero account has a name on record whose owner on record it is.
    assert!(service.account_has_name(zero_address()));
    assert_eq!(
        service.register(zero_address(), name(0x99)),
        Err(Error::AccountAlreadyHasName)
    );
    assert_eq!(
        service.register(account(2), name(0x99)),
        Ok(Register {
            name: name(0x99),
            from: account(2),
        })
    );
    assert!(!service.account_has_name(zero_address()));
    assert!(!answers_each_other(&service));
}

#[test]
fn the_zero_name_given_to_the_zero_account_changes_nothing() {
    let mut service = P2pNameService::new(account(1));
    assert!(service.register(account(2), name(0x99)).is_ok());
    let before = snapshot(&service);
    assert_eq!(
        service.register(zero_address(), Name::default()),
        Ok(Register {
            name: Name::default(),
            from: zero_address(),
        })
    );
    assert_eq!(snapshot(&service), before);
    assert_eq!(
        service.register(zero_address(), Name::default()),
        Ok(Register {
            name: Name::default(),
            from: zero_address(),
        })
    );
    assert_eq!(
        service.transfer(zero_address(), Name::default(), zero_address()),
        Ok(Transfer {
            name: Name::default(),
            from: zero_address(),
            old_owner: None,
            new_owner: zero_address(),
        })
    );
    assert_eq!(snapshot(&service), before);
    assert!(answers_each_other(&service));
}

#[test]
fn a_name_given_to_the_zero_account_has_no_owner() {
    let mut service = P2pNameService::new(account(1));
    assert!(service.register(account(2), name(0x99)).is_ok());
    assert_eq!(
        service.transfer(account(2), name(0x99), zero_address()),
        Ok(Transfer {
            name: name(0x99),
            from: account(2),
            old_owner: Some(account(2)),
            new_owner: zero_address(),
        })
    );
    assert_eq!(service.owner_of(name(0x99)), zero_address());
    assert_eq!(service.name_of(account(2)), Name::default());
    assert_eq!(service.name_of(zero_address()), name(0x99));
    assert!(!service.name_has_owner(name(0x99)));
    assert!(!service.account_has_name(account(2)));
}
