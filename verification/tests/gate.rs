use collection_gate::authority_tag_str;
use collection_gate::derive_address;
use collection_gate::CollectionAuthority;
use collection_gate::CreateCollection;
use collection_gate::CreateCollectionArgs;
use collection_gate::GateError;
use collection_gate::Principal;
use collection_gate::ThawNft;
use collection_gate::WhitelistCreator;
use collection_gate::WhitelistedCreators;

fn pk(b: u8) -> Principal {
    Principal { bytes: [b; 32] }
}

fn args(name: &str, uri: &str, nft_name: &str, nft_uri: &str) -> CreateCollectionArgs {
    CreateCollectionArgs {
        name: name.to_string(),
        uri: uri.to_string(),
        nft_name: nft_name.to_string(),
        nft_uri: nft_uri.to_string(),
    }
}

#[test]
fn fresh_registry_contains_nothing() {
    let reg = WhitelistedCreators::new(0);
    assert!(!reg.contains(&pk(0)));
    assert!(!reg.contains(&pk(1)));
    assert!(!reg.contains(&pk(255)));
}

#[test]
fn add_rejects_duplicate_at_any_position() {
    let mut reg = WhitelistedCreators::new(0);
    assert_eq!(reg.whitelist_creator(&pk(1)), Ok(()));
    assert_eq!(reg.whitelist_creator(&pk(2)), Ok(()));
    assert_eq!(reg.whitelist_creator(&pk(3)), Ok(()));
    assert_eq!(reg.whitelist_creator(&pk(1)), Err(GateError::AlreadyWhitelisted));
    assert_eq!(reg.whitelist_creator(&pk(2)), Err(GateError::AlreadyWhitelisted));
    assert_eq!(reg.whitelist_creator(&pk(3)), Err(GateError::AlreadyWhitelisted));
    assert_eq!(reg.num_creators, 3);
}

#[test]
fn eleventh_add_exceeds_capacity() {
    let mut reg = WhitelistedCreators::new(0);
    for b in 1..=10u8 {
        assert_eq!(reg.whitelist_creator(&pk(b)), Ok(()));
    }
    assert_eq!(reg.whitelist_creator(&pk(11)), Err(GateError::CapacityExceeded));
    for b in 1..=10u8 {
        assert!(reg.contains(&pk(b)));
    }
    assert!(!reg.contains(&pk(11)));
    assert_eq!(reg.num_creators, 10);
}

#[test]
fn full_registry_rejects_even_known_members() {
    let mut reg = WhitelistedCreators::new(0);
    for b in 1..=10u8 {
        assert_eq!(reg.whitelist_creator(&pk(b)), Ok(()));
    }
    assert_eq!(reg.whitelist_creator(&pk(5)), Err(GateError::CapacityExceeded));
}

#[test]
fn register_creator_needs_the_owning_authority() {
    let admin = pk(7);
    let outsider = pk(8);
    let candidate = pk(9);

    let mut gate = WhitelistCreator {
        payer: outsider,
        creator: candidate,
        upgrade_authority: Some(admin),
        whitelisted_creators: WhitelistedCreators::new(0),
    };
    assert_eq!(gate.whitelist_creator(), Err(GateError::NotAuthorized));
    assert!(!gate.whitelisted_creators.contains(&candidate));

    let mut gate = WhitelistCreator {
        payer: outsider,
        creator: candidate,
        upgrade_authority: None,
        whitelisted_creators: WhitelistedCreators::new(0),
    };
    assert_eq!(gate.whitelist_creator(), Err(GateError::NotAuthorized));

    let mut gate = WhitelistCreator {
        payer: admin,
        creator: candidate,
        upgrade_authority: Some(admin),
        whitelisted_creators: WhitelistedCreators::new(0),
    };
    assert_eq!(gate.whitelist_creator(), Ok(()));
    assert!(gate.whitelisted_creators.contains(&candidate));
}

#[test]
fn derivation_is_deterministic() {
    let collection = pk(42);
    let program = pk(3);
    let first = derive_address(authority_tag_str(), &collection, &program);
    let second = derive_address(authority_tag_str(), &collection, &program);
    assert!(first.is_some());
    assert_eq!(first, second);
    let (authority, _bump) = first.unwrap();
    assert_ne!(authority.bytes, collection.bytes);
    assert_ne!(authority.bytes, program.bytes);
}

#[test]
fn create_collection_rejects_unlisted_creator() {
    let mut op = CreateCollection {
        creator: pk(1),
        collection: pk(50),
        program: pk(3),
        whitelisted_creators: WhitelistedCreators::new(0),
        collection_authority: None,
    };
    let r = op.create_collection(args("c", "u", "n", "nu"));
    assert_eq!(r, Err(GateError::NotAuthorized));
    assert!(op.collection_authority.is_none());
}

#[test]
fn create_collection_twice_same_identity() {
    let creator = pk(1);
    let mut reg = WhitelistedCreators::new(0);
    assert_eq!(reg.whitelist_creator(&creator), Ok(()));

    let mut op = CreateCollection {
        creator,
        collection: pk(50),
        program: pk(3),
        whitelisted_creators: reg,
        collection_authority: None,
    };
    let first = op.create_collection(args("Set A", "https://a", "Item", "https://i"));
    let call = first.expect("first creation succeeds");
    assert_eq!(call.payer, creator);
    assert_eq!(call.collection, pk(50));
    assert_eq!(call.name, "Set A");
    assert_eq!(call.uri, "https://a");

    let record = op.collection_authority.clone().expect("record written");
    assert_eq!(record.creator, creator);
    assert_eq!(record.collection, pk(50));
    assert_eq!(record.nft_name, "Item");
    assert_eq!(record.nft_uri, "https://i");

    let expected = derive_address(authority_tag_str(), &pk(50), &pk(3)).unwrap();
    assert_eq!(call.update_authority, expected.0);
    assert_eq!(record.bump, expected.1);

    let second = op.create_collection(args("Set A", "https://a", "Item", "https://i"));
    assert_eq!(second, Err(GateError::CollectionAlreadyInitialized));
    assert_eq!(op.collection_authority, Some(record));
}

#[test]
fn try_create_collection_agrees() {
    let creator = pk(1);
    let mut reg = WhitelistedCreators::new(0);
    assert_eq!(reg.whitelist_creator(&creator), Ok(()));
    let mut op = CreateCollection {
        creator,
        collection: pk(50),
        program: pk(3),
        whitelisted_creators: reg,
        collection_authority: None,
    };
    let r = op.try_create_collection(args("c", "u", "n", "nu"));
    assert!(matches!(r, Some(Ok(_))));
}

fn record_for(collection: Principal, program: Principal, creator: Principal) -> CollectionAuthority {
    let (_, bump) = derive_address(authority_tag_str(), &collection, &program).unwrap();
    CollectionAuthority {
        bump,
        creator,
        collection,
        nft_name: "Item".to_string(),
        nft_uri: "https://i".to_string(),
    }
}

#[test]
fn thaw_rejects_foreign_collection() {
    let creator = pk(1);
    let op = ThawNft {
        payer: creator,
        collection: pk(50),
        collection_owner: pk(77),
        core_program: pk(9),
        collection_authority: record_for(pk(50), pk(3), creator),
        asset: pk(60),
        program: pk(3),
    };
    assert_eq!(op.thaw_nft(), Err(GateError::InvalidCollection));
}

#[test]
fn thaw_rejects_caller_other_than_creator() {
    let creator = pk(1);
    let intruder = pk(2);
    // The intruder is even whitelisted; that does not matter here.
    let mut reg = WhitelistedCreators::new(0);
    assert_eq!(reg.whitelist_creator(&intruder), Ok(()));
    assert!(reg.contains(&intruder));

    let op = ThawNft {
        payer: intruder,
        collection: pk(50),
        collection_owner: pk(9),
        core_program: pk(9),
        collection_authority: record_for(pk(50), pk(3), creator),
        asset: pk(60),
        program: pk(3),
    };
    assert_eq!(op.thaw_nft(), Err(GateError::NotAuthorized));
}

#[test]
fn thaw_by_the_creator_clears_the_flag() {
    let creator = pk(1);
    let op = ThawNft {
        payer: creator,
        collection: pk(50),
        collection_owner: pk(9),
        core_program: pk(9),
        collection_authority: record_for(pk(50), pk(3), creator),
        asset: pk(60),
        program: pk(3),
    };
    let call = op.thaw_nft().expect("creator may thaw");
    assert_eq!(call.asset, pk(60));
    assert_eq!(call.collection, pk(50));
    assert_eq!(call.payer, creator);
    assert!(!call.frozen);
    let expected = derive_address(authority_tag_str(), &pk(50), &pk(3)).unwrap();
    assert_eq!(call.authority, expected.0);

    let again = op.try_thaw_nft();
    assert!(matches!(again, Some(Ok(_))));
}

#[test]
fn end_to_end_register_create_thaw() {
    let admin = pk(7);
    let p1 = pk(1);
    let p2 = pk(2);
    let collection = pk(50);
    let asset = pk(60);
    let program = pk(3);
    let core = pk(9);

    // The admin registers P1.
    let mut gate = WhitelistCreator {
        payer: admin,
        creator: p1,
        upgrade_authority: Some(admin),
        whitelisted_creators: WhitelistedCreators::new(0),
    };
    assert_eq!(gate.whitelist_creator(), Ok(()));

    // P1 creates collection C with name "Set A".
    let mut create = CreateCollection {
        creator: p1,
        collection,
        program,
        whitelisted_creators: gate.whitelisted_creators,
        collection_authority: None,
    };
    let call = create
        .create_collection(args("Set A", "https://a", "Item", "https://i"))
        .expect("whitelisted creator may create");
    assert_eq!(call.name, "Set A");
    let record = create.collection_authority.expect("record written");
    assert_eq!(record.creator, p1);

    // P1 thaws asset A under C.
    let thaw = ThawNft {
        payer: p1,
        collection,
        collection_owner: core,
        core_program: core,
        collection_authority: record.clone(),
        asset,
        program,
    };
    assert!(thaw.thaw_nft().is_ok());

    // P2, never registered, is turned away.
    let thaw_p2 = ThawNft {
        payer: p2,
        collection,
        collection_owner: core,
        core_program: core,
        collection_authority: record,
        asset,
        program,
    };
    assert_eq!(thaw_p2.thaw_nft(), Err(GateError::NotAuthorized));
}

#[test]
fn principal_equality_is_bytewise() {
    let a = Principal { bytes: [5; 32] };
    let b = Principal { bytes: [5; 32] };
    let mut c = Principal { bytes: [5; 32] };
    c.bytes[31] = 6;
    assert!(a.equals(&b));
    assert!(!a.equals(&c));
}
