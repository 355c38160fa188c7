use mars_owner::OwnerUpdate::{
    AbolishOwnerRole, AcceptProposed, ClearEmergencyOwner, ClearProposed, ProposeNewOwner,
    SetEmergencyOwner,
};
use mars_owner::{Owner, OwnerError, OwnerInit, OwnerResponse, OwnerState, OwnerUpdate};

fn s(v: &str) -> String {
    v.to_string()
}

fn owned_by(owner: &str) -> Owner {
    let mut o = Owner::new("owner");
    o.initialize(OwnerInit::SetInitialOwner { owner: s(owner) }).unwrap();
    o
}

fn pairs(attrs: &[(String, String)]) -> Vec<(&str, &str)> {
    attrs.iter().map(|(k, v)| (k.as_str(), v.as_str())).collect()
}

#[test]
fn scenario_initial_owner_alice() {
    let o = owned_by("alice");
    assert_eq!(
        o.query(),
        OwnerResponse {
            owner: Some(s("alice")),
            proposed: None,
            initialized: true,
            abolished: false,
            emergency_owner: None,
        }
    );
}

#[test]
fn scenario_alice_hands_over_to_bob() {
    let mut o = owned_by("alice");
    o.update(&s("alice"), ProposeNewOwner { proposed: s("bob") }).unwrap();
    let q = o.query();
    assert_eq!(q.owner, Some(s("alice")));
    assert_eq!(q.proposed, Some(s("bob")));

    let err = o.update(&s("mallory"), AcceptProposed).unwrap_err();
    assert_eq!(err, OwnerError::NotProposedOwner {});

    o.update(&s("bob"), AcceptProposed).unwrap();
    let q = o.query();
    assert_eq!(q.owner, Some(s("bob")));
    assert_eq!(q.proposed, None);
}

#[test]
fn scenario_bob_abolishes_the_role() {
    let mut o = owned_by("bob");
    o.update(&s("bob"), AbolishOwnerRole).unwrap();
    assert_eq!(
        o.query(),
        OwnerResponse {
            owner: None,
            proposed: None,
            initialized: true,
            abolished: true,
            emergency_owner: None,
        }
    );
    let err = o.update(&s("bob"), ProposeNewOwner { proposed: s("carol") }).unwrap_err();
    assert_eq!(err, OwnerError::StateTransitionError {});
}

#[test]
fn scenario_emergency_owner_carol() {
    let mut o = owned_by("alice");
    o.update(&s("alice"), SetEmergencyOwner { emergency_owner: s("carol") }).unwrap();
    assert!(o.is_emergency_owner(&s("carol")));
    assert_eq!(o.emergency_owner(), Some(s("carol")));
    o.update(&s("alice"), ClearEmergencyOwner).unwrap();
    assert!(!o.is_emergency_owner(&s("carol")));
    assert_eq!(o.emergency_owner(), None);
}

#[test]
fn initialize_fails_in_every_later_state() {
    let mut proposed = owned_by("alice");
    proposed.update(&s("alice"), ProposeNewOwner { proposed: s("bob") }).unwrap();
    let mut abolished = Owner::new("owner");
    abolished.initialize(OwnerInit::AbolishOwnerRole).unwrap();
    for mut o in [owned_by("alice"), proposed, abolished] {
        let before = o.state().clone();
        for init in [OwnerInit::SetInitialOwner { owner: s("zed") }, OwnerInit::AbolishOwnerRole] {
            assert_eq!(o.initialize(init).unwrap_err(), OwnerError::StateTransitionError {});
            assert_eq!(o.state(), &before);
        }
    }
}

#[test]
fn abolished_rejects_every_event_from_anyone() {
    let mut o = owned_by("alice");
    o.update(&s("alice"), AbolishOwnerRole).unwrap();
    let events = [
        ProposeNewOwner { proposed: s("bob") },
        ClearProposed,
        AcceptProposed,
        AbolishOwnerRole,
        SetEmergencyOwner { emergency_owner: s("bob") },
        ClearEmergencyOwner,
    ];
    for caller in ["alice", "bob"] {
        for e in events.clone() {
            assert_eq!(o.update(&s(caller), e).unwrap_err(), OwnerError::StateTransitionError {});
            assert_eq!(o.state(), &OwnerState::Abolished);
        }
    }
}

#[test]
fn failed_updates_leave_the_state_unchanged() {
    let mut o = owned_by("alice");
    o.update(&s("alice"), ProposeNewOwner { proposed: s("bob") }).unwrap();
    let before = o.state().clone();
    assert_eq!(o.update(&s("bob"), ClearProposed).unwrap_err(), OwnerError::NotOwner {});
    assert_eq!(o.update(&s("bob"), AbolishOwnerRole).unwrap_err(), OwnerError::NotOwner {});
    assert_eq!(o.update(&s("alice"), AcceptProposed).unwrap_err(), OwnerError::NotProposedOwner {});
    assert_eq!(o.state(), &before);
}

#[test]
fn owner_abolishes_while_a_proposal_is_pending() {
    let mut o = owned_by("alice");
    o.update(&s("alice"), ProposeNewOwner { proposed: s("bob") }).unwrap();
    assert_eq!(o.update(&s("bob"), AbolishOwnerRole).unwrap_err(), OwnerError::NotOwner {});
    o.update(&s("alice"), AbolishOwnerRole).unwrap();
    assert_eq!(o.state(), &OwnerState::Abolished);
}

#[test]
fn emergency_owner_survives_the_handover() {
    let mut o = owned_by("alice");
    o.update(&s("alice"), SetEmergencyOwner { emergency_owner: s("carol") }).unwrap();
    o.update(&s("alice"), ProposeNewOwner { proposed: s("bob") }).unwrap();
    assert_eq!(o.emergency_owner(), Some(s("carol")));
    o.update(&s("bob"), AcceptProposed).unwrap();
    assert_eq!(
        o.state(),
        &OwnerState::Std { owner: s("bob"), emergency_owner: Some(s("carol")) }
    );
}

#[test]
fn update_reports_attributes_of_the_new_state() {
    let mut o = owned_by("alice");
    let attrs = o.update(&s("alice"), ProposeNewOwner { proposed: s("bob") }).unwrap();
    assert_eq!(
        pairs(&attrs),
        vec![("action", "update_owner"), ("owner", "alice"), ("proposed", "bob"), ("sender", "alice")]
    );
    let attrs = o.update(&s("bob"), AcceptProposed).unwrap();
    assert_eq!(
        pairs(&attrs),
        vec![("action", "update_owner"), ("owner", "bob"), ("proposed", "None"), ("sender", "bob")]
    );
    let attrs = o.update(&s("bob"), AbolishOwnerRole).unwrap();
    assert_eq!(
        pairs(&attrs),
        vec![("action", "update_owner"), ("owner", "None"), ("proposed", "None"), ("sender", "bob")]
    );
}

#[test]
fn assertions_name_the_missing_role() {
    let mut o = owned_by("alice");
    o.update(&s("alice"), SetEmergencyOwner { emergency_owner: s("carol") }).unwrap();
    o.update(&s("alice"), ProposeNewOwner { proposed: s("bob") }).unwrap();
    assert_eq!(o.assert_owner(&s("alice")), Ok(()));
    assert_eq!(o.assert_owner(&s("bob")), Err(OwnerError::NotOwner {}));
    assert_eq!(o.assert_proposed(&s("bob")), Ok(()));
    assert_eq!(o.assert_proposed(&s("alice")), Err(OwnerError::NotProposedOwner {}));
    assert_eq!(o.assert_emergency_owner(&s("carol")), Ok(()));
    assert_eq!(o.assert_emergency_owner(&s("alice")), Err(OwnerError::NotEmergencyOwner {}));
}

#[test]
fn roles_are_absent_before_initialization() {
    let o = Owner::new("owner");
    assert!(!o.is_owner(&s("alice")));
    assert!(!o.is_proposed(&s("alice")));
    assert!(!o.is_emergency_owner(&s("alice")));
    assert_eq!(o.assert_owner(&s("alice")), Err(OwnerError::NotOwner {}));
}

#[test]
fn stored_state_is_restored() {
    let empty = Owner::from_stored("slot", None);
    assert_eq!(empty.state(), &OwnerState::Uninitialized);
    assert_eq!(empty.namespace(), "slot");

    let stored = OwnerState::Proposed {
        owner: s("alice"),
        proposed: s("bob"),
        emergency_owner: None,
    };
    let mut o = Owner::from_stored("slot", Some(stored.clone()));
    assert_eq!(o.state(), &stored);
    o.update(&s("bob"), AcceptProposed).unwrap();
    assert_eq!(o.current(), Some(s("bob")));
    assert_eq!(o.namespace(), "slot");
}

#[test]
fn events_name_the_addresses_they_carry() {
    assert_eq!(ProposeNewOwner { proposed: s("bob") }.address(), Some("bob"));
    assert_eq!(SetEmergencyOwner { emergency_owner: s("carol") }.address(), Some("carol"));
    assert_eq!(OwnerUpdate::ClearProposed.address(), None);
    assert_eq!(OwnerUpdate::AcceptProposed.address(), None);
    assert_eq!(OwnerInit::SetInitialOwner { owner: s("alice") }.address(), Some("alice"));
    assert_eq!(OwnerInit::AbolishOwnerRole.address(), None);
}

#[test]
fn storage_errors_pass_through() {
    assert_eq!(
        OwnerError::Std(cosmwasm_std::StdError::generic_err("boom")),
        OwnerError::Std(cosmwasm_std::StdError::generic_err("boom"))
    );
    assert_ne!(
        OwnerError::Std(cosmwasm_std::StdError::generic_err("boom")),
        OwnerError::NotOwner {}
    );
}
