use succession::{Allegiance, Because, Compat, Identity, Run, Standing};

fn ours() -> Compat {
    Compat::from_raw(18)
}

fn owner(run: u64, compat: u64) -> Identity {
    Identity::new(Run::from_raw(run), Compat::from_raw(compat))
}

#[test]
fn the_first_owner_seen_is_adopted_not_refused() {
    // A helper that gave its role up on the first handshake would be
    // restarted straight back into the same verdict.
    let mut allegiance = Allegiance::new(ours());
    assert_eq!(allegiance.observe(owner(7, 18)), Standing::Current);
    assert_eq!(allegiance.owner(), Some(Run::from_raw(7)));
}

#[test]
fn the_same_owner_keeps_the_helper() {
    let mut allegiance = Allegiance::new(ours());
    assert_eq!(allegiance.observe(owner(7, 18)), Standing::Current);
    assert_eq!(allegiance.observe(owner(7, 18)), Standing::Current);
}

#[test]
fn a_restarted_owner_supersedes_the_helper() {
    let mut allegiance = Allegiance::to(ours(), Run::from_raw(7));
    assert_eq!(
        allegiance.observe(owner(9, 18)),
        Standing::Superseded(Because::NewRun {
            sworn: Run::from_raw(7),
            owner: Run::from_raw(9),
        })
    );
}

#[test]
fn a_spawn_time_hint_catches_an_orphan_on_its_very_first_handshake() {
    let mut allegiance = Allegiance::to(ours(), Run::from_raw(7));
    assert!(matches!(
        allegiance.observe(owner(9, 18)),
        Standing::Superseded(_)
    ));
}

#[test]
fn incompatibility_outranks_the_run_check() {
    // The run cannot be trusted across an incompatible boundary, so it
    // must not be what the helper reports - or acts on.
    let mut allegiance = Allegiance::to(ours(), Run::from_raw(7));
    assert_eq!(
        allegiance.observe(owner(7, 17)),
        Standing::Superseded(Because::Incompatible {
            ours: ours(),
            owner: Compat::from_raw(17),
        })
    );
}

#[test]
fn an_incompatible_owner_is_not_sworn_to() {
    let mut allegiance = Allegiance::new(ours());
    assert!(matches!(
        allegiance.observe(owner(9, 17)),
        Standing::Superseded(Because::Incompatible { .. })
    ));
    assert_eq!(allegiance.owner(), None);
    assert_eq!(allegiance.observe(owner(7, 18)), Standing::Current);
    assert_eq!(allegiance.owner(), Some(Run::from_raw(7)));
}

#[test]
fn a_superseding_owner_goes_on_superseding() {
    let mut allegiance = Allegiance::new(ours());
    assert_eq!(allegiance.observe(owner(7, 18)), Standing::Current);
    let superseded = allegiance.observe(owner(9, 18));
    for between in [owner(7, 18), owner(9, 17), owner(8, 18)] {
        let _ = allegiance.observe(between);
        assert_eq!(allegiance.observe(owner(9, 18)), superseded);
    }
    assert_eq!(allegiance.owner(), Some(Run::from_raw(7)));
}

#[test]
fn reasons_can_be_put_in_words() {
    assert_eq!(
        Because::Incompatible {
            ours: ours(),
            owner: Compat::from_raw(17),
        }
        .describe(),
        "owner speaks 17 and this helper speaks 18"
    );
    assert_eq!(
        Because::NewRun {
            sworn: Run::from_raw(7),
            owner: Run::from_raw(9),
        }
        .describe(),
        "owner is run 9 and this helper serves run 7"
    );
}
