use succession::{Compat, Identity, Run};

#[test]
fn a_process_keeps_one_run_token() {
    let mut mine = None;
    let first = Run::mint(&mut mine, || 42);
    let again = Run::mint(&mut mine, || panic!("the token is drawn once"));
    assert_eq!(first, again);
    assert_eq!(mine, Some(first));
}

#[test]
fn a_token_survives_a_round_trip_through_its_raw_form() {
    let mut mine = None;
    let minted = Run::mint(&mut mine, || 0xfeed_face_cafe_beef);
    assert_eq!(minted.get(), 0xfeed_face_cafe_beef);
    assert_eq!(Run::from_raw(minted.get()), minted);
}

#[test]
fn identities_differ_when_either_half_differs() {
    let run = Run::from_raw(1);
    let other = Run::from_raw(2);
    let compat = Compat::from(7_u32);
    assert_ne!(Identity::new(run, compat), Identity::new(other, compat));
    assert_ne!(
        Identity::new(run, compat),
        Identity::new(run, Compat::from(8_u32))
    );
}

#[test]
fn my_identity_pairs_my_run_with_the_fingerprint() {
    let mut mine = Some(Run::from_raw(5));
    let identity = Identity::mine(&mut mine, || 6, Compat::from_raw(18));
    assert_eq!(
        identity,
        Identity::new(Run::from_raw(5), Compat::from_raw(18))
    );
    let mut none = None;
    let identity = Identity::mine(&mut none, || 6, Compat::from_raw(18));
    assert_eq!(identity.run, Run::from_raw(6));
    assert_eq!(none, Some(identity.run));
}

#[test]
fn a_fingerprint_is_its_raw_value() {
    assert_eq!(Compat::from(u64::MAX).get(), u64::MAX);
    assert_eq!(Compat::from(u32::MAX).get(), 4_294_967_295);
    assert_eq!(Compat::from_raw(18), Compat::from(18_u32));
}
