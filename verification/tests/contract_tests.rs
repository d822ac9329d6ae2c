use dstack::contract::{ClusterContract, DataKey};
use dstack::records::{OnboardedObject, PendingObject};

#[test]
fn test() {
    let mut contract = ClusterContract::new();

    assert!(contract.bootstrap(b"bootstrap".to_vec(), b"quote".to_vec()));
    assert!(contract.register(b"register".to_vec(), b"quote".to_vec(), 1));
    assert!(contract.onboard(b"onboard".to_vec(), b"encrypted_shared_secret".to_vec(), 2));
}

#[test]
fn bootstrap_happens_at_most_once() {
    let mut contract = ClusterContract::new();
    assert!(!contract.has(&DataKey::SharedPub));

    assert!(contract.bootstrap(vec![1u8; 32], vec![9u8], ));
    assert!(contract.has(&DataKey::SharedPub));
    assert_eq!(contract.shared_public.as_deref(), Some(&[1u8; 32][..]));

    // a second bootstrap is refused and changes nothing
    assert!(!contract.bootstrap(vec![2u8; 32], vec![9u8]));
    assert_eq!(contract.shared_public.as_deref(), Some(&[1u8; 32][..]));
}

#[test]
fn register_and_onboard_need_a_bootstrapped_group() {
    let mut contract = ClusterContract::new();
    assert!(!contract.register(vec![3u8; 32], vec![7u8], 5));
    assert!(!contract.onboard(vec![3u8; 32], vec![8u8], 5));
    assert!(contract.pending().is_empty());
    assert!(contract.onboarded().is_empty());

    assert!(contract.bootstrap(vec![1u8; 32], vec![9u8]));
    assert!(contract.register(vec![3u8; 32], vec![7u8], 5));
    assert!(contract.onboard(vec![3u8; 32], vec![8u8], 6));

    let pending: &Vec<PendingObject> = contract.pending();
    assert_eq!(pending.len(), 1);
    assert_eq!(pending[0].pubkey, vec![3u8; 32]);
    assert_eq!(pending[0].quote, vec![7u8]);
    assert_eq!(pending[0].at_time, 5);

    let onboarded: &Vec<OnboardedObject> = contract.onboarded();
    assert_eq!(onboarded.len(), 1);
    assert_eq!(onboarded[0].node_pubkey, vec![3u8; 32]);
    assert_eq!(onboarded[0].shared_secret, vec![8u8]);
    assert_eq!(onboarded[0].at_time, 6);
}
