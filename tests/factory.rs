use coralswap_pair::errors::FactoryError;
use coralswap_pair::factory::Factory;
use coralswap_pair::storage::Address;

const SIGNER_1: Address = Address { id: 1 };
const SIGNER_2: Address = Address { id: 2 };
const SIGNER_3: Address = Address { id: 3 };
const FEE_TO_SETTER: Address = Address { id: 4 };
const TOKEN_A: Address = Address { id: 20 };
const TOKEN_B: Address = Address { id: 10 };
const PAIR: Address = Address { id: 30 };

fn setup_env() -> (Factory, Address, Address) {
    let mut factory = Factory::new();
    factory.initialize(vec![SIGNER_1, SIGNER_2, SIGNER_3], [0u8; 32], [0u8; 32], FEE_TO_SETTER).unwrap();
    (factory, TOKEN_A, TOKEN_B)
}

fn signers(n: u64) -> Vec<Address> {
    (0..n).map(|i| Address { id: 100 + i }).collect()
}

#[test]
fn test_initialize_happy_path() {
    let mut factory = Factory::new();
    factory.initialize(vec![SIGNER_1, SIGNER_2, SIGNER_3], [0u8; 32], [0u8; 32], FEE_TO_SETTER).unwrap();
    assert_eq!(factory.is_paused(), false);
    assert!(factory.fee_to().is_none());
    assert_eq!(factory.fee_to_setter(), Some(FEE_TO_SETTER));
}

#[test]
fn test_initialize_double_init_fails() {
    let (mut factory, _, _) = setup_env();
    let result = factory.initialize(vec![SIGNER_1], [0u8; 32], [0u8; 32], FEE_TO_SETTER);
    assert!(result.is_err());
    assert_eq!(result, Err(FactoryError::AlreadyInitialized));
}

#[test]
fn test_initialize_empty_signers_fails() {
    let mut factory = Factory::new();
    let result = factory.initialize(Vec::new(), [0u8; 32], [0u8; 32], FEE_TO_SETTER);
    assert!(result.is_err());
    assert_eq!(result, Err(FactoryError::InvalidSignerCount));
}

#[test]
fn test_initialize_too_many_signers_fails() {
    let mut factory = Factory::new();
    let result = factory.initialize(signers(11), [0u8; 32], [0u8; 32], FEE_TO_SETTER);
    assert!(result.is_err());
}

#[test]
fn test_initialize_single_signer_succeeds() {
    let mut factory = Factory::new();
    factory.initialize(vec![SIGNER_1], [0u8; 32], [0u8; 32], FEE_TO_SETTER).unwrap();
    assert_eq!(factory.is_paused(), false);
}

#[test]
fn test_initialize_ten_signers_succeeds() {
    let mut factory = Factory::new();
    factory.initialize(signers(10), [0u8; 32], [0u8; 32], FEE_TO_SETTER).unwrap();
    assert_eq!(factory.is_paused(), false);
}

#[test]
fn test_is_paused_after_init() {
    let (factory, _, _) = setup_env();
    assert_eq!(factory.is_paused(), false);
}

#[test]
fn test_create_pair_validation() {
    let (mut factory, token_a, _) = setup_env();
    let result = factory.create_pair(token_a, token_a, PAIR);
    assert!(result.is_err());
    assert_eq!(result, Err(FactoryError::IdenticalTokens));
}

#[test]
fn test_get_pair_none_for_missing() {
    let (factory, token_a, token_b) = setup_env();
    assert!(factory.get_pair(token_a, token_b).is_none());
}

#[test]
fn prepare_pair_sorts_tokens() {
    let (factory, token_a, token_b) = setup_env();
    assert_eq!(factory.prepare_pair(token_a, token_b), Ok((TOKEN_B, TOKEN_A)));
}

#[test]
fn created_pair_is_found_under_both_orders_once() {
    let (mut factory, token_a, token_b) = setup_env();
    assert_eq!(factory.create_pair(token_a, token_b, PAIR), Ok(0));
    assert_eq!(factory.get_pair(token_a, token_b), Some(PAIR));
    assert_eq!(factory.get_pair(token_b, token_a), Some(PAIR));
    assert_eq!(factory.create_pair(token_b, token_a, PAIR), Err(FactoryError::PairExists));
    assert_eq!(factory.create_pair(token_a, Address { id: 99 }, Address { id: 31 }), Ok(1));
}

#[test]
fn paused_registry_creates_nothing() {
    let (mut factory, token_a, token_b) = setup_env();
    factory.pause().unwrap();
    assert!(factory.is_paused());
    assert_eq!(factory.create_pair(token_a, token_b, PAIR), Err(FactoryError::ProtocolPaused));
    factory.unpause().unwrap();
    assert_eq!(factory.create_pair(token_a, token_b, PAIR), Ok(0));
}

#[test]
fn uninitialized_registry_rejects_everything() {
    let mut factory = Factory::new();
    assert_eq!(factory.create_pair(TOKEN_A, TOKEN_B, PAIR), Err(FactoryError::NotInitialized));
    assert_eq!(factory.pause(), Err(FactoryError::NotInitialized));
    assert_eq!(factory.set_fee_to(FEE_TO_SETTER, None), Err(FactoryError::NotInitialized));
    assert_eq!(factory.fee_to_setter(), None);
    assert!(!factory.is_paused());
}

#[test]
fn only_the_setter_changes_fee_settings() {
    let (mut factory, _, _) = setup_env();
    assert_eq!(factory.set_fee_to(SIGNER_1, Some(SIGNER_2)), Err(FactoryError::Unauthorized));
    factory.set_fee_to(FEE_TO_SETTER, Some(SIGNER_2)).unwrap();
    assert_eq!(factory.fee_to(), Some(SIGNER_2));
    assert_eq!(factory.set_fee_to_setter(SIGNER_1, SIGNER_1), Err(FactoryError::Unauthorized));
    factory.set_fee_to_setter(FEE_TO_SETTER, SIGNER_1).unwrap();
    assert_eq!(factory.fee_to_setter(), Some(SIGNER_1));
    assert_eq!(factory.fee_to(), Some(SIGNER_2));
}
