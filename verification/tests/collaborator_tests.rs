use unified_liquidity_pool::crypto::dilithium_keygen;
use unified_liquidity_pool::crypto::dilithium_sign;
use unified_liquidity_pool::crypto::kyber_keygen;
use unified_liquidity_pool::crypto::EncryptedData;
use unified_liquidity_pool::pool::UnifiedLiquidityPool;
use unified_liquidity_pool::registry::CultivationParameters;
use unified_liquidity_pool::registry::DeviceStatus;
use unified_liquidity_pool::registry::FacilityStatus;
use unified_liquidity_pool::TokenId;

#[test]
fn mock_crypto_returns_zero_blobs() {
    let (public_key, private_key) = kyber_keygen();
    assert_eq!(public_key, [0u8; 32]);
    assert_eq!(private_key, [0u8; 32]);

    let (sig_public, sig_private) = dilithium_keygen();
    assert_eq!(sig_public, [0u8; 32]);
    assert_eq!(sig_private, [0u8; 32]);

    let signature = dilithium_sign(&sig_private, b"pool state");
    assert_eq!(signature, [0u8; 64]);
}

#[test]
fn encrypted_data_carries_opaque_bytes() {
    let blob = EncryptedData { ciphertext: vec![1, 2, 3], nonce: [7u8; 24] };
    let same = EncryptedData { ciphertext: vec![1, 2, 3], nonce: [7u8; 24] };
    assert_eq!(blob, same);
    assert_eq!(blob.ciphertext.len(), 3);
}

#[test]
fn registry_status_values_compare() {
    assert_eq!(FacilityStatus::Pending, FacilityStatus::Pending);
    assert_ne!(FacilityStatus::Active, FacilityStatus::Revoked);
    assert_ne!(DeviceStatus::Registered, DeviceStatus::Authorized);

    let params = CultivationParameters {
        ph_level: 750,
        temperature: 3200,
        light_intensity: 5000,
        co2_concentration: 800,
        nutrient_concentration: 1500,
        water_quality: 9000,
    };
    assert_eq!(params, params);
    assert_eq!(params.ph_level, 750);
}

#[test]
fn zero_amount_operations_are_benign() {
    let mut pool = UnifiedLiquidityPool::new(30, 5000);
    // A zero deposit mints zero shares on an empty pool.
    assert_eq!(pool.add_liquidity(1, true, TokenId::NRSH, 0), Ok(0));
    assert_eq!(pool.get_reserves(TokenId::NRSH), 0);
    // Burning zero shares is owed zero reserve.
    assert_eq!(pool.remove_liquidity(1, TokenId::NRSH, 0), Ok(0));
    assert_eq!(pool.events().len(), 2);
}

#[test]
fn construction_rates_are_stored_and_pool_is_empty() {
    let pool = UnifiedLiquidityPool::new(30, 5000);
    assert_eq!(pool.get_reserves(TokenId::NRSH), 0);
    assert_eq!(pool.get_reserves(TokenId::ELXR), 0);
    assert_eq!(pool.get_reserves(TokenId::IMRT), 0);
    assert_eq!(pool.get_treasury(TokenId::NRSH), 0);
    assert_eq!(pool.get_total_shares(TokenId::IMRT), 0);
    assert_eq!(pool.events().len(), 0);
}
