#[test]
fn derivation_is_deterministic() {
    let a = vault_rate_limiter::keys::derive("POST /vault", "abc");
    let b = vault_rate_limiter::keys::derive("POST /vault", "abc");
    assert_eq!(a, b);
}

#[test]
fn derivation_matches_sha256_of_material() {
    // The key is the hex SHA-256 digest of "route\ncredential".
    let key = vault_rate_limiter::keys::derive("POST /vault", "abc");
    assert_eq!(key, "1b5f26c92f8e64a9713b810b64e374740d4fef6ab3cc58520ffea878a90d2bd6");
}

#[test]
fn different_inputs_give_different_keys() {
    let base = vault_rate_limiter::keys::derive("POST /vault", "abc");
    let other_credential = vault_rate_limiter::keys::derive("POST /vault", "abd");
    let other_route = vault_rate_limiter::keys::derive("GET /vault/items", "abc");
    assert_ne!(base, other_credential);
    assert_ne!(base, other_route);
}

#[test]
fn key_is_opaque() {
    // The key never equals the raw route or the raw credential, and it
    // has the fixed digest length.
    let route = "POST /vault";
    let credential = "abc";
    let key = vault_rate_limiter::keys::derive(route, credential);
    assert_eq!(key.len(), 64);
    assert_ne!(key, route);
    assert_ne!(key, credential);
}

#[test]
fn separator_prevents_boundary_collisions() {
    // Shifting characters between route and credential moves the
    // separator, so the keys differ.
    let a = vault_rate_limiter::keys::derive("POST /vault", "abc");
    let b = vault_rate_limiter::keys::derive("POST /vaulta", "bc");
    assert_ne!(a, b);
}
