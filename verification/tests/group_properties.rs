//! The group codec properties: the identity element and the zero
//! scalar never deserialize.

use voprf::CipherSuite;
use voprf::group::test_identity_element_error;
use voprf::group::test_zero_scalar_error;

#[test]
fn test_group_properties() {
    for suite in [CipherSuite::Ristretto255Sha512, CipherSuite::P256Sha256] {
        assert!(test_identity_element_error(suite).is_ok());
        assert!(test_zero_scalar_error(suite).is_ok());
    }
}
