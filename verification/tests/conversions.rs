use pkcs11_codes::CertificateType;
use pkcs11_codes::ConversionError;
use pkcs11_codes::MechanismType;
use pkcs11_codes::Notification;
use pkcs11_codes::ObjectClass;

#[test]
fn round_trip_certificate_types() {
    let variants = vec![
        CertificateType::X509,
        CertificateType::X509AttrCert,
        CertificateType::Wtls,
        CertificateType::VendorDefined,
    ];
    for v in variants {
        assert_eq!(CertificateType::from_native(v.to_native()), Ok(v));
    }
}

#[test]
fn round_trip_notifications() {
    let variants = vec![Notification::Surrender, Notification::OtpChanged];
    for v in variants {
        assert_eq!(Notification::from_native(v.to_native()), Ok(v));
    }
}

#[test]
fn round_trip_object_classes() {
    let variants = vec![
        ObjectClass::Data,
        ObjectClass::Certificate,
        ObjectClass::PublicKey,
        ObjectClass::PrivateKey,
        ObjectClass::SecretKey,
        ObjectClass::HwFeature,
        ObjectClass::DomainParameters,
        ObjectClass::Mechanism,
        ObjectClass::OtpKey,
        ObjectClass::VendorDefined,
    ];
    for v in variants {
        assert_eq!(ObjectClass::from_native(v.to_native()), Ok(v));
    }
}

#[test]
fn literal_codes_are_stable() {
    // The association of variant and code is the registry's, not an
    // artifact of declaration order.
    assert_eq!(ObjectClass::Data.to_native(), 0);
    assert_eq!(ObjectClass::Certificate.to_native(), 1);
    assert_eq!(ObjectClass::PrivateKey.to_native(), 3);
    assert_eq!(ObjectClass::OtpKey.to_native(), 8);
    assert_eq!(CertificateType::X509.to_native(), 0);
    assert_eq!(CertificateType::X509AttrCert.to_native(), 1);
    assert_eq!(CertificateType::Wtls.to_native(), 2);
    assert_eq!(Notification::Surrender.to_native(), 0);
    assert_eq!(Notification::OtpChanged.to_native(), 1);
    assert_eq!(MechanismType::RsaPkcsKeyPairGen.to_native(), 0);
    assert_eq!(MechanismType::AesGcm.to_native(), 0x1087);
    assert_eq!(MechanismType::Sha256.to_native(), 0x0250);
    assert_eq!(MechanismType::RsaPkcsOaepTpm11.to_native(), 0x4002);
}

#[test]
fn unrecognized_codes_are_rejected() {
    assert_eq!(
        MechanismType::from_native(0x0000_0099),
        Err(ConversionError::Unrecognized)
    );
    assert_eq!(
        MechanismType::from_native(0x000f),
        Err(ConversionError::Unrecognized)
    );
    assert_eq!(
        ObjectClass::from_native(9),
        Err(ConversionError::Unrecognized)
    );
    assert_eq!(
        CertificateType::from_native(3),
        Err(ConversionError::Unrecognized)
    );
    assert_eq!(
        Notification::from_native(2),
        Err(ConversionError::Unrecognized)
    );
    assert_eq!(
        MechanismType::from_native(u64::MAX),
        Err(ConversionError::Unrecognized)
    );
}

#[test]
fn sentinel_boundary() {
    // Exactly the sentinel code converts; the first code above it does
    // not, in every family that names the sentinel.
    assert_eq!(
        CertificateType::from_native(0x8000_0000),
        Ok(CertificateType::VendorDefined)
    );
    assert_eq!(
        MechanismType::from_native(0x8000_0000),
        Ok(MechanismType::VendorDefined)
    );
    assert_eq!(
        ObjectClass::from_native(0x8000_0000),
        Ok(ObjectClass::VendorDefined)
    );
    assert_eq!(
        CertificateType::from_native(0x8000_0001),
        Err(ConversionError::Unrecognized)
    );
    assert_eq!(
        MechanismType::from_native(0x8000_0001),
        Err(ConversionError::Unrecognized)
    );
    assert_eq!(
        ObjectClass::from_native(0x8000_0001),
        Err(ConversionError::Unrecognized)
    );
    // The notification family defines no vendor sentinel at all.
    assert_eq!(
        Notification::from_native(0x8000_0000),
        Err(ConversionError::Unrecognized)
    );
}

#[test]
fn no_cross_family_confusion() {
    // One and the same code means a different thing, or nothing, in each
    // family; nothing converts across families without a separate call.
    assert_eq!(ObjectClass::from_native(1), Ok(ObjectClass::Certificate));
    assert_eq!(
        CertificateType::from_native(1),
        Ok(CertificateType::X509AttrCert)
    );
    assert_eq!(Notification::from_native(1), Ok(Notification::OtpChanged));
    assert_eq!(MechanismType::from_native(1), Ok(MechanismType::RsaPkcs));

    // A mechanism code is not an object class, a certificate type or a
    // notification.
    assert_eq!(MechanismType::from_native(0x1087), Ok(MechanismType::AesGcm));
    assert_eq!(
        ObjectClass::from_native(0x1087),
        Err(ConversionError::Unrecognized)
    );
    assert_eq!(
        CertificateType::from_native(0x1087),
        Err(ConversionError::Unrecognized)
    );
    assert_eq!(
        Notification::from_native(0x1087),
        Err(ConversionError::Unrecognized)
    );

    // An object-class code with no mechanism counterpart.
    assert_eq!(ObjectClass::from_native(8), Ok(ObjectClass::OtpKey));
    assert_eq!(
        CertificateType::from_native(8),
        Err(ConversionError::Unrecognized)
    );
}
