use vstd::prelude::*;

use crate::error::ConversionError;

verus! {

/// The object-class family of the standard's registry.
///
/// `VendorDefined` marks the start of the implementation-defined extension
/// range; only its exact sentinel code is named here.
#[derive(Clone, Copy, Debug, PartialEq, Eq, Structural)]
pub enum ObjectClass {
    Data,
    Certificate,
    PublicKey,
    PrivateKey,
    SecretKey,
    HwFeature,
    DomainParameters,
    Mechanism,
    OtpKey,
    VendorDefined,
}

impl ObjectClass {
    /// The native code the registry binds to each variant. This table is
    /// the family's single source of truth: both converters are proved
    /// against it.
    pub open spec fn spec_code(self) -> u64 {
        match self {
            ObjectClass::Data => 0x0000,
            ObjectClass::Certificate => 0x0001,
            ObjectClass::PublicKey => 0x0002,
            ObjectClass::PrivateKey => 0x0003,
            ObjectClass::SecretKey => 0x0004,
            ObjectClass::HwFeature => 0x0005,
            ObjectClass::DomainParameters => 0x0006,
            ObjectClass::Mechanism => 0x0007,
            ObjectClass::OtpKey => 0x0008,
            ObjectClass::VendorDefined => 0x8000_0000,
        }
    }

    /// The reverse lookup the table induces: the variant whose code is
    /// exactly `code`, if the family defines one.
    spec fn spec_from_code(code: u64) -> Option<ObjectClass> {
        if code == 0x0000 {
            Some(ObjectClass::Data)
        } else if code == 0x0001 {
            Some(ObjectClass::Certificate)
        } else if code == 0x0002 {
            Some(ObjectClass::PublicKey)
        } else if code == 0x0003 {
            Some(ObjectClass::PrivateKey)
        } else if code == 0x0004 {
            Some(ObjectClass::SecretKey)
        } else if code == 0x0005 {
            Some(ObjectClass::HwFeature)
        } else if code == 0x0006 {
            Some(ObjectClass::DomainParameters)
        } else if code == 0x0007 {
            Some(ObjectClass::Mechanism)
        } else if code == 0x0008 {
            Some(ObjectClass::OtpKey)
        } else if code == 0x8000_0000 {
            Some(ObjectClass::VendorDefined)
        } else {
            None
        }
    }

    /// Every variant is found again at its own code.
    proof fn lemma_table_complete(v: Self)
        ensures
            Self::spec_from_code(v.spec_code()) == Some(v),
    {
    }

    /// The reverse lookup only returns a variant whose code is the one
    /// looked up.
    proof fn lemma_table_sound(code: u64)
        ensures
            Self::spec_from_code(code) matches Some(v) ==> v.spec_code() == code,
    {
    }

    /// Returns the native code bound to this variant.
    pub fn to_native(self) -> (code: u64)
        ensures
            code == self.spec_code(),
    {
        match self {
            ObjectClass::Data => 0x0000,
            ObjectClass::Certificate => 0x0001,
            ObjectClass::PublicKey => 0x0002,
            ObjectClass::PrivateKey => 0x0003,
            ObjectClass::SecretKey => 0x0004,
            ObjectClass::HwFeature => 0x0005,
            ObjectClass::DomainParameters => 0x0006,
            ObjectClass::Mechanism => 0x0007,
            ObjectClass::OtpKey => 0x0008,
            ObjectClass::VendorDefined => 0x8000_0000,
        }
    }

    /// Looks `code` up against the closed variant set: succeeds with the
    /// matching variant if and only if `code` is exactly a defined
    /// variant's code, and fails with `Unrecognized` otherwise. In
    /// particular every defined variant round-trips through its code.
    pub fn from_native(code: u64) -> (r: Result<Self, ConversionError>)
        ensures
            forall|v: Self| #[trigger] v.spec_code() == code
                ==> r == Ok::<Self, ConversionError>(v),
            r matches Ok(v) ==> v.spec_code() == code,
            r is Err <==> (forall|v: Self| #[trigger] v.spec_code() != code),
            r matches Err(e) ==> e == ConversionError::Unrecognized,
    {
        let r: Result<Self, ConversionError> = match code {
            0x0000u64 => Ok(ObjectClass::Data),
            0x0001u64 => Ok(ObjectClass::Certificate),
            0x0002u64 => Ok(ObjectClass::PublicKey),
            0x0003u64 => Ok(ObjectClass::PrivateKey),
            0x0004u64 => Ok(ObjectClass::SecretKey),
            0x0005u64 => Ok(ObjectClass::HwFeature),
            0x0006u64 => Ok(ObjectClass::DomainParameters),
            0x0007u64 => Ok(ObjectClass::Mechanism),
            0x0008u64 => Ok(ObjectClass::OtpKey),
            0x8000_0000u64 => Ok(ObjectClass::VendorDefined),
            _ => Err(ConversionError::Unrecognized),
        };
        proof {
            assert(r == (match Self::spec_from_code(code) {
                Some(v) => Ok::<Self, ConversionError>(v),
                None => Err::<Self, ConversionError>(ConversionError::Unrecognized),
            }));
            Self::lemma_table_sound(code);
            assert forall|v: Self| #[trigger] v.spec_code() == code
                implies r == Ok::<Self, ConversionError>(v) by {
                Self::lemma_table_complete(v);
            }
            if r is Err {
                assert forall|v: Self| #[trigger] v.spec_code() != code by {
                    Self::lemma_table_complete(v);
                }
            }
        }
        r
    }

    /// No two distinct variants of this family share a native code.
    pub proof fn lemma_code_injective(a: Self, b: Self)
        requires
            a.spec_code() == b.spec_code(),
        ensures
            a == b,
    {
        Self::lemma_table_complete(a);
        Self::lemma_table_complete(b);
    }
}

} // verus!
