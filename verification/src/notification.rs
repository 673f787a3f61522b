use vstd::prelude::*;

use crate::error::ConversionError;

verus! {

/// The notification family of the standard's registry. It is the one
/// family without a `VendorDefined` sentinel: the registry names no
/// extension range for notifications.
#[derive(Clone, Copy, Debug, PartialEq, Eq, Structural)]
pub enum Notification {
    Surrender,
    OtpChanged,
}

impl Notification {
    /// The native code the registry binds to each variant. This table is
    /// the family's single source of truth: both converters are proved
    /// against it.
    pub open spec fn spec_code(self) -> u64 {
        match self {
            Notification::Surrender => 0x0000,
            Notification::OtpChanged => 0x0001,
        }
    }

    /// The reverse lookup the table induces: the variant whose code is
    /// exactly `code`, if the family defines one.
    spec fn spec_from_code(code: u64) -> Option<Notification> {
        if code == 0x0000 {
            Some(Notification::Surrender)
        } else if code == 0x0001 {
            Some(Notification::OtpChanged)
        } else {
            None
        }
    }

    /// Every variant is found again at its own code.
    proof fn lemma_table_complete(v: Self)
        ensures
            Self::spec_from_code(v.spec_code()) == Some(v),
    {
    }

    /// The reverse lookup only returns a variant whose code is the one
    /// looked up.
    proof fn lemma_table_sound(code: u64)
        ensures
            Self::spec_from_code(code) matches Some(v) ==> v.spec_code() == code,
    {
    }

    /// Returns the native code bound to this variant.
    pub fn to_native(self) -> (code: u64)
        ensures
            code == self.spec_code(),
    {
        match self {
            Notification::Surrender => 0x0000,
            Notification::OtpChanged => 0x0001,
        }
    }

    /// Looks `code` up against the closed variant set: succeeds with the
    /// matching variant if and only if `code` is exactly a defined
    /// variant's code, and fails with `Unrecognized` otherwise. In
    /// particular every defined variant round-trips through its code.
    pub fn from_native(code: u64) -> (r: Result<Self, ConversionError>)
        ensures
            forall|v: Self| #[trigger] v.spec_code() == code
                ==> r == Ok::<Self, ConversionError>(v),
            r matches Ok(v) ==> v.spec_code() == code,
            r is Err <==> (forall|v: Self| #[trigger] v.spec_code() != code),
            r matches Err(e) ==> e == ConversionError::Unrecognized,
    {
        let r: Result<Self, ConversionError> = match code {
            0x0000u64 => Ok(Notification::Surrender),
            0x0001u64 => Ok(Notification::OtpChanged),
            _ => Err(ConversionError::Unrecognized),
        };
        proof {
            assert(r == (match Self::spec_from_code(code) {
                Some(v) => Ok::<Self, ConversionError>(v),
                None => Err::<Self, ConversionError>(ConversionError::Unrecognized),
            }));
            Self::lemma_table_sound(code);
            assert forall|v: Self| #[trigger] v.spec_code() == code
                implies r == Ok::<Self, ConversionError>(v) by {
                Self::lemma_table_complete(v);
            }
            if r is Err {
                assert forall|v: Self| #[trigger] v.spec_code() != code by {
                    Self::lemma_table_complete(v);
                }
            }
        }
        r
    }

    /// No two distinct variants of this family share a native code.
    pub proof fn lemma_code_injective(a: Self, b: Self)
        requires
            a.spec_code() == b.spec_code(),
        ensures
            a == b,
    {
        Self::lemma_table_complete(a);
        Self::lemma_table_complete(b);
    }
}

} // verus!
