//! Symbolic enumerations for the constant families of a PKCS#11-style
//! security-token interface, with verified, lossless conversion between
//! each symbolic variant and its native unsigned-integer wire code.
//!
//! Every family is a closed, self-contained enum. Each variant is bound to
//! the exact code the standard's registry assigns it, recorded once in a
//! spec function; the executable converters are proved against that table.
//! Conversion from a native code fails with [`ConversionError::Unrecognized`]
//! exactly when the code matches no variant. The `VendorDefined` sentinel
//! round-trips only at its own value: codes above it are rejected, not
//! folded into the sentinel.

mod certificate_type;
mod error;
mod mechanism_type;
mod notification;
mod object_class;

pub use certificate_type::CertificateType;
pub use error::ConversionError;
pub use mechanism_type::MechanismType;
pub use notification::Notification;
pub use object_class::ObjectClass;
