use vstd::prelude::*;

use crate::error::ConversionError;

verus! {

/// The mechanism-identifier family of the standard's registry. Codes are
/// not densely packed: the gaps are the registry's own and are preserved
/// exactly.
///
/// `VendorDefined` marks the start of the implementation-defined extension
/// range; only its exact sentinel code is named here.
#[derive(Clone, Copy, Debug, PartialEq, Eq, Structural)]
pub enum MechanismType {
    RsaPkcsKeyPairGen,
    RsaPkcs,
    Rsa9796,
    RsaX509,
    Md2RsaPkcs,
    Md5RsaPkcs,
    Sha1RsaPkcs,
    Ripemd128RsaPkcs,
    Ripemd160RsaPkcs,
    RsaPkcsOaep,
    RsaX931KeyPairGen,
    RsaX931,
    Sha1RsaX931,
    RsaPkcsPss,
    Sha1RsaPkcsPss,
    DsaKeyPairGen,
    Dsa,
    DsaSha1,
    DsaSha224,
    DsaSha256,
    DsaSha384,
    DsaSha512,
    DhPkcsKeyPairGen,
    DhPkcsDerive,
    X942DhKeyPairGen,
    X942DhDerive,
    X942DhHybridDerive,
    X942MqvDerive,
    Sha256RsaPkcs,
    Sha384RsaPkcs,
    Sha512RsaPkcs,
    Sha256RsaPkcsPss,
    Sha384RsaPkcsPss,
    Sha512RsaPkcsPss,
    Sha224RsaPkcs,
    Sha224RsaPkcsPss,
    Sha512224,
    Sha512224Hmac,
    Sha512224HmacGeneral,
    Sha512224KeyDerivation,
    Sha512256,
    Sha512256Hmac,
    Sha512256HmacGeneral,
    Sha512256KeyDerivation,
    Sha512T,
    Sha512THmac,
    Sha512THmacGeneral,
    Sha512TKeyDerivation,
    Rc2KeyGen,
    Rc2Ecb,
    Rc2Cbc,
    Rc2Mac,
    Rc2MacGeneral,
    Rc2CbcPad,
    Rc4KeyGen,
    Rc4,
    DesKeyGen,
    DesEcb,
    DesCbc,
    DesMac,
    DesMacGeneral,
    DesCbcPad,
    Des2KeyGen,
    Des3KeyGen,
    Des3Ecb,
    Des3Cbc,
    Des3Mac,
    Des3MacGeneral,
    Des3CbcPad,
    Des3CmacGeneral,
    Des3Cmac,
    CdmfKeyGen,
    CdmfEcb,
    CdmfCbc,
    CdmfMac,
    CdmfMacGeneral,
    CdmfCbcPad,
    DesOfb64,
    DesOfb8,
    DesCfb64,
    DesCfb8,
    Md2,
    Md2Hmac,
    Md2HmacGeneral,
    Md5,
    Md5Hmac,
    Md5HmacGeneral,
    Sha1,
    Sha1Hmac,
    Sha1HmacGeneral,
    Ripemd128,
    Ripemd128Hmac,
    Ripemd128HmacGeneral,
    Ripemd160,
    Ripemd160Hmac,
    Ripemd160HmacGeneral,
    Sha256,
    Sha256Hmac,
    Sha256HmacGeneral,
    Sha224,
    Sha224Hmac,
    Sha224HmacGeneral,
    Sha384,
    Sha384Hmac,
    Sha384HmacGeneral,
    Sha512,
    Sha512Hmac,
    Sha512HmacGeneral,
    SecuridKeyGen,
    Securid,
    HotpKeyGen,
    Hotp,
    Acti,
    ActiKeyGen,
    CastKeyGen,
    CastEcb,
    CastCbc,
    CastMac,
    CastMacGeneral,
    CastCbcPad,
    Cast3KeyGen,
    Cast3Ecb,
    Cast3Cbc,
    Cast3Mac,
    Cast3MacGeneral,
    Cast3CbcPad,
    Cast128KeyGen,
    Cast128Ecb,
    Cast128Cbc,
    Cast128Mac,
    Cast128MacGeneral,
    Cast128CbcPad,
    Rc5KeyGen,
    Rc5Ecb,
    Rc5Cbc,
    Rc5Mac,
    Rc5MacGeneral,
    Rc5CbcPad,
    IdeaKeyGen,
    IdeaEcb,
    IdeaCbc,
    IdeaMac,
    IdeaMacGeneral,
    IdeaCbcPad,
    GenericSecretKeyGen,
    ConcatenateBaseAndKey,
    ConcatenateBaseAndData,
    ConcatenateDataAndBase,
    XorBaseAndData,
    ExtractKeyFromKey,
    Ssl3PreMasterKeyGen,
    Ssl3MasterKeyDerive,
    Ssl3KeyAndMacDerive,
    Ssl3MasterKeyDeriveDh,
    TlsPreMasterKeyGen,
    TlsMasterKeyDerive,
    TlsKeyAndMacDerive,
    TlsMasterKeyDeriveDh,
    TlsPrf,
    Ssl3Md5Mac,
    Ssl3Sha1Mac,
    Md5KeyDerivation,
    Md2KeyDerivation,
    Sha1KeyDerivation,
    Sha256KeyDerivation,
    Sha384KeyDerivation,
    Sha512KeyDerivation,
    Sha224KeyDerivation,
    PbeMd2DesCbc,
    PbeMd5DesCbc,
    PbeMd5CastCbc,
    PbeMd5Cast3Cbc,
    PbeMd5Cast128Cbc,
    PbeSha1Cast128Cbc,
    PbeSha1Rc4128,
    PbeSha1Rc440,
    PbeSha1Des3EdeCbc,
    PbeSha1Des2EdeCbc,
    PbeSha1Rc2128Cbc,
    PbeSha1Rc240Cbc,
    Pkcs5Pbkd2,
    PbaSha1WithSha1Hmac,
    WtlsPreMasterKeyGen,
    WtlsMasterKeyDerive,
    WtlsMasterKeyDeriveDhEcc,
    WtlsPrf,
    WtlsServerKeyAndMacDerive,
    WtlsClientKeyAndMacDerive,
    Tls10MacServer,
    Tls10MacClient,
    Tls12Mac,
    Tls12Kdf,
    Tls12MasterKeyDerive,
    Tls12KeyAndMacDerive,
    Tls12MasterKeyDeriveDh,
    Tls12KeySafeDerive,
    TlsMac,
    TlsKdf,
    KeyWrapLynks,
    KeyWrapSetOaep,
    CmsSig,
    KipDerive,
    KipWrap,
    KipMac,
    CamelliaKeyGen,
    CamelliaEcb,
    CamelliaCbc,
    CamelliaMac,
    CamelliaMacGeneral,
    CamelliaCbcPad,
    CamelliaEcbEncryptData,
    CamelliaCbcEncryptData,
    CamelliaCtr,
    AriaKeyGen,
    AriaEcb,
    AriaCbc,
    AriaMac,
    AriaMacGeneral,
    AriaCbcPad,
    AriaEcbEncryptData,
    AriaCbcEncryptData,
    SeedKeyGen,
    SeedEcb,
    SeedCbc,
    SeedMac,
    SeedMacGeneral,
    SeedCbcPad,
    SeedEcbEncryptData,
    SeedCbcEncryptData,
    SkipjackKeyGen,
    SkipjackEcb64,
    SkipjackCbc64,
    SkipjackOfb64,
    SkipjackCfb64,
    SkipjackCfb32,
    SkipjackCfb16,
    SkipjackCfb8,
    SkipjackWrap,
    SkipjackPrivateWrap,
    SkipjackRelayx,
    KeaKeyPairGen,
    KeaKeyDerive,
    KeaDerive,
    FortezzaTimestamp,
    BatonKeyGen,
    BatonEcb128,
    BatonEcb96,
    BatonCbc128,
    BatonCounter,
    BatonShuffle,
    BatonWrap,
    EcKeyPairGen,
    Ecdsa,
    EcdsaSha1,
    EcdsaSha224,
    EcdsaSha256,
    EcdsaSha384,
    EcdsaSha512,
    Ecdh1Derive,
    Ecdh1CofactorDerive,
    EcmqvDerive,
    EcdhAesKeyWrap,
    RsaAesKeyWrap,
    JuniperKeyGen,
    JuniperEcb128,
    JuniperCbc128,
    JuniperCounter,
    JuniperShuffle,
    JuniperWrap,
    Fasthash,
    AesKeyGen,
    AesEcb,
    AesCbc,
    AesMac,
    AesMacGeneral,
    AesCbcPad,
    AesCtr,
    AesGcm,
    AesCcm,
    AesCts,
    AesCmac,
    AesCmacGeneral,
    AesXcbcMac,
    AesXcbcMac96,
    AesGmac,
    BlowfishKeyGen,
    BlowfishCbc,
    TwofishKeyGen,
    TwofishCbc,
    BlowfishCbcPad,
    TwofishCbcPad,
    DesEcbEncryptData,
    DesCbcEncryptData,
    Des3EcbEncryptData,
    Des3CbcEncryptData,
    AesEcbEncryptData,
    AesCbcEncryptData,
    Gostr3410KeyPairGen,
    Gostr3410,
    Gostr3410WithGostr3411,
    Gostr3410KeyWrap,
    Gostr3410Derive,
    Gostr3411,
    Gostr3411Hmac,
    Gost28147KeyGen,
    Gost28147Ecb,
    Gost28147,
    Gost28147Mac,
    Gost28147KeyWrap,
    DsaParameterGen,
    DhPkcsParameterGen,
    X942DhParameterGen,
    DsaProbablisticParameterGen,
    DsaShaweTaylorParameterGen,
    AesOfb,
    AesCfb64,
    AesCfb8,
    AesCfb128,
    AesCfb1,
    AesKeyWrap,
    AesKeyWrapPad,
    RsaPkcsTpm11,
    RsaPkcsOaepTpm11,
    VendorDefined,
}

impl MechanismType {
    /// The native code the registry binds to each variant. This table is
    /// the family's single source of truth: both converters are proved
    /// against it.
    pub open spec fn spec_code(self) -> u64 {
        match self {
            MechanismType::RsaPkcsKeyPairGen => 0x0000,
            MechanismType::RsaPkcs => 0x0001,
            MechanismType::Rsa9796 => 0x0002,
            MechanismType::RsaX509 => 0x0003,
            MechanismType::Md2RsaPkcs => 0x0004,
            MechanismType::Md5RsaPkcs => 0x0005,
            MechanismType::Sha1RsaPkcs => 0x0006,
            MechanismType::Ripemd128RsaPkcs => 0x0007,
            MechanismType::Ripemd160RsaPkcs => 0x0008,
            MechanismType::RsaPkcsOaep => 0x0009,
            MechanismType::RsaX931KeyPairGen => 0x000a,
            MechanismType::RsaX931 => 0x000b,
            MechanismType::Sha1RsaX931 => 0x000c,
            MechanismType::RsaPkcsPss => 0x000d,
            MechanismType::Sha1RsaPkcsPss => 0x000e,
            MechanismType::DsaKeyPairGen => 0x0010,
            MechanismType::Dsa => 0x0011,
            MechanismType::DsaSha1 => 0x0012,
            MechanismType::DsaSha224 => 0x0013,
            MechanismType::DsaSha256 => 0x0014,
            MechanismType::DsaSha384 => 0x0015,
            MechanismType::DsaSha512 => 0x0016,
            MechanismType::DhPkcsKeyPairGen => 0x0020,
            MechanismType::DhPkcsDerive => 0x0021,
            MechanismType::X942DhKeyPairGen => 0x0030,
            MechanismType::X942DhDerive => 0x0031,
            MechanismType::X942DhHybridDerive => 0x0032,
            MechanismType::X942MqvDerive => 0x0033,
            MechanismType::Sha256RsaPkcs => 0x0040,
            MechanismType::Sha384RsaPkcs => 0x0041,
            MechanismType::Sha512RsaPkcs => 0x0042,
            MechanismType::Sha256RsaPkcsPss => 0x0043,
            MechanismType::Sha384RsaPkcsPss => 0x0044,
            MechanismType::Sha512RsaPkcsPss => 0x0045,
            MechanismType::Sha224RsaPkcs => 0x0046,
            MechanismType::Sha224RsaPkcsPss => 0x0047,
            MechanismType::Sha512224 => 0x0048,
            MechanismType::Sha512224Hmac => 0x0049,
            MechanismType::Sha512224HmacGeneral => 0x004a,
            MechanismType::Sha512224KeyDerivation => 0x004b,
            MechanismType::Sha512256 => 0x004c,
            MechanismType::Sha512256Hmac => 0x004d,
            MechanismType::Sha512256HmacGeneral => 0x004e,
            MechanismType::Sha512256KeyDerivation => 0x004f,
            MechanismType::Sha512T => 0x0050,
            MechanismType::Sha512THmac => 0x0051,
            MechanismType::Sha512THmacGeneral => 0x0052,
            MechanismType::Sha512TKeyDerivation => 0x0053,
            MechanismType::Rc2KeyGen => 0x0100,
            MechanismType::Rc2Ecb => 0x0101,
            MechanismType::Rc2Cbc => 0x0102,
            MechanismType::Rc2Mac => 0x0103,
            MechanismType::Rc2MacGeneral => 0x0104,
            MechanismType::Rc2CbcPad => 0x0105,
            MechanismType::Rc4KeyGen => 0x0110,
            MechanismType::Rc4 => 0x0111,
            MechanismType::DesKeyGen => 0x0120,
            MechanismType::DesEcb => 0x0121,
            MechanismType::DesCbc => 0x0122,
            MechanismType::DesMac => 0x0123,
            MechanismType::DesMacGeneral => 0x0124,
            MechanismType::DesCbcPad => 0x0125,
            MechanismType::Des2KeyGen => 0x0130,
            MechanismType::Des3KeyGen => 0x0131,
            MechanismType::Des3Ecb => 0x0132,
            MechanismType::Des3Cbc => 0x0133,
            MechanismType::Des3Mac => 0x0134,
            MechanismType::Des3MacGeneral => 0x0135,
            MechanismType::Des3CbcPad => 0x0136,
            MechanismType::Des3CmacGeneral => 0x0137,
            MechanismType::Des3Cmac => 0x0138,
            MechanismType::CdmfKeyGen => 0x0140,
            MechanismType::CdmfEcb => 0x0141,
            MechanismType::CdmfCbc => 0x0142,
            MechanismType::CdmfMac => 0x0143,
            MechanismType::CdmfMacGeneral => 0x0144,
            MechanismType::CdmfCbcPad => 0x0145,
            MechanismType::DesOfb64 => 0x0150,
            MechanismType::DesOfb8 => 0x0151,
            MechanismType::DesCfb64 => 0x0152,
            MechanismType::DesCfb8 => 0x0153,
            MechanismType::Md2 => 0x0200,
            MechanismType::Md2Hmac => 0x0201,
            MechanismType::Md2HmacGeneral => 0x0202,
            MechanismType::Md5 => 0x0210,
            MechanismType::Md5Hmac => 0x0211,
            MechanismType::Md5HmacGeneral => 0x0212,
            MechanismType::Sha1 => 0x0220,
            MechanismType::Sha1Hmac => 0x0221,
            MechanismType::Sha1HmacGeneral => 0x0222,
            MechanismType::Ripemd128 => 0x0230,
            MechanismType::Ripemd128Hmac => 0x0231,
            MechanismType::Ripemd128HmacGeneral => 0x0232,
            MechanismType::Ripemd160 => 0x0240,
            MechanismType::Ripemd160Hmac => 0x0241,
            MechanismType::Ripemd160HmacGeneral => 0x0242,
            MechanismType::Sha256 => 0x0250,
            MechanismType::Sha256Hmac => 0x0251,
            MechanismType::Sha256HmacGeneral => 0x0252,
            MechanismType::Sha224 => 0x0255,
            MechanismType::Sha224Hmac => 0x0256,
            MechanismType::Sha224HmacGeneral => 0x0257,
            MechanismType::Sha384 => 0x0260,
            MechanismType::Sha384Hmac => 0x0261,
            MechanismType::Sha384HmacGeneral => 0x0262,
            MechanismType::Sha512 => 0x0270,
            MechanismType::Sha512Hmac => 0x0271,
            MechanismType::Sha512HmacGeneral => 0x0272,
            MechanismType::SecuridKeyGen => 0x0280,
            MechanismType::Securid => 0x0282,
            MechanismType::HotpKeyGen => 0x0290,
            MechanismType::Hotp => 0x0291,
            MechanismType::Acti => 0x02a0,
            MechanismType::ActiKeyGen => 0x02a1,
            MechanismType::CastKeyGen => 0x0300,
            MechanismType::CastEcb => 0x0301,
            MechanismType::CastCbc => 0x0302,
            MechanismType::CastMac => 0x0303,
            MechanismType::CastMacGeneral => 0x0304,
            MechanismType::CastCbcPad => 0x0305,
            MechanismType::Cast3KeyGen => 0x0310,
            MechanismType::Cast3Ecb => 0x0311,
            MechanismType::Cast3Cbc => 0x0312,
            MechanismType::Cast3Mac => 0x0313,
            MechanismType::Cast3MacGeneral => 0x0314,
            MechanismType::Cast3CbcPad => 0x0315,
            MechanismType::Cast128KeyGen => 0x0320,
            MechanismType::Cast128Ecb => 0x0321,
            MechanismType::Cast128Cbc => 0x0322,
            MechanismType::Cast128Mac => 0x0323,
            MechanismType::Cast128MacGeneral => 0x0324,
            MechanismType::Cast128CbcPad => 0x0325,
            MechanismType::Rc5KeyGen => 0x0330,
            MechanismType::Rc5Ecb => 0x0331,
            MechanismType::Rc5Cbc => 0x0332,
            MechanismType::Rc5Mac => 0x0333,
            MechanismType::Rc5MacGeneral => 0x0334,
            MechanismType::Rc5CbcPad => 0x0335,
            MechanismType::IdeaKeyGen => 0x0340,
            MechanismType::IdeaEcb => 0x0341,
            MechanismType::IdeaCbc => 0x0342,
            MechanismType::IdeaMac => 0x0343,
            MechanismType::IdeaMacGeneral => 0x0344,
            MechanismType::IdeaCbcPad => 0x0345,
            MechanismType::GenericSecretKeyGen => 0x0350,
            MechanismType::ConcatenateBaseAndKey => 0x0360,
            MechanismType::ConcatenateBaseAndData => 0x0362,
            MechanismType::ConcatenateDataAndBase => 0x0363,
            MechanismType::XorBaseAndData => 0x0364,
            MechanismType::ExtractKeyFromKey => 0x0365,
            MechanismType::Ssl3PreMasterKeyGen => 0x0370,
            MechanismType::Ssl3MasterKeyDerive => 0x0371,
            MechanismType::Ssl3KeyAndMacDerive => 0x0372,
            MechanismType::Ssl3MasterKeyDeriveDh => 0x0373,
            MechanismType::TlsPreMasterKeyGen => 0x0374,
            MechanismType::TlsMasterKeyDerive => 0x0375,
            MechanismType::TlsKeyAndMacDerive => 0x0376,
            MechanismType::TlsMasterKeyDeriveDh => 0x0377,
            MechanismType::TlsPrf => 0x0378,
            MechanismType::Ssl3Md5Mac => 0x0380,
            MechanismType::Ssl3Sha1Mac => 0x0381,
            MechanismType::Md5KeyDerivation => 0x0390,
            MechanismType::Md2KeyDerivation => 0x0391,
            MechanismType::Sha1KeyDerivation => 0x0392,
            MechanismType::Sha256KeyDerivation => 0x0393,
            MechanismType::Sha384KeyDerivation => 0x0394,
            MechanismType::Sha512KeyDerivation => 0x0395,
            MechanismType::Sha224KeyDerivation => 0x0396,
            MechanismType::PbeMd2DesCbc => 0x03a0,
            MechanismType::PbeMd5DesCbc => 0x03a1,
            MechanismType::PbeMd5CastCbc => 0x03a2,
            MechanismType::PbeMd5Cast3Cbc => 0x03a3,
            MechanismType::PbeMd5Cast128Cbc => 0x03a4,
            MechanismType::PbeSha1Cast128Cbc => 0x03a5,
            MechanismType::PbeSha1Rc4128 => 0x03a6,
            MechanismType::PbeSha1Rc440 => 0x03a7,
            MechanismType::PbeSha1Des3EdeCbc => 0x03a8,
            MechanismType::PbeSha1Des2EdeCbc => 0x03a9,
            MechanismType::PbeSha1Rc2128Cbc => 0x03aa,
            MechanismType::PbeSha1Rc240Cbc => 0x03ab,
            MechanismType::Pkcs5Pbkd2 => 0x03b0,
            MechanismType::PbaSha1WithSha1Hmac => 0x03c0,
            MechanismType::WtlsPreMasterKeyGen => 0x03d0,
            MechanismType::WtlsMasterKeyDerive => 0x03d1,
            MechanismType::WtlsMasterKeyDeriveDhEcc => 0x03d2,
            MechanismType::WtlsPrf => 0x03d3,
            MechanismType::WtlsServerKeyAndMacDerive => 0x03d4,
            MechanismType::WtlsClientKeyAndMacDerive => 0x03d5,
            MechanismType::Tls10MacServer => 0x03d6,
            MechanismType::Tls10MacClient => 0x03d7,
            MechanismType::Tls12Mac => 0x03d8,
            MechanismType::Tls12Kdf => 0x03d9,
            MechanismType::Tls12MasterKeyDerive => 0x03e0,
            MechanismType::Tls12KeyAndMacDerive => 0x03e1,
            MechanismType::Tls12MasterKeyDeriveDh => 0x03e2,
            MechanismType::Tls12KeySafeDerive => 0x03e3,
            MechanismType::TlsMac => 0x03e4,
            MechanismType::TlsKdf => 0x03e5,
            MechanismType::KeyWrapLynks => 0x0400,
            MechanismType::KeyWrapSetOaep => 0x0401,
            MechanismType::CmsSig => 0x0500,
            MechanismType::KipDerive => 0x0510,
            MechanismType::KipWrap => 0x0511,
            MechanismType::KipMac => 0x0512,
            MechanismType::CamelliaKeyGen => 0x0550,
            MechanismType::CamelliaEcb => 0x0551,
            MechanismType::CamelliaCbc => 0x0552,
            MechanismType::CamelliaMac => 0x0553,
            MechanismType::CamelliaMacGeneral => 0x0554,
            MechanismType::CamelliaCbcPad => 0x0555,
            MechanismType::CamelliaEcbEncryptData => 0x0556,
            MechanismType::CamelliaCbcEncryptData => 0x0557,
            MechanismType::CamelliaCtr => 0x0558,
            MechanismType::AriaKeyGen => 0x0560,
            MechanismType::AriaEcb => 0x0561,
            MechanismType::AriaCbc => 0x0562,
            MechanismType::AriaMac => 0x0563,
            MechanismType::AriaMacGeneral => 0x0564,
            MechanismType::AriaCbcPad => 0x0565,
            MechanismType::AriaEcbEncryptData => 0x0566,
            MechanismType::AriaCbcEncryptData => 0x0567,
            MechanismType::SeedKeyGen => 0x0650,
            MechanismType::SeedEcb => 0x0651,
            MechanismType::SeedCbc => 0x0652,
            MechanismType::SeedMac => 0x0653,
            MechanismType::SeedMacGeneral => 0x0654,
            MechanismType::SeedCbcPad => 0x0655,
            MechanismType::SeedEcbEncryptData => 0x0656,
            MechanismType::SeedCbcEncryptData => 0x0657,
            MechanismType::SkipjackKeyGen => 0x1000,
            MechanismType::SkipjackEcb64 => 0x1001,
            MechanismType::SkipjackCbc64 => 0x1002,
            MechanismType::SkipjackOfb64 => 0x1003,
            MechanismType::SkipjackCfb64 => 0x1004,
            MechanismType::SkipjackCfb32 => 0x1005,
            MechanismType::SkipjackCfb16 => 0x1006,
            MechanismType::SkipjackCfb8 => 0x1007,
            MechanismType::SkipjackWrap => 0x1008,
            MechanismType::SkipjackPrivateWrap => 0x1009,
            MechanismType::SkipjackRelayx => 0x100a,
            MechanismType::KeaKeyPairGen => 0x1010,
            MechanismType::KeaKeyDerive => 0x1011,
            MechanismType::KeaDerive => 0x1012,
            MechanismType::FortezzaTimestamp => 0x1020,
            MechanismType::BatonKeyGen => 0x1030,
            MechanismType::BatonEcb128 => 0x1031,
            MechanismType::BatonEcb96 => 0x1032,
            MechanismType::BatonCbc128 => 0x1033,
            MechanismType::BatonCounter => 0x1034,
            MechanismType::BatonShuffle => 0x1035,
            MechanismType::BatonWrap => 0x1036,
            MechanismType::EcKeyPairGen => 0x1040,
            MechanismType::Ecdsa => 0x1041,
            MechanismType::EcdsaSha1 => 0x1042,
            MechanismType::EcdsaSha224 => 0x1043,
            MechanismType::EcdsaSha256 => 0x1044,
            MechanismType::EcdsaSha384 => 0x1045,
            MechanismType::EcdsaSha512 => 0x1046,
            MechanismType::Ecdh1Derive => 0x1050,
            MechanismType::Ecdh1CofactorDerive => 0x1051,
            MechanismType::EcmqvDerive => 0x1052,
            MechanismType::EcdhAesKeyWrap => 0x1053,
            MechanismType::RsaAesKeyWrap => 0x1054,
            MechanismType::JuniperKeyGen => 0x1060,
            MechanismType::JuniperEcb128 => 0x1061,
            MechanismType::JuniperCbc128 => 0x1062,
            MechanismType::JuniperCounter => 0x1063,
            MechanismType::JuniperShuffle => 0x1064,
            MechanismType::JuniperWrap => 0x1065,
            MechanismType::Fasthash => 0x1070,
            MechanismType::AesKeyGen => 0x1080,
            MechanismType::AesEcb => 0x1081,
            MechanismType::AesCbc => 0x1082,
            MechanismType::AesMac => 0x1083,
            MechanismType::AesMacGeneral => 0x1084,
            MechanismType::AesCbcPad => 0x1085,
            MechanismType::AesCtr => 0x1086,
            MechanismType::AesGcm => 0x1087,
            MechanismType::AesCcm => 0x1088,
            MechanismType::AesCts => 0x1089,
            MechanismType::AesCmac => 0x108a,
            MechanismType::AesCmacGeneral => 0x108b,
            MechanismType::AesXcbcMac => 0x108c,
            MechanismType::AesXcbcMac96 => 0x108d,
            MechanismType::AesGmac => 0x108e,
            MechanismType::BlowfishKeyGen => 0x1090,
            MechanismType::BlowfishCbc => 0x1091,
            MechanismType::TwofishKeyGen => 0x1092,
            MechanismType::TwofishCbc => 0x1093,
            MechanismType::BlowfishCbcPad => 0x1094,
            MechanismType::TwofishCbcPad => 0x1095,
            MechanismType::DesEcbEncryptData => 0x1100,
            MechanismType::DesCbcEncryptData => 0x1101,
            MechanismType::Des3EcbEncryptData => 0x1102,
            MechanismType::Des3CbcEncryptData => 0x1103,
            MechanismType::AesEcbEncryptData => 0x1104,
            MechanismType::AesCbcEncryptData => 0x1105,
            MechanismType::Gostr3410KeyPairGen => 0x1200,
            MechanismType::Gostr3410 => 0x1201,
            MechanismType::Gostr3410WithGostr3411 => 0x1202,
            MechanismType::Gostr3410KeyWrap => 0x1203,
            MechanismType::Gostr3410Derive => 0x1204,
            MechanismType::Gostr3411 => 0x1210,
            MechanismType::Gostr3411Hmac => 0x1211,
            MechanismType::Gost28147KeyGen => 0x1220,
            MechanismType::Gost28147Ecb => 0x1221,
            MechanismType::Gost28147 => 0x1222,
            MechanismType::Gost28147Mac => 0x1223,
            MechanismType::Gost28147KeyWrap => 0x1224,
            MechanismType::DsaParameterGen => 0x2000,
            MechanismType::DhPkcsParameterGen => 0x2001,
            MechanismType::X942DhParameterGen => 0x2002,
            MechanismType::DsaProbablisticParameterGen => 0x2003,
            MechanismType::DsaShaweTaylorParameterGen => 0x2004,
            MechanismType::AesOfb => 0x2104,
            MechanismType::AesCfb64 => 0x2105,
            MechanismType::AesCfb8 => 0x2106,
            MechanismType::AesCfb128 => 0x2107,
            MechanismType::AesCfb1 => 0x2108,
            MechanismType::AesKeyWrap => 0x2109,
            MechanismType::AesKeyWrapPad => 0x210a,
            MechanismType::RsaPkcsTpm11 => 0x4001,
            MechanismType::RsaPkcsOaepTpm11 => 0x4002,
            MechanismType::VendorDefined => 0x8000_0000,
        }
    }

    /// The reverse lookup the table induces: the variant whose code is
    /// exactly `code`, if the family defines one.
    spec fn spec_from_code(code: u64) -> Option<MechanismType> {
        if code == 0x0000 {
            Some(MechanismType::RsaPkcsKeyPairGen)
        } else if code == 0x0001 {
            Some(MechanismType::RsaPkcs)
        } else if code == 0x0002 {
            Some(MechanismType::Rsa9796)
        } else if code == 0x0003 {
            Some(MechanismType::RsaX509)
        } else if code == 0x0004 {
            Some(MechanismType::Md2RsaPkcs)
        } else if code == 0x0005 {
            Some(MechanismType::Md5RsaPkcs)
        } else if code == 0x0006 {
            Some(MechanismType::Sha1RsaPkcs)
        } else if code == 0x0007 {
            Some(MechanismType::Ripemd128RsaPkcs)
        } else if code == 0x0008 {
            Some(MechanismType::Ripemd160RsaPkcs)
        } else if code == 0x0009 {
            Some(MechanismType::RsaPkcsOaep)
        } else if code == 0x000a {
            Some(MechanismType::RsaX931KeyPairGen)
        } else if code == 0x000b {
            Some(MechanismType::RsaX931)
        } else if code == 0x000c {
            Some(MechanismType::Sha1RsaX931)
        } else if code == 0x000d {
            Some(MechanismType::RsaPkcsPss)
        } else if code == 0x000e {
            Some(MechanismType::Sha1RsaPkcsPss)
        } else if code == 0x0010 {
            Some(MechanismType::DsaKeyPairGen)
        } else if code == 0x0011 {
            Some(MechanismType::Dsa)
        } else if code == 0x0012 {
            Some(MechanismType::DsaSha1)
        } else if code == 0x0013 {
            Some(MechanismType::DsaSha224)
        } else if code == 0x0014 {
            Some(MechanismType::DsaSha256)
        } else if code == 0x0015 {
            Some(MechanismType::DsaSha384)
        } else if code == 0x0016 {
            Some(MechanismType::DsaSha512)
        } else if code == 0x0020 {
            Some(MechanismType::DhPkcsKeyPairGen)
        } else if code == 0x0021 {
            Some(MechanismType::DhPkcsDerive)
        } else if code == 0x0030 {
            Some(MechanismType::X942DhKeyPairGen)
        } else if code == 0x0031 {
            Some(MechanismType::X942DhDerive)
        } else if code == 0x0032 {
            Some(MechanismType::X942DhHybridDerive)
        } else if code == 0x0033 {
            Some(MechanismType::X942MqvDerive)
        } else if code == 0x0040 {
            Some(MechanismType::Sha256RsaPkcs)
        } else if code == 0x0041 {
            Some(MechanismType::Sha384RsaPkcs)
        } else if code == 0x0042 {
            Some(MechanismType::Sha512RsaPkcs)
        } else if code == 0x0043 {
            Some(MechanismType::Sha256RsaPkcsPss)
        } else if code == 0x0044 {
            Some(MechanismType::Sha384RsaPkcsPss)
        } else if code == 0x0045 {
            Some(MechanismType::Sha512RsaPkcsPss)
        } else if code == 0x0046 {
            Some(MechanismType::Sha224RsaPkcs)
        } else if code == 0x0047 {
            Some(MechanismType::Sha224RsaPkcsPss)
        } else if code == 0x0048 {
            Some(MechanismType::Sha512224)
        } else if code == 0x0049 {
            Some(MechanismType::Sha512224Hmac)
        } else if code == 0x004a {
            Some(MechanismType::Sha512224HmacGeneral)
        } else if code == 0x004b {
            Some(MechanismType::Sha512224KeyDerivation)
        } else if code == 0x004c {
            Some(MechanismType::Sha512256)
        } else if code == 0x004d {
            Some(MechanismType::Sha512256Hmac)
        } else if code == 0x004e {
            Some(MechanismType::Sha512256HmacGeneral)
        } else if code == 0x004f {
            Some(MechanismType::Sha512256KeyDerivation)
        } else if code == 0x0050 {
            Some(MechanismType::Sha512T)
        } else if code == 0x0051 {
            Some(MechanismType::Sha512THmac)
        } else if code == 0x0052 {
            Some(MechanismType::Sha512THmacGeneral)
        } else if code == 0x0053 {
            Some(MechanismType::Sha512TKeyDerivation)
        } else if code == 0x0100 {
            Some(MechanismType::Rc2KeyGen)
        } else if code == 0x0101 {
            Some(MechanismType::Rc2Ecb)
        } else if code == 0x0102 {
            Some(MechanismType::Rc2Cbc)
        } else if code == 0x0103 {
            Some(MechanismType::Rc2Mac)
        } else if code == 0x0104 {
            Some(MechanismType::Rc2MacGeneral)
        } else if code == 0x0105 {
            Some(MechanismType::Rc2CbcPad)
        } else if code == 0x0110 {
            Some(MechanismType::Rc4KeyGen)
        } else if code == 0x0111 {
            Some(MechanismType::Rc4)
        } else if code == 0x0120 {
            Some(MechanismType::DesKeyGen)
        } else if code == 0x0121 {
            Some(MechanismType::DesEcb)
        } else if code == 0x0122 {
            Some(MechanismType::DesCbc)
        } else if code == 0x0123 {
            Some(MechanismType::DesMac)
        } else if code == 0x0124 {
            Some(MechanismType::DesMacGeneral)
        } else if code == 0x0125 {
            Some(MechanismType::DesCbcPad)
        } else if code == 0x0130 {
            Some(MechanismType::Des2KeyGen)
        } else if code == 0x0131 {
            Some(MechanismType::Des3KeyGen)
        } else if code == 0x0132 {
            Some(MechanismType::Des3Ecb)
        } else if code == 0x0133 {
            Some(MechanismType::Des3Cbc)
        } else if code == 0x0134 {
            Some(MechanismType::Des3Mac)
        } else if code == 0x0135 {
            Some(MechanismType::Des3MacGeneral)
        } else if code == 0x0136 {
            Some(MechanismType::Des3CbcPad)
        } else if code == 0x0137 {
            Some(MechanismType::Des3CmacGeneral)
        } else if code == 0x0138 {
            Some(MechanismType::Des3Cmac)
        } else if code == 0x0140 {
            Some(MechanismType::CdmfKeyGen)
        } else if code == 0x0141 {
            Some(MechanismType::CdmfEcb)
        } else if code == 0x0142 {
            Some(MechanismType::CdmfCbc)
        } else if code == 0x0143 {
            Some(MechanismType::CdmfMac)
        } else if code == 0x0144 {
            Some(MechanismType::CdmfMacGeneral)
        } else if code == 0x0145 {
            Some(MechanismType::CdmfCbcPad)
        } else if code == 0x0150 {
            Some(MechanismType::DesOfb64)
        } else if code == 0x0151 {
            Some(MechanismType::DesOfb8)
        } else if code == 0x0152 {
            Some(MechanismType::DesCfb64)
        } else if code == 0x0153 {
            Some(MechanismType::DesCfb8)
        } else if code == 0x0200 {
            Some(MechanismType::Md2)
        } else if code == 0x0201 {
            Some(MechanismType::Md2Hmac)
        } else if code == 0x0202 {
            Some(MechanismType::Md2HmacGeneral)
        } else if code == 0x0210 {
            Some(MechanismType::Md5)
        } else if code == 0x0211 {
            Some(MechanismType::Md5Hmac)
        } else if code == 0x0212 {
            Some(MechanismType::Md5HmacGeneral)
        } else if code == 0x0220 {
            Some(MechanismType::Sha1)
        } else if code == 0x0221 {
            Some(MechanismType::Sha1Hmac)
        } else if code == 0x0222 {
            Some(MechanismType::Sha1HmacGeneral)
        } else if code == 0x0230 {
            Some(MechanismType::Ripemd128)
        } else if code == 0x0231 {
            Some(MechanismType::Ripemd128Hmac)
        } else if code == 0x0232 {
            Some(MechanismType::Ripemd128HmacGeneral)
        } else if code == 0x0240 {
            Some(MechanismType::Ripemd160)
        } else if code == 0x0241 {
            Some(MechanismType::Ripemd160Hmac)
        } else if code == 0x0242 {
            Some(MechanismType::Ripemd160HmacGeneral)
        } else if code == 0x0250 {
            Some(MechanismType::Sha256)
        } else if code == 0x0251 {
            Some(MechanismType::Sha256Hmac)
        } else if code == 0x0252 {
            Some(MechanismType::Sha256HmacGeneral)
        } else if code == 0x0255 {
            Some(MechanismType::Sha224)
        } else if code == 0x0256 {
            Some(MechanismType::Sha224Hmac)
        } else if code == 0x0257 {
            Some(MechanismType::Sha224HmacGeneral)
        } else if code == 0x0260 {
            Some(MechanismType::Sha384)
        } else if code == 0x0261 {
            Some(MechanismType::Sha384Hmac)
        } else if code == 0x0262 {
            Some(MechanismType::Sha384HmacGeneral)
        } else if code == 0x0270 {
            Some(MechanismType::Sha512)
        } else if code == 0x0271 {
            Some(MechanismType::Sha512Hmac)
        } else if code == 0x0272 {
            Some(MechanismType::Sha512HmacGeneral)
        } else if code == 0x0280 {
            Some(MechanismType::SecuridKeyGen)
        } else if code == 0x0282 {
            Some(MechanismType::Securid)
        } else if code == 0x0290 {
            Some(MechanismType::HotpKeyGen)
        } else if code == 0x0291 {
            Some(MechanismType::Hotp)
        } else if code == 0x02a0 {
            Some(MechanismType::Acti)
        } else if code == 0x02a1 {
            Some(MechanismType::ActiKeyGen)
        } else if code == 0x0300 {
            Some(MechanismType::CastKeyGen)
        } else if code == 0x0301 {
            Some(MechanismType::CastEcb)
        } else if code == 0x0302 {
            Some(MechanismType::CastCbc)
        } else if code == 0x0303 {
            Some(MechanismType::CastMac)
        } else if code == 0x0304 {
            Some(MechanismType::CastMacGeneral)
        } else if code == 0x0305 {
            Some(MechanismType::CastCbcPad)
        } else if code == 0x0310 {
            Some(MechanismType::Cast3KeyGen)
        } else if code == 0x0311 {
            Some(MechanismType::Cast3Ecb)
        } else if code == 0x0312 {
            Some(MechanismType::Cast3Cbc)
        } else if code == 0x0313 {
            Some(MechanismType::Cast3Mac)
        } else if code == 0x0314 {
            Some(MechanismType::Cast3MacGeneral)
        } else if code == 0x0315 {
            Some(MechanismType::Cast3CbcPad)
        } else if code == 0x0320 {
            Some(MechanismType::Cast128KeyGen)
        } else if code == 0x0321 {
            Some(MechanismType::Cast128Ecb)
        } else if code == 0x0322 {
            Some(MechanismType::Cast128Cbc)
        } else if code == 0x0323 {
            Some(MechanismType::Cast128Mac)
        } else if code == 0x0324 {
            Some(MechanismType::Cast128MacGeneral)
        } else if code == 0x0325 {
            Some(MechanismType::Cast128CbcPad)
        } else if code == 0x0330 {
            Some(MechanismType::Rc5KeyGen)
        } else if code == 0x0331 {
            Some(MechanismType::Rc5Ecb)
        } else if code == 0x0332 {
            Some(MechanismType::Rc5Cbc)
        } else if code == 0x0333 {
            Some(MechanismType::Rc5Mac)
        } else if code == 0x0334 {
            Some(MechanismType::Rc5MacGeneral)
        } else if code == 0x0335 {
            Some(MechanismType::Rc5CbcPad)
        } else if code == 0x0340 {
            Some(MechanismType::IdeaKeyGen)
        } else if code == 0x0341 {
            Some(MechanismType::IdeaEcb)
        } else if code == 0x0342 {
            Some(MechanismType::IdeaCbc)
        } else if code == 0x0343 {
            Some(MechanismType::IdeaMac)
        } else if code == 0x0344 {
            Some(MechanismType::IdeaMacGeneral)
        } else if code == 0x0345 {
            Some(MechanismType::IdeaCbcPad)
        } else if code == 0x0350 {
            Some(MechanismType::GenericSecretKeyGen)
        } else if code == 0x0360 {
            Some(MechanismType::ConcatenateBaseAndKey)
        } else if code == 0x0362 {
            Some(MechanismType::ConcatenateBaseAndData)
        } else if code == 0x0363 {
            Some(MechanismType::ConcatenateDataAndBase)
        } else if code == 0x0364 {
            Some(MechanismType::XorBaseAndData)
        } else if code == 0x0365 {
            Some(MechanismType::ExtractKeyFromKey)
        } else if code == 0x0370 {
            Some(MechanismType::Ssl3PreMasterKeyGen)
        } else if code == 0x0371 {
            Some(MechanismType::Ssl3MasterKeyDerive)
        } else if code == 0x0372 {
            Some(MechanismType::Ssl3KeyAndMacDerive)
        } else if code == 0x0373 {
            Some(MechanismType::Ssl3MasterKeyDeriveDh)
        } else if code == 0x0374 {
            Some(MechanismType::TlsPreMasterKeyGen)
        } else if code == 0x0375 {
            Some(MechanismType::TlsMasterKeyDerive)
        } else if code == 0x0376 {
            Some(MechanismType::TlsKeyAndMacDerive)
        } else if code == 0x0377 {
            Some(MechanismType::TlsMasterKeyDeriveDh)
        } else if code == 0x0378 {
            Some(MechanismType::TlsPrf)
        } else if code == 0x0380 {
            Some(MechanismType::Ssl3Md5Mac)
        } else if code == 0x0381 {
            Some(MechanismType::Ssl3Sha1Mac)
        } else if code == 0x0390 {
            Some(MechanismType::Md5KeyDerivation)
        } else if code == 0x0391 {
            Some(MechanismType::Md2KeyDerivation)
        } else if code == 0x0392 {
            Some(MechanismType::Sha1KeyDerivation)
        } else if code == 0x0393 {
            Some(MechanismType::Sha256KeyDerivation)
        } else if code == 0x0394 {
            Some(MechanismType::Sha384KeyDerivation)
        } else if code == 0x0395 {
            Some(MechanismType::Sha512KeyDerivation)
        } else if code == 0x0396 {
            Some(MechanismType::Sha224KeyDerivation)
        } else if code == 0x03a0 {
            Some(MechanismType::PbeMd2DesCbc)
        } else if code == 0x03a1 {
            Some(MechanismType::PbeMd5DesCbc)
        } else if code == 0x03a2 {
            Some(MechanismType::PbeMd5CastCbc)
        } else if code == 0x03a3 {
            Some(MechanismType::PbeMd5Cast3Cbc)
        } else if code == 0x03a4 {
            Some(MechanismType::PbeMd5Cast128Cbc)
        } else if code == 0x03a5 {
            Some(MechanismType::PbeSha1Cast128Cbc)
        } else if code == 0x03a6 {
            Some(MechanismType::PbeSha1Rc4128)
        } else if code == 0x03a7 {
            Some(MechanismType::PbeSha1Rc440)
        } else if code == 0x03a8 {
            Some(MechanismType::PbeSha1Des3EdeCbc)
        } else if code == 0x03a9 {
            Some(MechanismType::PbeSha1Des2EdeCbc)
        } else if code == 0x03aa {
            Some(MechanismType::PbeSha1Rc2128Cbc)
        } else if code == 0x03ab {
            Some(MechanismType::PbeSha1Rc240Cbc)
        } else if code == 0x03b0 {
            Some(MechanismType::Pkcs5Pbkd2)
        } else if code == 0x03c0 {
            Some(MechanismType::PbaSha1WithSha1Hmac)
        } else if code == 0x03d0 {
            Some(MechanismType::WtlsPreMasterKeyGen)
        } else if code == 0x03d1 {
            Some(MechanismType::WtlsMasterKeyDerive)
        } else if code == 0x03d2 {
            Some(MechanismType::WtlsMasterKeyDeriveDhEcc)
        } else if code == 0x03d3 {
            Some(MechanismType::WtlsPrf)
        } else if code == 0x03d4 {
            Some(MechanismType::WtlsServerKeyAndMacDerive)
        } else if code == 0x03d5 {
            Some(MechanismType::WtlsClientKeyAndMacDerive)
        } else if code == 0x03d6 {
            Some(MechanismType::Tls10MacServer)
        } else if code == 0x03d7 {
            Some(MechanismType::Tls10MacClient)
        } else if code == 0x03d8 {
            Some(MechanismType::Tls12Mac)
        } else if code == 0x03d9 {
            Some(MechanismType::Tls12Kdf)
        } else if code == 0x03e0 {
            Some(MechanismType::Tls12MasterKeyDerive)
        } else if code == 0x03e1 {
            Some(MechanismType::Tls12KeyAndMacDerive)
        } else if code == 0x03e2 {
            Some(MechanismType::Tls12MasterKeyDeriveDh)
        } else if code == 0x03e3 {
            Some(MechanismType::Tls12KeySafeDerive)
        } else if code == 0x03e4 {
            Some(MechanismType::TlsMac)
        } else if code == 0x03e5 {
            Some(MechanismType::TlsKdf)
        } else if code == 0x0400 {
            Some(MechanismType::KeyWrapLynks)
        } else if code == 0x0401 {
            Some(MechanismType::KeyWrapSetOaep)
        } else if code == 0x0500 {
            Some(MechanismType::CmsSig)
        } else if code == 0x0510 {
            Some(MechanismType::KipDerive)
        } else if code == 0x0511 {
            Some(MechanismType::KipWrap)
        } else if code == 0x0512 {
            Some(MechanismType::KipMac)
        } else if code == 0x0550 {
            Some(MechanismType::CamelliaKeyGen)
        } else if code == 0x0551 {
            Some(MechanismType::CamelliaEcb)
        } else if code == 0x0552 {
            Some(MechanismType::CamelliaCbc)
        } else if code == 0x0553 {
            Some(MechanismType::CamelliaMac)
        } else if code == 0x0554 {
            Some(MechanismType::CamelliaMacGeneral)
        } else if code == 0x0555 {
            Some(MechanismType::CamelliaCbcPad)
        } else if code == 0x0556 {
            Some(MechanismType::CamelliaEcbEncryptData)
        } else if code == 0x0557 {
            Some(MechanismType::CamelliaCbcEncryptData)
        } else if code == 0x0558 {
            Some(MechanismType::CamelliaCtr)
        } else if code == 0x0560 {
            Some(MechanismType::AriaKeyGen)
        } else if code == 0x0561 {
            Some(MechanismType::AriaEcb)
        } else if code == 0x0562 {
            Some(MechanismType::AriaCbc)
        } else if code == 0x0563 {
            Some(MechanismType::AriaMac)
        } else if code == 0x0564 {
            Some(MechanismType::AriaMacGeneral)
        } else if code == 0x0565 {
            Some(MechanismType::AriaCbcPad)
        } else if code == 0x0566 {
            Some(MechanismType::AriaEcbEncryptData)
        } else if code == 0x0567 {
            Some(MechanismType::AriaCbcEncryptData)
        } else if code == 0x0650 {
            Some(MechanismType::SeedKeyGen)
        } else if code == 0x0651 {
            Some(MechanismType::SeedEcb)
        } else if code == 0x0652 {
            Some(MechanismType::SeedCbc)
        } else if code == 0x0653 {
            Some(MechanismType::SeedMac)
        } else if code == 0x0654 {
            Some(MechanismType::SeedMacGeneral)
        } else if code == 0x0655 {
            Some(MechanismType::SeedCbcPad)
        } else if code == 0x0656 {
            Some(MechanismType::SeedEcbEncryptData)
        } else if code == 0x0657 {
            Some(MechanismType::SeedCbcEncryptData)
        } else if code == 0x1000 {
            Some(MechanismType::SkipjackKeyGen)
        } else if code == 0x1001 {
            Some(MechanismType::SkipjackEcb64)
        } else if code == 0x1002 {
            Some(MechanismType::SkipjackCbc64)
        } else if code == 0x1003 {
            Some(MechanismType::SkipjackOfb64)
        } else if code == 0x1004 {
            Some(MechanismType::SkipjackCfb64)
        } else if code == 0x1005 {
            Some(MechanismType::SkipjackCfb32)
        } else if code == 0x1006 {
            Some(MechanismType::SkipjackCfb16)
        } else if code == 0x1007 {
            Some(MechanismType::SkipjackCfb8)
        } else if code == 0x1008 {
            Some(MechanismType::SkipjackWrap)
        } else if code == 0x1009 {
            Some(MechanismType::SkipjackPrivateWrap)
        } else if code == 0x100a {
            Some(MechanismType::SkipjackRelayx)
        } else if code == 0x1010 {
            Some(MechanismType::KeaKeyPairGen)
        } else if code == 0x1011 {
            Some(MechanismType::KeaKeyDerive)
        } else if code == 0x1012 {
            Some(MechanismType::KeaDerive)
        } else if code == 0x1020 {
            Some(MechanismType::FortezzaTimestamp)
        } else if code == 0x1030 {
            Some(MechanismType::BatonKeyGen)
        } else if code == 0x1031 {
            Some(MechanismType::BatonEcb128)
        } else if code == 0x1032 {
            Some(MechanismType::BatonEcb96)
        } else if code == 0x1033 {
            Some(MechanismType::BatonCbc128)
        } else if code == 0x1034 {
            Some(MechanismType::BatonCounter)
        } else if code == 0x1035 {
            Some(MechanismType::BatonShuffle)
        } else if code == 0x1036 {
            Some(MechanismType::BatonWrap)
        } else if code == 0x1040 {
            Some(MechanismType::EcKeyPairGen)
        } else if code == 0x1041 {
            Some(MechanismType::Ecdsa)
        } else if code == 0x1042 {
            Some(MechanismType::EcdsaSha1)
        } else if code == 0x1043 {
            Some(MechanismType::EcdsaSha224)
        } else if code == 0x1044 {
            Some(MechanismType::EcdsaSha256)
        } else if code == 0x1045 {
            Some(MechanismType::EcdsaSha384)
        } else if code == 0x1046 {
            Some(MechanismType::EcdsaSha512)
        } else if code == 0x1050 {
            Some(MechanismType::Ecdh1Derive)
        } else if code == 0x1051 {
            Some(MechanismType::Ecdh1CofactorDerive)
        } else if code == 0x1052 {
            Some(MechanismType::EcmqvDerive)
        } else if code == 0x1053 {
            Some(MechanismType::EcdhAesKeyWrap)
        } else if code == 0x1054 {
            Some(MechanismType::RsaAesKeyWrap)
        } else if code == 0x1060 {
            Some(MechanismType::JuniperKeyGen)
        } else if code == 0x1061 {
            Some(MechanismType::JuniperEcb128)
        } else if code == 0x1062 {
            Some(MechanismType::JuniperCbc128)
        } else if code == 0x1063 {
            Some(MechanismType::JuniperCounter)
        } else if code == 0x1064 {
            Some(MechanismType::JuniperShuffle)
        } else if code == 0x1065 {
            Some(MechanismType::JuniperWrap)
        } else if code == 0x1070 {
            Some(MechanismType::Fasthash)
        } else if code == 0x1080 {
            Some(MechanismType::AesKeyGen)
        } else if code == 0x1081 {
            Some(MechanismType::AesEcb)
        } else if code == 0x1082 {
            Some(MechanismType::AesCbc)
        } else if code == 0x1083 {
            Some(MechanismType::AesMac)
        } else if code == 0x1084 {
            Some(MechanismType::AesMacGeneral)
        } else if code == 0x1085 {
            Some(MechanismType::AesCbcPad)
        } else if code == 0x1086 {
            Some(MechanismType::AesCtr)
        } else if code == 0x1087 {
            Some(MechanismType::AesGcm)
        } else if code == 0x1088 {
            Some(MechanismType::AesCcm)
        } else if code == 0x1089 {
            Some(MechanismType::AesCts)
        } else if code == 0x108a {
            Some(MechanismType::AesCmac)
        } else if code == 0x108b {
            Some(MechanismType::AesCmacGeneral)
        } else if code == 0x108c {
            Some(MechanismType::AesXcbcMac)
        } else if code == 0x108d {
            Some(MechanismType::AesXcbcMac96)
        } else if code == 0x108e {
            Some(MechanismType::AesGmac)
        } else if code == 0x1090 {
            Some(MechanismType::BlowfishKeyGen)
        } else if code == 0x1091 {
            Some(MechanismType::BlowfishCbc)
        } else if code == 0x1092 {
            Some(MechanismType::TwofishKeyGen)
        } else if code == 0x1093 {
            Some(MechanismType::TwofishCbc)
        } else if code == 0x1094 {
            Some(MechanismType::BlowfishCbcPad)
        } else if code == 0x1095 {
            Some(MechanismType::TwofishCbcPad)
        } else if code == 0x1100 {
            Some(MechanismType::DesEcbEncryptData)
        } else if code == 0x1101 {
            Some(MechanismType::DesCbcEncryptData)
        } else if code == 0x1102 {
            Some(MechanismType::Des3EcbEncryptData)
        } else if code == 0x1103 {
            Some(MechanismType::Des3CbcEncryptData)
        } else if code == 0x1104 {
            Some(MechanismType::AesEcbEncryptData)
        } else if code == 0x1105 {
            Some(MechanismType::AesCbcEncryptData)
        } else if code == 0x1200 {
            Some(MechanismType::Gostr3410KeyPairGen)
        } else if code == 0x1201 {
            Some(MechanismType::Gostr3410)
        } else if code == 0x1202 {
            Some(MechanismType::Gostr3410WithGostr3411)
        } else if code == 0x1203 {
            Some(MechanismType::Gostr3410KeyWrap)
        } else if code == 0x1204 {
            Some(MechanismType::Gostr3410Derive)
        } else if code == 0x1210 {
            Some(MechanismType::Gostr3411)
        } else if code == 0x1211 {
            Some(MechanismType::Gostr3411Hmac)
        } else if code == 0x1220 {
            Some(MechanismType::Gost28147KeyGen)
        } else if code == 0x1221 {
            Some(MechanismType::Gost28147Ecb)
        } else if code == 0x1222 {
            Some(MechanismType::Gost28147)
        } else if code == 0x1223 {
            Some(MechanismType::Gost28147Mac)
        } else if code == 0x1224 {
            Some(MechanismType::Gost28147KeyWrap)
        } else if code == 0x2000 {
            Some(MechanismType::DsaParameterGen)
        } else if code == 0x2001 {
            Some(MechanismType::DhPkcsParameterGen)
        } else if code == 0x2002 {
            Some(MechanismType::X942DhParameterGen)
        } else if code == 0x2003 {
            Some(MechanismType::DsaProbablisticParameterGen)
        } else if code == 0x2004 {
            Some(MechanismType::DsaShaweTaylorParameterGen)
        } else if code == 0x2104 {
            Some(MechanismType::AesOfb)
        } else if code == 0x2105 {
            Some(MechanismType::AesCfb64)
        } else if code == 0x2106 {
            Some(MechanismType::AesCfb8)
        } else if code == 0x2107 {
            Some(MechanismType::AesCfb128)
        } else if code == 0x2108 {
            Some(MechanismType::AesCfb1)
        } else if code == 0x2109 {
            Some(MechanismType::AesKeyWrap)
        } else if code == 0x210a {
            Some(MechanismType::AesKeyWrapPad)
        } else if code == 0x4001 {
            Some(MechanismType::RsaPkcsTpm11)
        } else if code == 0x4002 {
            Some(MechanismType::RsaPkcsOaepTpm11)
        } else if code == 0x8000_0000 {
            Some(MechanismType::VendorDefined)
        } else {
            None
        }
    }

    /// Every variant is found again at its own code.
    #[verifier::rlimit(100)]
    #[verifier::spinoff_prover]
    proof fn lemma_table_complete(v: Self)
        ensures
            Self::spec_from_code(v.spec_code()) == Some(v),
    {
    }

    /// The reverse lookup only returns a variant whose code is the one
    /// looked up.
    #[verifier::rlimit(100)]
    #[verifier::spinoff_prover]
    proof fn lemma_table_sound(code: u64)
        ensures
            Self::spec_from_code(code) matches Some(v) ==> v.spec_code() == code,
    {
    }

    /// Returns the native code bound to this variant.
    pub fn to_native(self) -> (code: u64)
        ensures
            code == self.spec_code(),
    {
        match self {
            MechanismType::RsaPkcsKeyPairGen => 0x0000,
            MechanismType::RsaPkcs => 0x0001,
            MechanismType::Rsa9796 => 0x0002,
            MechanismType::RsaX509 => 0x0003,
            MechanismType::Md2RsaPkcs => 0x0004,
            MechanismType::Md5RsaPkcs => 0x0005,
            MechanismType::Sha1RsaPkcs => 0x0006,
            MechanismType::Ripemd128RsaPkcs => 0x0007,
            MechanismType::Ripemd160RsaPkcs => 0x0008,
            MechanismType::RsaPkcsOaep => 0x0009,
            MechanismType::RsaX931KeyPairGen => 0x000a,
            MechanismType::RsaX931 => 0x000b,
            MechanismType::Sha1RsaX931 => 0x000c,
            MechanismType::RsaPkcsPss => 0x000d,
            MechanismType::Sha1RsaPkcsPss => 0x000e,
            MechanismType::DsaKeyPairGen => 0x0010,
            MechanismType::Dsa => 0x0011,
            MechanismType::DsaSha1 => 0x0012,
            MechanismType::DsaSha224 => 0x0013,
            MechanismType::DsaSha256 => 0x0014,
            MechanismType::DsaSha384 => 0x0015,
            MechanismType::DsaSha512 => 0x0016,
            MechanismType::DhPkcsKeyPairGen => 0x0020,
            MechanismType::DhPkcsDerive => 0x0021,
            MechanismType::X942DhKeyPairGen => 0x0030,
            MechanismType::X942DhDerive => 0x0031,
            MechanismType::X942DhHybridDerive => 0x0032,
            MechanismType::X942MqvDerive => 0x0033,
            MechanismType::Sha256RsaPkcs => 0x0040,
            MechanismType::Sha384RsaPkcs => 0x0041,
            MechanismType::Sha512RsaPkcs => 0x0042,
            MechanismType::Sha256RsaPkcsPss => 0x0043,
            MechanismType::Sha384RsaPkcsPss => 0x0044,
            MechanismType::Sha512RsaPkcsPss => 0x0045,
            MechanismType::Sha224RsaPkcs => 0x0046,
            MechanismType::Sha224RsaPkcsPss => 0x0047,
            MechanismType::Sha512224 => 0x0048,
            MechanismType::Sha512224Hmac => 0x0049,
            MechanismType::Sha512224HmacGeneral => 0x004a,
            MechanismType::Sha512224KeyDerivation => 0x004b,
            MechanismType::Sha512256 => 0x004c,
            MechanismType::Sha512256Hmac => 0x004d,
            MechanismType::Sha512256HmacGeneral => 0x004e,
            MechanismType::Sha512256KeyDerivation => 0x004f,
            MechanismType::Sha512T => 0x0050,
            MechanismType::Sha512THmac => 0x0051,
            MechanismType::Sha512THmacGeneral => 0x0052,
            MechanismType::Sha512TKeyDerivation => 0x0053,
            MechanismType::Rc2KeyGen => 0x0100,
            MechanismType::Rc2Ecb => 0x0101,
            MechanismType::Rc2Cbc => 0x0102,
            MechanismType::Rc2Mac => 0x0103,
            MechanismType::Rc2MacGeneral => 0x0104,
            MechanismType::Rc2CbcPad => 0x0105,
            MechanismType::Rc4KeyGen => 0x0110,
            MechanismType::Rc4 => 0x0111,
            MechanismType::DesKeyGen => 0x0120,
            MechanismType::DesEcb => 0x0121,
            MechanismType::DesCbc => 0x0122,
            MechanismType::DesMac => 0x0123,
            MechanismType::DesMacGeneral => 0x0124,
            MechanismType::DesCbcPad => 0x0125,
            MechanismType::Des2KeyGen => 0x0130,
            MechanismType::Des3KeyGen => 0x0131,
            MechanismType::Des3Ecb => 0x0132,
            MechanismType::Des3Cbc => 0x0133,
            MechanismType::Des3Mac => 0x0134,
            MechanismType::Des3MacGeneral => 0x0135,
            MechanismType::Des3CbcPad => 0x0136,
            MechanismType::Des3CmacGeneral => 0x0137,
            MechanismType::Des3Cmac => 0x0138,
            MechanismType::CdmfKeyGen => 0x0140,
            MechanismType::CdmfEcb => 0x0141,
            MechanismType::CdmfCbc => 0x0142,
            MechanismType::CdmfMac => 0x0143,
            MechanismType::CdmfMacGeneral => 0x0144,
            MechanismType::CdmfCbcPad => 0x0145,
            MechanismType::DesOfb64 => 0x0150,
            MechanismType::DesOfb8 => 0x0151,
            MechanismType::DesCfb64 => 0x0152,
            MechanismType::DesCfb8 => 0x0153,
            MechanismType::Md2 => 0x0200,
            MechanismType::Md2Hmac => 0x0201,
            MechanismType::Md2HmacGeneral => 0x0202,
            MechanismType::Md5 => 0x0210,
            MechanismType::Md5Hmac => 0x0211,
            MechanismType::Md5HmacGeneral => 0x0212,
            MechanismType::Sha1 => 0x0220,
            MechanismType::Sha1Hmac => 0x0221,
            MechanismType::Sha1HmacGeneral => 0x0222,
            MechanismType::Ripemd128 => 0x0230,
            MechanismType::Ripemd128Hmac => 0x0231,
            MechanismType::Ripemd128HmacGeneral => 0x0232,
            MechanismType::Ripemd160 => 0x0240,
            MechanismType::Ripemd160Hmac => 0x0241,
            MechanismType::Ripemd160HmacGeneral => 0x0242,
            MechanismType::Sha256 => 0x0250,
            MechanismType::Sha256Hmac => 0x0251,
            MechanismType::Sha256HmacGeneral => 0x0252,
            MechanismType::Sha224 => 0x0255,
            MechanismType::Sha224Hmac => 0x0256,
            MechanismType::Sha224HmacGeneral => 0x0257,
            MechanismType::Sha384 => 0x0260,
            MechanismType::Sha384Hmac => 0x0261,
            MechanismType::Sha384HmacGeneral => 0x0262,
            MechanismType::Sha512 => 0x0270,
            MechanismType::Sha512Hmac => 0x0271,
            MechanismType::Sha512HmacGeneral => 0x0272,
            MechanismType::SecuridKeyGen => 0x0280,
            MechanismType::Securid => 0x0282,
            MechanismType::HotpKeyGen => 0x0290,
            MechanismType::Hotp => 0x0291,
            MechanismType::Acti => 0x02a0,
            MechanismType::ActiKeyGen => 0x02a1,
            MechanismType::CastKeyGen => 0x0300,
            MechanismType::CastEcb => 0x0301,
            MechanismType::CastCbc => 0x0302,
            MechanismType::CastMac => 0x0303,
            MechanismType::CastMacGeneral => 0x0304,
            MechanismType::CastCbcPad => 0x0305,
            MechanismType::Cast3KeyGen => 0x0310,
            MechanismType::Cast3Ecb => 0x0311,
            MechanismType::Cast3Cbc => 0x0312,
            MechanismType::Cast3Mac => 0x0313,
            MechanismType::Cast3MacGeneral => 0x0314,
            MechanismType::Cast3CbcPad => 0x0315,
            MechanismType::Cast128KeyGen => 0x0320,
            MechanismType::Cast128Ecb => 0x0321,
            MechanismType::Cast128Cbc => 0x0322,
            MechanismType::Cast128Mac => 0x0323,
            MechanismType::Cast128MacGeneral => 0x0324,
            MechanismType::Cast128CbcPad => 0x0325,
            MechanismType::Rc5KeyGen => 0x0330,
            MechanismType::Rc5Ecb => 0x0331,
            MechanismType::Rc5Cbc => 0x0332,
            MechanismType::Rc5Mac => 0x0333,
            MechanismType::Rc5MacGeneral => 0x0334,
            MechanismType::Rc5CbcPad => 0x0335,
            MechanismType::IdeaKeyGen => 0x0340,
            MechanismType::IdeaEcb => 0x0341,
            MechanismType::IdeaCbc => 0x0342,
            MechanismType::IdeaMac => 0x0343,
            MechanismType::IdeaMacGeneral => 0x0344,
            MechanismType::IdeaCbcPad => 0x0345,
            MechanismType::GenericSecretKeyGen => 0x0350,
            MechanismType::ConcatenateBaseAndKey => 0x0360,
            MechanismType::ConcatenateBaseAndData => 0x0362,
            MechanismType::ConcatenateDataAndBase => 0x0363,
            MechanismType::XorBaseAndData => 0x0364,
            MechanismType::ExtractKeyFromKey => 0x0365,
            MechanismType::Ssl3PreMasterKeyGen => 0x0370,
            MechanismType::Ssl3MasterKeyDerive => 0x0371,
            MechanismType::Ssl3KeyAndMacDerive => 0x0372,
            MechanismType::Ssl3MasterKeyDeriveDh => 0x0373,
            MechanismType::TlsPreMasterKeyGen => 0x0374,
            MechanismType::TlsMasterKeyDerive => 0x0375,
            MechanismType::TlsKeyAndMacDerive => 0x0376,
            MechanismType::TlsMasterKeyDeriveDh => 0x0377,
            MechanismType::TlsPrf => 0x0378,
            MechanismType::Ssl3Md5Mac => 0x0380,
            MechanismType::Ssl3Sha1Mac => 0x0381,
            MechanismType::Md5KeyDerivation => 0x0390,
            MechanismType::Md2KeyDerivation => 0x0391,
            MechanismType::Sha1KeyDerivation => 0x0392,
            MechanismType::Sha256KeyDerivation => 0x0393,
            MechanismType::Sha384KeyDerivation => 0x0394,
            MechanismType::Sha512KeyDerivation => 0x0395,
            MechanismType::Sha224KeyDerivation => 0x0396,
            MechanismType::PbeMd2DesCbc => 0x03a0,
            MechanismType::PbeMd5DesCbc => 0x03a1,
            MechanismType::PbeMd5CastCbc => 0x03a2,
            MechanismType::PbeMd5Cast3Cbc => 0x03a3,
            MechanismType::PbeMd5Cast128Cbc => 0x03a4,
            MechanismType::PbeSha1Cast128Cbc => 0x03a5,
            MechanismType::PbeSha1Rc4128 => 0x03a6,
            MechanismType::PbeSha1Rc440 => 0x03a7,
            MechanismType::PbeSha1Des3EdeCbc => 0x03a8,
            MechanismType::PbeSha1Des2EdeCbc => 0x03a9,
            MechanismType::PbeSha1Rc2128Cbc => 0x03aa,
            MechanismType::PbeSha1Rc240Cbc => 0x03ab,
            MechanismType::Pkcs5Pbkd2 => 0x03b0,
            MechanismType::PbaSha1WithSha1Hmac => 0x03c0,
            MechanismType::WtlsPreMasterKeyGen => 0x03d0,
            MechanismType::WtlsMasterKeyDerive => 0x03d1,
            MechanismType::WtlsMasterKeyDeriveDhEcc => 0x03d2,
            MechanismType::WtlsPrf => 0x03d3,
            MechanismType::WtlsServerKeyAndMacDerive => 0x03d4,
            MechanismType::WtlsClientKeyAndMacDerive => 0x03d5,
            MechanismType::Tls10MacServer => 0x03d6,
            MechanismType::Tls10MacClient => 0x03d7,
            MechanismType::Tls12Mac => 0x03d8,
            MechanismType::Tls12Kdf => 0x03d9,
            MechanismType::Tls12MasterKeyDerive => 0x03e0,
            MechanismType::Tls12KeyAndMacDerive => 0x03e1,
            MechanismType::Tls12MasterKeyDeriveDh => 0x03e2,
            MechanismType::Tls12KeySafeDerive => 0x03e3,
            MechanismType::TlsMac => 0x03e4,
            MechanismType::TlsKdf => 0x03e5,
            MechanismType::KeyWrapLynks => 0x0400,
            MechanismType::KeyWrapSetOaep => 0x0401,
            MechanismType::CmsSig => 0x0500,
            MechanismType::KipDerive => 0x0510,
            MechanismType::KipWrap => 0x0511,
            MechanismType::KipMac => 0x0512,
            MechanismType::CamelliaKeyGen => 0x0550,
            MechanismType::CamelliaEcb => 0x0551,
            MechanismType::CamelliaCbc => 0x0552,
            MechanismType::CamelliaMac => 0x0553,
            MechanismType::CamelliaMacGeneral => 0x0554,
            MechanismType::CamelliaCbcPad => 0x0555,
            MechanismType::CamelliaEcbEncryptData => 0x0556,
            MechanismType::CamelliaCbcEncryptData => 0x0557,
            MechanismType::CamelliaCtr => 0x0558,
            MechanismType::AriaKeyGen => 0x0560,
            MechanismType::AriaEcb => 0x0561,
            MechanismType::AriaCbc => 0x0562,
            MechanismType::AriaMac => 0x0563,
            MechanismType::AriaMacGeneral => 0x0564,
            MechanismType::AriaCbcPad => 0x0565,
            MechanismType::AriaEcbEncryptData => 0x0566,
            MechanismType::AriaCbcEncryptData => 0x0567,
            MechanismType::SeedKeyGen => 0x0650,
            MechanismType::SeedEcb => 0x0651,
            MechanismType::SeedCbc => 0x0652,
            MechanismType::SeedMac => 0x0653,
            MechanismType::SeedMacGeneral => 0x0654,
            MechanismType::SeedCbcPad => 0x0655,
            MechanismType::SeedEcbEncryptData => 0x0656,
            MechanismType::SeedCbcEncryptData => 0x0657,
            MechanismType::SkipjackKeyGen => 0x1000,
            MechanismType::SkipjackEcb64 => 0x1001,
            MechanismType::SkipjackCbc64 => 0x1002,
            MechanismType::SkipjackOfb64 => 0x1003,
            MechanismType::SkipjackCfb64 => 0x1004,
            MechanismType::SkipjackCfb32 => 0x1005,
            MechanismType::SkipjackCfb16 => 0x1006,
            MechanismType::SkipjackCfb8 => 0x1007,
            MechanismType::SkipjackWrap => 0x1008,
            MechanismType::SkipjackPrivateWrap => 0x1009,
            MechanismType::SkipjackRelayx => 0x100a,
            MechanismType::KeaKeyPairGen => 0x1010,
            MechanismType::KeaKeyDerive => 0x1011,
            MechanismType::KeaDerive => 0x1012,
            MechanismType::FortezzaTimestamp => 0x1020,
            MechanismType::BatonKeyGen => 0x1030,
            MechanismType::BatonEcb128 => 0x1031,
            MechanismType::BatonEcb96 => 0x1032,
            MechanismType::BatonCbc128 => 0x1033,
            MechanismType::BatonCounter => 0x1034,
            MechanismType::BatonShuffle => 0x1035,
            MechanismType::BatonWrap => 0x1036,
            MechanismType::EcKeyPairGen => 0x1040,
            MechanismType::Ecdsa => 0x1041,
            MechanismType::EcdsaSha1 => 0x1042,
            MechanismType::EcdsaSha224 => 0x1043,
            MechanismType::EcdsaSha256 => 0x1044,
            MechanismType::EcdsaSha384 => 0x1045,
            MechanismType::EcdsaSha512 => 0x1046,
            MechanismType::Ecdh1Derive => 0x1050,
            MechanismType::Ecdh1CofactorDerive => 0x1051,
            MechanismType::EcmqvDerive => 0x1052,
            MechanismType::EcdhAesKeyWrap => 0x1053,
            MechanismType::RsaAesKeyWrap => 0x1054,
            MechanismType::JuniperKeyGen => 0x1060,
            MechanismType::JuniperEcb128 => 0x1061,
            MechanismType::JuniperCbc128 => 0x1062,
            MechanismType::JuniperCounter => 0x1063,
            MechanismType::JuniperShuffle => 0x1064,
            MechanismType::JuniperWrap => 0x1065,
            MechanismType::Fasthash => 0x1070,
            MechanismType::AesKeyGen => 0x1080,
            MechanismType::AesEcb => 0x1081,
            MechanismType::AesCbc => 0x1082,
            MechanismType::AesMac => 0x1083,
            MechanismType::AesMacGeneral => 0x1084,
            MechanismType::AesCbcPad => 0x1085,
            MechanismType::AesCtr => 0x1086,
            MechanismType::AesGcm => 0x1087,
            MechanismType::AesCcm => 0x1088,
            MechanismType::AesCts => 0x1089,
            MechanismType::AesCmac => 0x108a,
            MechanismType::AesCmacGeneral => 0x108b,
            MechanismType::AesXcbcMac => 0x108c,
            MechanismType::AesXcbcMac96 => 0x108d,
            MechanismType::AesGmac => 0x108e,
            MechanismType::BlowfishKeyGen => 0x1090,
            MechanismType::BlowfishCbc => 0x1091,
            MechanismType::TwofishKeyGen => 0x1092,
            MechanismType::TwofishCbc => 0x1093,
            MechanismType::BlowfishCbcPad => 0x1094,
            MechanismType::TwofishCbcPad => 0x1095,
            MechanismType::DesEcbEncryptData => 0x1100,
            MechanismType::DesCbcEncryptData => 0x1101,
            MechanismType::Des3EcbEncryptData => 0x1102,
            MechanismType::Des3CbcEncryptData => 0x1103,
            MechanismType::AesEcbEncryptData => 0x1104,
            MechanismType::AesCbcEncryptData => 0x1105,
            MechanismType::Gostr3410KeyPairGen => 0x1200,
            MechanismType::Gostr3410 => 0x1201,
            MechanismType::Gostr3410WithGostr3411 => 0x1202,
            MechanismType::Gostr3410KeyWrap => 0x1203,
            MechanismType::Gostr3410Derive => 0x1204,
            MechanismType::Gostr3411 => 0x1210,
            MechanismType::Gostr3411Hmac => 0x1211,
            MechanismType::Gost28147KeyGen => 0x1220,
            MechanismType::Gost28147Ecb => 0x1221,
            MechanismType::Gost28147 => 0x1222,
            MechanismType::Gost28147Mac => 0x1223,
            MechanismType::Gost28147KeyWrap => 0x1224,
            MechanismType::DsaParameterGen => 0x2000,
            MechanismType::DhPkcsParameterGen => 0x2001,
            MechanismType::X942DhParameterGen => 0x2002,
            MechanismType::DsaProbablisticParameterGen => 0x2003,
            MechanismType::DsaShaweTaylorParameterGen => 0x2004,
            MechanismType::AesOfb => 0x2104,
            MechanismType::AesCfb64 => 0x2105,
            MechanismType::AesCfb8 => 0x2106,
            MechanismType::AesCfb128 => 0x2107,
            MechanismType::AesCfb1 => 0x2108,
            MechanismType::AesKeyWrap => 0x2109,
            MechanismType::AesKeyWrapPad => 0x210a,
            MechanismType::RsaPkcsTpm11 => 0x4001,
            MechanismType::RsaPkcsOaepTpm11 => 0x4002,
            MechanismType::VendorDefined => 0x8000_0000,
        }
    }

    /// Looks `code` up against the closed variant set: succeeds with the
    /// matching variant if and only if `code` is exactly a defined
    /// variant's code, and fails with `Unrecognized` otherwise. In
    /// particular every defined variant round-trips through its code.
    pub fn from_native(code: u64) -> (r: Result<Self, ConversionError>)
        ensures
            forall|v: Self| #[trigger] v.spec_code() == code
                ==> r == Ok::<Self, ConversionError>(v),
            r matches Ok(v) ==> v.spec_code() == code,
            r is Err <==> (forall|v: Self| #[trigger] v.spec_code() != code),
            r matches Err(e) ==> e == ConversionError::Unrecognized,
    {
        let r: Result<Self, ConversionError> = match code {
            0x0000u64 => Ok(MechanismType::RsaPkcsKeyPairGen),
            0x0001u64 => Ok(MechanismType::RsaPkcs),
            0x0002u64 => Ok(MechanismType::Rsa9796),
            0x0003u64 => Ok(MechanismType::RsaX509),
            0x0004u64 => Ok(MechanismType::Md2RsaPkcs),
            0x0005u64 => Ok(MechanismType::Md5RsaPkcs),
            0x0006u64 => Ok(MechanismType::Sha1RsaPkcs),
            0x0007u64 => Ok(MechanismType::Ripemd128RsaPkcs),
            0x0008u64 => Ok(MechanismType::Ripemd160RsaPkcs),
            0x0009u64 => Ok(MechanismType::RsaPkcsOaep),
            0x000au64 => Ok(MechanismType::RsaX931KeyPairGen),
            0x000bu64 => Ok(MechanismType::RsaX931),
            0x000cu64 => Ok(MechanismType::Sha1RsaX931),
            0x000du64 => Ok(MechanismType::RsaPkcsPss),
            0x000eu64 => Ok(MechanismType::Sha1RsaPkcsPss),
            0x0010u64 => Ok(MechanismType::DsaKeyPairGen),
            0x0011u64 => Ok(MechanismType::Dsa),
            0x0012u64 => Ok(MechanismType::DsaSha1),
            0x0013u64 => Ok(MechanismType::DsaSha224),
            0x0014u64 => Ok(MechanismType::DsaSha256),
            0x0015u64 => Ok(MechanismType::DsaSha384),
            0x0016u64 => Ok(MechanismType::DsaSha512),
            0x0020u64 => Ok(MechanismType::DhPkcsKeyPairGen),
            0x0021u64 => Ok(MechanismType::DhPkcsDerive),
            0x0030u64 => Ok(MechanismType::X942DhKeyPairGen),
            0x0031u64 => Ok(MechanismType::X942DhDerive),
            0x0032u64 => Ok(MechanismType::X942DhHybridDerive),
            0x0033u64 => Ok(MechanismType::X942MqvDerive),
            0x0040u64 => Ok(MechanismType::Sha256RsaPkcs),
            0x0041u64 => Ok(MechanismType::Sha384RsaPkcs),
            0x0042u64 => Ok(MechanismType::Sha512RsaPkcs),
            0x0043u64 => Ok(MechanismType::Sha256RsaPkcsPss),
            0x0044u64 => Ok(MechanismType::Sha384RsaPkcsPss),
            0x0045u64 => Ok(MechanismType::Sha512RsaPkcsPss),
            0x0046u64 => Ok(MechanismType::Sha224RsaPkcs),
            0x0047u64 => Ok(MechanismType::Sha224RsaPkcsPss),
            0x0048u64 => Ok(MechanismType::Sha512224),
            0x0049u64 => Ok(MechanismType::Sha512224Hmac),
            0x004au64 => Ok(MechanismType::Sha512224HmacGeneral),
            0x004bu64 => Ok(MechanismType::Sha512224KeyDerivation),
            0x004cu64 => Ok(MechanismType::Sha512256),
            0x004du64 => Ok(MechanismType::Sha512256Hmac),
            0x004eu64 => Ok(MechanismType::Sha512256HmacGeneral),
            0x004fu64 => Ok(MechanismType::Sha512256KeyDerivation),
            0x0050u64 => Ok(MechanismType::Sha512T),
            0x0051u64 => Ok(MechanismType::Sha512THmac),
            0x0052u64 => Ok(MechanismType::Sha512THmacGeneral),
            0x0053u64 => Ok(MechanismType::Sha512TKeyDerivation),
            0x0100u64 => Ok(MechanismType::Rc2KeyGen),
            0x0101u64 => Ok(MechanismType::Rc2Ecb),
            0x0102u64 => Ok(MechanismType::Rc2Cbc),
            0x0103u64 => Ok(MechanismType::Rc2Mac),
            0x0104u64 => Ok(MechanismType::Rc2MacGeneral),
            0x0105u64 => Ok(MechanismType::Rc2CbcPad),
            0x0110u64 => Ok(MechanismType::Rc4KeyGen),
            0x0111u64 => Ok(MechanismType::Rc4),
            0x0120u64 => Ok(MechanismType::DesKeyGen),
            0x0121u64 => Ok(MechanismType::DesEcb),
            0x0122u64 => Ok(MechanismType::DesCbc),
            0x0123u64 => Ok(MechanismType::DesMac),
            0x0124u64 => Ok(MechanismType::DesMacGeneral),
            0x0125u64 => Ok(MechanismType::DesCbcPad),
            0x0130u64 => Ok(MechanismType::Des2KeyGen),
            0x0131u64 => Ok(MechanismType::Des3KeyGen),
            0x0132u64 => Ok(MechanismType::Des3Ecb),
            0x0133u64 => Ok(MechanismType::Des3Cbc),
            0x0134u64 => Ok(MechanismType::Des3Mac),
            0x0135u64 => Ok(MechanismType::Des3MacGeneral),
            0x0136u64 => Ok(MechanismType::Des3CbcPad),
            0x0137u64 => Ok(MechanismType::Des3CmacGeneral),
            0x0138u64 => Ok(MechanismType::Des3Cmac),
            0x0140u64 => Ok(MechanismType::CdmfKeyGen),
            0x0141u64 => Ok(MechanismType::CdmfEcb),
            0x0142u64 => Ok(MechanismType::CdmfCbc),
            0x0143u64 => Ok(MechanismType::CdmfMac),
            0x0144u64 => Ok(MechanismType::CdmfMacGeneral),
            0x0145u64 => Ok(MechanismType::CdmfCbcPad),
            0x0150u64 => Ok(MechanismType::DesOfb64),
            0x0151u64 => Ok(MechanismType::DesOfb8),
            0x0152u64 => Ok(MechanismType::DesCfb64),
            0x0153u64 => Ok(MechanismType::DesCfb8),
            0x0200u64 => Ok(MechanismType::Md2),
            0x0201u64 => Ok(MechanismType::Md2Hmac),
            0x0202u64 => Ok(MechanismType::Md2HmacGeneral),
            0x0210u64 => Ok(MechanismType::Md5),
            0x0211u64 => Ok(MechanismType::Md5Hmac),
            0x0212u64 => Ok(MechanismType::Md5HmacGeneral),
            0x0220u64 => Ok(MechanismType::Sha1),
            0x0221u64 => Ok(MechanismType::Sha1Hmac),
            0x0222u64 => Ok(MechanismType::Sha1HmacGeneral),
            0x0230u64 => Ok(MechanismType::Ripemd128),
            0x0231u64 => Ok(MechanismType::Ripemd128Hmac),
            0x0232u64 => Ok(MechanismType::Ripemd128HmacGeneral),
            0x0240u64 => Ok(MechanismType::Ripemd160),
            0x0241u64 => Ok(MechanismType::Ripemd160Hmac),
            0x0242u64 => Ok(MechanismType::Ripemd160HmacGeneral),
            0x0250u64 => Ok(MechanismType::Sha256),
            0x0251u64 => Ok(MechanismType::Sha256Hmac),
            0x0252u64 => Ok(MechanismType::Sha256HmacGeneral),
            0x0255u64 => Ok(MechanismType::Sha224),
            0x0256u64 => Ok(MechanismType::Sha224Hmac),
            0x0257u64 => Ok(MechanismType::Sha224HmacGeneral),
            0x0260u64 => Ok(MechanismType::Sha384),
            0x0261u64 => Ok(MechanismType::Sha384Hmac),
            0x0262u64 => Ok(MechanismType::Sha384HmacGeneral),
            0x0270u64 => Ok(MechanismType::Sha512),
            0x0271u64 => Ok(MechanismType::Sha512Hmac),
            0x0272u64 => Ok(MechanismType::Sha512HmacGeneral),
            0x0280u64 => Ok(MechanismType::SecuridKeyGen),
            0x0282u64 => Ok(MechanismType::Securid),
            0x0290u64 => Ok(MechanismType::HotpKeyGen),
            0x0291u64 => Ok(MechanismType::Hotp),
            0x02a0u64 => Ok(MechanismType::Acti),
            0x02a1u64 => Ok(MechanismType::ActiKeyGen),
            0x0300u64 => Ok(MechanismType::CastKeyGen),
            0x0301u64 => Ok(MechanismType::CastEcb),
            0x0302u64 => Ok(MechanismType::CastCbc),
            0x0303u64 => Ok(MechanismType::CastMac),
            0x0304u64 => Ok(MechanismType::CastMacGeneral),
            0x0305u64 => Ok(MechanismType::CastCbcPad),
            0x0310u64 => Ok(MechanismType::Cast3KeyGen),
            0x0311u64 => Ok(MechanismType::Cast3Ecb),
            0x0312u64 => Ok(MechanismType::Cast3Cbc),
            0x0313u64 => Ok(MechanismType::Cast3Mac),
            0x0314u64 => Ok(MechanismType::Cast3MacGeneral),
            0x0315u64 => Ok(MechanismType::Cast3CbcPad),
            0x0320u64 => Ok(MechanismType::Cast128KeyGen),
            0x0321u64 => Ok(MechanismType::Cast128Ecb),
            0x0322u64 => Ok(MechanismType::Cast128Cbc),
            0x0323u64 => Ok(MechanismType::Cast128Mac),
            0x0324u64 => Ok(MechanismType::Cast128MacGeneral),
            0x0325u64 => Ok(MechanismType::Cast128CbcPad),
            0x0330u64 => Ok(MechanismType::Rc5KeyGen),
            0x0331u64 => Ok(MechanismType::Rc5Ecb),
            0x0332u64 => Ok(MechanismType::Rc5Cbc),
            0x0333u64 => Ok(MechanismType::Rc5Mac),
            0x0334u64 => Ok(MechanismType::Rc5MacGeneral),
            0x0335u64 => Ok(MechanismType::Rc5CbcPad),
            0x0340u64 => Ok(MechanismType::IdeaKeyGen),
            0x0341u64 => Ok(MechanismType::IdeaEcb),
            0x0342u64 => Ok(MechanismType::IdeaCbc),
            0x0343u64 => Ok(MechanismType::IdeaMac),
            0x0344u64 => Ok(MechanismType::IdeaMacGeneral),
            0x0345u64 => Ok(MechanismType::IdeaCbcPad),
            0x0350u64 => Ok(MechanismType::GenericSecretKeyGen),
            0x0360u64 => Ok(MechanismType::ConcatenateBaseAndKey),
            0x0362u64 => Ok(MechanismType::ConcatenateBaseAndData),
            0x0363u64 => Ok(MechanismType::ConcatenateDataAndBase),
            0x0364u64 => Ok(MechanismType::XorBaseAndData),
            0x0365u64 => Ok(MechanismType::ExtractKeyFromKey),
            0x0370u64 => Ok(MechanismType::Ssl3PreMasterKeyGen),
            0x0371u64 => Ok(MechanismType::Ssl3MasterKeyDerive),
            0x0372u64 => Ok(MechanismType::Ssl3KeyAndMacDerive),
            0x0373u64 => Ok(MechanismType::Ssl3MasterKeyDeriveDh),
            0x0374u64 => Ok(MechanismType::TlsPreMasterKeyGen),
            0x0375u64 => Ok(MechanismType::TlsMasterKeyDerive),
            0x0376u64 => Ok(MechanismType::TlsKeyAndMacDerive),
            0x0377u64 => Ok(MechanismType::TlsMasterKeyDeriveDh),
            0x0378u64 => Ok(MechanismType::TlsPrf),
            0x0380u64 => Ok(MechanismType::Ssl3Md5Mac),
            0x0381u64 => Ok(MechanismType::Ssl3Sha1Mac),
            0x0390u64 => Ok(MechanismType::Md5KeyDerivation),
            0x0391u64 => Ok(MechanismType::Md2KeyDerivation),
            0x0392u64 => Ok(MechanismType::Sha1KeyDerivation),
            0x0393u64 => Ok(MechanismType::Sha256KeyDerivation),
            0x0394u64 => Ok(MechanismType::Sha384KeyDerivation),
            0x0395u64 => Ok(MechanismType::Sha512KeyDerivation),
            0x0396u64 => Ok(MechanismType::Sha224KeyDerivation),
            0x03a0u64 => Ok(MechanismType::PbeMd2DesCbc),
            0x03a1u64 => Ok(MechanismType::PbeMd5DesCbc),
            0x03a2u64 => Ok(MechanismType::PbeMd5CastCbc),
            0x03a3u64 => Ok(MechanismType::PbeMd5Cast3Cbc),
            0x03a4u64 => Ok(MechanismType::PbeMd5Cast128Cbc),
            0x03a5u64 => Ok(MechanismType::PbeSha1Cast128Cbc),
            0x03a6u64 => Ok(MechanismType::PbeSha1Rc4128),
            0x03a7u64 => Ok(MechanismType::PbeSha1Rc440),
            0x03a8u64 => Ok(MechanismType::PbeSha1Des3EdeCbc),
            0x03a9u64 => Ok(MechanismType::PbeSha1Des2EdeCbc),
            0x03aau64 => Ok(MechanismType::PbeSha1Rc2128Cbc),
            0x03abu64 => Ok(MechanismType::PbeSha1Rc240Cbc),
            0x03b0u64 => Ok(MechanismType::Pkcs5Pbkd2),
            0x03c0u64 => Ok(MechanismType::PbaSha1WithSha1Hmac),
            0x03d0u64 => Ok(MechanismType::WtlsPreMasterKeyGen),
            0x03d1u64 => Ok(MechanismType::WtlsMasterKeyDerive),
            0x03d2u64 => Ok(MechanismType::WtlsMasterKeyDeriveDhEcc),
            0x03d3u64 => Ok(MechanismType::WtlsPrf),
            0x03d4u64 => Ok(MechanismType::WtlsServerKeyAndMacDerive),
            0x03d5u64 => Ok(MechanismType::WtlsClientKeyAndMacDerive),
            0x03d6u64 => Ok(MechanismType::Tls10MacServer),
            0x03d7u64 => Ok(MechanismType::Tls10MacClient),
            0x03d8u64 => Ok(MechanismType::Tls12Mac),
            0x03d9u64 => Ok(MechanismType::Tls12Kdf),
            0x03e0u64 => Ok(MechanismType::Tls12MasterKeyDerive),
            0x03e1u64 => Ok(MechanismType::Tls12KeyAndMacDerive),
            0x03e2u64 => Ok(MechanismType::Tls12MasterKeyDeriveDh),
            0x03e3u64 => Ok(MechanismType::Tls12KeySafeDerive),
            0x03e4u64 => Ok(MechanismType::TlsMac),
            0x03e5u64 => Ok(MechanismType::TlsKdf),
            0x0400u64 => Ok(MechanismType::KeyWrapLynks),
            0x0401u64 => Ok(MechanismType::KeyWrapSetOaep),
            0x0500u64 => Ok(MechanismType::CmsSig),
            0x0510u64 => Ok(MechanismType::KipDerive),
            0x0511u64 => Ok(MechanismType::KipWrap),
            0x0512u64 => Ok(MechanismType::KipMac),
            0x0550u64 => Ok(MechanismType::CamelliaKeyGen),
            0x0551u64 => Ok(MechanismType::CamelliaEcb),
            0x0552u64 => Ok(MechanismType::CamelliaCbc),
            0x0553u64 => Ok(MechanismType::CamelliaMac),
            0x0554u64 => Ok(MechanismType::CamelliaMacGeneral),
            0x0555u64 => Ok(MechanismType::CamelliaCbcPad),
            0x0556u64 => Ok(MechanismType::CamelliaEcbEncryptData),
            0x0557u64 => Ok(MechanismType::CamelliaCbcEncryptData),
            0x0558u64 => Ok(MechanismType::CamelliaCtr),
            0x0560u64 => Ok(MechanismType::AriaKeyGen),
            0x0561u64 => Ok(MechanismType::AriaEcb),
            0x0562u64 => Ok(MechanismType::AriaCbc),
            0x0563u64 => Ok(MechanismType::AriaMac),
            0x0564u64 => Ok(MechanismType::AriaMacGeneral),
            0x0565u64 => Ok(MechanismType::AriaCbcPad),
            0x0566u64 => Ok(MechanismType::AriaEcbEncryptData),
            0x0567u64 => Ok(MechanismType::AriaCbcEncryptData),
            0x0650u64 => Ok(MechanismType::SeedKeyGen),
            0x0651u64 => Ok(MechanismType::SeedEcb),
            0x0652u64 => Ok(MechanismType::SeedCbc),
            0x0653u64 => Ok(MechanismType::SeedMac),
            0x0654u64 => Ok(MechanismType::SeedMacGeneral),
            0x0655u64 => Ok(MechanismType::SeedCbcPad),
            0x0656u64 => Ok(MechanismType::SeedEcbEncryptData),
            0x0657u64 => Ok(MechanismType::SeedCbcEncryptData),
            0x1000u64 => Ok(MechanismType::SkipjackKeyGen),
            0x1001u64 => Ok(MechanismType::SkipjackEcb64),
            0x1002u64 => Ok(MechanismType::SkipjackCbc64),
            0x1003u64 => Ok(MechanismType::SkipjackOfb64),
            0x1004u64 => Ok(MechanismType::SkipjackCfb64),
            0x1005u64 => Ok(MechanismType::SkipjackCfb32),
            0x1006u64 => Ok(MechanismType::SkipjackCfb16),
            0x1007u64 => Ok(MechanismType::SkipjackCfb8),
            0x1008u64 => Ok(MechanismType::SkipjackWrap),
            0x1009u64 => Ok(MechanismType::SkipjackPrivateWrap),
            0x100au64 => Ok(MechanismType::SkipjackRelayx),
            0x1010u64 => Ok(MechanismType::KeaKeyPairGen),
            0x1011u64 => Ok(MechanismType::KeaKeyDerive),
            0x1012u64 => Ok(MechanismType::KeaDerive),
            0x1020u64 => Ok(MechanismType::FortezzaTimestamp),
            0x1030u64 => Ok(MechanismType::BatonKeyGen),
            0x1031u64 => Ok(MechanismType::BatonEcb128),
            0x1032u64 => Ok(MechanismType::BatonEcb96),
            0x1033u64 => Ok(MechanismType::BatonCbc128),
            0x1034u64 => Ok(MechanismType::BatonCounter),
            0x1035u64 => Ok(MechanismType::BatonShuffle),
            0x1036u64 => Ok(MechanismType::BatonWrap),
            0x1040u64 => Ok(MechanismType::EcKeyPairGen),
            0x1041u64 => Ok(MechanismType::Ecdsa),
            0x1042u64 => Ok(MechanismType::EcdsaSha1),
            0x1043u64 => Ok(MechanismType::EcdsaSha224),
            0x1044u64 => Ok(MechanismType::EcdsaSha256),
            0x1045u64 => Ok(MechanismType::EcdsaSha384),
            0x1046u64 => Ok(MechanismType::EcdsaSha512),
            0x1050u64 => Ok(MechanismType::Ecdh1Derive),
            0x1051u64 => Ok(MechanismType::Ecdh1CofactorDerive),
            0x1052u64 => Ok(MechanismType::EcmqvDerive),
            0x1053u64 => Ok(MechanismType::EcdhAesKeyWrap),
            0x1054u64 => Ok(MechanismType::RsaAesKeyWrap),
            0x1060u64 => Ok(MechanismType::JuniperKeyGen),
            0x1061u64 => Ok(MechanismType::JuniperEcb128),
            0x1062u64 => Ok(MechanismType::JuniperCbc128),
            0x1063u64 => Ok(MechanismType::JuniperCounter),
            0x1064u64 => Ok(MechanismType::JuniperShuffle),
            0x1065u64 => Ok(MechanismType::JuniperWrap),
            0x1070u64 => Ok(MechanismType::Fasthash),
            0x1080u64 => Ok(MechanismType::AesKeyGen),
            0x1081u64 => Ok(MechanismType::AesEcb),
            0x1082u64 => Ok(MechanismType::AesCbc),
            0x1083u64 => Ok(MechanismType::AesMac),
            0x1084u64 => Ok(MechanismType::AesMacGeneral),
            0x1085u64 => Ok(MechanismType::AesCbcPad),
            0x1086u64 => Ok(MechanismType::AesCtr),
            0x1087u64 => Ok(MechanismType::AesGcm),
            0x1088u64 => Ok(MechanismType::AesCcm),
            0x1089u64 => Ok(MechanismType::AesCts),
            0x108au64 => Ok(MechanismType::AesCmac),
            0x108bu64 => Ok(MechanismType::AesCmacGeneral),
            0x108cu64 => Ok(MechanismType::AesXcbcMac),
            0x108du64 => Ok(MechanismType::AesXcbcMac96),
            0x108eu64 => Ok(MechanismType::AesGmac),
            0x1090u64 => Ok(MechanismType::BlowfishKeyGen),
            0x1091u64 => Ok(MechanismType::BlowfishCbc),
            0x1092u64 => Ok(MechanismType::TwofishKeyGen),
            0x1093u64 => Ok(MechanismType::TwofishCbc),
            0x1094u64 => Ok(MechanismType::BlowfishCbcPad),
            0x1095u64 => Ok(MechanismType::TwofishCbcPad),
            0x1100u64 => Ok(MechanismType::DesEcbEncryptData),
            0x1101u64 => Ok(MechanismType::DesCbcEncryptData),
            0x1102u64 => Ok(MechanismType::Des3EcbEncryptData),
            0x1103u64 => Ok(MechanismType::Des3CbcEncryptData),
            0x1104u64 => Ok(MechanismType::AesEcbEncryptData),
            0x1105u64 => Ok(MechanismType::AesCbcEncryptData),
            0x1200u64 => Ok(MechanismType::Gostr3410KeyPairGen),
            0x1201u64 => Ok(MechanismType::Gostr3410),
            0x1202u64 => Ok(MechanismType::Gostr3410WithGostr3411),
            0x1203u64 => Ok(MechanismType::Gostr3410KeyWrap),
            0x1204u64 => Ok(MechanismType::Gostr3410Derive),
            0x1210u64 => Ok(MechanismType::Gostr3411),
            0x1211u64 => Ok(MechanismType::Gostr3411Hmac),
            0x1220u64 => Ok(MechanismType::Gost28147KeyGen),
            0x1221u64 => Ok(MechanismType::Gost28147Ecb),
            0x1222u64 => Ok(MechanismType::Gost28147),
            0x1223u64 => Ok(MechanismType::Gost28147Mac),
            0x1224u64 => Ok(MechanismType::Gost28147KeyWrap),
            0x2000u64 => Ok(MechanismType::DsaParameterGen),
            0x2001u64 => Ok(MechanismType::DhPkcsParameterGen),
            0x2002u64 => Ok(MechanismType::X942DhParameterGen),
            0x2003u64 => Ok(MechanismType::DsaProbablisticParameterGen),
            0x2004u64 => Ok(MechanismType::DsaShaweTaylorParameterGen),
            0x2104u64 => Ok(MechanismType::AesOfb),
            0x2105u64 => Ok(MechanismType::AesCfb64),
            0x2106u64 => Ok(MechanismType::AesCfb8),
            0x2107u64 => Ok(MechanismType::AesCfb128),
            0x2108u64 => Ok(MechanismType::AesCfb1),
            0x2109u64 => Ok(MechanismType::AesKeyWrap),
            0x210au64 => Ok(MechanismType::AesKeyWrapPad),
            0x4001u64 => Ok(MechanismType::RsaPkcsTpm11),
            0x4002u64 => Ok(MechanismType::RsaPkcsOaepTpm11),
            0x8000_0000u64 => Ok(MechanismType::VendorDefined),
            _ => Err(ConversionError::Unrecognized),
        };
        proof {
            assert(r == (match Self::spec_from_code(code) {
                Some(v) => Ok::<Self, ConversionError>(v),
                None => Err::<Self, ConversionError>(ConversionError::Unrecognized),
            }));
            Self::lemma_table_sound(code);
            assert forall|v: Self| #[trigger] v.spec_code() == code
                implies r == Ok::<Self, ConversionError>(v) by {
                Self::lemma_table_complete(v);
            }
            if r is Err {
                assert forall|v: Self| #[trigger] v.spec_code() != code by {
                    Self::lemma_table_complete(v);
                }
            }
        }
        r
    }

    /// No two distinct variants of this family share a native code.
    pub proof fn lemma_code_injective(a: Self, b: Self)
        requires
            a.spec_code() == b.spec_code(),
        ensures
            a == b,
    {
        Self::lemma_table_complete(a);
        Self::lemma_table_complete(b);
    }
}

} // verus!
