use pkcs11_codes::MechanismType;

// Every mechanism code the registry defines, in registry order.
fn all_mechanism_codes() -> Vec<u64> {
    vec![
        0x0000, 0x0001, 0x0002, 0x0003, 0x0004, 0x0005, 0x0006, 0x0007,
        0x0008, 0x0009, 0x000a, 0x000b, 0x000c, 0x000d, 0x000e, 0x0010,
        0x0011, 0x0012, 0x0013, 0x0014, 0x0015, 0x0016, 0x0020, 0x0021,
        0x0030, 0x0031, 0x0032, 0x0033, 0x0040, 0x0041, 0x0042, 0x0043,
        0x0044, 0x0045, 0x0046, 0x0047, 0x0048, 0x0049, 0x004a, 0x004b,
        0x004c, 0x004d, 0x004e, 0x004f, 0x0050, 0x0051, 0x0052, 0x0053,
        0x0100, 0x0101, 0x0102, 0x0103, 0x0104, 0x0105, 0x0110, 0x0111,
        0x0120, 0x0121, 0x0122, 0x0123, 0x0124, 0x0125, 0x0130, 0x0131,
        0x0132, 0x0133, 0x0134, 0x0135, 0x0136, 0x0137, 0x0138, 0x0140,
        0x0141, 0x0142, 0x0143, 0x0144, 0x0145, 0x0150, 0x0151, 0x0152,
        0x0153, 0x0200, 0x0201, 0x0202, 0x0210, 0x0211, 0x0212, 0x0220,
        0x0221, 0x0222, 0x0230, 0x0231, 0x0232, 0x0240, 0x0241, 0x0242,
        0x0250, 0x0251, 0x0252, 0x0255, 0x0256, 0x0257, 0x0260, 0x0261,
        0x0262, 0x0270, 0x0271, 0x0272, 0x0280, 0x0282, 0x0290, 0x0291,
        0x02a0, 0x02a1, 0x0300, 0x0301, 0x0302, 0x0303, 0x0304, 0x0305,
        0x0310, 0x0311, 0x0312, 0x0313, 0x0314, 0x0315, 0x0320, 0x0321,
        0x0322, 0x0323, 0x0324, 0x0325, 0x0330, 0x0331, 0x0332, 0x0333,
        0x0334, 0x0335, 0x0340, 0x0341, 0x0342, 0x0343, 0x0344, 0x0345,
        0x0350, 0x0360, 0x0362, 0x0363, 0x0364, 0x0365, 0x0370, 0x0371,
        0x0372, 0x0373, 0x0374, 0x0375, 0x0376, 0x0377, 0x0378, 0x0380,
        0x0381, 0x0390, 0x0391, 0x0392, 0x0393, 0x0394, 0x0395, 0x0396,
        0x03a0, 0x03a1, 0x03a2, 0x03a3, 0x03a4, 0x03a5, 0x03a6, 0x03a7,
        0x03a8, 0x03a9, 0x03aa, 0x03ab, 0x03b0, 0x03c0, 0x03d0, 0x03d1,
        0x03d2, 0x03d3, 0x03d4, 0x03d5, 0x03d6, 0x03d7, 0x03d8, 0x03d9,
        0x03e0, 0x03e1, 0x03e2, 0x03e3, 0x03e4, 0x03e5, 0x0400, 0x0401,
        0x0500, 0x0510, 0x0511, 0x0512, 0x0550, 0x0551, 0x0552, 0x0553,
        0x0554, 0x0555, 0x0556, 0x0557, 0x0558, 0x0560, 0x0561, 0x0562,
        0x0563, 0x0564, 0x0565, 0x0566, 0x0567, 0x0650, 0x0651, 0x0652,
        0x0653, 0x0654, 0x0655, 0x0656, 0x0657, 0x1000, 0x1001, 0x1002,
        0x1003, 0x1004, 0x1005, 0x1006, 0x1007, 0x1008, 0x1009, 0x100a,
        0x1010, 0x1011, 0x1012, 0x1020, 0x1030, 0x1031, 0x1032, 0x1033,
        0x1034, 0x1035, 0x1036, 0x1040, 0x1041, 0x1042, 0x1043, 0x1044,
        0x1045, 0x1046, 0x1050, 0x1051, 0x1052, 0x1053, 0x1054, 0x1060,
        0x1061, 0x1062, 0x1063, 0x1064, 0x1065, 0x1070, 0x1080, 0x1081,
        0x1082, 0x1083, 0x1084, 0x1085, 0x1086, 0x1087, 0x1088, 0x1089,
        0x108a, 0x108b, 0x108c, 0x108d, 0x108e, 0x1090, 0x1091, 0x1092,
        0x1093, 0x1094, 0x1095, 0x1100, 0x1101, 0x1102, 0x1103, 0x1104,
        0x1105, 0x1200, 0x1201, 0x1202, 0x1203, 0x1204, 0x1210, 0x1211,
        0x1220, 0x1221, 0x1222, 0x1223, 0x1224, 0x2000, 0x2001, 0x2002,
        0x2003, 0x2004, 0x2104, 0x2105, 0x2106, 0x2107, 0x2108, 0x2109,
        0x210a, 0x4001, 0x4002, 0x8000_0000,
    ]
}

#[test]
fn every_mechanism_code_round_trips() {
    for code in all_mechanism_codes() {
        let v = MechanismType::from_native(code).unwrap();
        assert_eq!(v.to_native(), code);
    }
}

#[test]
fn mechanism_codes_are_distinct() {
    let mut codes = all_mechanism_codes();
    let n = codes.len();
    codes.sort();
    codes.dedup();
    assert_eq!(codes.len(), n);
}

#[test]
fn codes_between_mechanism_entries_are_rejected() {
    // A sweep over the low region of the code space: a code converts
    // exactly when the registry lists it.
    let codes = all_mechanism_codes();
    for probe in 0u64..0x5000 {
        let listed = codes.contains(&probe);
        assert_eq!(MechanismType::from_native(probe).is_ok(), listed);
    }
}

