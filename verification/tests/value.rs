use colsink::engine::value::{
    CowSlice, CowStr, CowStrSlice, IpAddress, IpNetwork, Value, NEG_ZERO_BITS,
};

fn vstr(s: &str) -> Value<'static> {
    Value::Str(CowStr::Owned(s.to_string()))
}

fn vstrs(items: &[&str]) -> Value<'static> {
    Value::VecStr(CowStrSlice::Owned(
        items.iter().map(|s| s.to_string()).collect(),
    ))
}

fn vf(x: f64) -> Value<'static> {
    Value::F64(x.to_bits())
}

#[test]
fn roundtrip_owned_borrowed_owned_all_variants() {
    let values: Vec<Value<'static>> = vec![
        vstr("hello"),
        vstrs(&["a", "b"]),
        Value::I64(-7),
        Value::VecI64(CowSlice::Owned(vec![1, 2, 3])),
        vf(1.25),
        Value::VecF64(CowSlice::Owned(vec![(0.5f64).to_bits(), (2.0f64).to_bits()])),
        Value::Timestamp(1_700_000_000_000_000_000),
        Value::VecTimestamp(CowSlice::Owned(vec![1, 2])),
        Value::Ip(IpAddress::V4(0x0A000001)),
        Value::VecIp(CowSlice::Owned(vec![
            IpAddress::V4(1),
            IpAddress::V6(42),
        ])),
        Value::IpNet(IpNetwork::V4(0x0A000000, 8)),
        Value::VecIpNet(CowSlice::Owned(vec![IpNetwork::V6(9, 64)])),
        Value::Uuid(0x1234_5678_9abc_def0),
        Value::VecUuid(CowSlice::Owned(vec![7, 8])),
        Value::Bool(true),
        Value::VecBool(CowSlice::Owned(vec![true, false])),
        Value::Null,
    ];
    for v in values {
        let b = v.to_borrowed();
        let o = b.into_owned();
        assert!(o == v);
    }
}

#[test]
fn borrowed_from_slices_roundtrips() {
    let nums: Vec<i64> = vec![4, 5];
    let v = Value::VecI64(CowSlice::Borrowed(nums.as_slice()));
    let o = v.to_borrowed().into_owned();
    assert!(o == v);
    let text = "borrowed".to_string();
    let v = Value::Str(CowStr::Borrowed(text.as_str()));
    let o = v.to_borrowed().into_owned();
    assert!(o == v);
}

#[test]
fn integer_arithmetic_saturates() {
    assert_eq!(
        Value::I64(i64::MAX).add(&Value::I64(1)),
        Value::I64(i64::MAX)
    );
    assert_eq!(
        Value::I64(i64::MIN).sub(&Value::I64(1)),
        Value::I64(i64::MIN)
    );
    assert_eq!(
        Value::I64(i64::MAX).mul(&Value::I64(2)),
        Value::I64(i64::MAX)
    );
    assert_eq!(
        Value::I64(i64::MIN).div(&Value::I64(-1)),
        Value::I64(i64::MAX)
    );
    assert_eq!(Value::I64(2).add(&Value::I64(3)), Value::I64(5));
    assert_eq!(Value::I64(7).div(&Value::I64(-2)), Value::I64(-3));
    assert_eq!(Value::I64(-7).div(&Value::I64(2)), Value::I64(-3));
}

#[test]
fn division_by_zero_is_null() {
    assert_eq!(Value::I64(7).div(&Value::I64(0)), Value::Null);
    assert_eq!(vf(1.0).div(&vf(0.0)), Value::Null);
    assert_eq!(vf(1.0).div(&vf(-0.0)), Value::Null);
}

#[test]
fn mismatched_variants_yield_null() {
    assert_eq!(Value::I64(1).add(&vf(1.0)), Value::Null);
    assert_eq!(vstr("a").sub(&vstr("b")), Value::Null);
    assert_eq!(Value::Bool(true).mul(&Value::Bool(false)), Value::Null);
}

#[test]
fn float_arithmetic_follows_ieee() {
    assert_eq!(vf(1.5).add(&vf(2.25)), vf(3.75));
    assert_eq!(vf(5.0).sub(&vf(1.5)), vf(3.5));
    assert_eq!(vf(2.5).mul(&vf(4.0)), vf(10.0));
    assert_eq!(vf(7.0).div(&vf(2.0)), vf(3.5));
}

#[test]
fn float_equality_is_total() {
    assert_eq!(vf(0.0), vf(-0.0));
    assert_eq!(vf(f64::NAN), Value::F64(0x7ff0_0000_0000_0001));
    assert_ne!(vf(1.0), vf(2.0));
    assert_eq!(Value::F64(NEG_ZERO_BITS), vf(0.0));
}

#[test]
fn eq_fold_ignores_case() {
    assert!(vstr("Café").eq_fold(&vstr("café")));
    assert!(vstr("HELLO").eq_fold(&vstr("hello")));
    assert!(!vstr("abc").eq_fold(&vstr("abd")));
    assert!(vstrs(&["AA", "bB"]).eq_fold(&vstrs(&["aa", "Bb"])));
    assert!(!vstrs(&["aa"]).eq_fold(&vstrs(&["aa", "bb"])));
    assert!(!vstr("x").eq_fold(&Value::I64(1)));
}

#[test]
fn contains_fold_is_case_insensitive() {
    assert!(vstr("aBc").contains_fold(&vstr("b")));
    assert!(vstr("abc").contains_fold(&vstr("B")));
    assert!(!vstr("abc").contains_fold(&vstr("d")));
    assert!(vstrs(&["One", "Two"]).contains_fold(&vstr("two")));
    assert!(!vstrs(&["One", "Two"]).contains_fold(&vstr("three")));
}

#[test]
fn contains_finds_substrings_and_elements() {
    assert!(vstr("hello world").contains(&vstr("lo wo")));
    assert!(!vstr("hello").contains(&vstr("z")));
    assert!(vstrs(&["a", "b"]).contains(&vstr("b")));
    assert!(Value::VecI64(CowSlice::Owned(vec![1, 2, 3])).contains(&Value::I64(2)));
    assert!(!Value::VecI64(CowSlice::Owned(vec![1, 2, 3])).contains(&Value::I64(4)));
    assert!(
        Value::VecBool(CowSlice::Owned(vec![false, true])).contains(&Value::Bool(true))
    );
    assert!(!vstr("x").contains(&Value::I64(1)));
}

#[test]
fn network_containment() {
    let net = Value::IpNet(IpNetwork::V4(0x0A00_0000, 8));
    assert!(net.contains(&Value::Ip(IpAddress::V4(0x0A01_0203))));
    assert!(!net.contains(&Value::Ip(IpAddress::V4(0x0B01_0203))));
    assert!(!net.contains(&Value::Ip(IpAddress::V6(1))));
    let all = Value::IpNet(IpNetwork::V4(0, 0));
    assert!(all.contains(&Value::Ip(IpAddress::V4(0xFFFF_FFFF))));
    let nets = Value::VecIpNet(CowSlice::Owned(vec![
        IpNetwork::V4(0xC0A8_0000, 16),
        IpNetwork::V6(0, 0),
    ]));
    assert!(nets.contains(&Value::Ip(IpAddress::V4(0xC0A8_0101))));
    assert!(nets.contains(&Value::Ip(IpAddress::V6(77))));
    assert!(!nets.contains(&Value::Ip(IpAddress::V4(0x0101_0101))));
    assert!(nets.contains(&Value::IpNet(IpNetwork::V6(0, 0))));
    let v6net = Value::IpNet(IpNetwork::V6(0x2001_0db8 << 96, 32));
    assert!(v6net.contains(&Value::Ip(IpAddress::V6((0x2001_0db8 << 96) | 5))));
}

#[test]
fn prefix_and_suffix_exact() {
    assert!(vstr("hello").starts_with(&vstr("he")));
    assert!(!vstr("hello").starts_with(&vstr("lo")));
    assert!(vstr("hello").ends_with(&vstr("lo")));
    assert!(vstrs(&["a", "b", "c"]).starts_with(&vstr("a")));
    assert!(vstrs(&["a", "b", "c"]).ends_with(&vstr("c")));
    assert!(vstrs(&["a", "b", "c"]).starts_with(&vstrs(&["a", "b"])));
    assert!(vstrs(&["a", "b", "c"]).ends_with(&vstrs(&["b", "c"])));
    assert!(!vstrs(&["a", "b"]).starts_with(&vstrs(&["a", "b", "c"])));
    let ns = Value::VecI64(CowSlice::Owned(vec![1, 2, 3]));
    assert!(ns.starts_with(&Value::I64(1)));
    assert!(ns.ends_with(&Value::I64(3)));
    assert!(ns.starts_with(&Value::VecI64(CowSlice::Owned(vec![1, 2]))));
    assert!(ns.ends_with(&Value::VecI64(CowSlice::Owned(vec![2, 3]))));
    let ts = Value::VecTimestamp(CowSlice::Owned(vec![10, 20, 30]));
    assert!(ts.ends_with(&Value::Timestamp(30)));
    assert!(!ts.ends_with(&Value::Timestamp(10)));
}

#[test]
fn prefix_and_suffix_folded() {
    assert!(vstr("Hello").starts_with_fold(&vstr("he")));
    assert!(vstr("Hello").ends_with_fold(&vstr("LO")));
    assert!(!vstr("Hello").starts_with_fold(&vstr("lo")));
    assert!(vstrs(&["Aa", "Bb"]).starts_with_fold(&vstr("aA")));
    assert!(vstrs(&["Aa", "Bb"]).ends_with_fold(&vstr("bB")));
    assert!(vstrs(&["Aa", "Bb", "Cc"]).starts_with_fold(&vstrs(&["aa", "bb"])));
    assert!(vstrs(&["Aa", "Bb", "Cc"]).ends_with_fold(&vstrs(&["bb", "cc"])));
}

#[test]
fn regex_matching_applies_to_strings_only() {
    let re = regex::Regex::new("^ab.*z$").unwrap();
    assert!(vstr("abcz").matches(&re));
    assert!(!vstr("abc").matches(&re));
    assert!(!Value::I64(1).matches(&re));
    assert!(!Value::Null.matches(&re));
}

#[test]
fn string_transforms() {
    assert_eq!(vstr("  padded  ").trim(), vstr("padded"));
    assert_eq!(vstr("AbC").to_lowercase(), vstr("abc"));
    assert_eq!(vstr("AbC").to_uppercase(), vstr("ABC"));
    assert_eq!(Value::I64(1).trim(), Value::Null);
    assert_eq!(Value::Bool(true).to_lowercase(), Value::Null);
    assert_eq!(Value::Null.to_uppercase(), Value::Null);
}

#[test]
fn value_equality_compares_contents() {
    let owned = vstr("same");
    let backing = "same".to_string();
    let borrowed = Value::Str(CowStr::Borrowed(backing.as_str()));
    assert_eq!(owned, borrowed);
    assert_ne!(vstr("a"), vstr("b"));
    assert_ne!(vstr("1"), Value::I64(1));
    assert_eq!(Value::Null, Value::Null);
    assert_eq!(
        Value::VecF64(CowSlice::Owned(vec![(0.0f64).to_bits()])),
        Value::VecF64(CowSlice::Owned(vec![NEG_ZERO_BITS]))
    );
}

#[test]
fn conversions_build_matching_variants() {
    assert_eq!(Value::from(5i64), Value::I64(5));
    assert_eq!(Value::from(true), Value::Bool(true));
    assert_eq!(Value::from("abc"), vstr("abc"));
    assert_eq!(Value::from("abc".to_string()), vstr("abc"));
    assert_eq!(
        Value::from(vec![1i64, 2]),
        Value::VecI64(CowSlice::Owned(vec![1, 2]))
    );
    let nums: Vec<i64> = vec![3, 4];
    assert_eq!(
        Value::from(nums.as_slice()),
        Value::VecI64(CowSlice::Owned(vec![3, 4]))
    );
    assert_eq!(
        Value::from(vec!["a".to_string()]),
        vstrs(&["a"])
    );
    assert_eq!(Value::from(7u128), Value::Uuid(7));
    assert_eq!(Value::from(9i128), Value::Timestamp(9));
    assert_eq!(
        Value::from(IpAddress::V4(1)),
        Value::Ip(IpAddress::V4(1))
    );
    assert_eq!(
        Value::from(vec![IpNetwork::V6(2, 16)]),
        Value::VecIpNet(CowSlice::Owned(vec![IpNetwork::V6(2, 16)]))
    );
}
