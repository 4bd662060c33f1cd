//! The typed value model: a closed set of scalar and homogeneous-vector
//! variants used to compare, match and combine stored data.
//!
//! Outside data is held as plain values: floats as IEEE 754 bit patterns,
//! timestamps as nanoseconds, IP addresses and networks as address bits
//! with a prefix length, and unique identifiers as 128-bit integers.
//! Operations over mismatched variants degrade to null or false instead of
//! failing, so a predicate layer can apply one operator uniformly.

use vstd::prelude::*;
use vstd::string::StringExecFns;
use arrow::array::Array;

verus! {

/// The negative-zero bit pattern of a 64-bit float.
pub const NEG_ZERO_BITS: u64 = 0x8000_0000_0000_0000;

/// The canonical quiet-NaN bit pattern of a 64-bit float.
pub const NAN_BITS: u64 = 0x7ff8_0000_0000_0000;

/// Whether a bit pattern encodes a NaN: exponent all ones, mantissa
/// non-zero.
pub open spec fn is_nan_bits(b: u64) -> bool {
    (b >> 52) & 0x7ff == 0x7ff && (b & 0xf_ffff_ffff_ffff) != 0
}

/// Whether a bit pattern encodes a zero of either sign.
pub open spec fn is_zero_bits(b: u64) -> bool {
    b == 0 || b == NEG_ZERO_BITS
}

/// One representative bit pattern per float equality class: every NaN
/// collapses to the canonical NaN and negative zero collapses to zero.
pub open spec fn canon_f64(b: u64) -> u64 {
    if is_nan_bits(b) {
        NAN_BITS
    } else if b == NEG_ZERO_BITS {
        0
    } else {
        b
    }
}

/// Total float equality on bit patterns: IEEE equality extended so that
/// all NaN representations are equal to one another.
pub open spec fn f64_eq(a: u64, b: u64) -> bool {
    canon_f64(a) == canon_f64(b)
}

/// Decides float equality on bit patterns.
pub fn f64_eq_bits(a: u64, b: u64) -> (r: bool)
    ensures
        r == f64_eq(a, b),
{
    let ca = if (a >> 52) & 0x7ff == 0x7ff && (a & 0xf_ffff_ffff_ffff) != 0 {
        NAN_BITS
    } else if a == NEG_ZERO_BITS {
        0
    } else {
        a
    };
    let cb = if (b >> 52) & 0x7ff == 0x7ff && (b & 0xf_ffff_ffff_ffff) != 0 {
        NAN_BITS
    } else if b == NEG_ZERO_BITS {
        0
    } else {
        b
    };
    ca == cb
}

/// An integer clamped into i64's range.
pub open spec fn sat_i64(x: int) -> i64 {
    if x > i64::MAX {
        i64::MAX
    } else if x < i64::MIN {
        i64::MIN
    } else {
        x as i64
    }
}

/// The magnitude of a signed 64-bit integer.
pub open spec fn abs_i64(a: i64) -> int {
    if a >= 0 {
        a as int
    } else {
        -(a as int)
    }
}

/// Division truncated toward zero, as machine division rounds.
pub open spec fn trunc_div_i64(a: i64, b: i64) -> int
    recommends
        b != 0,
{
    if (a >= 0) == (b >= 0) {
        abs_i64(a) / abs_i64(b)
    } else {
        -(abs_i64(a) / abs_i64(b))
    }
}

fn sat_add_i64(a: i64, b: i64) -> (r: i64)
    ensures
        r == sat_i64(a + b),
{
    let s: i128 = a as i128 + b as i128;
    if s > i64::MAX as i128 {
        i64::MAX
    } else if s < i64::MIN as i128 {
        i64::MIN
    } else {
        s as i64
    }
}

fn sat_sub_i64(a: i64, b: i64) -> (r: i64)
    ensures
        r == sat_i64(a - b),
{
    let s: i128 = a as i128 - b as i128;
    if s > i64::MAX as i128 {
        i64::MAX
    } else if s < i64::MIN as i128 {
        i64::MIN
    } else {
        s as i64
    }
}

fn sat_mul_i64(a: i64, b: i64) -> (r: i64)
    ensures
        r == sat_i64(a * b),
{
    proof {
        assert(-(0x8000_0000_0000_0000i128 * 0x8000_0000_0000_0000i128) <= a as i128 * b as i128
            <= 0x8000_0000_0000_0000i128 * 0x8000_0000_0000_0000i128) by (nonlinear_arith)
            requires
                i64::MIN <= a <= i64::MAX,
                i64::MIN <= b <= i64::MAX,
        ;
    }
    let s: i128 = a as i128 * b as i128;
    if s > i64::MAX as i128 {
        i64::MAX
    } else if s < i64::MIN as i128 {
        i64::MIN
    } else {
        s as i64
    }
}

fn sat_div_i64(a: i64, b: i64) -> (r: i64)
    requires
        b != 0,
    ensures
        r == sat_i64(trunc_div_i64(a, b)),
{
    let neg_a = a < 0;
    let neg_b = b < 0;
    let ua: u64 = if neg_a {
        (-(a as i128)) as u64
    } else {
        a as u64
    };
    let ub: u64 = if neg_b {
        (-(b as i128)) as u64
    } else {
        b as u64
    };
    let q: u64 = ua / ub;
    proof {
        assert(ua == abs_i64(a));
        assert(ub == abs_i64(b));
        assert(q <= ua) by (nonlinear_arith)
            requires
                ub >= 1,
                q == ua / ub,
        ;
    }
    if neg_a == neg_b {
        if q > i64::MAX as u64 {
            i64::MAX
        } else {
            q as i64
        }
    } else {
        (-(q as i128)) as i64
    }
}

/// An IP address as plain bits: 32 for version 4, 128 for version 6.
#[derive(Clone, Copy, PartialEq, Eq, Structural, Debug)]
pub enum IpAddress {
    V4(u32),
    V6(u128),
}

/// An IP network in CIDR form: address bits and a prefix length.
#[derive(Clone, Copy, PartialEq, Eq, Structural, Debug)]
pub enum IpNetwork {
    V4(u32, u8),
    V6(u128, u8),
}

impl IpNetwork {
    /// The prefix length does not exceed the address width.
    pub open spec fn wf(self) -> bool {
        match self {
            IpNetwork::V4(_, p) => p <= 32,
            IpNetwork::V6(_, p) => p <= 128,
        }
    }

    /// Whether the network's address range contains the address: the same
    /// family, and agreement on the leading prefix bits.
    pub open spec fn spec_contains_ip(self, ip: IpAddress) -> bool {
        match (self, ip) {
            (IpNetwork::V4(net, p), IpAddress::V4(a)) => p == 0 || a >> ((32 - p) as u32) == net
                >> ((32 - p) as u32),
            (IpNetwork::V6(net, p), IpAddress::V6(a)) => p == 0 || a >> ((128 - p) as u128) == net
                >> ((128 - p) as u128),
            _ => false,
        }
    }

    /// Decides whether the network contains the address.
    pub fn contains_ip(&self, ip: &IpAddress) -> (r: bool)
        requires
            self.wf(),
        ensures
            r == self.spec_contains_ip(*ip),
    {
        match (self, ip) {
            (IpNetwork::V4(net, p), IpAddress::V4(a)) => {
                if *p == 0 {
                    true
                } else {
                    let sh: u32 = (32 - *p) as u32;
                    (*a >> sh) == (*net >> sh)
                }
            },
            (IpNetwork::V6(net, p), IpAddress::V6(a)) => {
                if *p == 0 {
                    true
                } else {
                    let sh: u128 = (128 - *p) as u128;
                    (*a >> sh) == (*net >> sh)
                }
            },
            _ => false,
        }
    }
}

/// A string that is either owned or borrowed from longer-lived data.
#[derive(Debug)]
pub enum CowStr<'a> {
    Owned(String),
    Borrowed(&'a str),
}

impl<'a> View for CowStr<'a> {
    type V = Seq<char>;

    open spec fn view(&self) -> Seq<char> {
        match self {
            CowStr::Owned(s) => s@,
            CowStr::Borrowed(s) => s@,
        }
    }
}

impl<'a> CowStr<'a> {
    /// The text, whoever owns it.
    pub fn as_str(&self) -> (r: &str)
        ensures
            r@ == self@,
    {
        match self {
            CowStr::Owned(s) => s.as_str(),
            CowStr::Borrowed(s) => s,
        }
    }

    /// An owned copy of the text.
    pub fn to_owned_str(&self) -> (r: CowStr<'static>)
        ensures
            r@ == self@,
            r is Owned,
    {
        CowStr::Owned(self.as_str().to_owned())
    }
}

/// A vector of plain values that is either owned or borrowed.
#[derive(Debug)]
pub enum CowSlice<'a, T> {
    Owned(Vec<T>),
    Borrowed(&'a [T]),
}

impl<'a, T> View for CowSlice<'a, T> {
    type V = Seq<T>;

    open spec fn view(&self) -> Seq<T> {
        match self {
            CowSlice::Owned(v) => v@,
            CowSlice::Borrowed(s) => s@,
        }
    }
}

impl<'a, T: Copy> CowSlice<'a, T> {
    /// The elements, whoever owns them.
    pub fn as_slice(&self) -> (r: &[T])
        ensures
            r@ == self@,
    {
        match self {
            CowSlice::Owned(v) => v.as_slice(),
            CowSlice::Borrowed(s) => s,
        }
    }

    /// An owned copy of the elements.
    pub fn to_owned_slice(&self) -> (r: CowSlice<'static, T>)
        ensures
            r@ == self@,
            r is Owned,
    {
        let s = self.as_slice();
        let n = s.len();
        let mut v: Vec<T> = Vec::new();
        let mut i: usize = 0;
        while i < n
            invariant
                n == s@.len(),
                i <= n,
                v@ == s@.take(i as int),
            decreases n - i,
        {
            v.push(s[i]);
            proof {
                assert(v@ =~= s@.take(i + 1));
            }
            i += 1;
        }
        proof {
            assert(s@.take(n as int) =~= s@);
        }
        CowSlice::Owned(v)
    }
}

/// A vector of strings that is either owned or borrowed.
#[derive(Debug)]
pub enum CowStrSlice<'a> {
    Owned(Vec<String>),
    Borrowed(&'a [String]),
}

impl<'a> View for CowStrSlice<'a> {
    type V = Seq<String>;

    open spec fn view(&self) -> Seq<String> {
        match self {
            CowStrSlice::Owned(v) => v@,
            CowStrSlice::Borrowed(s) => s@,
        }
    }
}

impl<'a> CowStrSlice<'a> {
    /// The strings, whoever owns them.
    pub fn as_slice(&self) -> (r: &[String])
        ensures
            r@ == self@,
    {
        match self {
            CowStrSlice::Owned(v) => v.as_slice(),
            CowStrSlice::Borrowed(s) => s,
        }
    }

    /// An owned copy of the strings; each copy spells the same text.
    pub fn to_owned_slice(&self) -> (r: CowStrSlice<'static>)
        ensures
            r is Owned,
            r@.len() == self@.len(),
            forall|i: int| 0 <= i < self@.len() ==> (#[trigger] r@[i]) == self@[i],
    {
        let s = self.as_slice();
        let n = s.len();
        let mut v: Vec<String> = Vec::new();
        let mut i: usize = 0;
        while i < n
            invariant
                n == s@.len(),
                i <= n,
                v@.len() == i,
                forall|j: int| 0 <= j < i ==> (#[trigger] v@[j]) == s@[j],
            decreases n - i,
        {
            v.push(s[i].clone());
            i += 1;
        }
        CowStrSlice::Owned(v)
    }
}

/// An element a vector variant can hold, with the equality its vector
/// operations use: plain equality for most, the total bit-class relation
/// for float bits, text equality for strings.
pub trait EqItem: Sized {
    /// The element equality relation.
    spec fn eqs(self, other: Self) -> bool;

    /// Decides the element equality relation.
    fn eq_item(&self, other: &Self) -> (r: bool)
        ensures
            r == self.eqs(*other),
    ;
}

impl EqItem for i64 {
    open spec fn eqs(self, other: i64) -> bool {
        self == other
    }

    fn eq_item(&self, other: &i64) -> bool {
        *self == *other
    }
}

/// Float bits compare by the total float relation, not bit-for-bit.
impl EqItem for u64 {
    open spec fn eqs(self, other: u64) -> bool {
        f64_eq(self, other)
    }

    fn eq_item(&self, other: &u64) -> bool {
        f64_eq_bits(*self, *other)
    }
}

impl EqItem for i128 {
    open spec fn eqs(self, other: i128) -> bool {
        self == other
    }

    fn eq_item(&self, other: &i128) -> bool {
        *self == *other
    }
}

impl EqItem for u128 {
    open spec fn eqs(self, other: u128) -> bool {
        self == other
    }

    fn eq_item(&self, other: &u128) -> bool {
        *self == *other
    }
}

impl EqItem for bool {
    open spec fn eqs(self, other: bool) -> bool {
        self == other
    }

    fn eq_item(&self, other: &bool) -> bool {
        *self == *other
    }
}

impl EqItem for IpAddress {
    open spec fn eqs(self, other: IpAddress) -> bool {
        self == other
    }

    fn eq_item(&self, other: &IpAddress) -> bool {
        *self == *other
    }
}

impl EqItem for IpNetwork {
    open spec fn eqs(self, other: IpNetwork) -> bool {
        self == other
    }

    fn eq_item(&self, other: &IpNetwork) -> bool {
        *self == *other
    }
}

/// Strings compare by their text.
impl EqItem for String {
    open spec fn eqs(self, other: String) -> bool {
        self@ == other@
    }

    fn eq_item(&self, other: &String) -> bool {
        *self == *other
    }
}

/// Element-wise agreement of two sequences under the element relation.
pub open spec fn seq_eqs<T: EqItem>(x: Seq<T>, y: Seq<T>) -> bool {
    x.len() == y.len() && forall|i: int| 0 <= i < x.len() ==> (#[trigger] x[i]).eqs(y[i])
}

/// Membership under the element relation.
pub open spec fn seq_has<T: EqItem>(x: Seq<T>, y: T) -> bool {
    exists|i: int| 0 <= i < x.len() && (#[trigger] x[i]).eqs(y)
}

/// Prefix agreement under the element relation.
pub open spec fn seq_prefix<T: EqItem>(x: Seq<T>, y: Seq<T>) -> bool {
    y.len() <= x.len() && forall|i: int| 0 <= i < y.len() ==> (#[trigger] x[i]).eqs(y[i])
}

/// Suffix agreement under the element relation.
pub open spec fn seq_suffix<T: EqItem>(x: Seq<T>, y: Seq<T>) -> bool {
    y.len() <= x.len() && forall|i: int|
        0 <= i < y.len() ==> (#[trigger] x[x.len() - y.len() + i]).eqs(y[i])
}

fn slice_eq<T: EqItem>(a: &[T], b: &[T]) -> (r: bool)
    ensures
        r == seq_eqs(a@, b@),
{
    let n = a.len();
    if n != b.len() {
        return false;
    }
    let mut i: usize = 0;
    while i < n
        invariant
            n == a@.len(),
            n == b@.len(),
            i <= n,
            forall|j: int| 0 <= j < i ==> (#[trigger] a@[j]).eqs(b@[j]),
        decreases n - i,
    {
        if !a[i].eq_item(&b[i]) {
            return false;
        }
        i += 1;
    }
    true
}

fn slice_has<T: EqItem>(a: &[T], x: &T) -> (r: bool)
    ensures
        r == seq_has(a@, *x),
{
    let n = a.len();
    let mut i: usize = 0;
    while i < n
        invariant
            n == a@.len(),
            i <= n,
            forall|j: int| 0 <= j < i ==> !(#[trigger] a@[j]).eqs(*x),
        decreases n - i,
    {
        if a[i].eq_item(x) {
            return true;
        }
        i += 1;
    }
    false
}

fn slice_prefix<T: EqItem>(a: &[T], b: &[T]) -> (r: bool)
    ensures
        r == seq_prefix(a@, b@),
{
    let m = b.len();
    if m > a.len() {
        return false;
    }
    let mut i: usize = 0;
    while i < m
        invariant
            m == b@.len(),
            m <= a@.len(),
            i <= m,
            forall|j: int| 0 <= j < i ==> (#[trigger] a@[j]).eqs(b@[j]),
        decreases m - i,
    {
        if !a[i].eq_item(&b[i]) {
            return false;
        }
        i += 1;
    }
    true
}

fn slice_suffix<T: EqItem>(a: &[T], b: &[T]) -> (r: bool)
    ensures
        r == seq_suffix(a@, b@),
{
    let m = b.len();
    let n = a.len();
    if m > n {
        return false;
    }
    let off = n - m;
    let mut i: usize = 0;
    while i < m
        invariant
            m == b@.len(),
            n == a@.len(),
            m <= n,
            off == n - m,
            i <= m,
            forall|j: int| 0 <= j < i ==> (#[trigger] a@[off + j]).eqs(b@[j]),
        decreases m - i,
    {
        if !a[off + i].eq_item(&b[i]) {
            return false;
        }
        i += 1;
    }
    true
}

/// Whether the needle occurs as a contiguous substring of the haystack.
pub open spec fn has_substring(h: Seq<char>, n: Seq<char>) -> bool {
    exists|i: int| 0 <= i && i + n.len() <= h.len() && #[trigger] h.subrange(i, i + n.len()) == n
}

/// Relies on str's PartialEq: true exactly when the two character
/// sequences are equal.
#[verifier::external_body]
fn str_eq(a: &str, b: &str) -> (r: bool)
    ensures
        r == (a@ == b@),
{
    a == b
}

/// Relies on str::contains with a string pattern: substring containment.
#[verifier::external_body]
fn str_contains(h: &str, n: &str) -> (r: bool)
    ensures
        r == has_substring(h@, n@),
{
    h.contains(n)
}

/// Relies on str::starts_with with a string pattern: prefix test.
#[verifier::external_body]
fn str_starts_with(h: &str, n: &str) -> (r: bool)
    ensures
        r == n@.is_prefix_of(h@),
{
    h.starts_with(n)
}

/// Relies on str::ends_with with a string pattern: suffix test.
#[verifier::external_body]
fn str_ends_with(h: &str, n: &str) -> (r: bool)
    ensures
        r == n@.is_suffix_of(h@),
{
    h.ends_with(n)
}

/// Whether two texts agree under locale-agnostic Unicode case folding.
pub uninterp spec fn uni_eq(a: Seq<char>, b: Seq<char>) -> bool;

/// Relies on unicase::UniCase equality in Unicode mode: true exactly when
/// the two strings agree under Unicode case folding.
#[verifier::external_body]
fn uni_eq_str(a: &str, b: &str) -> (r: bool)
    ensures
        r == uni_eq(a@, b@),
{
    unicase::UniCase::unicode(a) == unicase::UniCase::unicode(b)
}

/// The verdict of SQL-style case-insensitive LIKE matching of a text
/// against a pattern, where '%' and '_' are wildcards; false for a
/// pattern the matcher rejects.
pub uninterp spec fn ilike_of(text: Seq<char>, pattern: Seq<char>) -> bool;

/// Relies on the like crate's ILike for str, without escape handling:
/// SQL case-insensitive LIKE matching; a rejected pattern yields false.
#[verifier::external_body]
fn ilike_str(text: &str, pattern: &str) -> (r: bool)
    ensures
        r == ilike_of(text@, pattern@),
{
    like::ILike::<false>::ilike(text, pattern).unwrap_or_default()
}

/// The text with leading and trailing whitespace removed.
pub uninterp spec fn trim_of(s: Seq<char>) -> Seq<char>;

/// Relies on str::trim: the text without leading and trailing whitespace.
#[verifier::external_body]
fn str_trim(s: &str) -> (r: &str)
    ensures
        r@ == trim_of(s@),
{
    s.trim()
}

/// The Unicode lowercase form of the text.
pub uninterp spec fn lower_of(s: Seq<char>) -> Seq<char>;

/// Relies on str::to_lowercase: the result depends on the characters
/// alone.
#[verifier::external_body]
fn str_lower(s: &str) -> (r: String)
    ensures
        r@ == lower_of(s@),
{
    s.to_lowercase()
}

/// The Unicode uppercase form of the text.
pub uninterp spec fn upper_of(s: Seq<char>) -> Seq<char>;

/// Relies on str::to_uppercase: the result depends on the characters
/// alone.
#[verifier::external_body]
fn str_upper(s: &str) -> (r: String)
    ensures
        r@ == upper_of(s@),
{
    s.to_uppercase()
}

/// Whether the compiled pattern matches somewhere in the text.
pub uninterp spec fn regex_match(re: regex::Regex, s: Seq<char>) -> bool;

#[verifier::external_type_specification]
#[verifier::external_body]
pub struct ExRegex(regex::Regex);

/// Relies on regex::Regex::is_match: whether the pattern matches anywhere
/// in the haystack.
#[verifier::external_body]
fn regex_is_match(re: &regex::Regex, s: &str) -> (r: bool)
    ensures
        r == regex_match(*re, s@),
{
    re.is_match(s)
}

/// The bit pattern of the IEEE 754 sum of two 64-bit floats.
pub uninterp spec fn f64_add_bits(a: u64, b: u64) -> u64;

/// Relies on arrow's numeric add kernel: element-wise IEEE 754 addition
/// of one-element float columns built from the given bit patterns.
#[verifier::external_body]
fn f64_add(a: u64, b: u64) -> (r: u64)
    ensures
        r == f64_add_bits(a, b),
{
    let x = arrow::array::Float64Array::from(
        arrow::array::ArrayData::try_new(arrow::datatypes::DataType::Float64, 1, None, 0,
            vec![arrow::buffer::Buffer::from_vec(vec![a])], vec![]).unwrap(),
    );
    let y = arrow::array::Float64Array::from(
        arrow::array::ArrayData::try_new(arrow::datatypes::DataType::Float64, 1, None, 0,
            vec![arrow::buffer::Buffer::from_vec(vec![b])], vec![]).unwrap(),
    );
    let s = arrow::compute::kernels::numeric::add(&x, &y).unwrap();
    s.as_any().downcast_ref::<arrow::array::Float64Array>().unwrap().value(0).to_bits()
}

/// The bit pattern of the IEEE 754 difference of two 64-bit floats.
pub uninterp spec fn f64_sub_bits(a: u64, b: u64) -> u64;

/// Relies on arrow's numeric sub kernel: element-wise IEEE 754
/// subtraction of one-element float columns built from the bit patterns.
#[verifier::external_body]
fn f64_sub(a: u64, b: u64) -> (r: u64)
    ensures
        r == f64_sub_bits(a, b),
{
    let x = arrow::array::Float64Array::from(
        arrow::array::ArrayData::try_new(arrow::datatypes::DataType::Float64, 1, None, 0,
            vec![arrow::buffer::Buffer::from_vec(vec![a])], vec![]).unwrap(),
    );
    let y = arrow::array::Float64Array::from(
        arrow::array::ArrayData::try_new(arrow::datatypes::DataType::Float64, 1, None, 0,
            vec![arrow::buffer::Buffer::from_vec(vec![b])], vec![]).unwrap(),
    );
    let s = arrow::compute::kernels::numeric::sub(&x, &y).unwrap();
    s.as_any().downcast_ref::<arrow::array::Float64Array>().unwrap().value(0).to_bits()
}

/// The bit pattern of the IEEE 754 product of two 64-bit floats.
pub uninterp spec fn f64_mul_bits(a: u64, b: u64) -> u64;

/// Relies on arrow's numeric mul kernel: element-wise IEEE 754
/// multiplication of one-element float columns built from the bit
/// patterns.
#[verifier::external_body]
fn f64_mul(a: u64, b: u64) -> (r: u64)
    ensures
        r == f64_mul_bits(a, b),
{
    let x = arrow::array::Float64Array::from(
        arrow::array::ArrayData::try_new(arrow::datatypes::DataType::Float64, 1, None, 0,
            vec![arrow::buffer::Buffer::from_vec(vec![a])], vec![]).unwrap(),
    );
    let y = arrow::array::Float64Array::from(
        arrow::array::ArrayData::try_new(arrow::datatypes::DataType::Float64, 1, None, 0,
            vec![arrow::buffer::Buffer::from_vec(vec![b])], vec![]).unwrap(),
    );
    let s = arrow::compute::kernels::numeric::mul(&x, &y).unwrap();
    s.as_any().downcast_ref::<arrow::array::Float64Array>().unwrap().value(0).to_bits()
}

/// The bit pattern of the IEEE 754 quotient of two 64-bit floats with a
/// non-zero divisor.
pub uninterp spec fn f64_div_bits(a: u64, b: u64) -> u64;

/// Relies on arrow's numeric div kernel: element-wise IEEE 754 division
/// of one-element float columns built from the bit patterns. Division of
/// floats never errors; the caller keeps zero divisors out.
#[verifier::external_body]
fn f64_div(a: u64, b: u64) -> (r: u64)
    requires
        !is_zero_bits(b),
    ensures
        r == f64_div_bits(a, b),
{
    let x = arrow::array::Float64Array::from(
        arrow::array::ArrayData::try_new(arrow::datatypes::DataType::Float64, 1, None, 0,
            vec![arrow::buffer::Buffer::from_vec(vec![a])], vec![]).unwrap(),
    );
    let y = arrow::array::Float64Array::from(
        arrow::array::ArrayData::try_new(arrow::datatypes::DataType::Float64, 1, None, 0,
            vec![arrow::buffer::Buffer::from_vec(vec![b])], vec![]).unwrap(),
    );
    let s = arrow::compute::kernels::numeric::div(&x, &y).unwrap();
    s.as_any().downcast_ref::<arrow::array::Float64Array>().unwrap().value(0).to_bits()
}

fn uni_slice_eq(a: &[String], b: &[String]) -> (r: bool)
    ensures
        r == (a@.len() == b@.len() && forall|i: int|
            0 <= i < a@.len() ==> #[trigger] uni_eq(a@[i]@, b@[i]@)),
{
    let n = a.len();
    if n != b.len() {
        return false;
    }
    let mut i: usize = 0;
    while i < n
        invariant
            n == a@.len(),
            n == b@.len(),
            i <= n,
            forall|j: int| 0 <= j < i ==> #[trigger] uni_eq(a@[j]@, b@[j]@),
        decreases n - i,
    {
        if !uni_eq_str(a[i].as_str(), b[i].as_str()) {
            return false;
        }
        i += 1;
    }
    true
}

fn uni_slice_has(a: &[String], t: &str) -> (r: bool)
    ensures
        r == exists|i: int| 0 <= i < a@.len() && #[trigger] uni_eq(a@[i]@, t@),
{
    let n = a.len();
    let mut i: usize = 0;
    while i < n
        invariant
            n == a@.len(),
            i <= n,
            forall|j: int| 0 <= j < i ==> !(#[trigger] uni_eq(a@[j]@, t@)),
        decreases n - i,
    {
        if uni_eq_str(a[i].as_str(), t) {
            return true;
        }
        i += 1;
    }
    false
}

fn uni_slice_prefix(a: &[String], b: &[String]) -> (r: bool)
    ensures
        r == (b@.len() <= a@.len() && forall|i: int|
            0 <= i < b@.len() ==> #[trigger] uni_eq(a@[i]@, b@[i]@)),
{
    let m = b.len();
    if m > a.len() {
        return false;
    }
    let mut i: usize = 0;
    while i < m
        invariant
            m == b@.len(),
            m <= a@.len(),
            i <= m,
            forall|j: int| 0 <= j < i ==> #[trigger] uni_eq(a@[j]@, b@[j]@),
        decreases m - i,
    {
        if !uni_eq_str(a[i].as_str(), b[i].as_str()) {
            return false;
        }
        i += 1;
    }
    true
}

fn uni_slice_suffix(a: &[String], b: &[String]) -> (r: bool)
    ensures
        r == (b@.len() <= a@.len() && forall|i: int|
            0 <= i < b@.len() ==> #[trigger] uni_eq(a@[a@.len() - b@.len() + i]@, b@[i]@)),
{
    let m = b.len();
    let n = a.len();
    if m > n {
        return false;
    }
    let off = n - m;
    let mut i: usize = 0;
    while i < m
        invariant
            m == b@.len(),
            n == a@.len(),
            m <= n,
            off == n - m,
            i <= m,
            forall|j: int| 0 <= j < i ==> #[trigger] uni_eq(a@[off + j]@, b@[j]@),
        decreases m - i,
    {
        if !uni_eq_str(a[off + i].as_str(), b[i].as_str()) {
            return false;
        }
        i += 1;
    }
    true
}

fn str_slice_has_text(a: &[String], t: &str) -> (r: bool)
    ensures
        r == exists|i: int| 0 <= i < a@.len() && (#[trigger] a@[i])@ == t@,
{
    let n = a.len();
    let mut i: usize = 0;
    while i < n
        invariant
            n == a@.len(),
            i <= n,
            forall|j: int| 0 <= j < i ==> (#[trigger] a@[j])@ != t@,
        decreases n - i,
    {
        if str_eq(a[i].as_str(), t) {
            return true;
        }
        i += 1;
    }
    false
}

fn ipnet_slice_has_ip(a: &[IpNetwork], ip: &IpAddress) -> (r: bool)
    requires
        forall|i: int| 0 <= i < a@.len() ==> (#[trigger] a@[i]).wf(),
    ensures
        r == exists|i: int| 0 <= i < a@.len() && (#[trigger] a@[i]).spec_contains_ip(*ip),
{
    let n = a.len();
    let mut i: usize = 0;
    while i < n
        invariant
            n == a@.len(),
            i <= n,
            forall|j: int| 0 <= j < a@.len() ==> (#[trigger] a@[j]).wf(),
            forall|j: int| 0 <= j < i ==> !(#[trigger] a@[j]).spec_contains_ip(*ip),
        decreases n - i,
    {
        if a[i].contains_ip(ip) {
            return true;
        }
        i += 1;
    }
    false
}

/// A self-contained typed datum: a scalar or a homogeneous vector, either
/// owning its data or borrowing it from longer-lived storage.
#[derive(Debug)]
pub enum Value<'a> {
    Str(CowStr<'a>),
    VecStr(CowStrSlice<'a>),
    I64(i64),
    VecI64(CowSlice<'a, i64>),
    F64(u64),
    VecF64(CowSlice<'a, u64>),
    Timestamp(i128),
    VecTimestamp(CowSlice<'a, i128>),
    Ip(IpAddress),
    VecIp(CowSlice<'a, IpAddress>),
    IpNet(IpNetwork),
    VecIpNet(CowSlice<'a, IpNetwork>),
    Uuid(u128),
    VecUuid(CowSlice<'a, u128>),
    Bool(bool),
    VecBool(CowSlice<'a, bool>),
    Null,
}

impl<'a> Value<'a> {
    /// Every network held carries a valid prefix length.
    pub open spec fn wf(self) -> bool {
        match self {
            Value::IpNet(n) => n.wf(),
            Value::VecIpNet(v) => forall|i: int| 0 <= i < v@.len() ==> (#[trigger] v@[i]).wf(),
            _ => true,
        }
    }

    /// No variant borrows: all data is held by the value itself.
    pub open spec fn owned(self) -> bool {
        match self {
            Value::Str(s) => s is Owned,
            Value::VecStr(v) => v is Owned,
            Value::VecI64(v) => v is Owned,
            Value::VecF64(v) => v is Owned,
            Value::VecTimestamp(v) => v is Owned,
            Value::VecIp(v) => v is Owned,
            Value::VecIpNet(v) => v is Owned,
            Value::VecUuid(v) => v is Owned,
            Value::VecBool(v) => v is Owned,
            _ => true,
        }
    }
}

/// Exact agreement of the abstract contents of two values: the same
/// variant holding the same data, bit for bit, regardless of ownership.
pub open spec fn same_data(a: Value, b: Value) -> bool {
    match (a, b) {
        (Value::Str(l), Value::Str(r)) => l@ == r@,
        (Value::VecStr(l), Value::VecStr(r)) => l@.len() == r@.len() && forall|i: int|
            0 <= i < l@.len() ==> (#[trigger] l@[i])@ == r@[i]@,
        (Value::I64(l), Value::I64(r)) => l == r,
        (Value::VecI64(l), Value::VecI64(r)) => l@ == r@,
        (Value::F64(l), Value::F64(r)) => l == r,
        (Value::VecF64(l), Value::VecF64(r)) => l@ == r@,
        (Value::Timestamp(l), Value::Timestamp(r)) => l == r,
        (Value::VecTimestamp(l), Value::VecTimestamp(r)) => l@ == r@,
        (Value::Ip(l), Value::Ip(r)) => l == r,
        (Value::VecIp(l), Value::VecIp(r)) => l@ == r@,
        (Value::IpNet(l), Value::IpNet(r)) => l == r,
        (Value::VecIpNet(l), Value::VecIpNet(r)) => l@ == r@,
        (Value::Uuid(l), Value::Uuid(r)) => l == r,
        (Value::VecUuid(l), Value::VecUuid(r)) => l@ == r@,
        (Value::Bool(l), Value::Bool(r)) => l == r,
        (Value::VecBool(l), Value::VecBool(r)) => l@ == r@,
        (Value::Null, Value::Null) => true,
        _ => false,
    }
}

/// What equality of two values means: the same variant with equal
/// contents, text compared character for character and floats by the
/// total bit-class relation.
pub open spec fn spec_eq(a: Value, b: Value) -> bool {
    match (a, b) {
        (Value::Str(l), Value::Str(r)) => l@ == r@,
        (Value::VecStr(l), Value::VecStr(r)) => seq_eqs(l@, r@),
        (Value::I64(l), Value::I64(r)) => l == r,
        (Value::VecI64(l), Value::VecI64(r)) => seq_eqs(l@, r@),
        (Value::F64(l), Value::F64(r)) => f64_eq(l, r),
        (Value::VecF64(l), Value::VecF64(r)) => seq_eqs(l@, r@),
        (Value::Timestamp(l), Value::Timestamp(r)) => l == r,
        (Value::VecTimestamp(l), Value::VecTimestamp(r)) => seq_eqs(l@, r@),
        (Value::Ip(l), Value::Ip(r)) => l == r,
        (Value::VecIp(l), Value::VecIp(r)) => seq_eqs(l@, r@),
        (Value::IpNet(l), Value::IpNet(r)) => l == r,
        (Value::VecIpNet(l), Value::VecIpNet(r)) => seq_eqs(l@, r@),
        (Value::Uuid(l), Value::Uuid(r)) => l == r,
        (Value::VecUuid(l), Value::VecUuid(r)) => seq_eqs(l@, r@),
        (Value::Bool(l), Value::Bool(r)) => l == r,
        (Value::VecBool(l), Value::VecBool(r)) => seq_eqs(l@, r@),
        (Value::Null, Value::Null) => true,
        _ => false,
    }
}

/// Values with the same data are equal.
pub proof fn lemma_same_data_eq(a: Value, b: Value)
    requires
        same_data(a, b),
    ensures
        spec_eq(a, b),
{
}

/// Ownership conversions compose: a value carried through any chain of
/// data-preserving conversions, such as a borrowed view that is then made
/// owned again, comes back equal to the original, for every variant.
pub proof fn lemma_roundtrip_eq(a: Value, b: Value, c: Value)
    requires
        same_data(a, b),
        same_data(b, c),
    ensures
        same_data(a, c),
        spec_eq(a, c),
{
}

impl<'a> PartialEq for Value<'a> {
    fn eq(&self, other: &Value<'a>) -> (r: bool) {
        match (self, other) {
            (Value::Str(l), Value::Str(r)) => str_eq(l.as_str(), r.as_str()),
            (Value::VecStr(l), Value::VecStr(r)) => slice_eq(l.as_slice(), r.as_slice()),
            (Value::I64(l), Value::I64(r)) => *l == *r,
            (Value::VecI64(l), Value::VecI64(r)) => slice_eq(l.as_slice(), r.as_slice()),
            (Value::F64(l), Value::F64(r)) => f64_eq_bits(*l, *r),
            (Value::VecF64(l), Value::VecF64(r)) => slice_eq(l.as_slice(), r.as_slice()),
            (Value::Timestamp(l), Value::Timestamp(r)) => *l == *r,
            (Value::VecTimestamp(l), Value::VecTimestamp(r)) => slice_eq(
                l.as_slice(),
                r.as_slice(),
            ),
            (Value::Ip(l), Value::Ip(r)) => *l == *r,
            (Value::VecIp(l), Value::VecIp(r)) => slice_eq(l.as_slice(), r.as_slice()),
            (Value::IpNet(l), Value::IpNet(r)) => *l == *r,
            (Value::VecIpNet(l), Value::VecIpNet(r)) => slice_eq(l.as_slice(), r.as_slice()),
            (Value::Uuid(l), Value::Uuid(r)) => *l == *r,
            (Value::VecUuid(l), Value::VecUuid(r)) => slice_eq(l.as_slice(), r.as_slice()),
            (Value::Bool(l), Value::Bool(r)) => *l == *r,
            (Value::VecBool(l), Value::VecBool(r)) => slice_eq(l.as_slice(), r.as_slice()),
            (Value::Null, Value::Null) => true,
            _ => false,
        }
    }
}

impl<'a> vstd::std_specs::cmp::PartialEqSpecImpl for Value<'a> {
    open spec fn obeys_eq_spec() -> bool {
        true
    }

    open spec fn eq_spec(&self, other: &Value<'a>) -> bool {
        spec_eq(*self, *other)
    }
}

impl<'a> Value<'a> {
    /// A fully owned form of the value, with the same data; vector and
    /// string variants deep-copy, scalar variants pass through.
    pub fn into_owned(self) -> (r: Value<'static>)
        ensures
            same_data(self, r),
            r.owned(),
            r.wf() == self.wf(),
    {
        match self {
            Value::Str(v) => Value::Str(v.to_owned_str()),
            Value::VecStr(v) => Value::VecStr(v.to_owned_slice()),
            Value::I64(v) => Value::I64(v),
            Value::VecI64(v) => Value::VecI64(v.to_owned_slice()),
            Value::F64(v) => Value::F64(v),
            Value::VecF64(v) => Value::VecF64(v.to_owned_slice()),
            Value::Timestamp(v) => Value::Timestamp(v),
            Value::VecTimestamp(v) => Value::VecTimestamp(v.to_owned_slice()),
            Value::Ip(v) => Value::Ip(v),
            Value::VecIp(v) => Value::VecIp(v.to_owned_slice()),
            Value::IpNet(v) => Value::IpNet(v),
            Value::VecIpNet(v) => Value::VecIpNet(v.to_owned_slice()),
            Value::Uuid(v) => Value::Uuid(v),
            Value::VecUuid(v) => Value::VecUuid(v.to_owned_slice()),
            Value::Bool(v) => Value::Bool(v),
            Value::VecBool(v) => Value::VecBool(v.to_owned_slice()),
            Value::Null => Value::Null,
        }
    }

    /// A view of the value borrowing from it, with the same data; no data
    /// is copied.
    pub fn to_borrowed(&'a self) -> (r: Value<'a>)
        ensures
            same_data(*self, r),
            r.wf() == self.wf(),
    {
        let r = match self {
            Value::Str(v) => Value::Str(CowStr::Borrowed(v.as_str())),
            Value::VecStr(v) => Value::VecStr(CowStrSlice::Borrowed(v.as_slice())),
            Value::I64(v) => Value::I64(*v),
            Value::VecI64(v) => Value::VecI64(CowSlice::Borrowed(v.as_slice())),
            Value::F64(v) => Value::F64(*v),
            Value::VecF64(v) => Value::VecF64(CowSlice::Borrowed(v.as_slice())),
            Value::Timestamp(v) => Value::Timestamp(*v),
            Value::VecTimestamp(v) => Value::VecTimestamp(CowSlice::Borrowed(v.as_slice())),
            Value::Ip(v) => Value::Ip(*v),
            Value::VecIp(v) => Value::VecIp(CowSlice::Borrowed(v.as_slice())),
            Value::IpNet(v) => Value::IpNet(*v),
            Value::VecIpNet(v) => Value::VecIpNet(CowSlice::Borrowed(v.as_slice())),
            Value::Uuid(v) => Value::Uuid(*v),
            Value::VecUuid(v) => Value::VecUuid(CowSlice::Borrowed(v.as_slice())),
            Value::Bool(v) => Value::Bool(*v),
            Value::VecBool(v) => Value::VecBool(CowSlice::Borrowed(v.as_slice())),
            Value::Null => Value::Null,
        };
        proof {
            match (self, &r) {
                (Value::VecIpNet(l), Value::VecIpNet(rr)) => {
                    assert(rr@ == l@);
                    assert forall|i: int| 0 <= i < rr@.len() && l@[i].wf() implies (
                    #[trigger] rr@[i]).wf() by {}
                    assert forall|i: int| 0 <= i < l@.len() && rr@[i].wf() implies (
                    #[trigger] l@[i]).wf() by {}
                },
                _ => {},
            }
        }
        r
    }
}

/// A LIKE pattern matching the needle anywhere: '%' on both sides.
pub open spec fn contains_pattern(n: Seq<char>) -> Seq<char> {
    seq!['%'] + n + seq!['%']
}

/// A LIKE pattern matching the needle as a prefix: '%' appended.
pub open spec fn starts_pattern(n: Seq<char>) -> Seq<char> {
    n + seq!['%']
}

/// A LIKE pattern matching the needle as a suffix: '%' prepended.
pub open spec fn ends_pattern(n: Seq<char>) -> Seq<char> {
    seq!['%'] + n
}

fn pat_contains(n: &str) -> (r: String)
    ensures
        r@ == contains_pattern(n@),
{
    let mut p = String::new();
    p.append("%");
    p.append(n);
    p.append("%");
    proof {
        reveal_strlit("%");
        assert(p@ =~= contains_pattern(n@));
    }
    p
}

fn pat_starts(n: &str) -> (r: String)
    ensures
        r@ == starts_pattern(n@),
{
    let mut p = String::new();
    p.append(n);
    p.append("%");
    proof {
        reveal_strlit("%");
        assert(p@ =~= starts_pattern(n@));
    }
    p
}

fn pat_ends(n: &str) -> (r: String)
    ensures
        r@ == ends_pattern(n@),
{
    let mut p = String::new();
    p.append("%");
    p.append(n);
    proof {
        reveal_strlit("%");
        assert(p@ =~= ends_pattern(n@));
    }
    p
}

/// Case-folded equality: two strings, or two equally long string vectors
/// element-wise; every other pairing is unequal.
pub open spec fn spec_eq_fold(a: Value, b: Value) -> bool {
    match (a, b) {
        (Value::Str(l), Value::Str(r)) => uni_eq(l@, r@),
        (Value::VecStr(l), Value::VecStr(r)) => l@.len() == r@.len() && forall|i: int|
            0 <= i < l@.len() ==> #[trigger] uni_eq(l@[i]@, r@[i]@),
        _ => false,
    }
}

/// Containment: a substring, an exact element of a same-typed vector, an
/// address in a network, or a network or address within a vector of
/// networks; every other pairing is false.
pub open spec fn spec_contains(a: Value, b: Value) -> bool {
    match (a, b) {
        (Value::Str(l), Value::Str(r)) => has_substring(l@, r@),
        (Value::VecStr(l), Value::Str(r)) => exists|i: int|
            0 <= i < l@.len() && (#[trigger] l@[i])@ == r@,
        (Value::VecI64(l), Value::I64(r)) => seq_has(l@, r),
        (Value::VecF64(l), Value::F64(r)) => seq_has(l@, r),
        (Value::VecTimestamp(l), Value::Timestamp(r)) => seq_has(l@, r),
        (Value::VecIp(l), Value::Ip(r)) => seq_has(l@, r),
        (Value::IpNet(l), Value::Ip(r)) => l.spec_contains_ip(r),
        (Value::VecIpNet(l), Value::Ip(r)) => exists|i: int|
            0 <= i < l@.len() && (#[trigger] l@[i]).spec_contains_ip(r),
        (Value::VecIpNet(l), Value::IpNet(r)) => seq_has(l@, r),
        (Value::VecUuid(l), Value::Uuid(r)) => seq_has(l@, r),
        (Value::VecBool(l), Value::Bool(r)) => seq_has(l@, r),
        _ => false,
    }
}

/// Case-folded containment: case-insensitive substring for two strings,
/// or case-folded membership of a string in a string vector.
pub open spec fn spec_contains_fold(a: Value, b: Value) -> bool {
    match (a, b) {
        (Value::Str(l), Value::Str(r)) => ilike_of(l@, contains_pattern(r@)),
        (Value::VecStr(l), Value::Str(r)) => exists|i: int|
            0 <= i < l@.len() && #[trigger] uni_eq(l@[i]@, r@),
        _ => false,
    }
}

/// Prefix: a string prefix, a scalar equal to a vector's first element,
/// or a vector that starts with another vector of the same element type.
pub open spec fn spec_starts_with(a: Value, b: Value) -> bool {
    match (a, b) {
        (Value::Str(l), Value::Str(r)) => r@.is_prefix_of(l@),
        (Value::VecStr(l), Value::Str(r)) => l@.len() > 0 && l@[0]@ == r@,
        (Value::VecStr(l), Value::VecStr(r)) => seq_prefix(l@, r@),
        (Value::VecI64(l), Value::I64(r)) => l@.len() > 0 && l@[0] == r,
        (Value::VecI64(l), Value::VecI64(r)) => seq_prefix(l@, r@),
        (Value::VecF64(l), Value::F64(r)) => l@.len() > 0 && f64_eq(l@[0], r),
        (Value::VecF64(l), Value::VecF64(r)) => seq_prefix(l@, r@),
        (Value::VecTimestamp(l), Value::Timestamp(r)) => l@.len() > 0 && l@[0] == r,
        (Value::VecTimestamp(l), Value::VecTimestamp(r)) => seq_prefix(l@, r@),
        (Value::VecIp(l), Value::Ip(r)) => l@.len() > 0 && l@[0] == r,
        (Value::VecIp(l), Value::VecIp(r)) => seq_prefix(l@, r@),
        (Value::VecUuid(l), Value::Uuid(r)) => l@.len() > 0 && l@[0] == r,
        (Value::VecUuid(l), Value::VecUuid(r)) => seq_prefix(l@, r@),
        (Value::VecBool(l), Value::Bool(r)) => l@.len() > 0 && l@[0] == r,
        (Value::VecBool(l), Value::VecBool(r)) => seq_prefix(l@, r@),
        _ => false,
    }
}

/// Case-folded prefix: case-insensitive prefix matching for two strings,
/// the case-folded first element for a string vector and a string, or a
/// case-folded vector prefix.
pub open spec fn spec_starts_with_fold(a: Value, b: Value) -> bool {
    match (a, b) {
        (Value::Str(l), Value::Str(r)) => ilike_of(l@, starts_pattern(r@)),
        (Value::VecStr(l), Value::Str(r)) => l@.len() > 0 && uni_eq(l@[0]@, r@),
        (Value::VecStr(l), Value::VecStr(r)) => r@.len() <= l@.len() && forall|i: int|
            0 <= i < r@.len() ==> #[trigger] uni_eq(l@[i]@, r@[i]@),
        _ => false,
    }
}

/// Suffix: a string suffix, a scalar equal to a vector's last element, or
/// a vector that ends with another vector of the same element type.
pub open spec fn spec_ends_with(a: Value, b: Value) -> bool {
    match (a, b) {
        (Value::Str(l), Value::Str(r)) => r@.is_suffix_of(l@),
        (Value::VecStr(l), Value::Str(r)) => l@.len() > 0 && l@[l@.len() - 1]@ == r@,
        (Value::VecStr(l), Value::VecStr(r)) => seq_suffix(l@, r@),
        (Value::VecI64(l), Value::I64(r)) => l@.len() > 0 && l@[l@.len() - 1] == r,
        (Value::VecI64(l), Value::VecI64(r)) => seq_suffix(l@, r@),
        (Value::VecF64(l), Value::F64(r)) => l@.len() > 0 && f64_eq(l@[l@.len() - 1], r),
        (Value::VecF64(l), Value::VecF64(r)) => seq_suffix(l@, r@),
        (Value::VecTimestamp(l), Value::Timestamp(r)) => l@.len() > 0 && l@[l@.len() - 1] == r,
        (Value::VecTimestamp(l), Value::VecTimestamp(r)) => seq_suffix(l@, r@),
        (Value::VecIp(l), Value::Ip(r)) => l@.len() > 0 && l@[l@.len() - 1] == r,
        (Value::VecIp(l), Value::VecIp(r)) => seq_suffix(l@, r@),
        (Value::VecUuid(l), Value::Uuid(r)) => l@.len() > 0 && l@[l@.len() - 1] == r,
        (Value::VecUuid(l), Value::VecUuid(r)) => seq_suffix(l@, r@),
        (Value::VecBool(l), Value::Bool(r)) => l@.len() > 0 && l@[l@.len() - 1] == r,
        (Value::VecBool(l), Value::VecBool(r)) => seq_suffix(l@, r@),
        _ => false,
    }
}

/// Case-folded suffix: case-insensitive suffix matching for two strings,
/// the case-folded last element for a string vector and a string, or a
/// case-folded vector suffix.
pub open spec fn spec_ends_with_fold(a: Value, b: Value) -> bool {
    match (a, b) {
        (Value::Str(l), Value::Str(r)) => ilike_of(l@, ends_pattern(r@)),
        (Value::VecStr(l), Value::Str(r)) => l@.len() > 0 && uni_eq(l@[l@.len() - 1]@, r@),
        (Value::VecStr(l), Value::VecStr(r)) => r@.len() <= l@.len() && forall|i: int|
            0 <= i < r@.len() ==> #[trigger] uni_eq(l@[l@.len() - r@.len() + i]@, r@[i]@),
        _ => false,
    }
}

/// Whether the value is a string that the compiled pattern matches.
pub open spec fn spec_matches(v: Value, re: regex::Regex) -> bool {
    match v {
        Value::Str(s) => regex_match(re, s@),
        _ => false,
    }
}

/// Addition: saturating for two integers, IEEE 754 for two floats, null
/// for every other pairing.
pub open spec fn spec_add<'a, 'b>(a: Value<'a>, b: Value<'b>) -> Value<'static> {
    match (a, b) {
        (Value::I64(l), Value::I64(r)) => Value::I64(sat_i64(l + r)),
        (Value::F64(l), Value::F64(r)) => Value::F64(f64_add_bits(l, r)),
        _ => Value::Null,
    }
}

/// Subtraction: saturating for two integers, IEEE 754 for two floats,
/// null for every other pairing.
pub open spec fn spec_sub<'a, 'b>(a: Value<'a>, b: Value<'b>) -> Value<'static> {
    match (a, b) {
        (Value::I64(l), Value::I64(r)) => Value::I64(sat_i64(l - r)),
        (Value::F64(l), Value::F64(r)) => Value::F64(f64_sub_bits(l, r)),
        _ => Value::Null,
    }
}

/// Multiplication: saturating for two integers, IEEE 754 for two floats,
/// null for every other pairing.
pub open spec fn spec_mul<'a, 'b>(a: Value<'a>, b: Value<'b>) -> Value<'static> {
    match (a, b) {
        (Value::I64(l), Value::I64(r)) => Value::I64(sat_i64(l * r)),
        (Value::F64(l), Value::F64(r)) => Value::F64(f64_mul_bits(l, r)),
        _ => Value::Null,
    }
}

/// Division: truncating and saturating for two integers, IEEE 754 for two
/// floats; division by zero of either kind yields null, as does every
/// other pairing.
pub open spec fn spec_div<'a, 'b>(a: Value<'a>, b: Value<'b>) -> Value<'static> {
    match (a, b) {
        (Value::I64(l), Value::I64(r)) => if r != 0 {
            Value::I64(sat_i64(trunc_div_i64(l, r)))
        } else {
            Value::Null
        },
        (Value::F64(l), Value::F64(r)) => if !is_zero_bits(r) {
            Value::F64(f64_div_bits(l, r))
        } else {
            Value::Null
        },
        _ => Value::Null,
    }
}

impl<'a> Value<'a> {
    /// Case-folded equality of two strings or two string vectors.
    pub fn eq_fold(&self, other: &Value) -> (r: bool)
        ensures
            r == spec_eq_fold(*self, *other),
    {
        match (self, other) {
            (Value::Str(l), Value::Str(r)) => uni_eq_str(l.as_str(), r.as_str()),
            (Value::VecStr(l), Value::VecStr(r)) => uni_slice_eq(l.as_slice(), r.as_slice()),
            _ => false,
        }
    }

    /// Containment, as `spec_contains` states it.
    pub fn contains(&self, other: &Value) -> (r: bool)
        requires
            self.wf(),
        ensures
            r == spec_contains(*self, *other),
    {
        match (self, other) {
            (Value::Str(l), Value::Str(r)) => str_contains(l.as_str(), r.as_str()),
            (Value::VecStr(l), Value::Str(r)) => str_slice_has_text(l.as_slice(), r.as_str()),
            (Value::VecI64(l), Value::I64(r)) => slice_has(l.as_slice(), r),
            (Value::VecF64(l), Value::F64(r)) => slice_has(l.as_slice(), r),
            (Value::VecTimestamp(l), Value::Timestamp(r)) => slice_has(l.as_slice(), r),
            (Value::VecIp(l), Value::Ip(r)) => slice_has(l.as_slice(), r),
            (Value::IpNet(l), Value::Ip(r)) => l.contains_ip(r),
            (Value::VecIpNet(l), Value::Ip(r)) => ipnet_slice_has_ip(l.as_slice(), r),
            (Value::VecIpNet(l), Value::IpNet(r)) => slice_has(l.as_slice(), r),
            (Value::VecUuid(l), Value::Uuid(r)) => slice_has(l.as_slice(), r),
            (Value::VecBool(l), Value::Bool(r)) => slice_has(l.as_slice(), r),
            _ => false,
        }
    }

    /// Case-folded containment of strings.
    pub fn contains_fold(&self, other: &Value) -> (r: bool)
        ensures
            r == spec_contains_fold(*self, *other),
    {
        match (self, other) {
            (Value::Str(l), Value::Str(r)) => {
                let p = pat_contains(r.as_str());
                ilike_str(l.as_str(), p.as_str())
            },
            (Value::VecStr(l), Value::Str(r)) => uni_slice_has(l.as_slice(), r.as_str()),
            _ => false,
        }
    }

    /// Exact prefix, as `spec_starts_with` states it.
    pub fn starts_with(&self, other: &Value) -> (r: bool)
        ensures
            r == spec_starts_with(*self, *other),
    {
        match (self, other) {
            (Value::Str(l), Value::Str(r)) => str_starts_with(l.as_str(), r.as_str()),
            (Value::VecStr(l), Value::Str(r)) => {
                let s = l.as_slice();
                if s.len() > 0 {
                    str_eq(s[0].as_str(), r.as_str())
                } else {
                    false
                }
            },
            (Value::VecStr(l), Value::VecStr(r)) => slice_prefix(l.as_slice(), r.as_slice()),
            (Value::VecI64(l), Value::I64(r)) => {
                let s = l.as_slice();
                s.len() > 0 && s[0] == *r
            },
            (Value::VecI64(l), Value::VecI64(r)) => slice_prefix(l.as_slice(), r.as_slice()),
            (Value::VecF64(l), Value::F64(r)) => {
                let s = l.as_slice();
                if s.len() > 0 {
                    f64_eq_bits(s[0], *r)
                } else {
                    false
                }
            },
            (Value::VecF64(l), Value::VecF64(r)) => slice_prefix(l.as_slice(), r.as_slice()),
            (Value::VecTimestamp(l), Value::Timestamp(r)) => {
                let s = l.as_slice();
                s.len() > 0 && s[0] == *r
            },
            (Value::VecTimestamp(l), Value::VecTimestamp(r)) => slice_prefix(
                l.as_slice(),
                r.as_slice(),
            ),
            (Value::VecIp(l), Value::Ip(r)) => {
                let s = l.as_slice();
                s.len() > 0 && s[0] == *r
            },
            (Value::VecIp(l), Value::VecIp(r)) => slice_prefix(l.as_slice(), r.as_slice()),
            (Value::VecUuid(l), Value::Uuid(r)) => {
                let s = l.as_slice();
                s.len() > 0 && s[0] == *r
            },
            (Value::VecUuid(l), Value::VecUuid(r)) => slice_prefix(l.as_slice(), r.as_slice()),
            (Value::VecBool(l), Value::Bool(r)) => {
                let s = l.as_slice();
                s.len() > 0 && s[0] == *r
            },
            (Value::VecBool(l), Value::VecBool(r)) => slice_prefix(l.as_slice(), r.as_slice()),
            _ => false,
        }
    }

    /// Case-folded prefix of strings.
    pub fn starts_with_fold(&self, other: &Value) -> (r: bool)
        ensures
            r == spec_starts_with_fold(*self, *other),
    {
        match (self, other) {
            (Value::Str(l), Value::Str(r)) => {
                let p = pat_starts(r.as_str());
                ilike_str(l.as_str(), p.as_str())
            },
            (Value::VecStr(l), Value::Str(r)) => {
                let s = l.as_slice();
                if s.len() > 0 {
                    uni_eq_str(s[0].as_str(), r.as_str())
                } else {
                    false
                }
            },
            (Value::VecStr(l), Value::VecStr(r)) => uni_slice_prefix(l.as_slice(), r.as_slice()),
            _ => false,
        }
    }

    /// Exact suffix, as `spec_ends_with` states it.
    pub fn ends_with(&self, other: &Value) -> (r: bool)
        ensures
            r == spec_ends_with(*self, *other),
    {
        match (self, other) {
            (Value::Str(l), Value::Str(r)) => str_ends_with(l.as_str(), r.as_str()),
            (Value::VecStr(l), Value::Str(r)) => {
                let s = l.as_slice();
                if s.len() > 0 {
                    str_eq(s[s.len() - 1].as_str(), r.as_str())
                } else {
                    false
                }
            },
            (Value::VecStr(l), Value::VecStr(r)) => slice_suffix(l.as_slice(), r.as_slice()),
            (Value::VecI64(l), Value::I64(r)) => {
                let s = l.as_slice();
                s.len() > 0 && s[s.len() - 1] == *r
            },
            (Value::VecI64(l), Value::VecI64(r)) => slice_suffix(l.as_slice(), r.as_slice()),
            (Value::VecF64(l), Value::F64(r)) => {
                let s = l.as_slice();
                if s.len() > 0 {
                    f64_eq_bits(s[s.len() - 1], *r)
                } else {
                    false
                }
            },
            (Value::VecF64(l), Value::VecF64(r)) => slice_suffix(l.as_slice(), r.as_slice()),
            (Value::VecTimestamp(l), Value::Timestamp(r)) => {
                let s = l.as_slice();
                s.len() > 0 && s[s.len() - 1] == *r
            },
            (Value::VecTimestamp(l), Value::VecTimestamp(r)) => slice_suffix(
                l.as_slice(),
                r.as_slice(),
            ),
            (Value::VecIp(l), Value::Ip(r)) => {
                let s = l.as_slice();
                s.len() > 0 && s[s.len() - 1] == *r
            },
            (Value::VecIp(l), Value::VecIp(r)) => slice_suffix(l.as_slice(), r.as_slice()),
            (Value::VecUuid(l), Value::Uuid(r)) => {
                let s = l.as_slice();
                s.len() > 0 && s[s.len() - 1] == *r
            },
            (Value::VecUuid(l), Value::VecUuid(r)) => slice_suffix(l.as_slice(), r.as_slice()),
            (Value::VecBool(l), Value::Bool(r)) => {
                let s = l.as_slice();
                s.len() > 0 && s[s.len() - 1] == *r
            },
            (Value::VecBool(l), Value::VecBool(r)) => slice_suffix(l.as_slice(), r.as_slice()),
            _ => false,
        }
    }

    /// Case-folded suffix of strings.
    pub fn ends_with_fold(&self, other: &Value) -> (r: bool)
        ensures
            r == spec_ends_with_fold(*self, *other),
    {
        match (self, other) {
            (Value::Str(l), Value::Str(r)) => {
                let p = pat_ends(r.as_str());
                ilike_str(l.as_str(), p.as_str())
            },
            (Value::VecStr(l), Value::Str(r)) => {
                let s = l.as_slice();
                if s.len() > 0 {
                    uni_eq_str(s[s.len() - 1].as_str(), r.as_str())
                } else {
                    false
                }
            },
            (Value::VecStr(l), Value::VecStr(r)) => uni_slice_suffix(l.as_slice(), r.as_slice()),
            _ => false,
        }
    }

    /// Applies a precompiled regular expression to a string value; any
    /// other variant is a non-match.
    pub fn matches(&self, re: &regex::Regex) -> (r: bool)
        ensures
            r == spec_matches(*self, *re),
    {
        match self {
            Value::Str(s) => regex_is_match(re, s.as_str()),
            _ => false,
        }
    }

    /// Addition, as `spec_add` states it.
    pub fn add(&self, other: &Value) -> (r: Value<'static>)
        ensures
            r == spec_add(*self, *other),
    {
        match (self, other) {
            (Value::I64(l), Value::I64(r)) => Value::I64(sat_add_i64(*l, *r)),
            (Value::F64(l), Value::F64(r)) => Value::F64(f64_add(*l, *r)),
            _ => Value::Null,
        }
    }

    /// Subtraction, as `spec_sub` states it.
    pub fn sub(&self, other: &Value) -> (r: Value<'static>)
        ensures
            r == spec_sub(*self, *other),
    {
        match (self, other) {
            (Value::I64(l), Value::I64(r)) => Value::I64(sat_sub_i64(*l, *r)),
            (Value::F64(l), Value::F64(r)) => Value::F64(f64_sub(*l, *r)),
            _ => Value::Null,
        }
    }

    /// Multiplication, as `spec_mul` states it.
    pub fn mul(&self, other: &Value) -> (r: Value<'static>)
        ensures
            r == spec_mul(*self, *other),
    {
        match (self, other) {
            (Value::I64(l), Value::I64(r)) => Value::I64(sat_mul_i64(*l, *r)),
            (Value::F64(l), Value::F64(r)) => Value::F64(f64_mul(*l, *r)),
            _ => Value::Null,
        }
    }

    /// Division, as `spec_div` states it: division by zero yields null.
    pub fn div(&self, other: &Value) -> (r: Value<'static>)
        ensures
            r == spec_div(*self, *other),
    {
        match (self, other) {
            (Value::I64(l), Value::I64(r)) => {
                if *r != 0 {
                    Value::I64(sat_div_i64(*l, *r))
                } else {
                    Value::Null
                }
            },
            (Value::F64(l), Value::F64(r)) => {
                if *r != 0 && *r != NEG_ZERO_BITS {
                    Value::F64(f64_div(*l, *r))
                } else {
                    Value::Null
                }
            },
            _ => Value::Null,
        }
    }

    /// The string without leading and trailing whitespace; any other
    /// variant yields null.
    pub fn trim(&self) -> (r: Value<'static>)
        ensures
            match *self {
                Value::Str(s) => r matches Value::Str(t) && t@ == trim_of(s@) && t is Owned,
                _ => r is Null,
            },
    {
        match self {
            Value::Str(s) => Value::Str(CowStr::Owned(str_trim(s.as_str()).to_owned())),
            _ => Value::Null,
        }
    }

    /// The string in Unicode lowercase; any other variant yields null.
    pub fn to_lowercase(&self) -> (r: Value<'static>)
        ensures
            match *self {
                Value::Str(s) => r matches Value::Str(t) && t@ == lower_of(s@) && t is Owned,
                _ => r is Null,
            },
    {
        match self {
            Value::Str(s) => Value::Str(CowStr::Owned(str_lower(s.as_str()))),
            _ => Value::Null,
        }
    }

    /// The string in Unicode uppercase; any other variant yields null.
    pub fn to_uppercase(&self) -> (r: Value<'static>)
        ensures
            match *self {
                Value::Str(s) => r matches Value::Str(t) && t@ == upper_of(s@) && t is Owned,
                _ => r is Null,
            },
    {
        match self {
            Value::Str(s) => Value::Str(CowStr::Owned(str_upper(s.as_str()))),
            _ => Value::Null,
        }
    }
}


// Plain values convert into the matching variant: owned data makes an
// owned value, borrowed data a borrowed one. Timestamps arrive as
// nanoseconds (i128) and unique identifiers as u128; float bits are built
// directly as variants, since the pattern alone tells them apart from
// whole numbers.

impl From<String> for Value<'static> {
    fn from(value: String) -> (r: Value<'static>) {
        Value::Str(CowStr::Owned(value))
    }
}

impl vstd::std_specs::convert::FromSpecImpl<String> for Value<'static> {
    open spec fn obeys_from_spec() -> bool {
        true
    }

    open spec fn from_spec(v: String) -> Value<'static> {
        Value::Str(CowStr::Owned(v))
    }
}

impl From<Vec<String>> for Value<'static> {
    fn from(value: Vec<String>) -> (r: Value<'static>) {
        Value::VecStr(CowStrSlice::Owned(value))
    }
}

impl vstd::std_specs::convert::FromSpecImpl<Vec<String>> for Value<'static> {
    open spec fn obeys_from_spec() -> bool {
        true
    }

    open spec fn from_spec(v: Vec<String>) -> Value<'static> {
        Value::VecStr(CowStrSlice::Owned(v))
    }
}

impl From<i64> for Value<'static> {
    fn from(value: i64) -> (r: Value<'static>) {
        Value::I64(value)
    }
}

impl vstd::std_specs::convert::FromSpecImpl<i64> for Value<'static> {
    open spec fn obeys_from_spec() -> bool {
        true
    }

    open spec fn from_spec(v: i64) -> Value<'static> {
        Value::I64(v)
    }
}

impl From<Vec<i64>> for Value<'static> {
    fn from(value: Vec<i64>) -> (r: Value<'static>) {
        Value::VecI64(CowSlice::Owned(value))
    }
}

impl vstd::std_specs::convert::FromSpecImpl<Vec<i64>> for Value<'static> {
    open spec fn obeys_from_spec() -> bool {
        true
    }

    open spec fn from_spec(v: Vec<i64>) -> Value<'static> {
        Value::VecI64(CowSlice::Owned(v))
    }
}

impl From<i128> for Value<'static> {
    fn from(value: i128) -> (r: Value<'static>) {
        Value::Timestamp(value)
    }
}

impl vstd::std_specs::convert::FromSpecImpl<i128> for Value<'static> {
    open spec fn obeys_from_spec() -> bool {
        true
    }

    open spec fn from_spec(v: i128) -> Value<'static> {
        Value::Timestamp(v)
    }
}

impl From<Vec<i128>> for Value<'static> {
    fn from(value: Vec<i128>) -> (r: Value<'static>) {
        Value::VecTimestamp(CowSlice::Owned(value))
    }
}

impl vstd::std_specs::convert::FromSpecImpl<Vec<i128>> for Value<'static> {
    open spec fn obeys_from_spec() -> bool {
        true
    }

    open spec fn from_spec(v: Vec<i128>) -> Value<'static> {
        Value::VecTimestamp(CowSlice::Owned(v))
    }
}

impl From<IpAddress> for Value<'static> {
    fn from(value: IpAddress) -> (r: Value<'static>) {
        Value::Ip(value)
    }
}

impl vstd::std_specs::convert::FromSpecImpl<IpAddress> for Value<'static> {
    open spec fn obeys_from_spec() -> bool {
        true
    }

    open spec fn from_spec(v: IpAddress) -> Value<'static> {
        Value::Ip(v)
    }
}

impl From<Vec<IpAddress>> for Value<'static> {
    fn from(value: Vec<IpAddress>) -> (r: Value<'static>) {
        Value::VecIp(CowSlice::Owned(value))
    }
}

impl vstd::std_specs::convert::FromSpecImpl<Vec<IpAddress>> for Value<'static> {
    open spec fn obeys_from_spec() -> bool {
        true
    }

    open spec fn from_spec(v: Vec<IpAddress>) -> Value<'static> {
        Value::VecIp(CowSlice::Owned(v))
    }
}

impl From<Vec<IpNetwork>> for Value<'static> {
    fn from(value: Vec<IpNetwork>) -> (r: Value<'static>) {
        Value::VecIpNet(CowSlice::Owned(value))
    }
}

impl vstd::std_specs::convert::FromSpecImpl<Vec<IpNetwork>> for Value<'static> {
    open spec fn obeys_from_spec() -> bool {
        true
    }

    open spec fn from_spec(v: Vec<IpNetwork>) -> Value<'static> {
        Value::VecIpNet(CowSlice::Owned(v))
    }
}

impl From<u128> for Value<'static> {
    fn from(value: u128) -> (r: Value<'static>) {
        Value::Uuid(value)
    }
}

impl vstd::std_specs::convert::FromSpecImpl<u128> for Value<'static> {
    open spec fn obeys_from_spec() -> bool {
        true
    }

    open spec fn from_spec(v: u128) -> Value<'static> {
        Value::Uuid(v)
    }
}

impl From<Vec<u128>> for Value<'static> {
    fn from(value: Vec<u128>) -> (r: Value<'static>) {
        Value::VecUuid(CowSlice::Owned(value))
    }
}

impl vstd::std_specs::convert::FromSpecImpl<Vec<u128>> for Value<'static> {
    open spec fn obeys_from_spec() -> bool {
        true
    }

    open spec fn from_spec(v: Vec<u128>) -> Value<'static> {
        Value::VecUuid(CowSlice::Owned(v))
    }
}

impl From<bool> for Value<'static> {
    fn from(value: bool) -> (r: Value<'static>) {
        Value::Bool(value)
    }
}

impl vstd::std_specs::convert::FromSpecImpl<bool> for Value<'static> {
    open spec fn obeys_from_spec() -> bool {
        true
    }

    open spec fn from_spec(v: bool) -> Value<'static> {
        Value::Bool(v)
    }
}

impl From<Vec<bool>> for Value<'static> {
    fn from(value: Vec<bool>) -> (r: Value<'static>) {
        Value::VecBool(CowSlice::Owned(value))
    }
}

impl vstd::std_specs::convert::FromSpecImpl<Vec<bool>> for Value<'static> {
    open spec fn obeys_from_spec() -> bool {
        true
    }

    open spec fn from_spec(v: Vec<bool>) -> Value<'static> {
        Value::VecBool(CowSlice::Owned(v))
    }
}

impl<'a> From<&'a str> for Value<'a> {
    fn from(value: &'a str) -> (r: Value<'a>) {
        Value::Str(CowStr::Borrowed(value))
    }
}

impl<'a> vstd::std_specs::convert::FromSpecImpl<&'a str> for Value<'a> {
    open spec fn obeys_from_spec() -> bool {
        true
    }

    open spec fn from_spec(v: &'a str) -> Value<'a> {
        Value::Str(CowStr::Borrowed(v))
    }
}

impl<'a> From<&'a [String]> for Value<'a> {
    fn from(value: &'a [String]) -> (r: Value<'a>) {
        Value::VecStr(CowStrSlice::Borrowed(value))
    }
}

impl<'a> vstd::std_specs::convert::FromSpecImpl<&'a [String]> for Value<'a> {
    open spec fn obeys_from_spec() -> bool {
        true
    }

    open spec fn from_spec(v: &'a [String]) -> Value<'a> {
        Value::VecStr(CowStrSlice::Borrowed(v))
    }
}

impl<'a> From<&'a [i64]> for Value<'a> {
    fn from(value: &'a [i64]) -> (r: Value<'a>) {
        Value::VecI64(CowSlice::Borrowed(value))
    }
}

impl<'a> vstd::std_specs::convert::FromSpecImpl<&'a [i64]> for Value<'a> {
    open spec fn obeys_from_spec() -> bool {
        true
    }

    open spec fn from_spec(v: &'a [i64]) -> Value<'a> {
        Value::VecI64(CowSlice::Borrowed(v))
    }
}

impl<'a> From<&'a [i128]> for Value<'a> {
    fn from(value: &'a [i128]) -> (r: Value<'a>) {
        Value::VecTimestamp(CowSlice::Borrowed(value))
    }
}

impl<'a> vstd::std_specs::convert::FromSpecImpl<&'a [i128]> for Value<'a> {
    open spec fn obeys_from_spec() -> bool {
        true
    }

    open spec fn from_spec(v: &'a [i128]) -> Value<'a> {
        Value::VecTimestamp(CowSlice::Borrowed(v))
    }
}

impl<'a> From<&'a [IpAddress]> for Value<'a> {
    fn from(value: &'a [IpAddress]) -> (r: Value<'a>) {
        Value::VecIp(CowSlice::Borrowed(value))
    }
}

impl<'a> vstd::std_specs::convert::FromSpecImpl<&'a [IpAddress]> for Value<'a> {
    open spec fn obeys_from_spec() -> bool {
        true
    }

    open spec fn from_spec(v: &'a [IpAddress]) -> Value<'a> {
        Value::VecIp(CowSlice::Borrowed(v))
    }
}

impl<'a> From<&'a [IpNetwork]> for Value<'a> {
    fn from(value: &'a [IpNetwork]) -> (r: Value<'a>) {
        Value::VecIpNet(CowSlice::Borrowed(value))
    }
}

impl<'a> vstd::std_specs::convert::FromSpecImpl<&'a [IpNetwork]> for Value<'a> {
    open spec fn obeys_from_spec() -> bool {
        true
    }

    open spec fn from_spec(v: &'a [IpNetwork]) -> Value<'a> {
        Value::VecIpNet(CowSlice::Borrowed(v))
    }
}

impl<'a> From<&'a [u128]> for Value<'a> {
    fn from(value: &'a [u128]) -> (r: Value<'a>) {
        Value::VecUuid(CowSlice::Borrowed(value))
    }
}

impl<'a> vstd::std_specs::convert::FromSpecImpl<&'a [u128]> for Value<'a> {
    open spec fn obeys_from_spec() -> bool {
        true
    }

    open spec fn from_spec(v: &'a [u128]) -> Value<'a> {
        Value::VecUuid(CowSlice::Borrowed(v))
    }
}

impl<'a> From<&'a [bool]> for Value<'a> {
    fn from(value: &'a [bool]) -> (r: Value<'a>) {
        Value::VecBool(CowSlice::Borrowed(value))
    }
}

impl<'a> vstd::std_specs::convert::FromSpecImpl<&'a [bool]> for Value<'a> {
    open spec fn obeys_from_spec() -> bool {
        true
    }

    open spec fn from_spec(v: &'a [bool]) -> Value<'a> {
        Value::VecBool(CowSlice::Borrowed(v))
    }
}

} // verus!
