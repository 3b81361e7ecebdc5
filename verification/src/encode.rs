use vstd::prelude::*;
use vstd::string::StringExecFns;

verus! {

/// The lower-case hexadecimal digit for a value below 16.
pub open spec fn hex_digit(n: nat) -> char {
    if n == 0 {
        '0'
    } else if n == 1 {
        '1'
    } else if n == 2 {
        '2'
    } else if n == 3 {
        '3'
    } else if n == 4 {
        '4'
    } else if n == 5 {
        '5'
    } else if n == 6 {
        '6'
    } else if n == 7 {
        '7'
    } else if n == 8 {
        '8'
    } else if n == 9 {
        '9'
    } else if n == 10 {
        'a'
    } else if n == 11 {
        'b'
    } else if n == 12 {
        'c'
    } else if n == 13 {
        'd'
    } else if n == 14 {
        'e'
    } else {
        'f'
    }
}

/// Two lower-case hexadecimal digits for one byte.
pub open spec fn hex_byte(b: u8) -> Seq<char> {
    seq![hex_digit(b as nat / 16), hex_digit(b as nat % 16)]
}

/// Bytes rendered as two-digit hexadecimal pairs separated by single
/// spaces.
pub open spec fn hex_str(bytes: Seq<u8>) -> Seq<char>
    decreases bytes.len(),
{
    if bytes.len() == 0 {
        Seq::empty()
    } else if bytes.len() == 1 {
        hex_byte(bytes[0])
    } else {
        hex_str(bytes.drop_last()) + seq![' '] + hex_byte(bytes.last())
    }
}

/// The decimal digit for a value below 10.
pub open spec fn dec_digit(n: nat) -> char {
    hex_digit(if n < 10 {
        n
    } else {
        0
    })
}

/// The decimal rendering of an unsigned value, most significant digit
/// first; zero renders as a single digit.
pub open spec fn dec_str(n: nat) -> Seq<char>
    decreases n,
{
    if n < 10 {
        seq![dec_digit(n)]
    } else {
        dec_str(n / 10) + seq![dec_digit(n % 10)]
    }
}

/// The decimal rendering of a signed value: a minus sign before the
/// magnitude for negatives.
pub open spec fn dec_str_signed(v: int) -> Seq<char> {
    if v >= 0 {
        dec_str(v as nat)
    } else {
        seq!['-'] + dec_str((-v) as nat)
    }
}

/// The little-endian bytes of a value in `n` bytes: lowest byte first.
pub open spec fn le_bytes(x: nat, n: nat) -> Seq<u8>
    decreases n,
{
    if n == 0 {
        Seq::empty()
    } else {
        seq![(x % 256) as u8] + le_bytes(x / 256, (n - 1) as nat)
    }
}

/// The single-character string for a hexadecimal digit value.
fn hex_char_str(n: u8) -> (r: &'static str)
    requires
        n < 16,
    ensures
        r@ == seq![hex_digit(n as nat)],
{
    proof {
        reveal_strlit("0");
        reveal_strlit("1");
        reveal_strlit("2");
        reveal_strlit("3");
        reveal_strlit("4");
        reveal_strlit("5");
        reveal_strlit("6");
        reveal_strlit("7");
        reveal_strlit("8");
        reveal_strlit("9");
        reveal_strlit("a");
        reveal_strlit("b");
        reveal_strlit("c");
        reveal_strlit("d");
        reveal_strlit("e");
        reveal_strlit("f");
    }
    let r = if n == 0 {
        "0"
    } else if n == 1 {
        "1"
    } else if n == 2 {
        "2"
    } else if n == 3 {
        "3"
    } else if n == 4 {
        "4"
    } else if n == 5 {
        "5"
    } else if n == 6 {
        "6"
    } else if n == 7 {
        "7"
    } else if n == 8 {
        "8"
    } else if n == 9 {
        "9"
    } else if n == 10 {
        "a"
    } else if n == 11 {
        "b"
    } else if n == 12 {
        "c"
    } else if n == 13 {
        "d"
    } else if n == 14 {
        "e"
    } else {
        "f"
    };
    proof {
        assert(r@ =~= seq![hex_digit(n as nat)]);
    }
    r
}

/// Render bytes as space-separated two-digit lower-case hexadecimal
/// pairs.
pub fn to_hex(val: &Vec<u8>) -> (r: String)
    ensures
        r@ == hex_str(val@),
{
    let mut out = String::new();
    let mut i: usize = 0;
    while i < val.len()
        invariant
            i <= val@.len(),
            out@ == hex_str(val@.take(i as int)),
        decreases val@.len() - i,
    {
        if i > 0 {
            proof {
                reveal_strlit(" ");
            }
            out.append(" ");
        }
        let b = val[i];
        out.append(hex_char_str(b / 16));
        out.append(hex_char_str(b % 16));
        proof {
            assert(val@.take(i + 1).drop_last() =~= val@.take(i as int));
            assert(val@.take(i + 1).last() == val@[i as int]);
            assert(out@ =~= hex_str(val@.take(i + 1)));
        }
        i = i + 1;
    }
    proof {
        assert(val@.take(val@.len() as int) =~= val@);
    }
    out
}

/// The single-character string for a decimal digit value.
fn dec_char_str(n: u8) -> (r: &'static str)
    requires
        n < 10,
    ensures
        r@ == seq![dec_digit(n as nat)],
{
    hex_char_str(n)
}

/// Render an unsigned value in decimal.
pub fn u128_to_dec(x: u128) -> (r: String)
    ensures
        r@ == dec_str(x as nat),
    decreases x,
{
    if x < 10 {
        let mut out = String::new();
        out.append(dec_char_str(x as u8));
        proof {
            assert(out@ =~= dec_str(x as nat));
        }
        out
    } else {
        let mut out = u128_to_dec(x / 10);
        out.append(dec_char_str((x % 10) as u8));
        out
    }
}

/// Render a signed value in decimal, with a minus sign for negatives.
pub fn i128_to_dec(x: i128) -> (r: String)
    ensures
        r@ == dec_str_signed(x as int),
{
    if x >= 0 {
        u128_to_dec(x as u128)
    } else {
        let m: u128 = ((-(x + 1)) as u128) + 1;
        proof {
            assert(m as nat == (-(x as int)) as nat);
        }
        let mut out = String::new();
        proof {
            reveal_strlit("-");
        }
        out.append("-");
        let digits = u128_to_dec(m);
        out.append(digits.as_str());
        proof {
            assert(out@ =~= dec_str_signed(x as int));
        }
        out
    }
}

/// The `n` lowest bytes of a value, lowest first.
pub fn u128_le_bytes(x: u128, n: usize) -> (r: Vec<u8>)
    ensures
        r@ == le_bytes(x as nat, n as nat),
{
    let mut out: Vec<u8> = Vec::new();
    let mut v = x;
    let mut i: usize = 0;
    proof {
        assert(Seq::<u8>::empty() + le_bytes(x as nat, n as nat) =~= le_bytes(x as nat, n as nat));
    }
    while i < n
        invariant
            i <= n,
            out@.len() == i,
            out@ + le_bytes(v as nat, (n - i) as nat) == le_bytes(x as nat, n as nat),
        decreases n - i,
    {
        let ghost pre = out@;
        let ghost vpre = v as nat;
        out.push((v % 256) as u8);
        v = v / 256;
        proof {
            assert(le_bytes(vpre, (n - i) as nat) == seq![(vpre % 256) as u8] + le_bytes(
                vpre / 256,
                (n - i - 1) as nat,
            ));
            assert(out@ + le_bytes(v as nat, (n - i - 1) as nat) =~= pre + le_bytes(
                vpre,
                (n - i) as nat,
            ));
        }
        i = i + 1;
    }
    proof {
        assert(out@ + le_bytes(v as nat, 0) =~= out@);
    }
    out
}

/// The same bytes in the opposite order.
pub fn reverse_bytes(v: &Vec<u8>) -> (r: Vec<u8>)
    ensures
        r@ == v@.reverse(),
{
    let mut out: Vec<u8> = Vec::new();
    let len = v.len();
    let mut i: usize = 0;
    while i < len
        invariant
            len == v@.len(),
            i <= len,
            out@.len() == i,
            forall|j: int| 0 <= j < i ==> out@[j] == v@[len - 1 - j],
        decreases len - i,
    {
        out.push(v[len - 1 - i]);
        i = i + 1;
    }
    proof {
        assert(out@ =~= v@.reverse());
    }
    out
}

/// The width and signedness of an integer type.
pub struct IntMeta {
    pub bits: u32,
    pub signed: bool,
}

/// An integer that can describe itself: its width and signedness, its
/// big- and little-endian bytes, and its decimal rendering. The unsigned
/// reinterpretation (two's complement for negatives) determines both
/// byte orders exactly.
pub trait GenericInt {
    /// Width in bits.
    spec fn bits_spec(&self) -> u32;

    /// Whether the type is signed.
    spec fn signed_spec(&self) -> bool;

    /// The value reinterpreted as unsigned, two's complement for
    /// negatives.
    spec fn unsigned_val(&self) -> nat;

    /// The decimal rendering of the value.
    spec fn dec_spec(&self) -> Seq<char>;

    /// The value's bytes, lowest first.
    fn le(&self) -> (r: Vec<u8>)
        ensures
            r@ == le_bytes(self.unsigned_val(), (self.bits_spec() / 8) as nat),
    ;

    /// The value's bytes, highest first.
    fn be(&self) -> (r: Vec<u8>)
        ensures
            r@ == le_bytes(self.unsigned_val(), (self.bits_spec() / 8) as nat).reverse(),
    ;

    /// The width and signedness of the value's type.
    fn meta(&self) -> (r: IntMeta)
        ensures
            r.bits == self.bits_spec(),
            r.signed == self.signed_spec(),
    ;

    /// The value rendered in decimal.
    fn decimal(&self) -> (r: String)
        ensures
            r@ == self.dec_spec(),
    ;
}

impl GenericInt for u8 {
    open spec fn bits_spec(&self) -> u32 {
        8
    }

    open spec fn signed_spec(&self) -> bool {
        false
    }

    open spec fn unsigned_val(&self) -> nat {
        *self as nat
    }

    open spec fn dec_spec(&self) -> Seq<char> {
        dec_str(*self as nat)
    }

    fn le(&self) -> (r: Vec<u8>) {
        u128_le_bytes(*self as u128, 1)
    }

    fn be(&self) -> (r: Vec<u8>) {
        let le = GenericInt::le(self);
        reverse_bytes(&le)
    }

    fn meta(&self) -> (r: IntMeta) {
        IntMeta { bits: 8, signed: false }
    }

    fn decimal(&self) -> (r: String) {
        u128_to_dec(*self as u128)
    }
}

impl GenericInt for u16 {
    open spec fn bits_spec(&self) -> u32 {
        16
    }

    open spec fn signed_spec(&self) -> bool {
        false
    }

    open spec fn unsigned_val(&self) -> nat {
        *self as nat
    }

    open spec fn dec_spec(&self) -> Seq<char> {
        dec_str(*self as nat)
    }

    fn le(&self) -> (r: Vec<u8>) {
        u128_le_bytes(*self as u128, 2)
    }

    fn be(&self) -> (r: Vec<u8>) {
        let le = GenericInt::le(self);
        reverse_bytes(&le)
    }

    fn meta(&self) -> (r: IntMeta) {
        IntMeta { bits: 16, signed: false }
    }

    fn decimal(&self) -> (r: String) {
        u128_to_dec(*self as u128)
    }
}

impl GenericInt for u32 {
    open spec fn bits_spec(&self) -> u32 {
        32
    }

    open spec fn signed_spec(&self) -> bool {
        false
    }

    open spec fn unsigned_val(&self) -> nat {
        *self as nat
    }

    open spec fn dec_spec(&self) -> Seq<char> {
        dec_str(*self as nat)
    }

    fn le(&self) -> (r: Vec<u8>) {
        u128_le_bytes(*self as u128, 4)
    }

    fn be(&self) -> (r: Vec<u8>) {
        let le = GenericInt::le(self);
        reverse_bytes(&le)
    }

    fn meta(&self) -> (r: IntMeta) {
        IntMeta { bits: 32, signed: false }
    }

    fn decimal(&self) -> (r: String) {
        u128_to_dec(*self as u128)
    }
}

impl GenericInt for u64 {
    open spec fn bits_spec(&self) -> u32 {
        64
    }

    open spec fn signed_spec(&self) -> bool {
        false
    }

    open spec fn unsigned_val(&self) -> nat {
        *self as nat
    }

    open spec fn dec_spec(&self) -> Seq<char> {
        dec_str(*self as nat)
    }

    fn le(&self) -> (r: Vec<u8>) {
        u128_le_bytes(*self as u128, 8)
    }

    fn be(&self) -> (r: Vec<u8>) {
        let le = GenericInt::le(self);
        reverse_bytes(&le)
    }

    fn meta(&self) -> (r: IntMeta) {
        IntMeta { bits: 64, signed: false }
    }

    fn decimal(&self) -> (r: String) {
        u128_to_dec(*self as u128)
    }
}

impl GenericInt for u128 {
    open spec fn bits_spec(&self) -> u32 {
        128
    }

    open spec fn signed_spec(&self) -> bool {
        false
    }

    open spec fn unsigned_val(&self) -> nat {
        *self as nat
    }

    open spec fn dec_spec(&self) -> Seq<char> {
        dec_str(*self as nat)
    }

    fn le(&self) -> (r: Vec<u8>) {
        u128_le_bytes(*self, 16)
    }

    fn be(&self) -> (r: Vec<u8>) {
        let le = GenericInt::le(self);
        reverse_bytes(&le)
    }

    fn meta(&self) -> (r: IntMeta) {
        IntMeta { bits: 128, signed: false }
    }

    fn decimal(&self) -> (r: String) {
        u128_to_dec(*self)
    }
}

impl GenericInt for i8 {
    open spec fn bits_spec(&self) -> u32 {
        8
    }

    open spec fn signed_spec(&self) -> bool {
        true
    }

    open spec fn unsigned_val(&self) -> nat {
        (*self as u8) as nat
    }

    open spec fn dec_spec(&self) -> Seq<char> {
        dec_str_signed(*self as int)
    }

    fn le(&self) -> (r: Vec<u8>) {
        let u = #[verifier::truncate] (*self as u8);
        u128_le_bytes(u as u128, 1)
    }

    fn be(&self) -> (r: Vec<u8>) {
        let le = GenericInt::le(self);
        reverse_bytes(&le)
    }

    fn meta(&self) -> (r: IntMeta) {
        IntMeta { bits: 8, signed: true }
    }

    fn decimal(&self) -> (r: String) {
        i128_to_dec(*self as i128)
    }
}

impl GenericInt for i16 {
    open spec fn bits_spec(&self) -> u32 {
        16
    }

    open spec fn signed_spec(&self) -> bool {
        true
    }

    open spec fn unsigned_val(&self) -> nat {
        (*self as u16) as nat
    }

    open spec fn dec_spec(&self) -> Seq<char> {
        dec_str_signed(*self as int)
    }

    fn le(&self) -> (r: Vec<u8>) {
        let u = #[verifier::truncate] (*self as u16);
        u128_le_bytes(u as u128, 2)
    }

    fn be(&self) -> (r: Vec<u8>) {
        let le = GenericInt::le(self);
        reverse_bytes(&le)
    }

    fn meta(&self) -> (r: IntMeta) {
        IntMeta { bits: 16, signed: true }
    }

    fn decimal(&self) -> (r: String) {
        i128_to_dec(*self as i128)
    }
}

impl GenericInt for i32 {
    open spec fn bits_spec(&self) -> u32 {
        32
    }

    open spec fn signed_spec(&self) -> bool {
        true
    }

    open spec fn unsigned_val(&self) -> nat {
        (*self as u32) as nat
    }

    open spec fn dec_spec(&self) -> Seq<char> {
        dec_str_signed(*self as int)
    }

    fn le(&self) -> (r: Vec<u8>) {
        let u = #[verifier::truncate] (*self as u32);
        u128_le_bytes(u as u128, 4)
    }

    fn be(&self) -> (r: Vec<u8>) {
        let le = GenericInt::le(self);
        reverse_bytes(&le)
    }

    fn meta(&self) -> (r: IntMeta) {
        IntMeta { bits: 32, signed: true }
    }

    fn decimal(&self) -> (r: String) {
        i128_to_dec(*self as i128)
    }
}

impl GenericInt for i64 {
    open spec fn bits_spec(&self) -> u32 {
        64
    }

    open spec fn signed_spec(&self) -> bool {
        true
    }

    open spec fn unsigned_val(&self) -> nat {
        (*self as u64) as nat
    }

    open spec fn dec_spec(&self) -> Seq<char> {
        dec_str_signed(*self as int)
    }

    fn le(&self) -> (r: Vec<u8>) {
        let u = #[verifier::truncate] (*self as u64);
        u128_le_bytes(u as u128, 8)
    }

    fn be(&self) -> (r: Vec<u8>) {
        let le = GenericInt::le(self);
        reverse_bytes(&le)
    }

    fn meta(&self) -> (r: IntMeta) {
        IntMeta { bits: 64, signed: true }
    }

    fn decimal(&self) -> (r: String) {
        i128_to_dec(*self as i128)
    }
}

impl GenericInt for i128 {
    open spec fn bits_spec(&self) -> u32 {
        128
    }

    open spec fn signed_spec(&self) -> bool {
        true
    }

    open spec fn unsigned_val(&self) -> nat {
        (*self as u128) as nat
    }

    open spec fn dec_spec(&self) -> Seq<char> {
        dec_str_signed(*self as int)
    }

    fn le(&self) -> (r: Vec<u8>) {
        let u = #[verifier::truncate] (*self as u128);
        u128_le_bytes(u, 16)
    }

    fn be(&self) -> (r: Vec<u8>) {
        let le = GenericInt::le(self);
        reverse_bytes(&le)
    }

    fn meta(&self) -> (r: IntMeta) {
        IntMeta { bits: 128, signed: true }
    }

    fn decimal(&self) -> (r: String) {
        i128_to_dec(*self)
    }
}

/// One row of the integer encoding table: the value in decimal, its
/// width and signedness, and its bytes in both orders as hexadecimal.
#[derive(Debug, PartialEq, Eq)]
pub struct IntEncodedInfo {
    pub decimal: String,
    pub bits: u32,
    pub signed: bool,
    pub le: String,
    pub be: String,
}

/// Describe one integer completely: decimal rendering, width,
/// signedness, and both byte orders in hexadecimal.
pub fn collect_int_encoded_info<T: GenericInt>(value: T) -> (r: IntEncodedInfo)
    ensures
        r.decimal@ == value.dec_spec(),
        r.bits == value.bits_spec(),
        r.signed == value.signed_spec(),
        r.le@ == hex_str(le_bytes(value.unsigned_val(), (value.bits_spec() / 8) as nat)),
        r.be@ == hex_str(le_bytes(value.unsigned_val(), (value.bits_spec() / 8) as nat).reverse()),
{
    let IntMeta { bits, signed } = value.meta();
    let le = to_hex(&value.le());
    let be = to_hex(&value.be());
    IntEncodedInfo { decimal: value.decimal(), bits, signed, le, be }
}

} // verus!
